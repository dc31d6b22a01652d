//! The resolution orchestrator: a fixed three-tier fallback chain over
//! the reasoner, the remote NLU server and the local pattern classifier.
//! The first tier to answer supplies the intent; the entities always
//! come from the local classifier, an explicit design choice — local
//! extraction is cheap and deterministic, so it is computed once and
//! reused whichever tier won.

use vstd::prelude::*;
use crate::llm::{spec_llm_result, LlmService, LlmServiceV};
use crate::nlu::{Entity, EntityV, Intent, IntentV};
use crate::rust_nlu::{spec_entities, spec_intent, IntentPatternV, RustNlu};

verus! {

/// Which tier supplied the intent of a resolution.
#[derive(Clone, Copy, PartialEq, Eq, Structural, Debug)]
pub enum SourceTier {
    Reasoner,
    Remote,
    Local,
}

/// The outcome of resolving one utterance.
pub struct ResolvedCommand {
    pub intent: Intent,
    pub entities: Vec<Entity>,
    pub source_tier: SourceTier,
}

/// The mathematical value of a `ResolvedCommand`.
#[verifier::ext_equal]
pub struct ResolvedCommandV {
    pub intent: IntentV,
    pub entities: Seq<EntityV>,
    pub source_tier: SourceTier,
}

impl View for ResolvedCommand {
    type V = ResolvedCommandV;

    open spec fn view(&self) -> ResolvedCommandV {
        ResolvedCommandV {
            intent: self.intent@,
            entities: self.entities.deep_view(),
            source_tier: self.source_tier,
        }
    }
}

/// The mathematical value of an `NluService`.
#[verifier::ext_equal]
pub struct NluServiceV {
    pub rasa_url: Seq<char>,
    pub llm: Option<LlmServiceV>,
}

/// The reasoner tier answers exactly when it is plugged in and its
/// one-time initialization completed.
pub open spec fn reasoner_answers(svc: NluServiceV) -> bool {
    svc.llm matches Some(l) && l.loaded
}

/// What `resolve` returns, given the remote tier's outcome: the first
/// tier that answers supplies the intent, the local classifier always
/// supplies the entities.
pub open spec fn spec_resolve(
    svc: NluServiceV,
    table: Seq<IntentPatternV>,
    text: Seq<char>,
    remote: Option<IntentV>,
) -> ResolvedCommandV {
    let local_intent = spec_intent(table, text);
    let local_entities = spec_entities(text, local_intent.name);
    if reasoner_answers(svc) {
        let r = spec_llm_result(text);
        ResolvedCommandV {
            intent: IntentV { name: r.intent, confidence: r.confidence },
            entities: local_entities,
            source_tier: SourceTier::Reasoner,
        }
    } else {
        match remote {
            Some(ri) => ResolvedCommandV {
                intent: ri,
                entities: local_entities,
                source_tier: SourceTier::Remote,
            },
            None => ResolvedCommandV {
                intent: local_intent,
                entities: local_entities,
                source_tier: SourceTier::Local,
            },
        }
    }
}

/// Law (fallback ordering): with a reasoner tier that answers for no
/// utterance — absent or never initialized — the resolution equals the
/// remote result whenever the remote tier succeeds, and equals the local
/// classifier's own intent and entities when both tiers fail.
pub proof fn lemma_fallback_ordering(
    svc: NluServiceV,
    table: Seq<IntentPatternV>,
    text: Seq<char>,
    ri: IntentV,
)
    requires
        !reasoner_answers(svc),
    ensures
        spec_resolve(svc, table, text, Some(ri)) == (ResolvedCommandV {
            intent: ri,
            entities: spec_entities(text, spec_intent(table, text).name),
            source_tier: SourceTier::Remote,
        }),
        spec_resolve(svc, table, text, None) == (ResolvedCommandV {
            intent: spec_intent(table, text),
            entities: spec_entities(text, spec_intent(table, text).name),
            source_tier: SourceTier::Local,
        }),
{
}

/// Law (entity sourcing): whichever tier supplied the intent, the
/// entities attached to the resolution are exactly what the local
/// classifier extracts for its winning intent on the same text.
pub proof fn lemma_entity_sourcing(
    svc: NluServiceV,
    table: Seq<IntentPatternV>,
    text: Seq<char>,
    remote: Option<IntentV>,
)
    ensures
        spec_resolve(svc, table, text, remote).entities == spec_entities(
            text,
            spec_intent(table, text).name,
        ),
{
}

/// Law: once the reasoner answers, the resolution does not depend on the
/// remote outcome, so a driver may skip the remote call entirely.
pub proof fn lemma_reasoner_ignores_remote(
    svc: NluServiceV,
    table: Seq<IntentPatternV>,
    text: Seq<char>,
    r1: Option<IntentV>,
    r2: Option<IntentV>,
)
    requires
        reasoner_answers(svc),
    ensures
        spec_resolve(svc, table, text, r1) == spec_resolve(svc, table, text, r2),
{
}

/// The orchestrator: holds the remote server's address and, optionally,
/// the reasoner backend.
pub struct NluService {
    rasa_url: String,
    llm_service: Option<LlmService>,
}

impl View for NluService {
    type V = NluServiceV;

    closed spec fn view(&self) -> NluServiceV {
        NluServiceV {
            rasa_url: self.rasa_url@,
            llm: match self.llm_service {
                Some(l) => Some(l@),
                None => None,
            },
        }
    }
}

impl NluService {
    pub fn new(rasa_url: String) -> (r: NluService)
        ensures
            r@ == (NluServiceV { rasa_url: rasa_url@, llm: None::<LlmServiceV> }),
    {
        NluService { rasa_url, llm_service: None }
    }

    /// Plug in the reasoner backend.
    pub fn with_llm(self, llm_service: LlmService) -> (r: NluService)
        ensures
            r@ == (NluServiceV { rasa_url: self@.rasa_url, llm: Some(llm_service@) }),
    {
        NluService { rasa_url: self.rasa_url, llm_service: Some(llm_service) }
    }

    /// The address of the supervised remote server.
    pub fn rasa_url(&self) -> (r: &String)
        ensures
            r@ == self@.rasa_url,
    {
        &self.rasa_url
    }

    /// Whether a driver must consult the remote tier: only when the
    /// reasoner will not answer.
    pub fn needs_remote(&self) -> (r: bool)
        ensures
            r == !reasoner_answers(self@),
    {
        match &self.llm_service {
            Some(llm) => !llm.is_available(),
            None => true,
        }
    }

    /// Resolve an utterance given the remote tier's outcome (`None` for
    /// transport failure, a non-success status, or a tier that was never
    /// consulted). Total: it bottoms out at the local classifier.
    pub fn resolve(&self, classifier: &RustNlu, text: &str, remote: Option<Intent>) -> (r:
        ResolvedCommand)
        ensures
            r@ == spec_resolve(self@, classifier@, text@, remote.deep_view()),
    {
        let (local_intent, local_entities) = classifier.parse(text);
        match &self.llm_service {
            Some(llm) => {
                if llm.is_available() {
                    match llm.parse_intent(text) {
                        Ok(v) => {
                            let r = ResolvedCommand {
                                intent: Intent { name: v.intent, confidence: v.confidence },
                                entities: local_entities,
                                source_tier: SourceTier::Reasoner,
                            };
                            proof {
                                assert(r@ =~~= spec_resolve(
                                    self@,
                                    classifier@,
                                    text@,
                                    remote.deep_view(),
                                ));
                            }
                            return r;
                        },
                        Err(_) => {
                            proof {
                                assert(false);
                            }
                        },
                    }
                }
            },
            None => {},
        }
        let r = match remote {
            Some(ri) => ResolvedCommand {
                intent: ri,
                entities: local_entities,
                source_tier: SourceTier::Remote,
            },
            None => ResolvedCommand {
                intent: local_intent,
                entities: local_entities,
                source_tier: SourceTier::Local,
            },
        };
        proof {
            assert(r@ =~~= spec_resolve(self@, classifier@, text@, remote.deep_view()));
        }
        r
    }
}

} // verus!
