//! The pluggable reasoner backend: gated by an explicit availability
//! flag, and today a fixed keyword rule table with hand-assigned
//! confidences, standing in for a model-backed implementation.

use vstd::prelude::*;
use crate::text::{contains_sub, has_substring, lower_of, lowercase, regex_capture,
    regex_capture_of, trim, trim_of};

verus! {

/// An intent the reasoner produced, with its entities.
pub struct LlmIntent {
    pub intent: String,
    pub confidence: u32,
    pub entities: Vec<LlmEntity>,
}

/// A named value the reasoner extracted.
pub struct LlmEntity {
    pub name: String,
    pub value: String,
}

/// The mathematical value of an `LlmEntity`.
#[verifier::ext_equal]
pub struct LlmEntityV {
    pub name: Seq<char>,
    pub value: Seq<char>,
}

/// The mathematical value of an `LlmIntent`.
#[verifier::ext_equal]
pub struct LlmIntentV {
    pub intent: Seq<char>,
    pub confidence: int,
    pub entities: Seq<LlmEntityV>,
}

impl View for LlmEntity {
    type V = LlmEntityV;

    open spec fn view(&self) -> LlmEntityV {
        LlmEntityV { name: self.name@, value: self.value@ }
    }
}

impl DeepView for LlmEntity {
    type V = LlmEntityV;

    open spec fn deep_view(&self) -> LlmEntityV {
        self.view()
    }
}

impl View for LlmIntent {
    type V = LlmIntentV;

    open spec fn view(&self) -> LlmIntentV {
        LlmIntentV {
            intent: self.intent@,
            confidence: self.confidence as int,
            entities: self.entities.deep_view(),
        }
    }
}

/// Failure of a reasoner call.
#[derive(Clone, Copy, PartialEq, Eq, Structural, Debug)]
pub enum ReasoningError {
    /// `parse_intent` was called before `initialize` completed.
    NotInitialized,
}

/// The first location phrase one of the reasoner's prepositional
/// patterns captures in the lowered text, trimmed.
pub open spec fn spec_llm_location(lowered: Seq<char>) -> Option<Seq<char>> {
    match regex_capture_of(r"in ([a-zA-Z\s,]+?)(?:\?|$|\s+(?:today|tomorrow|now))"@, lowered) {
        Some(m) => Some(trim_of(m.2)),
        None => match regex_capture_of(
            r"for ([a-zA-Z\s,]+?)(?:\?|$|\s+(?:today|tomorrow|now))"@,
            lowered,
        ) {
            Some(m) => Some(trim_of(m.2)),
            None => match regex_capture_of(
                r"at ([a-zA-Z\s,]+?)(?:\?|$|\s+(?:today|tomorrow|now))"@,
                lowered,
            ) {
                Some(m) => Some(trim_of(m.2)),
                None => None,
            },
        },
    }
}

/// The first room of the fixed vocabulary that occurs in the lowered
/// text.
pub open spec fn spec_llm_room(lowered: Seq<char>) -> Option<Seq<char>> {
    if has_substring(lowered, "living room"@) {
        Some("living room"@)
    } else if has_substring(lowered, "bedroom"@) {
        Some("bedroom"@)
    } else if has_substring(lowered, "kitchen"@) {
        Some("kitchen"@)
    } else if has_substring(lowered, "bathroom"@) {
        Some("bathroom"@)
    } else if has_substring(lowered, "office"@) {
        Some("office"@)
    } else if has_substring(lowered, "dining room"@) {
        Some("dining room"@)
    } else {
        None
    }
}

/// Wrap an optional extracted value as an entity list.
pub open spec fn spec_entity_list(name: Seq<char>, value: Option<Seq<char>>) -> Seq<LlmEntityV> {
    match value {
        Some(v) => seq![LlmEntityV { name: name, value: v }],
        None => Seq::empty(),
    }
}

/// What the reasoner answers for an utterance once it is available: the
/// fixed keyword rules applied to the case-folded text.
pub open spec fn spec_llm_result(text: Seq<char>) -> LlmIntentV {
    let lowered = lower_of(text);
    if has_substring(lowered, "weather"@) {
        LlmIntentV {
            intent: "get_weather"@,
            confidence: 950_000,
            entities: spec_entity_list("location"@, spec_llm_location(lowered)),
        }
    } else if has_substring(lowered, "time"@) || has_substring(lowered, "clock"@) {
        LlmIntentV { intent: "get_time"@, confidence: 920_000, entities: Seq::empty() }
    } else if has_substring(lowered, "light"@) {
        LlmIntentV {
            intent: "control_lights"@,
            confidence: 900_000,
            entities: spec_entity_list("room"@, spec_llm_room(lowered)),
        }
    } else if has_substring(lowered, "hello"@) || has_substring(lowered, "hi"@)
        || has_substring(lowered, "hey"@) {
        LlmIntentV { intent: "greet"@, confidence: 880_000, entities: Seq::empty() }
    } else if has_substring(lowered, "bye"@) || has_substring(lowered, "goodbye"@) {
        LlmIntentV { intent: "goodbye"@, confidence: 850_000, entities: Seq::empty() }
    } else {
        LlmIntentV { intent: "unknown"@, confidence: 300_000, entities: Seq::empty() }
    }
}

/// The keyword fallback that maps a free-form reasoner response to an
/// intent label.
pub open spec fn spec_intent_fallback(response: Seq<char>) -> Seq<char> {
    let lowered = lower_of(response);
    if has_substring(lowered, "weather"@) {
        "get_weather"@
    } else if has_substring(lowered, "time"@) {
        "get_time"@
    } else if has_substring(lowered, "light"@) {
        "control_lights"@
    } else if has_substring(lowered, "hello"@) || has_substring(lowered, "greet"@) {
        "greet"@
    } else if has_substring(lowered, "goodbye"@) || has_substring(lowered, "bye"@) {
        "goodbye"@
    } else {
        "unknown"@
    }
}

/// The reasoner backend. It must be initialized once before parsing;
/// `parse_intent` while unavailable is an error, not a silent no-op.
pub struct LlmService {
    model_loaded: bool,
    model_path: String,
}

/// The mathematical value of an `LlmService`.
#[verifier::ext_equal]
pub struct LlmServiceV {
    pub loaded: bool,
    pub path: Seq<char>,
}

impl View for LlmService {
    type V = LlmServiceV;

    closed spec fn view(&self) -> LlmServiceV {
        LlmServiceV { loaded: self.model_loaded, path: self.model_path@ }
    }
}

impl LlmService {
    pub fn new(model_path: String) -> (r: LlmService)
        ensures
            r@ == (LlmServiceV { loaded: false, path: model_path@ }),
    {
        LlmService { model_loaded: false, model_path }
    }

    /// Complete the one-time initialization; only after this does
    /// `is_available` answer true.
    pub fn initialize(&mut self)
        ensures
            final(self)@ == (LlmServiceV { loaded: true, path: old(self)@.path }),
    {
        self.model_loaded = true;
    }

    pub fn is_available(&self) -> (r: bool)
        ensures
            r == self@.loaded,
    {
        self.model_loaded
    }

    /// Parse an utterance with the fixed keyword rules. An error exactly
    /// when the reasoner is not initialized.
    pub fn parse_intent(&self, text: &str) -> (r: Result<LlmIntent, ReasoningError>)
        ensures
            match r {
                Ok(v) => self@.loaded && v@ == spec_llm_result(text@),
                Err(e) => !self@.loaded && e == ReasoningError::NotInitialized,
            },
    {
        if !self.model_loaded {
            return Err(ReasoningError::NotInitialized);
        }
        let text_lower = lowercase(text);
        let lowered = text_lower.as_str();
        if contains_sub(lowered, "weather") {
            let mut entities: Vec<LlmEntity> = Vec::new();
            match self.extract_location(lowered) {
                Some(location) => {
                    entities.push(LlmEntity { name: "location".to_owned(), value: location });
                },
                None => {},
            }
            proof {
                assert(entities.deep_view() =~~= spec_entity_list(
                    "location"@,
                    spec_llm_location(lower_of(text@)),
                ));
            }
            Ok(LlmIntent { intent: "get_weather".to_owned(), confidence: 950_000, entities })
        } else if contains_sub(lowered, "time") || contains_sub(lowered, "clock") {
            Ok(
                LlmIntent {
                    intent: "get_time".to_owned(),
                    confidence: 920_000,
                    entities: Vec::new(),
                },
            )
        } else if contains_sub(lowered, "light") {
            let mut entities: Vec<LlmEntity> = Vec::new();
            match self.extract_room(lowered) {
                Some(room) => {
                    entities.push(LlmEntity { name: "room".to_owned(), value: room });
                },
                None => {},
            }
            proof {
                assert(entities.deep_view() =~~= spec_entity_list(
                    "room"@,
                    spec_llm_room(lower_of(text@)),
                ));
            }
            Ok(LlmIntent { intent: "control_lights".to_owned(), confidence: 900_000, entities })
        } else if contains_sub(lowered, "hello") || contains_sub(lowered, "hi") || contains_sub(
            lowered,
            "hey",
        ) {
            Ok(LlmIntent { intent: "greet".to_owned(), confidence: 880_000, entities: Vec::new() })
        } else if contains_sub(lowered, "bye") || contains_sub(lowered, "goodbye") {
            Ok(
                LlmIntent {
                    intent: "goodbye".to_owned(),
                    confidence: 850_000,
                    entities: Vec::new(),
                },
            )
        } else {
            Ok(
                LlmIntent {
                    intent: "unknown".to_owned(),
                    confidence: 300_000,
                    entities: Vec::new(),
                },
            )
        }
    }

    fn extract_location(&self, lowered: &str) -> (r: Option<String>)
        ensures
            match r {
                Some(v) => spec_llm_location(lowered@) == Some(v@),
                None => spec_llm_location(lowered@) is None,
            },
    {
        match regex_capture(r"in ([a-zA-Z\s,]+?)(?:\?|$|\s+(?:today|tomorrow|now))", lowered) {
            Some(m) => Some(trim(m.2.as_str()).to_owned()),
            None => match regex_capture(
                r"for ([a-zA-Z\s,]+?)(?:\?|$|\s+(?:today|tomorrow|now))",
                lowered,
            ) {
                Some(m) => Some(trim(m.2.as_str()).to_owned()),
                None => match regex_capture(
                    r"at ([a-zA-Z\s,]+?)(?:\?|$|\s+(?:today|tomorrow|now))",
                    lowered,
                ) {
                    Some(m) => Some(trim(m.2.as_str()).to_owned()),
                    None => None,
                },
            },
        }
    }

    fn extract_room(&self, lowered: &str) -> (r: Option<String>)
        ensures
            match r {
                Some(v) => spec_llm_room(lowered@) == Some(v@),
                None => spec_llm_room(lowered@) is None,
            },
    {
        if contains_sub(lowered, "living room") {
            Some("living room".to_owned())
        } else if contains_sub(lowered, "bedroom") {
            Some("bedroom".to_owned())
        } else if contains_sub(lowered, "kitchen") {
            Some("kitchen".to_owned())
        } else if contains_sub(lowered, "bathroom") {
            Some("bathroom".to_owned())
        } else if contains_sub(lowered, "office") {
            Some("office".to_owned())
        } else if contains_sub(lowered, "dining room") {
            Some("dining room".to_owned())
        } else {
            None
        }
    }

    /// Map a free-form reasoner response to an intent label by keyword.
    pub fn extract_intent_fallback(&self, response: &str) -> (r: String)
        ensures
            r@ == spec_intent_fallback(response@),
    {
        let response_lower = lowercase(response);
        let lowered = response_lower.as_str();
        if contains_sub(lowered, "weather") {
            "get_weather".to_owned()
        } else if contains_sub(lowered, "time") {
            "get_time".to_owned()
        } else if contains_sub(lowered, "light") {
            "control_lights".to_owned()
        } else if contains_sub(lowered, "hello") || contains_sub(lowered, "greet") {
            "greet".to_owned()
        } else if contains_sub(lowered, "goodbye") || contains_sub(lowered, "bye") {
            "goodbye".to_owned()
        } else {
            "unknown".to_owned()
        }
    }
}

} // verus!
