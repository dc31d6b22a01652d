//! Core data model of the intent pipeline: an intent label with its
//! confidence, an extracted entity with its span, and the request shape
//! sent to the external NLU server.

use vstd::prelude::*;

verus! {

/// Confidence an intent earns when no pattern matched at all.
pub const UNKNOWN_CONFIDENCE: u32 = 100_000;

/// Weight of match coverage in a pattern confidence, in millionths.
pub const COVERAGE_WEIGHT: u32 = 700_000;

/// Confidence bonus for a match that covers the whole trimmed input.
pub const EXACTNESS_BONUS: u32 = 300_000;

/// Largest confidence a pattern match can earn.
pub const MAX_MATCH_CONFIDENCE: u32 = 950_000;

/// A classified intent: a label and a confidence in millionths.
pub struct Intent {
    pub name: String,
    pub confidence: u32,
}

/// The mathematical value of an `Intent`.
#[verifier::ext_equal]
pub struct IntentV {
    pub name: Seq<char>,
    pub confidence: int,
}

impl View for Intent {
    type V = IntentV;

    open spec fn view(&self) -> IntentV {
        IntentV { name: self.name@, confidence: self.confidence as int }
    }
}

impl DeepView for Intent {
    type V = IntentV;

    open spec fn deep_view(&self) -> IntentV {
        self.view()
    }
}

impl Clone for Intent {
    fn clone(&self) -> (r: Self)
        ensures
            r@ == self@,
    {
        Intent { name: self.name.clone(), confidence: self.confidence }
    }
}

/// A named value extracted from an utterance, with the byte span it was
/// found at.
pub struct Entity {
    pub name: String,
    pub value: String,
    pub start: usize,
    pub end: usize,
}

/// The mathematical value of an `Entity`.
#[verifier::ext_equal]
pub struct EntityV {
    pub name: Seq<char>,
    pub value: Seq<char>,
    pub start: int,
    pub end: int,
}

impl View for Entity {
    type V = EntityV;

    open spec fn view(&self) -> EntityV {
        EntityV { name: self.name@, value: self.value@, start: self.start as int, end: self.end as int }
    }
}

impl DeepView for Entity {
    type V = EntityV;

    open spec fn deep_view(&self) -> EntityV {
        self.view()
    }
}

impl Clone for Entity {
    fn clone(&self) -> (r: Self)
        ensures
            r@ == self@,
    {
        Entity {
            name: self.name.clone(),
            value: self.value.clone(),
            start: self.start,
            end: self.end,
        }
    }
}

/// Body of a parse request to the external NLU server.
pub struct NluRequest {
    pub text: String,
}

impl NluRequest {
    pub fn new(text: String) -> (r: NluRequest)
        ensures
            r.text@ == text@,
    {
        NluRequest { text }
    }
}

} // verus!
