//! Intent resolution for a small voice-assistant backend: a pattern-based
//! classifier, a supervised external NLU server, a pluggable reasoner, and
//! the dispatcher that turns a resolved intent into a response string.
//!
//! Confidence values and geographic coordinates are held in fixed-point
//! integers: a confidence is given in millionths (`0` to `1_000_000`), a
//! coordinate in microdegrees.

pub mod api;
pub mod auth;
pub mod commands;
pub mod llm;
pub mod models;
pub mod nlu;
pub mod nlu_service;
pub mod rasa_manager;
pub mod rust_nlu;
pub mod settings;
pub mod text;
pub mod weather;

use vstd::prelude::*;

verus! {

/// One millionth steps: a confidence of 1.0 is `CONFIDENCE_SCALE`.
pub const CONFIDENCE_SCALE: u32 = 1_000_000;

} // verus!
