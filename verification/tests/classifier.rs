use barnaby::rust_nlu::RustNlu;
use barnaby::nlu::{MAX_MATCH_CONFIDENCE, UNKNOWN_CONFIDENCE};

#[test]
fn greeting_matches_with_positive_confidence() {
    let nlu = RustNlu::new();
    let (intent, entities) = nlu.parse("hello there");
    assert_eq!(intent.name, "greet");
    // "hello " covers 6 of 11 bytes: 700000 * 6 / 11.
    assert_eq!(intent.confidence, 381818);
    assert!(intent.confidence > 0);
    assert!(entities.is_empty());
}

#[test]
fn unmatched_input_gets_unknown_floor() {
    let nlu = RustNlu::new();
    let (intent, entities) = nlu.parse("xyz123");
    assert_eq!(intent.name, "unknown");
    assert_eq!(intent.confidence, UNKNOWN_CONFIDENCE);
    assert!(entities.is_empty());
}

#[test]
fn exact_match_is_clamped_at_cap() {
    let nlu = RustNlu::new();
    let (intent, _) = nlu.parse("clock");
    assert_eq!(intent.name, "get_time");
    // Full coverage plus the exactness bonus exceeds the cap.
    assert_eq!(intent.confidence, MAX_MATCH_CONFIDENCE);
}

#[test]
fn exactness_bonus_applies_after_trimming() {
    let nlu = RustNlu::new();
    let (intent, _) = nlu.parse(" clock ");
    assert_eq!(intent.name, "get_time");
    // 700000 * 5 / 7 + 300000: the trimmed whole input equals the match.
    assert_eq!(intent.confidence, 800000);
}

#[test]
fn confidence_stays_within_unit_interval() {
    let nlu = RustNlu::new();
    for text in [
        "hello",
        "what time is it",
        "weather",
        "turn on the light",
        "goodbye",
        "xyz123",
        "",
        "time",
    ] {
        let (intent, _) = nlu.parse(text);
        assert!(intent.confidence > 0);
        assert!(intent.confidence <= MAX_MATCH_CONFIDENCE);
    }
}

#[test]
fn weather_location_entity_is_extracted_and_trimmed() {
    let nlu = RustNlu::new();
    let (intent, entities) = nlu.parse("how is the weather in Paris ?");
    assert_eq!(intent.name, "get_weather");
    assert_eq!(entities.len(), 1);
    assert_eq!(entities[0].name, "location");
    assert_eq!(entities[0].value, "Paris");
}

#[test]
fn location_phrase_starts_at_the_leftmost_preposition() {
    let nlu = RustNlu::new();
    // The "at" inside "what" is followed by a space, so the phrase
    // starts right after it.
    let (_, entities) = nlu.parse("what is the weather in Paris");
    assert_eq!(entities.len(), 1);
    assert_eq!(entities[0].value, "is the weather in Paris");
}

#[test]
fn weather_location_entity_spans_lie_in_text() {
    let nlu = RustNlu::new();
    let text = "weather in Berlin";
    let (_, entities) = nlu.parse(text);
    assert_eq!(entities.len(), 1);
    assert_eq!(entities[0].value, "Berlin");
    assert!(entities[0].start <= entities[0].end);
    assert!(entities[0].end <= text.len());
    assert_eq!(&text[entities[0].start..entities[0].end], "Berlin");
}

#[test]
fn room_entity_is_lowercased() {
    let nlu = RustNlu::new();
    let (intent, entities) = nlu.parse("turn on the light in the Living Room");
    assert_eq!(intent.name, "control_lights");
    assert_eq!(entities.len(), 1);
    assert_eq!(entities[0].name, "room");
    assert_eq!(entities[0].value, "living room");
}

#[test]
fn no_entities_for_unrelated_intents() {
    let nlu = RustNlu::new();
    let (_, entities) = nlu.parse("good morning");
    assert!(entities.is_empty());
}
