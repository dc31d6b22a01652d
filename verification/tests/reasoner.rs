use barnaby::llm::{LlmService, ReasoningError};

#[test]
fn parse_before_initialize_is_an_error() {
    let llm = LlmService::new("model.bin".to_string());
    assert!(!llm.is_available());
    let r = llm.parse_intent("what is the weather");
    assert!(matches!(r, Err(ReasoningError::NotInitialized)));
}

#[test]
fn initialize_makes_the_reasoner_available() {
    let mut llm = LlmService::new("model.bin".to_string());
    llm.initialize();
    assert!(llm.is_available());
    assert!(llm.parse_intent("anything").is_ok());
}

#[test]
fn reasoner_weather_with_location() {
    let mut llm = LlmService::new("m".to_string());
    llm.initialize();
    let r = llm.parse_intent("WEATHER IN PARIS TODAY").unwrap();
    assert_eq!(r.intent, "get_weather");
    assert_eq!(r.confidence, 950000);
    assert_eq!(r.entities.len(), 1);
    assert_eq!(r.entities[0].name, "location");
    assert_eq!(r.entities[0].value, "paris");
}

#[test]
fn reasoner_weather_without_location() {
    let mut llm = LlmService::new("m".to_string());
    llm.initialize();
    let r = llm.parse_intent("weather").unwrap();
    assert_eq!(r.intent, "get_weather");
    assert!(r.entities.is_empty());
}

#[test]
fn reasoner_time_and_clock() {
    let mut llm = LlmService::new("m".to_string());
    llm.initialize();
    let r = llm.parse_intent("what TIME is it").unwrap();
    assert_eq!(r.intent, "get_time");
    assert_eq!(r.confidence, 920000);
    let r = llm.parse_intent("check the clock").unwrap();
    assert_eq!(r.intent, "get_time");
}

#[test]
fn reasoner_lights_with_room() {
    let mut llm = LlmService::new("m".to_string());
    llm.initialize();
    let r = llm.parse_intent("turn the Light on in the Dining Room").unwrap();
    assert_eq!(r.intent, "control_lights");
    assert_eq!(r.confidence, 900000);
    assert_eq!(r.entities.len(), 1);
    assert_eq!(r.entities[0].name, "room");
    assert_eq!(r.entities[0].value, "dining room");
}

#[test]
fn reasoner_greet_goodbye_unknown() {
    let mut llm = LlmService::new("m".to_string());
    llm.initialize();
    let r = llm.parse_intent("hello friend").unwrap();
    assert_eq!(r.intent, "greet");
    assert_eq!(r.confidence, 880000);
    let r = llm.parse_intent("bye now").unwrap();
    assert_eq!(r.intent, "goodbye");
    assert_eq!(r.confidence, 850000);
    let r = llm.parse_intent("zzz qqq").unwrap();
    assert_eq!(r.intent, "unknown");
    assert_eq!(r.confidence, 300000);
}

#[test]
fn intent_fallback_keywords() {
    let llm = LlmService::new("m".to_string());
    assert_eq!(llm.extract_intent_fallback("They asked about the WEATHER"), "get_weather");
    assert_eq!(llm.extract_intent_fallback("tell the time"), "get_time");
    assert_eq!(llm.extract_intent_fallback("dim the light"), "control_lights");
    assert_eq!(llm.extract_intent_fallback("greet the user"), "greet");
    assert_eq!(llm.extract_intent_fallback("say goodbye"), "goodbye");
    assert_eq!(llm.extract_intent_fallback("open sesame"), "unknown");
}
