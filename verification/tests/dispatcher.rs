use barnaby::api::format_feedback_entry;
use barnaby::commands::{execute_command, extract_transcription, make_command_record,
    parse_intent_fallback, weather_query, WeatherFetch};
use barnaby::nlu::Entity;
use barnaby::weather::WeatherInfo;

fn location_entity(value: &str) -> Entity {
    Entity { name: "location".to_string(), value: value.to_string(), start: 0, end: 0 }
}

#[test]
fn weather_message_with_place() {
    let entities = vec![location_entity("Paris")];
    let weather = WeatherFetch::Fetched(WeatherInfo {
        temperature: 15,
        description: "Rain".to_string(),
        wind_speed: 10,
    });
    let out = execute_command("get_weather", &entities, &weather);
    assert_eq!(out, "The current weather in Paris is 15°C with Rain. Wind speed is 10 km/h.");
}

#[test]
fn weather_message_without_place() {
    let entities: Vec<Entity> = Vec::new();
    let weather = WeatherFetch::Fetched(WeatherInfo {
        temperature: -3,
        description: "Snow".to_string(),
        wind_speed: 24,
    });
    let out = execute_command("get_weather", &entities, &weather);
    assert_eq!(
        out,
        "The current weather for your location is -3°C with Snow. Wind speed is 24 km/h."
    );
}

#[test]
fn weather_location_not_found_message() {
    let entities = vec![location_entity("Atlantis")];
    let out = execute_command("get_weather", &entities, &WeatherFetch::LocationNotFound);
    assert_eq!(out, "Sorry, I couldn't find that location. Please try a different city name.");
}

#[test]
fn weather_connection_failed_message() {
    let entities: Vec<Entity> = Vec::new();
    let out = execute_command("get_weather", &entities, &WeatherFetch::ConnectionFailed);
    assert_eq!(
        out,
        "Sorry, there's a connection issue and I cannot get that information right now."
    );
}

#[test]
fn canned_responses() {
    let entities: Vec<Entity> = Vec::new();
    let w = WeatherFetch::ConnectionFailed;
    assert_eq!(execute_command("greet", &entities, &w), "Hello! How can I help you today?");
    assert_eq!(execute_command("goodbye", &entities, &w), "Goodbye! Have a great day!");
    assert_eq!(
        execute_command("control_lights", &entities, &w),
        "Light control is not yet implemented."
    );
    assert_eq!(execute_command("unknown", &entities, &w), "I didn't understand that command.");
    assert_eq!(execute_command("whatever", &entities, &w), "I didn't understand that command.");
}

#[test]
fn time_response_has_fixed_shape() {
    let entities: Vec<Entity> = Vec::new();
    let out = execute_command("get_time", &entities, &WeatherFetch::ConnectionFailed);
    assert!(out.starts_with("The current time is "));
    let rest = &out["The current time is ".len()..];
    assert_eq!(rest.len(), 5);
    let bytes = rest.as_bytes();
    assert!(bytes[0].is_ascii_digit());
    assert!(bytes[1].is_ascii_digit());
    assert_eq!(bytes[2], b':');
    assert!(bytes[3].is_ascii_digit());
    assert!(bytes[4].is_ascii_digit());
}

#[test]
fn timezone_response_has_fixed_prefix() {
    let entities: Vec<Entity> = Vec::new();
    let out = execute_command("get_timezone", &entities, &WeatherFetch::ConnectionFailed);
    assert!(out.starts_with("You are in timezone: "));
}

#[test]
fn weather_query_only_for_weather_intent() {
    let entities = vec![location_entity("Rome")];
    assert!(weather_query("get_time", &entities).is_none());
    assert!(weather_query("greet", &entities).is_none());
    let q = weather_query("get_weather", &entities);
    assert_eq!(q, Some(Some("Rome".to_string())));
    let empty: Vec<Entity> = Vec::new();
    assert_eq!(weather_query("get_weather", &empty), Some(None));
}

#[test]
fn first_location_entity_wins() {
    let entities = vec![
        Entity { name: "room".to_string(), value: "kitchen".to_string(), start: 0, end: 0 },
        location_entity("Oslo"),
        location_entity("Bergen"),
    ];
    assert_eq!(weather_query("get_weather", &entities), Some(Some("Oslo".to_string())));
}

#[test]
fn transcription_takes_text_after_prefix() {
    assert_eq!(extract_transcription("text:hello world"), "hello world");
    assert_eq!(extract_transcription("text:"), "");
    assert_eq!(extract_transcription("abc123"), "Audio processing not yet implemented");
}

#[test]
fn fallback_intent_keywords() {
    assert_eq!(parse_intent_fallback("What TIME is it"), "get_time");
    assert_eq!(parse_intent_fallback("weather please"), "get_weather");
    assert_eq!(parse_intent_fallback("the lights"), "control_lights");
    assert_eq!(parse_intent_fallback("open the door"), "unknown");
    // Order: "time" wins over "weather" when both occur.
    assert_eq!(parse_intent_fallback("time for weather"), "get_time");
}

#[test]
fn feedback_entry_layout() {
    let entry = format_feedback_entry("get_time", "what hour is it");
    assert_eq!(entry, "- intent: get_time\n  examples: |\n    - what hour is it\n");
}

#[test]
fn command_record_keeps_fields() {
    let r = make_command_record(
        "id-1".to_string(),
        Some("sat-7".to_string()),
        "hello".to_string(),
        "greet".to_string(),
        "Hello! How can I help you today?".to_string(),
        880000,
        150,
    );
    assert_eq!(r.id, "id-1");
    assert_eq!(r.satellite_id, Some("sat-7".to_string()));
    assert_eq!(r.command_text, "hello");
    assert_eq!(r.intent, "greet");
    assert_eq!(r.response, "Hello! How can I help you today?");
    assert_eq!(r.confidence, 880000);
    assert_eq!(r.processing_time_ms, 150);
}
