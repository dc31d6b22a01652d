//! The command dispatcher: maps a resolved intent and its entities to a
//! human-readable response. Always answers with a non-empty string and
//! never leaks internal error detail; weather lookups are taken as an
//! argument so every outcome of them is covered.

use vstd::prelude::*;
use vstd::string::*;
use crate::nlu::{Entity, EntityV};
use crate::text::{contains_sub, has_substring, is_prefix, lower_of, lowercase, render_i64,
    render_two_digit, spec_int_string, spec_two_digit_string, str_eq_check, str_prefix_check};
use crate::weather::{WeatherInfo, WeatherInfoV};

verus! {

/// Body of a voice-command request: either base64 audio or literal text
/// marked with a `text:` prefix.
pub struct ProcessVoiceRequest {
    pub audio_data: String,
    pub satellite_id: Option<String>,
}

/// Answer to a voice-command request.
pub struct ProcessVoiceResponse {
    pub transcription: String,
    pub intent: String,
    pub response: String,
    pub audio_response: String,
}

/// The persistence record emitted for each processed utterance.
pub struct CommandRecord {
    pub id: String,
    pub satellite_id: Option<String>,
    pub command_text: String,
    pub intent: String,
    pub response: String,
    pub confidence: u32,
    pub processing_time_ms: u32,
}

/// The outcome of the weather lookup chain, as the dispatcher sees it.
pub enum WeatherFetch {
    /// A successful observation.
    Fetched(WeatherInfo),
    /// A supplied place name found no geocoding candidate.
    LocationNotFound,
    /// Any transport or decoding failure along the chain.
    ConnectionFailed,
}

/// The mathematical value of a `WeatherFetch`.
#[verifier::ext_equal]
pub enum WeatherFetchV {
    Fetched(WeatherInfoV),
    LocationNotFound,
    ConnectionFailed,
}

impl View for WeatherFetch {
    type V = WeatherFetchV;

    open spec fn view(&self) -> WeatherFetchV {
        match self {
            WeatherFetch::Fetched(w) => WeatherFetchV::Fetched(w@),
            WeatherFetch::LocationNotFound => WeatherFetchV::LocationNotFound,
            WeatherFetch::ConnectionFailed => WeatherFetchV::ConnectionFailed,
        }
    }
}

/// The value of the first `location` entity, if any.
pub open spec fn spec_first_location(es: Seq<EntityV>) -> Option<Seq<char>>
    decreases es.len(),
{
    if es.len() == 0 {
        None
    } else if es[0].name == "location"@ {
        Some(es[0].value)
    } else {
        spec_first_location(es.drop_first())
    }
}

/// The rendered time response.
pub open spec fn spec_time_message(hour: int, minute: int) -> Seq<char> {
    "The current time is "@.add(spec_two_digit_string(hour)).add(":"@).add(
        spec_two_digit_string(minute),
    )
}

/// The rendered timezone response.
pub open spec fn spec_timezone_message(tz: Seq<char>) -> Seq<char> {
    "You are in timezone: "@.add(tz)
}

/// The rendered weather response for a successful observation.
pub open spec fn spec_weather_message(loc: Option<Seq<char>>, w: WeatherInfoV) -> Seq<char> {
    "The current weather"@.add(
        match loc {
            Some(v) => " in "@.add(v),
            None => " for your location"@,
        },
    ).add(" is "@).add(spec_int_string(w.temperature)).add("°C with "@).add(w.description).add(
        ". Wind speed is "@,
    ).add(spec_int_string(w.wind_speed)).add(" km/h."@)
}

/// The dispatcher's full response table.
pub open spec fn spec_execute(
    intent: Seq<char>,
    entities: Seq<EntityV>,
    weather: WeatherFetchV,
    hour: int,
    minute: int,
    tz: Seq<char>,
) -> Seq<char> {
    if intent == "get_time"@ {
        spec_time_message(hour, minute)
    } else if intent == "get_timezone"@ {
        spec_timezone_message(tz)
    } else if intent == "get_weather"@ {
        match weather {
            WeatherFetchV::Fetched(w) => spec_weather_message(spec_first_location(entities), w),
            WeatherFetchV::LocationNotFound => "Sorry, I couldn't find that location. Please try a different city name."@,
            WeatherFetchV::ConnectionFailed => "Sorry, there's a connection issue and I cannot get that information right now."@,
        }
    } else if intent == "control_lights"@ {
        "Light control is not yet implemented."@
    } else if intent == "greet"@ {
        "Hello! How can I help you today?"@
    } else if intent == "goodbye"@ {
        "Goodbye! Have a great day!"@
    } else {
        "I didn't understand that command."@
    }
}

/// Relies on chrono::Utc::now with chrono::Timelike: whatever instant
/// the clock reports, the hour is below 24 and the minute below 60.
#[verifier::external_body]
fn utc_hour_minute() -> (r: (u32, u32))
    ensures
        r.0 < 24,
        r.1 < 60,
{
    let now = chrono::Utc::now();
    (chrono::Timelike::hour(&now), chrono::Timelike::minute(&now))
}

/// Relies on chrono::Local::now and its `%Z %z` formatting; nothing is
/// assumed of the zone name and offset the machine reports.
#[verifier::external_body]
fn local_timezone_text() -> String {
    chrono::Local::now().format("%Z %z").to_string()
}

fn find_location(entities: &Vec<Entity>) -> (r: Option<String>)
    ensures
        r.deep_view() == spec_first_location(entities.deep_view()),
{
    let ghost all = entities.deep_view();
    proof {
        assert(all.skip(0) =~= all);
    }
    let mut i: usize = 0;
    while i < entities.len()
        invariant
            i <= entities.len(),
            all == entities.deep_view(),
            all.len() == entities.len(),
            spec_first_location(all) == spec_first_location(all.skip(i as int)),
        decreases entities.len() - i,
    {
        let e = &entities[i];
        proof {
            assert(all.skip(i as int)[0] == all[i as int]);
            assert(all.skip(i as int).drop_first() =~= all.skip(i + 1 as int));
        }
        if str_eq_check(e.name.as_str(), "location") {
            return Some(e.value.clone());
        }
        i += 1;
    }
    proof {
        assert(all.skip(entities.len() as int).len() == 0);
    }
    None
}

/// What the dispatcher will need fetched for this intent: nothing unless
/// the intent asks for weather, else the optional location entity value
/// to geocode.
pub fn weather_query(intent: &str, entities: &Vec<Entity>) -> (r: Option<Option<String>>)
    ensures
        (r is Some) <==> intent@ == "get_weather"@,
        match r {
            Some(loc) => loc.deep_view() == spec_first_location(entities.deep_view()),
            None => true,
        },
{
    if str_eq_check(intent, "get_weather") {
        Some(find_location(entities))
    } else {
        None
    }
}

/// Execute a resolved intent. The time and timezone come from the
/// machine's clock; the weather outcome is the caller's, so the response
/// is pinned for every value of it. Always a non-empty canned or
/// rendered string, never an internal error.
pub fn execute_command(intent: &str, entities: &Vec<Entity>, weather: &WeatherFetch) -> (r:
    String)
    ensures
        exists|hour: int, minute: int, tz: Seq<char>|
            0 <= hour < 24 && 0 <= minute < 60 && r@ == #[trigger] spec_execute(
                intent@,
                entities.deep_view(),
                weather@,
                hour,
                minute,
                tz,
            ),
        intent@ != "get_time"@ && intent@ != "get_timezone"@ ==> r@ == spec_execute(
            intent@,
            entities.deep_view(),
            weather@,
            0,
            0,
            Seq::<char>::empty(),
        ),
{
    if str_eq_check(intent, "get_time") {
        let (hour, minute) = utc_hour_minute();
        let mut s = String::new();
        s.append("The current time is ");
        let hs = render_two_digit(hour as u64);
        s.append(hs.as_str());
        s.append(":");
        let ms = render_two_digit(minute as u64);
        s.append(ms.as_str());
        proof {
            assert(s@ =~= spec_time_message(hour as int, minute as int));
            assert(s@ == spec_execute(
                intent@,
                entities.deep_view(),
                weather@,
                hour as int,
                minute as int,
                Seq::<char>::empty(),
            ));
        }
        return s;
    }
    if str_eq_check(intent, "get_timezone") {
        let tz = local_timezone_text();
        let mut s = String::new();
        s.append("You are in timezone: ");
        s.append(tz.as_str());
        proof {
            assert(s@ =~= spec_timezone_message(tz@));
            assert(s@ == spec_execute(intent@, entities.deep_view(), weather@, 0, 0, tz@));
        }
        return s;
    }
    let r: String = if str_eq_check(intent, "get_weather") {
        match weather {
            WeatherFetch::Fetched(w) => {
                let loc = find_location(entities);
                let mut s = String::new();
                s.append("The current weather");
                match &loc {
                    Some(v) => {
                        s.append(" in ");
                        s.append(v.as_str());
                    },
                    None => {
                        s.append(" for your location");
                    },
                }
                s.append(" is ");
                let temp = render_i64(w.temperature as i64);
                s.append(temp.as_str());
                s.append("°C with ");
                s.append(w.description.as_str());
                s.append(". Wind speed is ");
                let wind = render_i64(w.wind_speed as i64);
                s.append(wind.as_str());
                s.append(" km/h.");
                proof {
                    assert(s@ =~= spec_weather_message(
                        spec_first_location(entities.deep_view()),
                        w@,
                    ));
                }
                s
            },
            WeatherFetch::LocationNotFound => {
                "Sorry, I couldn't find that location. Please try a different city name.".to_owned()
            },
            WeatherFetch::ConnectionFailed => {
                "Sorry, there's a connection issue and I cannot get that information right now.".to_owned()
            },
        }
    } else if str_eq_check(intent, "control_lights") {
        "Light control is not yet implemented.".to_owned()
    } else if str_eq_check(intent, "greet") {
        "Hello! How can I help you today?".to_owned()
    } else if str_eq_check(intent, "goodbye") {
        "Goodbye! Have a great day!".to_owned()
    } else {
        "I didn't understand that command.".to_owned()
    };
    proof {
        assert(r@ == spec_execute(
            intent@,
            entities.deep_view(),
            weather@,
            0,
            0,
            Seq::<char>::empty(),
        ));
    }
    r
}

/// The keyword fallback that maps an utterance straight to an intent
/// label: time, then weather, then light control, else unknown.
pub open spec fn spec_parse_intent_fallback(text: Seq<char>) -> Seq<char> {
    let lowered = lower_of(text);
    if has_substring(lowered, "time"@) {
        "get_time"@
    } else if has_substring(lowered, "weather"@) {
        "get_weather"@
    } else if has_substring(lowered, "light"@) {
        "control_lights"@
    } else {
        "unknown"@
    }
}

/// Simple keyword-based intent parsing over the case-folded text.
pub fn parse_intent_fallback(text: &str) -> (r: String)
    ensures
        r@ == spec_parse_intent_fallback(text@),
{
    let text_lower = lowercase(text);
    let lowered = text_lower.as_str();
    if contains_sub(lowered, "time") {
        "get_time".to_owned()
    } else if contains_sub(lowered, "weather") {
        "get_weather".to_owned()
    } else if contains_sub(lowered, "light") {
        "control_lights".to_owned()
    } else {
        "unknown".to_owned()
    }
}

/// What the transcription step yields: the literal text after a `text:`
/// prefix, else the fixed placeholder (audio decoding is not
/// implemented).
pub open spec fn spec_transcription(audio_data: Seq<char>) -> Seq<char> {
    if is_prefix("text:"@, audio_data) {
        audio_data.skip(5)
    } else {
        "Audio processing not yet implemented"@
    }
}

/// Extract the utterance text from a request body.
pub fn extract_transcription(audio_data: &str) -> (r: String)
    ensures
        r@ == spec_transcription(audio_data@),
{
    proof {
        reveal_strlit("text:");
    }
    if str_prefix_check(audio_data, "text:") {
        let n = audio_data.unicode_len();
        let rest = audio_data.substring_char(5, n);
        proof {
            assert(rest@ =~= audio_data@.skip(5));
        }
        rest.to_owned()
    } else {
        "Audio processing not yet implemented".to_owned()
    }
}

/// Assemble the persistence record for one processed utterance.
pub fn make_command_record(
    id: String,
    satellite_id: Option<String>,
    command_text: String,
    intent: String,
    response: String,
    confidence: u32,
    processing_time_ms: u32,
) -> (r: CommandRecord)
    ensures
        r.id@ == id@,
        r.satellite_id.deep_view() == satellite_id.deep_view(),
        r.command_text@ == command_text@,
        r.intent@ == intent@,
        r.response@ == response@,
        r.confidence == confidence,
        r.processing_time_ms == processing_time_ms,
{
    CommandRecord { id, satellite_id, command_text, intent, response, confidence, processing_time_ms }
}

} // verus!
