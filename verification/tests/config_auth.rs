use barnaby::auth::{extract_bearer_token, is_admin, make_claims};
use barnaby::models::UserRole;
use barnaby::nlu::NluRequest;
use barnaby::settings::Settings;

#[test]
fn settings_defaults() {
    let s = Settings::new();
    assert_eq!(s.server.host, "0.0.0.0");
    assert_eq!(s.server.port, 3000);
    assert_eq!(s.database.url, "sqlite:barnaby.db");
    assert_eq!(s.auth.jwt_secret, "your-secret-key-change-in-production");
    assert_eq!(s.auth.jwt_expiration, 3600);
    assert_eq!(s.audio.sample_rate, 16000);
    assert_eq!(s.audio.chunk_size, 1024);
    assert_eq!(s.mqtt.broker, "localhost");
    assert_eq!(s.mqtt.port, 1883);
    assert!(s.mqtt.username.is_none());
    assert!(s.mqtt.password.is_none());
}

#[test]
fn claims_carry_issue_and_expiry() {
    let c = make_claims("u-1", "ada", "admin", 1_700_000_000, 3600);
    assert_eq!(c.sub, "u-1");
    assert_eq!(c.username, "ada");
    assert_eq!(c.role, "admin");
    assert_eq!(c.iat, 1_700_000_000);
    assert_eq!(c.exp, 1_700_003_600);
}

#[test]
fn bearer_token_extraction() {
    assert_eq!(extract_bearer_token("Bearer abc.def"), Some("abc.def".to_string()));
    assert_eq!(extract_bearer_token("Bearer "), Some("".to_string()));
    assert_eq!(extract_bearer_token("Basic abc"), None);
    assert_eq!(extract_bearer_token("bearer abc"), None);
    assert_eq!(extract_bearer_token(""), None);
}

#[test]
fn admin_check_goes_by_role() {
    let admin = make_claims("u-1", "ada", "admin", 0, 10);
    let user = make_claims("u-2", "bob", "user", 0, 10);
    assert!(is_admin(&admin));
    assert!(!is_admin(&user));
}

#[test]
fn role_parsing_ignores_case() {
    assert_eq!(UserRole::from_str("ADMIN"), Ok(UserRole::Admin));
    assert_eq!(UserRole::from_str("admin"), Ok(UserRole::Admin));
    assert_eq!(UserRole::from_str("User"), Ok(UserRole::User));
    assert_eq!(UserRole::from_str("root"), Err("Invalid role: root".to_string()));
}

#[test]
fn role_text_round_trip() {
    assert_eq!(UserRole::Admin.as_text(), "admin");
    assert_eq!(UserRole::User.as_text(), "user");
    assert_eq!(UserRole::from_str(&UserRole::Admin.as_text()), Ok(UserRole::Admin));
    assert_eq!(UserRole::from_str(&UserRole::User.as_text()), Ok(UserRole::User));
}

#[test]
fn nlu_request_holds_the_text() {
    let r = NluRequest::new("turn on the light".to_string());
    assert_eq!(r.text, "turn on the light");
}
