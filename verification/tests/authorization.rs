use flight_watch::AuthDecision;
use flight_watch::AuthProvider;
use flight_watch::AuthorizationError;
use flight_watch::BotType;
use flight_watch::CycleError;
use flight_watch::DataSourceError;
use flight_watch::PersistenceError;
use flight_watch::PublishError;
use flight_watch::Session;
use flight_watch::XApi;
use flight_watch::authorize_decision;
use flight_watch::parse_callback_request;
use flight_watch::percent_decode;
use flight_watch::session_row;

fn cached_session(token: &str) -> Session {
    Session {
        provider: AuthProvider::X,
        bot_type: BotType::ALTITUDE,
        access_token: token.to_string(),
    }
}

#[test]
fn an_existing_session_is_reused_without_interaction() {
    // Once a session row exists for the category, authorization yields the
    // cached token and never reaches for the callback listener.
    let sessions = vec![cached_session("SECRET-REDACTED")];
    match authorize_decision(&sessions) {
        AuthDecision::UseCached(token) => assert_eq!(token, "SECRET-REDACTED"),
        AuthDecision::StartInteractive => {
            panic!("a cached session must not start the interactive flow")
        }
    }
}

#[test]
fn only_an_empty_session_set_starts_the_interactive_flow() {
    assert!(matches!(authorize_decision(&Vec::new()), AuthDecision::StartInteractive));
}

#[test]
fn a_new_session_row_is_keyed_by_provider_and_category() {
    let row = session_row(BotType::GROUNDSPEED, "SECRET-REDACTED".to_string());
    assert_eq!(row.provider, AuthProvider::X);
    assert_eq!(row.bot_type, BotType::GROUNDSPEED);
    assert_eq!(row.access_token, "SECRET-REDACTED");
}

#[test]
fn callback_with_code_and_state_parses() {
    let line = "GET /callback?state=st4te&code=c0de HTTP/1.1";
    let (code, state) = parse_callback_request(line).unwrap();
    assert_eq!(code, "c0de");
    assert_eq!(state, "st4te");
}

#[test]
fn callback_without_trailing_version_still_parses() {
    let (code, state) = parse_callback_request("GET /callback?code=a&state=b").unwrap();
    assert_eq!(code, "a");
    assert_eq!(state, "b");
}

#[test]
fn callback_values_are_query_decoded() {
    let line = "GET /callback?code=a%2Bb+c&state=x%20y HTTP/1.1";
    let (code, state) = parse_callback_request(line).unwrap();
    assert_eq!(code, "a+b c");
    assert_eq!(state, "x y");
}

#[test]
fn callback_without_code_is_fatal() {
    let r = parse_callback_request("GET /callback?state=only HTTP/1.1");
    assert_eq!(r.unwrap_err(), AuthorizationError::MissingCode);
    let r = parse_callback_request("GET /callback HTTP/1.1");
    assert_eq!(r.unwrap_err(), AuthorizationError::MissingCode);
}

#[test]
fn callback_without_state_is_fatal() {
    let r = parse_callback_request("GET /callback?code=only HTTP/1.1");
    assert_eq!(r.unwrap_err(), AuthorizationError::MissingState);
}

#[test]
fn a_request_for_anything_else_is_rejected() {
    let r = parse_callback_request("GET /favicon.ico HTTP/1.1");
    assert_eq!(r.unwrap_err(), AuthorizationError::BadCallback);
    let r = parse_callback_request("POST /callback?code=a&state=b HTTP/1.1");
    assert_eq!(r.unwrap_err(), AuthorizationError::BadCallback);
}

#[test]
fn percent_decoding_handles_escapes_and_plus() {
    assert_eq!(percent_decode("plain"), "plain");
    assert_eq!(percent_decode("a+b"), "a b");
    assert_eq!(percent_decode("a%2Fb%3d"), "a/b=");
    // An incomplete or non-hexadecimal escape stays as it stands.
    assert_eq!(percent_decode("100%"), "100%");
    assert_eq!(percent_decode("%zz"), "%zz");
}

#[test]
fn the_posting_client_pins_its_endpoint() {
    let api = XApi::new("SECRET-REDACTED".to_string());
    assert_eq!(api.url, "https://api.twitter.com/2");
    assert_eq!(api.post_url(), "https://api.twitter.com/2/tweets");
    assert_eq!(api.access_token, "SECRET-REDACTED");
}

#[test]
fn every_cycle_error_has_a_log_line() {
    let errors = [
        CycleError::DataSource(DataSourceError::Transport),
        CycleError::DataSource(DataSourceError::Malformed),
        CycleError::Authorization(AuthorizationError::BadCallback),
        CycleError::Authorization(AuthorizationError::MissingCode),
        CycleError::Authorization(AuthorizationError::MissingState),
        CycleError::Authorization(AuthorizationError::ExchangeFailed),
        CycleError::Publish(PublishError::Transport),
        CycleError::Publish(PublishError::Rejected),
        CycleError::Persistence(PersistenceError::Read),
        CycleError::Persistence(PersistenceError::Write),
        CycleError::InsufficientData,
    ];
    let mut seen: Vec<String> = Vec::new();
    for e in errors {
        let line = e.describe();
        assert!(!line.is_empty());
        assert!(!seen.contains(&line), "log lines must tell errors apart");
        seen.push(line);
    }
    assert_eq!(
        CycleError::InsufficientData.describe(),
        "not enough results at any threshold"
    );
}
