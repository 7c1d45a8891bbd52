use flight_watch::AeroApi;
use flight_watch::BotType;
use flight_watch::DataSourceError;
use flight_watch::flights_from_document;
use flight_watch::flights_from_response;

fn no_exclusions() -> Vec<String> {
    Vec::new()
}

fn hbal_excluded() -> Vec<String> {
    vec!["HBAL".to_string()]
}

#[test]
fn a_full_record_decodes_every_field() {
    let body = r#"{"flights": [{
        "ident": "UAL123",
        "last_position": {"altitude": 370, "groundspeed": 500},
        "origin": {"name": "Kennedy Intl", "city": "New York", "code_icao": "KJFK"},
        "destination": {"name": "Heathrow", "city": "London", "code_icao": "EGLL"}
    }]}"#;
    let flights = flights_from_response(body, BotType::ALTITUDE, &no_exclusions()).unwrap();
    assert_eq!(flights.len(), 1);
    let f = &flights[0];
    assert_eq!(f.ident, "UAL123");
    assert_eq!(f.ranking, BotType::ALTITUDE);
    assert_eq!(f.altitude, Some(370));
    assert_eq!(f.groundspeed, Some(500));
    assert_eq!(f.origin.as_deref(), Some("Kennedy Intl, New York [KJFK]"));
    assert_eq!(f.destination.as_deref(), Some("Heathrow, London [EGLL]"));
}

#[test]
fn missing_fields_yield_none_but_keep_the_entity() {
    // Identifier present, everything else absent: the entity stays in the
    // result set with unknown attributes.
    let body = r#"{"flights": [{"ident": "ABC123", "last_position": {"groundspeed": 500}}]}"#;
    let flights = flights_from_response(body, BotType::ALTITUDE, &no_exclusions()).unwrap();
    assert_eq!(flights.len(), 1);
    let f = &flights[0];
    assert_eq!(f.ident, "ABC123");
    assert_eq!(f.altitude, None);
    assert_eq!(f.groundspeed, Some(500));
    assert_eq!(f.origin, None);
    assert_eq!(f.destination, None);
}

#[test]
fn wrongly_shaped_fields_yield_none_but_keep_the_entity() {
    let body = r#"{"flights": [{
        "ident": "ABC123",
        "last_position": {"altitude": "high", "groundspeed": 3.5},
        "origin": {"name": "Kennedy Intl", "city": "New York"}
    }]}"#;
    let flights = flights_from_response(body, BotType::ALTITUDE, &no_exclusions()).unwrap();
    assert_eq!(flights.len(), 1);
    let f = &flights[0];
    assert_eq!(f.altitude, None);
    assert_eq!(f.groundspeed, None);
    assert_eq!(f.origin, None);
}

#[test]
fn an_entity_without_identifier_is_dropped_silently() {
    let body = r#"{"flights": [
        {"last_position": {"altitude": 450}},
        {"ident": "KEPT1", "last_position": {"altitude": 420}},
        {"ident": 7},
        "not even an object"
    ]}"#;
    let flights = flights_from_response(body, BotType::ALTITUDE, &no_exclusions()).unwrap();
    assert_eq!(flights.len(), 1);
    assert_eq!(flights[0].ident, "KEPT1");
}

#[test]
fn excluded_prefixes_filter_by_prefix_not_exact_match() {
    let body = r#"{"flights": [
        {"ident": "HBAL123"},
        {"ident": "HBAL"},
        {"ident": "UAL1"},
        {"ident": "XHBAL"}
    ]}"#;
    let flights = flights_from_response(body, BotType::ALTITUDE, &hbal_excluded()).unwrap();
    let idents: Vec<&str> = flights.iter().map(|f| f.ident.as_str()).collect();
    assert_eq!(idents, vec!["UAL1", "XHBAL"]);
}

#[test]
fn an_absent_collection_means_no_matches() {
    let flights =
        flights_from_response(r#"{"num_pages": 1}"#, BotType::ALTITUDE, &no_exclusions()).unwrap();
    assert!(flights.is_empty());
    let flights = flights_from_response("null", BotType::ALTITUDE, &no_exclusions()).unwrap();
    assert!(flights.is_empty());
}

#[test]
fn a_present_but_wrong_collection_is_malformed() {
    let r = flights_from_response(r#"{"flights": 42}"#, BotType::ALTITUDE, &no_exclusions());
    assert_eq!(r.unwrap_err(), DataSourceError::Malformed);
}

#[test]
fn a_body_that_is_no_json_is_malformed() {
    let r = flights_from_response("not json at all", BotType::ALTITUDE, &no_exclusions());
    assert_eq!(r.unwrap_err(), DataSourceError::Malformed);
}

#[test]
fn a_metric_beyond_i32_counts_as_unknown() {
    let body = r#"{"flights": [{"ident": "BIG1", "last_position": {"altitude": 5000000000}}]}"#;
    let flights = flights_from_response(body, BotType::ALTITUDE, &no_exclusions()).unwrap();
    assert_eq!(flights[0].altitude, None);
}

#[test]
fn decoding_works_on_an_already_parsed_document() {
    let doc: serde_json::Value =
        serde_json::from_str(r#"{"flights": [{"ident": "DOC1"}]}"#).unwrap();
    let flights = flights_from_document(&doc, BotType::GROUNDSPEED, &no_exclusions()).unwrap();
    assert_eq!(flights.len(), 1);
    assert_eq!(flights[0].ident, "DOC1");
    assert_eq!(flights[0].ranking, BotType::GROUNDSPEED);
}

#[test]
fn search_urls_carry_base_query_and_threshold() {
    let api = AeroApi::new("SECRET-REDACTED".to_string());
    assert_eq!(
        api.search_url_above_fl(450),
        "https://aeroapi.flightaware.com/aeroapi//flights/search?query=-aboveAltitude 450"
    );
    assert_eq!(
        api.search_url_above_gspd(650),
        "https://aeroapi.flightaware.com/aeroapi//flights/search?query=-aboveGroundspeed 650"
    );
    assert_eq!(api.api_key, "SECRET-REDACTED");
}
