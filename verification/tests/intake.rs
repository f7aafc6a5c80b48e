use geocode_broker::broker::{Decision, Resolution};
use geocode_broker::config::{ApiConfig, ConfigError, ProviderKind};
use geocode_broker::intake::{
    parse_request, process_route, read_coordinates, serialization_fallback, AppState, Conclusion,
    ProviderCall, Reception, RequestError,
};
use geocode_broker::provider::{Coordinates, FetchOutcome, ProviderError};
use geocode_broker::record::ExampleResult;

const BODY: &str = r#"{"lat":21.0278,"lng":105.8342}"#;
const PAYLOAD: &str = r#"{"status":"OK","results":[{"formatted_address":"12A Pham Hung",
    "address_components":[{"long_name":"Pham Hung","types":["route"]},
                          {"long_name":"12A","types":["street_number"]}]}]}"#;

fn custom(confirm: bool) -> ApiConfig {
    ApiConfig {
        custom_url: "http://geo.local/?lat={lat}&lng={lng}".to_string(),
        confirm_results: confirm,
        ..ApiConfig::default()
    }
}

fn call(confirm: bool) -> ProviderCall {
    ProviderCall {
        provider: ProviderKind::Custom,
        confirm,
        url: "http://geo.local/?lat=21.0278&lng=105.8342".to_string(),
    }
}

fn ok(body: &str) -> FetchOutcome {
    FetchOutcome::Response { status: 200, body: body.to_string() }
}

fn resolved() -> ExampleResult {
    ExampleResult {
        house_num: Some("12A".to_string()),
        st_name: Some("Pham Hung".to_string()),
        ..ExampleResult::bare("ok", "12A Pham Hung")
    }
}

#[test]
fn only_post_process_is_served() {
    assert!(process_route("POST", "/process"));
    assert!(!process_route("GET", "/process"));
    assert!(!process_route("POST", "/process/"));
    assert!(!process_route("post", "/process"));
    assert!(!process_route("POST", "/"));
}

#[test]
fn any_other_route_is_answered_with_invalid_route() {
    let mut state = AppState::new(custom(false));
    for (method, url) in [("GET", "/process"), ("POST", "/other"), ("PUT", "/process")] {
        assert_eq!(
            state.receive(method, url, BODY, 0),
            Reception::Refuse { body: "Invalid route".to_string() }
        );
    }
    assert!(!state.get_processing_state());
}

#[test]
fn coordinates_are_read_as_decimal_texts() {
    assert_eq!(
        parse_request(BODY),
        Ok(Coordinates { lat: "21.0278".to_string(), lng: "105.8342".to_string() })
    );
    assert_eq!(
        parse_request(r#"{"lng":-7,"lat":21,"more":true}"#),
        Ok(Coordinates { lat: "21".to_string(), lng: "-7".to_string() })
    );
    let doc = serde_json::from_str(r#"{"lat":0.5,"lng":1e3}"#).unwrap();
    assert_eq!(
        read_coordinates(&doc),
        Ok(Coordinates { lat: "0.5".to_string(), lng: "1000".to_string() })
    );
}

#[test]
fn a_latitude_that_is_no_number_is_refused() {
    assert_eq!(parse_request(r#"{"lat": "x"}"#), Err(RequestError::LatitudeMissing));
    assert_eq!(parse_request(r#"{"lng": 1}"#), Err(RequestError::LatitudeMissing));
    assert_eq!(parse_request(r#"{"lat": 1}"#), Err(RequestError::LongitudeMissing));
    assert_eq!(parse_request(r#"{"lat": 1, "lng": null}"#), Err(RequestError::LongitudeMissing));
    assert_eq!(parse_request("[1, 2]"), Err(RequestError::LatitudeMissing));
}

#[test]
fn a_body_that_is_no_json_is_refused_with_the_parsers_words() {
    match parse_request("{\"lat\": ") {
        Err(RequestError::NotJson(why)) => assert!(!why.is_empty()),
        other => panic!("unexpected {:?}", other),
    }
    assert!(matches!(parse_request(""), Err(RequestError::NotJson(_))));
    assert!(matches!(parse_request("{} {}"), Err(RequestError::NotJson(_))));
}

#[test]
fn a_malformed_body_is_answered_in_plain_text() {
    let mut state = AppState::new(custom(true));
    let reception = state.receive("POST", "/process", r#"{"lat": "x"}"#, 0);
    assert_eq!(
        reception,
        Reception::Refuse { body: "Error parsing JSON: field `lat` must be a number".to_string() }
    );
    assert!(!state.get_processing_state());
    assert_eq!(state.get_latest_data(), None);
    match state.receive("POST", "/process", "{oops", 0) {
        Reception::Refuse { body } => assert!(body.starts_with("Error parsing JSON: ")),
        other => panic!("unexpected {:?}", other),
    }
    assert_eq!(
        RequestError::LongitudeMissing.answer(),
        "Error parsing JSON: field `lng` must be a number"
    );
    assert_eq!(RequestError::NotJson("eof".to_string()).answer(), "Error parsing JSON: eof");
}

#[test]
fn a_good_request_asks_for_the_provider_call() {
    let mut state = AppState::new(custom(false));
    assert_eq!(state.receive("POST", "/process", BODY, 0), Reception::Fetch { call: call(false) });
    assert!(state.get_processing_state());
}

#[test]
fn without_confirmation_the_record_is_returned_directly() {
    let mut state = AppState::new(custom(false));
    state.receive("POST", "/process", BODY, 0);
    let conclusion = state.conclude(&call(false), &ok(PAYLOAD), 10);
    assert_eq!(conclusion, Conclusion { record: resolved(), failed: false, ticket: None });
    assert!(!state.get_processing_state());
    assert_eq!(state.get_latest_data(), Some(resolved()));
}

#[test]
fn a_failed_call_is_answered_with_an_error_record() {
    let mut state = AppState::new(custom(false));
    state.receive("POST", "/process", BODY, 0);
    let outcome = FetchOutcome::Response { status: 500, body: String::new() };
    assert_eq!(
        state.conclude(&call(false), &outcome, 10),
        Conclusion {
            record: ExampleResult::bare("error", "API Error: API request failed with status: 500"),
            failed: true,
            ticket: None,
        }
    );
    assert_eq!(state.get_latest_data(), None);
    assert!(!state.get_processing_state());
}

#[test]
fn an_unconfigured_provider_concludes_at_once() {
    let mut state = AppState::new(ApiConfig::default());
    assert_eq!(
        state.receive("POST", "/process", BODY, 0),
        Reception::Concluded {
            conclusion: Conclusion {
                record: ExampleResult::bare("error", "API Error: Custom URL not configured"),
                failed: true,
                ticket: None,
            }
        }
    );
    assert!(!state.get_processing_state());
}

#[test]
fn with_confirmation_the_request_waits_for_the_operator() {
    let mut state = AppState::new(custom(true));
    assert_eq!(state.receive("POST", "/process", BODY, 0), Reception::Fetch { call: call(true) });
    let conclusion = state.conclude(&call(true), &ok(PAYLOAD), 1_000);
    assert_eq!(conclusion.record, resolved());
    assert!(!conclusion.failed);
    let ticket = conclusion.ticket.unwrap();
    assert!(state.get_processing_state());
    assert!(state.is_waiting(ticket));
    let resolution = state.reject_result().unwrap();
    assert_eq!(
        resolution,
        Resolution { ticket, record: ExampleResult::bare("rejected", "User rejected the result") }
    );
    assert_eq!(state.reject_result(), None);
    let answer = state.finish(resolution.record);
    assert_eq!(answer.status, "rejected");
    assert_eq!(answer.address, "User rejected the result");
    assert!(!state.get_processing_state());
}

#[test]
fn a_confirmed_result_is_the_answer() {
    let mut state = AppState::new(custom(true));
    state.receive("POST", "/process", BODY, 0);
    let ticket = state.conclude(&call(true), &ok(PAYLOAD), 0).ticket.unwrap();
    let corrected = ExampleResult { note: Some("checked".to_string()), ..resolved() };
    assert_eq!(
        state.confirm_result(corrected.clone()),
        Some(Resolution { ticket, record: corrected.clone() })
    );
    assert_eq!(state.decide(Decision::Reject), None);
    assert_eq!(state.finish(corrected.clone()), corrected);
}

#[test]
fn a_wait_without_decision_ends_in_a_timeout_record() {
    let mut state = AppState::new(custom(true));
    state.receive("POST", "/process", BODY, 0);
    let ticket = state.conclude(&call(true), &ok(PAYLOAD), 2_000).ticket.unwrap();
    assert_eq!(state.expire(ticket, 31_999), None);
    let resolution = state.expire(ticket, 32_000).unwrap();
    assert_eq!(resolution.ticket, ticket);
    assert_eq!(resolution.record.status, "error");
    assert!(!state.is_waiting(ticket));
    assert_eq!(state.confirm_result(resolved()), None);
}

#[test]
fn a_failed_call_waits_for_the_operator_too() {
    let mut state = AppState::new(custom(true));
    state.receive("POST", "/process", BODY, 0);
    let outcome = FetchOutcome::Failed { message: "refused".to_string() };
    let conclusion = state.conclude(&call(true), &outcome, 0);
    assert!(conclusion.failed);
    assert!(conclusion.ticket.is_some());
    assert_eq!(conclusion.record, ExampleResult::bare("error", "API Error: refused"));
    assert!(state.get_processing_state());
}

#[test]
fn a_request_keeps_the_configuration_it_started_with() {
    let mut state = AppState::new(custom(true));
    let started = match state.receive("POST", "/process", BODY, 0) {
        Reception::Fetch { call } => call,
        other => panic!("unexpected {:?}", other),
    };
    let goong = ApiConfig {
        provider: ProviderKind::Goong,
        goong_api_key: "k".to_string(),
        ..ApiConfig::default()
    };
    assert_eq!(state.update_api_config(goong.clone()), Ok(()));
    assert_eq!(state.get_api_config(), goong);
    assert_eq!(started.provider, ProviderKind::Custom);
    assert!(started.confirm);
    assert!(state.conclude(&started, &ok(PAYLOAD), 0).ticket.is_some());
}

#[test]
fn an_invalid_configuration_is_refused_and_changes_nothing() {
    let mut state = AppState::new(custom(false));
    let bad = ApiConfig { custom_url: "http://geo.local/?lng={lng}".to_string(), ..custom(false) };
    assert_eq!(state.update_api_config(bad), Err(ConfigError::LatitudePlaceholderMissing));
    assert_eq!(state.get_api_config(), custom(false));
}

#[test]
fn an_unreachable_provider_is_an_error_record() {
    let mut state = AppState::new(custom(false));
    let conclusion = state.conclude_with(false, Err(ProviderError::Unreachable("refused".to_string())), 0);
    assert_eq!(
        conclusion,
        Conclusion {
            record: ExampleResult::bare("error", "API Error: refused"),
            failed: true,
            ticket: None,
        }
    );
}

#[test]
fn the_fallback_body_is_a_fixed_error_record() {
    let body = serialization_fallback();
    assert_eq!(body, "{\"status\":\"error\",\"address\":\"Serialization error\"}");
    let parsed: serde_json::Value = serde_json::from_str(&body).unwrap();
    assert_eq!(parsed["status"], "error");
    assert_eq!(parsed["address"], "Serialization error");
    assert_eq!(parsed.as_object().unwrap().len(), 2);
}

#[test]
fn a_waiting_request_knows_the_time_it_has_left() {
    let mut state = AppState::new(custom(true));
    let ticket = state.conclude(&call(true), &ok(PAYLOAD), 2_000).ticket.unwrap();
    assert_eq!(state.time_left(ticket, 2_000), Some(30_000));
    assert_eq!(state.time_left(ticket, 31_999), Some(1));
    assert_eq!(state.time_left(ticket, 32_000), Some(0));
    assert_eq!(state.time_left(ticket, 99_000), Some(0));
    assert_eq!(state.time_left(ticket + 1, 2_000), None);
    state.reject_result();
    assert_eq!(state.time_left(ticket, 2_000), None);
}

#[test]
fn a_decision_can_name_the_request_it_is_for() {
    let mut state = AppState::new(custom(true));
    let first = state.conclude(&call(true), &ok(PAYLOAD), 0).ticket.unwrap();
    let second = state.conclude(&call(true), &ok(PAYLOAD), 0).ticket.unwrap();
    assert_eq!(
        state.decide_for(first, Decision::Reject),
        Some(Resolution {
            ticket: first,
            record: ExampleResult::bare("rejected", "User rejected the result")
        })
    );
    assert_eq!(state.decide_for(first, Decision::Reject), None);
    assert!(state.is_waiting(second));
    assert_eq!(state.confirm_result(resolved()).unwrap().ticket, second);
}
