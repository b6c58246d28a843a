use pavlok::complete;
use pavlok::Client;
use pavlok::Error;
use pavlok::Outcome;
use pavlok::StimuliResponse;

/// Decode a response body the way a transport adapter would: parse it as
/// JSON and pull out the `success` and `id` fields, reporting any failure as
/// a transport-level outcome with the cause attached.
fn decode_body(body: &str) -> Outcome {
    match serde_json::from_str::<serde_json::Value>(body) {
        Err(err) => Outcome::Failed(Some(err.to_string())),
        Ok(value) => {
            let success = value.get("success").and_then(serde_json::Value::as_bool);
            let id = value.get("id").and_then(serde_json::Value::as_str);
            match (success, id) {
                (Some(success), Some(id)) => Outcome::Delivered(success, id.to_string()),
                _ => Outcome::Failed(Some(String::from(
                    "error decoding response body: missing success or id",
                ))),
            }
        }
    }
}

#[test]
fn delivered_body_yields_response() {
    let client = Client::new(String::from("t"));
    let request = client.shock(5, "because").unwrap();
    assert_eq!(request.url, "https://app.pavlok.com/api/v1/shock/5");
    let outcome = decode_body("{\"success\": true, \"id\": \"abc123\"}");
    let response = complete(outcome).unwrap();
    assert!(response.success());
    assert_eq!(response.id(), "abc123");
}

#[test]
fn delivered_false_flag_is_kept() {
    let outcome = decode_body("{\"success\": false, \"id\": \"z9\"}");
    let response = complete(outcome).unwrap();
    assert!(!response.success());
    assert_eq!(response.id(), "z9");
}

#[test]
fn malformed_body_yields_transport_failure() {
    let outcome = decode_body("{\"bad\": 1}");
    let error = complete(outcome).unwrap_err();
    assert!(error.is_transport_failure());
    match &error {
        Error::TransportFailure(Some(cause)) => {
            assert!(!cause.is_empty());
            assert_eq!(error.message(), *cause);
        }
        _ => panic!("expected a transport failure with a cause"),
    }
}

#[test]
fn unparseable_body_yields_transport_failure() {
    let outcome = decode_body("not json at all");
    let error = complete(outcome).unwrap_err();
    match error {
        Error::TransportFailure(Some(cause)) => assert!(!cause.is_empty()),
        _ => panic!("expected a transport failure with a cause"),
    }
}

#[test]
fn network_failure_yields_transport_failure() {
    let outcome = Outcome::Failed(Some(String::from("connection refused")));
    let error = complete(outcome).unwrap_err();
    assert!(error.is_transport_failure());
    assert!(!error.is_out_of_bounds());
    assert_eq!(error.message(), "connection refused");
}

#[test]
fn failure_without_cause_uses_fallback_message() {
    let error = complete(Outcome::Failed(None)).unwrap_err();
    assert!(error.is_transport_failure());
    assert_eq!(error.message(), "Unknown error");
}

#[test]
fn out_of_bounds_message_is_fixed() {
    let client = Client::new(String::from("t"));
    let error = client.beep(9, "x").unwrap_err();
    assert!(error.is_out_of_bounds());
    assert_eq!(error.message(), "strength is out of bounds");
}

#[test]
fn response_accessors_return_constructed_values() {
    let response = StimuliResponse::new(false, String::from("xyz"));
    assert!(!response.success());
    assert_eq!(response.id(), "xyz");
}
