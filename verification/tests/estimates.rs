use carbon_footprint::itinerary::Leg;
use carbon_footprint::json::JsonNumber;
use carbon_footprint::outcome::{EstimateAttributes, EstimateResult, Failure, FailureKind};
use carbon_footprint::request::{ApiClient, FlightEstimateRequest, HttpRequest};
use carbon_footprint::response::{conclude, interpret, interpret_response, RawResponse};

const SUCCESS_BODY: &str = "{\"data\":{\"attributes\":{\"carbon_g\":99911700.0,\"carbon_lb\":267.6,\"carbon_kg\":99911.7,\"carbon_mt\":99.91,\"distance_unit\":\"km\",\"distance_value\":5660.34}},\"message\":null}";

const ERROR_BODY: &str =
    "{\"data\":null,\"message\":\"Validation failed: Legs require valid airport codes\"}";

fn as_f32(number: &JsonNumber) -> f32 {
    match number {
        JsonNumber::Unsigned(whole) => *whole as f32,
        JsonNumber::Decimal(text) => text.parse::<f64>().unwrap() as f32,
    }
}

fn leg(departure: &str, destination: &str, cabin_class: Option<&str>) -> Leg {
    Leg {
        departure_airport: departure.to_string(),
        destination_airport: destination.to_string(),
        cabin_class: cabin_class.map(|class| class.to_string()),
    }
}

fn flight_request(legs: Vec<Leg>) -> FlightEstimateRequest {
    FlightEstimateRequest {
        estimate_type: "flight".to_string(),
        passengers: 100,
        legs,
        distance_unit: None,
    }
}

/// Makes the HTTP request for the service at `base`, checks where it goes,
/// and concludes from the answer that a service standing there would give.
fn exchange(base: &str, request: &FlightEstimateRequest, status: u16, body: &str) -> EstimateResult {
    let client = ApiClient::new(base);
    let http: HttpRequest = client.post_estimate(request, "").unwrap();
    assert_eq!(http.method, "POST");
    assert_eq!(http.url, format!("{}/api/v1/estimates", base));
    conclude(Ok(RawResponse { status, body: body.to_string() }))
}

fn expect_estimate(outcome: EstimateResult) -> EstimateAttributes {
    match outcome {
        EstimateResult::Estimate(estimate) => estimate,
        EstimateResult::Failure(failure) => panic!("unexpected failure: {}", failure.describe()),
    }
}

fn expect_failure(outcome: EstimateResult) -> Failure {
    match outcome {
        EstimateResult::Failure(failure) => failure,
        EstimateResult::Estimate(_) => panic!("unexpected estimate"),
    }
}

#[test]
fn test_make_estimates_for_single_leg_request_success() {
    let request = flight_request(vec![leg("LHR", "JFK", None)]);
    let response = exchange("http://127.0.0.1:8080", &request, 200, SUCCESS_BODY);
    assert!(matches!(response, EstimateResult::Estimate(_)));
    let estimate = expect_estimate(response);
    assert_eq!(as_f32(&estimate.carbon_g), 99911700.0);
    assert_eq!(as_f32(&estimate.carbon_lb), 267.6);
    assert_eq!(as_f32(&estimate.carbon_kg), 99911.7);
    assert_eq!(as_f32(&estimate.carbon_mt), 99.91);
    assert_eq!(estimate.distance_unit, "km");
    assert_eq!(as_f32(&estimate.distance_value), 5660.34);
}

#[test]
fn test_make_estimates_for_single_leg_request_error() {
    let request = flight_request(vec![leg("LHR", "XYZ", None)]);
    let response = exchange("http://127.0.0.1:8080", &request, 400, ERROR_BODY);
    assert!(matches!(response, EstimateResult::Failure(_)));
    let error = expect_failure(response).describe();
    assert_eq!(error, "API error: Validation failed: Legs require valid airport codes");
}

#[test]
fn test_make_estimates_request_multiple_legs_success() {
    let request = flight_request(vec![leg("LHR", "JFK", None), leg("JFK", "LHR", None)]);
    let response = exchange("http://127.0.0.1:8080", &request, 200, SUCCESS_BODY);
    assert!(matches!(response, EstimateResult::Estimate(_)));
    let estimate = expect_estimate(response);
    assert_eq!(as_f32(&estimate.carbon_g), 99911700.0);
    assert_eq!(as_f32(&estimate.carbon_lb), 267.6);
    assert_eq!(as_f32(&estimate.carbon_kg), 99911.7);
    assert_eq!(as_f32(&estimate.carbon_mt), 99.91);
    assert_eq!(estimate.distance_unit, "km");
    assert_eq!(as_f32(&estimate.distance_value), 5660.34);
}

#[test]
fn test_make_estimates_request_different_cabin_classes() {
    let request = flight_request(vec![
        leg("LHR", "JFK", Some("economy")),
        leg("JFK", "LHR", Some("business")),
    ]);
    let response = exchange("http://127.0.0.1:8080", &request, 200, SUCCESS_BODY);
    assert!(matches!(response, EstimateResult::Estimate(_)));
    let estimate = expect_estimate(response);
    assert_eq!(as_f32(&estimate.carbon_g), 99911700.0);
    assert_eq!(as_f32(&estimate.carbon_lb), 267.6);
    assert_eq!(as_f32(&estimate.carbon_kg), 99911.7);
    assert_eq!(as_f32(&estimate.carbon_mt), 99.91);
    assert_eq!(estimate.distance_unit, "km");
    assert_eq!(as_f32(&estimate.distance_value), 5660.34);
}

#[test]
fn estimate_body_gives_the_six_figures() {
    let body = "{\"data\":{\"attributes\":{\"carbon_g\":99911700.0,\"carbon_lb\":267.6,\"carbon_kg\":99911.7,\"carbon_mt\":99.91,\"distance_unit\":\"km\",\"distance_value\":5660.34}}}";
    let expected = EstimateAttributes {
        carbon_g: JsonNumber::Decimal("99911700.0".to_string()),
        carbon_lb: JsonNumber::Decimal("267.6".to_string()),
        carbon_kg: JsonNumber::Decimal("99911.7".to_string()),
        carbon_mt: JsonNumber::Decimal("99.91".to_string()),
        distance_unit: "km".to_string(),
        distance_value: JsonNumber::Decimal("5660.34".to_string()),
    };
    assert_eq!(interpret(body), EstimateResult::Estimate(expected));
}

#[test]
fn message_body_is_an_api_failure() {
    let body = "{\"message\":\"Validation failed: Legs require valid airport codes\"}";
    let expected = Failure {
        kind: FailureKind::Api,
        message: "Validation failed: Legs require valid airport codes".to_string(),
    };
    assert_eq!(interpret(body), EstimateResult::Failure(expected));
}

#[test]
fn errors_body_joins_the_details() {
    let body = "{\"errors\":[{\"detail\":\"Validation failed: Legs require valid airport codes\"},{\"detail\":\"These IATA codes are invalid: [\\\"XYZ\\\"]\"}]}";
    let expected = Failure {
        kind: FailureKind::Api,
        message:
            "Validation failed: Legs require valid airport codes; These IATA codes are invalid: [\"XYZ\"]"
                .to_string(),
    };
    assert_eq!(interpret(body), EstimateResult::Failure(expected));
}

#[test]
fn body_that_is_no_json_is_malformed() {
    let failure = expect_failure(interpret("not json at all"));
    assert_eq!(failure.kind, FailureKind::MalformedResponse);
    assert_ne!(failure.kind, FailureKind::Api);
    let reason = serde_json::from_str::<serde_json::Value>("not json at all").unwrap_err();
    assert_eq!(failure.message, reason.to_string());
    assert_ne!(failure.message, "not json at all");
    assert!(failure.describe().starts_with("Unexpected response format: "));
}

#[test]
fn empty_object_misses_the_data() {
    let expected =
        Failure { kind: FailureKind::Api, message: "Missing response data".to_string() };
    assert_eq!(interpret("{}"), EstimateResult::Failure(expected));
}

#[test]
fn message_wins_over_data() {
    let body = "{\"data\":{\"attributes\":{\"carbon_g\":1,\"carbon_lb\":2,\"carbon_kg\":3,\"carbon_mt\":4,\"distance_unit\":\"mi\",\"distance_value\":5}},\"message\":\"no\"}";
    let failure = expect_failure(interpret(body));
    assert_eq!(failure, Failure { kind: FailureKind::Api, message: "no".to_string() });
}

#[test]
fn whole_numbers_are_kept_as_such() {
    let body = "{\"data\":{\"attributes\":{\"carbon_g\":1,\"carbon_lb\":-2,\"carbon_kg\":3.5,\"carbon_mt\":1e2,\"distance_unit\":\"mi\",\"distance_value\":18446744073709551615}}}";
    let estimate = expect_estimate(interpret(body));
    assert_eq!(estimate.carbon_g, JsonNumber::Unsigned(1));
    assert_eq!(estimate.carbon_lb, JsonNumber::Decimal("-2".to_string()));
    assert_eq!(estimate.carbon_kg, JsonNumber::Decimal("3.5".to_string()));
    assert_eq!(estimate.carbon_mt, JsonNumber::Decimal("100.0".to_string()));
    assert_eq!(estimate.distance_unit, "mi");
    assert_eq!(estimate.distance_value, JsonNumber::Unsigned(u64::MAX));
}

#[test]
fn data_of_another_shape_falls_through_to_the_errors() {
    let expected =
        Failure { kind: FailureKind::Api, message: "Missing response data".to_string() };
    assert_eq!(interpret("{\"data\":5}"), EstimateResult::Failure(expected));
    let incomplete = "{\"data\":{\"attributes\":{\"carbon_g\":1}},\"errors\":[{\"detail\":\"a\"}]}";
    let expected = Failure { kind: FailureKind::Api, message: "a".to_string() };
    assert_eq!(interpret(incomplete), EstimateResult::Failure(expected));
    let text_figure = "{\"data\":{\"attributes\":{\"carbon_g\":\"1\",\"carbon_lb\":2,\"carbon_kg\":3,\"carbon_mt\":4,\"distance_unit\":\"mi\",\"distance_value\":5}}}";
    let expected =
        Failure { kind: FailureKind::Api, message: "Missing response data".to_string() };
    assert_eq!(interpret(text_figure), EstimateResult::Failure(expected));
}

#[test]
fn message_of_another_shape_is_no_envelope() {
    let expected =
        Failure { kind: FailureKind::Api, message: "Missing response data".to_string() };
    assert_eq!(interpret("{\"message\":7}"), EstimateResult::Failure(expected));
}

#[test]
fn null_members_count_as_missing() {
    let expected =
        Failure { kind: FailureKind::Api, message: "Missing response data".to_string() };
    assert_eq!(interpret("{\"data\":null,\"message\":null}"), EstimateResult::Failure(expected));
}

#[test]
fn empty_message_is_passed_over() {
    let expected =
        Failure { kind: FailureKind::Api, message: "Missing response data".to_string() };
    assert_eq!(interpret("{\"message\":\"\"}"), EstimateResult::Failure(expected));
    let expected =
        Failure { kind: FailureKind::Api, message: "Missing response data".to_string() };
    assert_eq!(
        interpret("{\"data\":null,\"message\":\"\"}"),
        EstimateResult::Failure(expected)
    );
}

#[test]
fn empty_message_leaves_the_errors_to_speak() {
    let body = "{\"message\":\"\",\"errors\":[{\"detail\":\"a\"},{},{\"detail\":\"b\"}]}";
    let expected = Failure { kind: FailureKind::Api, message: "a; b".to_string() };
    assert_eq!(interpret(body), EstimateResult::Failure(expected));
    let body = "{\"message\":\"\",\"errors\":[{}]}";
    let expected =
        Failure { kind: FailureKind::Api, message: "Missing response data".to_string() };
    assert_eq!(interpret(body), EstimateResult::Failure(expected));
}

#[test]
fn empty_message_does_not_hide_the_data() {
    let body = "{\"data\":{\"attributes\":{\"carbon_g\":1,\"carbon_lb\":2,\"carbon_kg\":3,\"carbon_mt\":4,\"distance_unit\":\"mi\",\"distance_value\":5}},\"message\":\"\"}";
    let estimate = expect_estimate(interpret(body));
    assert_eq!(estimate.carbon_g, JsonNumber::Unsigned(1));
    assert_eq!(estimate.distance_unit, "mi");
    assert_eq!(estimate.distance_value, JsonNumber::Unsigned(5));
}

#[test]
fn message_of_blanks_is_a_message() {
    let expected = Failure { kind: FailureKind::Api, message: " ".to_string() };
    assert_eq!(interpret("{\"message\":\" \"}"), EstimateResult::Failure(expected));
}

#[test]
fn errors_without_details_miss_the_data() {
    let expected =
        Failure { kind: FailureKind::Api, message: "Missing response data".to_string() };
    for body in [
        "{\"errors\":[]}",
        "{\"errors\":[{}]}",
        "{\"errors\":[{\"detail\":7},3,null,\"x\"]}",
        "{\"errors\":{\"detail\":\"x\"}}",
        "[1,2]",
        "7",
        "null",
    ] {
        assert_eq!(
            interpret(body),
            EstimateResult::Failure(Failure {
                kind: expected.kind,
                message: expected.message.clone()
            })
        );
    }
}

#[test]
fn details_keep_their_order_and_skip_items_without_one() {
    let body = "{\"errors\":[{\"detail\":\"first\"},{\"title\":\"x\"},7,{\"detail\":\"second\"},{\"detail\":\"third\"}]}";
    let failure = expect_failure(interpret(body));
    assert_eq!(failure.kind, FailureKind::Api);
    assert_eq!(failure.message, "first; second; third");
}

#[test]
fn single_detail_has_no_separator() {
    let failure = expect_failure(interpret("{\"errors\":[{\"detail\":\"only\"}]}"));
    assert_eq!(failure.message, "only");
}

#[test]
fn status_code_does_not_decide() {
    let good = RawResponse { status: 500, body: SUCCESS_BODY.to_string() };
    assert!(matches!(interpret_response(&good), EstimateResult::Estimate(_)));
    let bad = RawResponse { status: 200, body: ERROR_BODY.to_string() };
    assert!(matches!(interpret_response(&bad), EstimateResult::Failure(_)));
}

#[test]
fn transport_failure_is_passed_on() {
    let failure = expect_failure(conclude(Err("connection refused".to_string())));
    assert_eq!(failure.kind, FailureKind::Transport);
    assert_eq!(failure.message, "connection refused");
    assert_eq!(failure.describe(), "Network error: connection refused");
}

#[test]
fn each_kind_has_its_line() {
    let line = |kind: FailureKind| Failure { kind, message: "m".to_string() }.describe();
    assert_eq!(line(FailureKind::Transport), "Network error: m");
    assert_eq!(line(FailureKind::Encoding), "Unexpected response format: m");
    assert_eq!(line(FailureKind::Api), "API error: m");
    assert_eq!(line(FailureKind::MalformedResponse), "Unexpected response format: m");
}
