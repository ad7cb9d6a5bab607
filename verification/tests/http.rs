use squareup::http::ApiRequest;
use squareup::http::HttpResponse;
use squareup::http::HttpVerb;
use squareup::http::SquareApiError;

fn response(status: u16, body: &str) -> HttpResponse {
    HttpResponse { status, body: body.to_string() }
}

#[test]
fn success_range_is_200_to_299() {
    assert!(!response(0, "").is_success());
    assert!(!response(199, "").is_success());
    assert!(response(200, "").is_success());
    assert!(response(204, "").is_success());
    assert!(response(299, "").is_success());
    assert!(!response(300, "").is_success());
    assert!(!response(404, "").is_success());
    assert!(!response(500, "").is_success());
    assert!(!response(u16::MAX, "").is_success());
}

#[test]
fn successful_response_hands_out_its_payload() {
    let outcome = response(200, "{\"customer\":{\"id\":\"abc\"}}").into_payload();
    match outcome {
        Ok(payload) => assert_eq!(payload, "{\"customer\":{\"id\":\"abc\"}}"),
        Err(error) => panic!("unexpected error: {:?}", error),
    }
}

#[test]
fn last_success_status_hands_out_its_payload() {
    assert!(matches!(response(299, "{}").into_payload(), Ok(payload) if payload == "{}"));
}

#[test]
fn failed_response_becomes_a_status_error() {
    let document = "{\"errors\":[{\"category\":\"INVALID_REQUEST_ERROR\",\"code\":\"NOT_FOUND\"}]}";
    match response(404, document).into_payload() {
        Err(SquareApiError::Status { code, body }) => {
            assert_eq!(code, 404);
            assert_eq!(body, document);
        }
        other => panic!("unexpected outcome: {:?}", other),
    }
}

#[test]
fn statuses_next_to_the_success_range_are_errors() {
    assert!(matches!(
        response(199, "").into_payload(),
        Err(SquareApiError::Status { code: 199, .. })
    ));
    assert!(matches!(
        response(300, "").into_payload(),
        Err(SquareApiError::Status { code: 300, .. })
    ));
}

#[test]
fn transport_and_deserialize_errors_keep_their_message() {
    let transport = SquareApiError::Transport { message: "connection refused".to_string() };
    let schema = SquareApiError::Deserialize { message: "missing field `customer`".to_string() };
    assert!(matches!(transport.clone(), SquareApiError::Transport { message } if message == "connection refused"));
    assert!(matches!(schema.clone(), SquareApiError::Deserialize { message } if message == "missing field `customer`"));
}

#[test]
fn a_request_can_be_cloned() {
    let request = ApiRequest {
        verb: HttpVerb::Put,
        url: "/customers/abc".to_string(),
        sends_body: true,
    };
    let copy = request.clone();
    assert_eq!(copy.verb, HttpVerb::Put);
    assert_eq!(copy.url, "/customers/abc");
    assert!(copy.sends_body);
}

#[test]
fn verbs_are_distinct() {
    assert_ne!(HttpVerb::Get, HttpVerb::Post);
    assert_ne!(HttpVerb::Put, HttpVerb::Delete);
    assert_ne!(HttpVerb::Get, HttpVerb::Delete);
    assert_eq!(HttpVerb::Post, HttpVerb::Post);
}
