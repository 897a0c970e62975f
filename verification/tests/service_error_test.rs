use api_gateway::service_error::{with_timeout, ErrorEnvelope, ErrorResponse, ServiceError};

fn as_json(envelope: &ErrorEnvelope) -> serde_json::Value {
    let mut object = serde_json::Map::new();
    object.insert("error".to_string(), serde_json::Value::from(envelope.error.clone()));
    object.insert("message".to_string(), serde_json::Value::from(envelope.message.clone()));
    object.insert("status".to_string(), serde_json::Value::from(envelope.status));
    serde_json::Value::Object(object)
}

#[test]
fn handler_that_finishes_in_time_passes_through() {
    let raced: Result<&str, ()> = Ok("api gateway: okay");
    assert_eq!(with_timeout(raced), Ok("api gateway: okay"));

    let raced: Result<Result<u32, String>, ()> = Ok(Err("handler's own failure".to_string()));
    assert_eq!(with_timeout(raced), Ok(Err("handler's own failure".to_string())));
}

#[test]
fn deadline_that_fires_first_is_a_timeout() {
    let raced: Result<&str, &str> = Err("deadline has elapsed");
    assert_eq!(with_timeout(raced), Err(ServiceError::Timeout));
}

#[test]
fn timeout_is_answered_with_504_and_its_envelope() {
    let raced: Result<&str, ()> = Err(());
    let response = with_timeout(raced).unwrap_err().into_response();
    assert_eq!(response.status, 504);
    assert_eq!(
        response.body,
        ErrorEnvelope {
            error: "Gateway Timeout".to_string(),
            message: "The request timed out".to_string(),
            status: 504,
        }
    );
    let expected: serde_json::Value = serde_json::from_str(
        r#"{"error":"Gateway Timeout","message":"The request timed out","status":504}"#,
    )
    .unwrap();
    assert_eq!(as_json(&response.body), expected);
}

#[test]
fn other_failures_are_answered_with_500() {
    let response = ServiceError::Other("connection reset".to_string()).into_response();
    assert_eq!(
        response,
        ErrorResponse {
            status: 500,
            body: ErrorEnvelope {
                error: "Internal Server Error".to_string(),
                message: "An internal error occurred".to_string(),
                status: 500,
            },
        }
    );
    let expected: serde_json::Value = serde_json::from_str(
        r#"{"error":"Internal Server Error","message":"An internal error occurred","status":500}"#,
    )
    .unwrap();
    assert_eq!(as_json(&response.body), expected);
}

#[test]
fn body_repeats_the_status() {
    for error in [ServiceError::Timeout, ServiceError::Other(String::new())] {
        let response = error.into_response();
        assert_eq!(response.status, response.body.status);
    }
}
