use renamed::{classify, ApiErrorResponse, ErrorKind, RenamedError};
use std::collections::HashMap;

/// Reads an error body the way the client's transport layer does: a JSON
/// object whose `error` is a string and whose `retryAfter` is a number.
fn decode(body: &str) -> Option<ApiErrorResponse> {
    let value: serde_json::Value = serde_json::from_str(body).ok()?;
    let object = value.as_object()?;
    let mut response = ApiErrorResponse {
        error: None,
        retry_after: None,
        extra: HashMap::new(),
    };
    for (name, field) in object {
        if name == "error" {
            response.error = Some(field.as_str()?.to_string());
        } else if name == "retryAfter" {
            response.retry_after = Some(u32::try_from(field.as_u64()?).ok()?);
        } else {
            response.extra.insert(name.clone(), field.clone());
        }
    }
    Some(response)
}

#[test]
fn test_error_from_401() {
    let err = RenamedError::from_http_status(401, decode(r#"{"error": "Invalid API key"}"#));
    assert!(matches!(err, RenamedError::Authentication { .. }));
}

#[test]
fn test_error_from_402() {
    let err = RenamedError::from_http_status(402, decode(r#"{"error": "No credits"}"#));
    assert!(matches!(err, RenamedError::InsufficientCredits { .. }));
}

#[test]
fn test_error_from_429() {
    let err = RenamedError::from_http_status(
        429,
        decode(r#"{"error": "Slow down", "retryAfter": 30}"#),
    );
    if let RenamedError::RateLimit { retry_after, .. } = err {
        assert_eq!(retry_after, Some(30));
    } else {
        panic!("Expected RateLimit error");
    }
}

#[test]
fn classification_of_statuses() {
    assert_eq!(classify(401), ErrorKind::Authentication);
    assert_eq!(classify(402), ErrorKind::InsufficientResources);
    assert_eq!(classify(400), ErrorKind::Validation);
    assert_eq!(classify(422), ErrorKind::Validation);
    assert_eq!(classify(429), ErrorKind::RateLimited);
    assert_eq!(classify(503), ErrorKind::Api);
    assert_eq!(classify(500), ErrorKind::Api);
    assert_eq!(classify(404), ErrorKind::Api);
    for status in [400u16, 401, 402, 403, 404, 418, 422, 429, 500, 503, 599] {
        assert_eq!(
            RenamedError::from_http_status(status, None).kind(),
            classify(status)
        );
    }
}

#[test]
fn message_is_the_services_or_the_status() {
    let with = RenamedError::from_http_status(401, decode(r#"{"error": "Invalid API key"}"#));
    assert_eq!(with.message(), "Invalid API key");
    match with {
        RenamedError::Authentication { message, status_code } => {
            assert_eq!(message, "Invalid API key");
            assert_eq!(status_code, 401);
        }
        other => panic!("unexpected {:?}", other),
    }
    let without = RenamedError::from_http_status(402, None);
    assert_eq!(without.message(), "HTTP 402");
    let no_error_field = RenamedError::from_http_status(500, decode(r#"{"x": 1}"#));
    assert_eq!(no_error_field.message(), "HTTP 500");
    let not_json = RenamedError::from_http_status(503, decode("<html>"));
    assert_eq!(not_json.message(), "HTTP 503");
}

#[test]
fn rate_limit_without_hint() {
    let err = RenamedError::from_http_status(429, decode(r#"{"error": "Slow down"}"#));
    match err {
        RenamedError::RateLimit { message, status_code, retry_after } => {
            assert_eq!(message, "Slow down");
            assert_eq!(status_code, 429);
            assert_eq!(retry_after, None);
        }
        other => panic!("unexpected {:?}", other),
    }
    assert!(matches!(
        RenamedError::from_http_status(429, None),
        RenamedError::RateLimit { retry_after: None, .. }
    ));
}

#[test]
fn validation_carries_the_other_fields() {
    let body = r#"{"error": "Bad input", "field": "file", "limit": 10}"#;
    for status in [400u16, 422] {
        match RenamedError::from_http_status(status, decode(body)) {
            RenamedError::Validation { message, status_code, details } => {
                assert_eq!(message, "Bad input");
                assert_eq!(status_code, status);
                let details = details.expect("details");
                assert_eq!(details.len(), 2);
                assert_eq!(details["field"], serde_json::Value::from("file"));
                assert_eq!(details["limit"], serde_json::Value::from(10));
            }
            other => panic!("unexpected {:?}", other),
        }
    }
    match RenamedError::from_http_status(400, decode(r#"{"error": "Bad input"}"#)) {
        RenamedError::Validation { details, .. } => assert!(details.is_none()),
        other => panic!("unexpected {:?}", other),
    }
}

#[test]
fn other_statuses_are_api_errors() {
    match RenamedError::from_http_status(503, decode(r#"{"error": "Down", "node": "a"}"#)) {
        RenamedError::Api { message, status_code, code, details } => {
            assert_eq!(message, "Down");
            assert_eq!(status_code, 503);
            assert_eq!(code, "API_ERROR");
            assert_eq!(details.expect("details")["node"], serde_json::Value::from("a"));
        }
        other => panic!("unexpected {:?}", other),
    }
    match RenamedError::from_http_status(500, None) {
        RenamedError::Api { message, details, .. } => {
            assert_eq!(message, "HTTP 500");
            assert!(details.is_none());
        }
        other => panic!("unexpected {:?}", other),
    }
}

#[test]
fn transport_failures() {
    let source = || reqwest::Client::new().get("not a url").build().unwrap_err();

    let timeout = RenamedError::from_transport(true, true, "x".to_string(), source());
    assert!(matches!(&timeout, RenamedError::Timeout { message } if message == "Request timed out"));
    assert_eq!(timeout.kind(), ErrorKind::Timeout);

    let connect = RenamedError::from_transport(false, true, "x".to_string(), source());
    match connect {
        RenamedError::Network { message, source } => {
            assert_eq!(message, "Connection failed");
            assert!(source.is_some());
        }
        other => panic!("unexpected {:?}", other),
    }

    let other = RenamedError::from_transport(false, false, "reset".to_string(), source());
    match other {
        RenamedError::Network { message, source } => {
            assert_eq!(message, "reset");
            assert!(source.is_some());
        }
        other => panic!("unexpected {:?}", other),
    }
}

#[test]
fn from_reqwest_keeps_the_transports_words() {
    let err = reqwest::Client::new().get("not a url").build().unwrap_err();
    assert!(!err.is_timeout());
    assert!(!err.is_connect());
    let text = err.to_string();
    assert!(!text.is_empty());
    match RenamedError::from_reqwest(err) {
        RenamedError::Network { message, source } => {
            assert_eq!(message, text);
            assert_eq!(source.expect("source").to_string(), text);
        }
        other => panic!("unexpected {:?}", other),
    }
}

#[test]
fn job_file_and_serialization_errors() {
    let job = RenamedError::job_error("boom".to_string(), Some("j1".to_string()));
    assert!(matches!(&job, RenamedError::Job { message, job_id }
        if message == "boom" && job_id.as_deref() == Some("j1")));
    assert_eq!(job.kind(), ErrorKind::Job);

    let io = std::io::Error::new(std::io::ErrorKind::NotFound, "gone");
    let file = RenamedError::from_io(io, "Failed to read file: a.pdf".to_string());
    assert_eq!(file.kind(), ErrorKind::File);
    assert_eq!(file.message(), "Failed to read file: a.pdf");
    assert!(matches!(file, RenamedError::File { source: Some(_), .. }));

    let bad = serde_json::from_str::<serde_json::Value>("{").unwrap_err();
    let text = bad.to_string();
    let ser = RenamedError::from_serde(bad);
    assert_eq!(ser.kind(), ErrorKind::Serialization);
    assert_eq!(ser.message(), text);
}

#[test]
fn errors_written_out() {
    assert_eq!(
        RenamedError::from_http_status(401, None).to_string(),
        "Authentication error: HTTP 401"
    );
    assert_eq!(
        RenamedError::from_http_status(402, None).to_string(),
        "Insufficient credits: HTTP 402"
    );
    assert_eq!(
        RenamedError::from_http_status(429, None).to_string(),
        "Rate limit exceeded: HTTP 429"
    );
    assert_eq!(
        RenamedError::from_http_status(422, None).to_string(),
        "Validation error: HTTP 422"
    );
    assert_eq!(
        RenamedError::from_http_status(503, decode(r#"{"error": "Down"}"#)).to_string(),
        "API error (503): Down"
    );
    assert_eq!(
        RenamedError::job_error("boom".to_string(), None).to_string(),
        "Job error: boom"
    );
    assert_eq!(
        RenamedError::Timeout { message: "Request timed out".to_string() }.to_string(),
        "Timeout error: Request timed out"
    );
    assert_eq!(
        RenamedError::Network { message: "Connection failed".to_string(), source: None }
            .to_string(),
        "Network error: Connection failed"
    );
    assert_eq!(
        RenamedError::File { message: "m".to_string(), source: None }.to_string(),
        "File error: m"
    );
    assert_eq!(
        RenamedError::Serialization { message: "m".to_string(), source: None }.to_string(),
        "Serialization error: m"
    );
}
