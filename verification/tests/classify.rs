use pulse::{
    APIErrorData, ClassifyRequest, Exchange, Pulse, PulseError, TokenExpiredError,
    TokenNotFoundError, TokenUsedError,
};
use std::cell::Cell;

const BASE: &str = "http://127.0.0.1:1234";

fn client() -> Pulse {
    Pulse::with_url("siteKey".to_string(), "siteSecret".to_string(), BASE.to_string())
}

/// A transport that answers a POST to `/api/classify` with `body`.
fn answering(body: &str) -> impl FnOnce(ClassifyRequest) -> Exchange {
    let body = body.as_bytes().to_vec();
    move |request: ClassifyRequest| {
        assert_eq!(request.url, format!("{}/api/classify", BASE));
        Exchange::Body(body)
    }
}

fn entry(code: &str, error: &str) -> APIErrorData {
    APIErrorData { code: code.to_string(), error: error.to_string() }
}

#[test]
fn test_classify_bot() {
    let api = client();
    let calls = Cell::new(0);
    let result = api
        .classify("token".to_string(), |request: ClassifyRequest| {
            calls.set(calls.get() + 1);
            assert_eq!(request.url, format!("{}/api/classify", BASE));
            Exchange::Body(br#"{"isBot": true}"#.to_vec())
        })
        .unwrap();

    assert_eq!(calls.get(), 1);
    assert_eq!(result, true);
}

#[test]
fn classify_human() {
    let result = client().classify("token".to_string(), answering(r#"{"isBot": false}"#));
    assert_eq!(result, Ok(false));
}

#[test]
fn test_handle_errors() {
    let error_tests: Vec<(&str, PulseError)> = vec![
        (
            "TOKEN_NOT_FOUND",
            PulseError::TokenNotFoundError(TokenNotFoundError(APIErrorData {
                code: "TOKEN_NOT_FOUND".to_string(),
                error: "Test error message".to_string(),
            })),
        ),
        (
            "TOKEN_USED",
            PulseError::TokenUsedError(TokenUsedError(APIErrorData {
                code: "TOKEN_USED".to_string(),
                error: "Test error message".to_string(),
            })),
        ),
        (
            "TOKEN_EXPIRED",
            PulseError::TokenExpiredError(TokenExpiredError(APIErrorData {
                code: "TOKEN_EXPIRED".to_string(),
                error: "Test error message".to_string(),
            })),
        ),
    ];

    for (code, expected_error) in error_tests {
        let body = format!(
            r#"{{"errors": [{{"code": "{}", "error": "Test error message"}}]}}"#,
            code
        );
        let api = client();
        let result = api.classify("token".to_string(), answering(&body));

        match result {
            Ok(_) => panic!("Expected an error but got an Ok result."),
            Err(err) => {
                assert_eq!(err, expected_error, "Error does not match");
            }
        }
    }
}

#[test]
fn unknown_code_falls_back() {
    let result = client().classify(
        "token".to_string(),
        answering(r#"{"errors":[{"code":"SOMETHING_ELSE","error":"msg"}]}"#),
    );
    assert_eq!(
        result,
        Err(PulseError::UnknownError("Unknown error code: SOMETHING_ELSE".to_string()))
    );
}

#[test]
fn known_codes_match_exactly() {
    for code in ["token_used", "TOKEN_USED ", "TOKEN", "", "TOKEN_USED_TWICE"] {
        let body = format!(r#"{{"errors":[{{"code":"{}","error":"msg"}}]}}"#, code);
        let result = client().classify("token".to_string(), answering(&body));
        assert_eq!(
            result,
            Err(PulseError::UnknownError(format!("Unknown error code: {}", code)))
        );
    }
}

#[test]
fn empty_error_list_falls_back() {
    let result = client().classify("token".to_string(), answering(r#"{"errors":[]}"#));
    assert_eq!(result, Err(PulseError::UnknownError("no error returned".to_string())));
}

#[test]
fn first_error_wins() {
    let body = r#"{"errors":[
        {"code":"TOKEN_EXPIRED","error":"first"},
        {"code":"TOKEN_USED","error":"second"}
    ]}"#;
    let result = client().classify("token".to_string(), answering(body));
    assert_eq!(
        result,
        Err(PulseError::TokenExpiredError(TokenExpiredError(entry("TOKEN_EXPIRED", "first"))))
    );

    let body = r#"{"errors":[
        {"code":"NOVEL","error":"first"},
        {"code":"TOKEN_NOT_FOUND","error":"second"}
    ]}"#;
    let result = client().classify("token".to_string(), answering(body));
    assert_eq!(result, Err(PulseError::UnknownError("Unknown error code: NOVEL".to_string())));
}

#[test]
fn first_error_wins_whatever_follows() {
    let alone = r#"{"errors":[{"code":"TOKEN_USED","error":"m"}]}"#;
    let followed = r#"{"errors":[{"code":"TOKEN_USED","error":"m"},{"code":"X","error":"y"}]}"#;
    let a = client().classify("token".to_string(), answering(alone));
    let b = client().classify("token".to_string(), answering(followed));
    assert!(a.is_err());
    assert_eq!(a, b);
}

fn decode_failure(result: Result<bool, PulseError>) -> String {
    match result {
        Err(PulseError::UnknownError(message)) => {
            assert!(message.starts_with("Failed to get response data: "), "{}", message);
            message["Failed to get response data: ".len()..].to_string()
        }
        other => panic!("expected a decode failure, got {:?}", other),
    }
}

#[test]
fn empty_object_is_a_decode_failure() {
    let detail = decode_failure(client().classify("token".to_string(), answering("{}")));
    assert_eq!(detail, "response carries neither a verdict nor an error list");
}

#[test]
fn invalid_json_is_a_decode_failure() {
    let detail = decode_failure(client().classify("token".to_string(), answering("not json")));
    assert_eq!(detail, "expected ident at line 1 column 2");

    let detail = decode_failure(client().classify("token".to_string(), answering("")));
    assert_eq!(detail, "EOF while parsing a value at line 1 column 0");

    let detail =
        decode_failure(client().classify("token".to_string(), answering(r#"{"isBot": true"#)));
    assert_eq!(detail, "EOF while parsing an object at line 1 column 14");
}

#[test]
fn snake_case_key_is_no_verdict() {
    let detail =
        decode_failure(client().classify("token".to_string(), answering(r#"{"is_bot": true}"#)));
    assert_eq!(detail, "response carries neither a verdict nor an error list");
}

#[test]
fn both_shapes_are_a_decode_failure() {
    let body = r#"{"isBot": true, "errors": [{"code":"TOKEN_USED","error":"m"}]}"#;
    let detail = decode_failure(client().classify("token".to_string(), answering(body)));
    assert_eq!(detail, "response carries both a verdict and an error list");
}

#[test]
fn transport_failure_is_unknown() {
    let result = client().classify("token".to_string(), |_request: ClassifyRequest| {
        Exchange::RequestFailed("connection refused".to_string())
    });
    assert_eq!(
        result,
        Err(PulseError::UnknownError("Request failed: connection refused".to_string()))
    );
}

#[test]
fn unreadable_body_is_unknown() {
    let result = client().classify("token".to_string(), |_request: ClassifyRequest| {
        Exchange::BodyFailed("connection reset".to_string())
    });
    assert_eq!(
        result,
        Err(PulseError::UnknownError("Failed to get response data: connection reset".to_string()))
    );
}

#[test]
fn conclude_reads_each_exchange() {
    assert_eq!(pulse::conclude(Exchange::Body(br#"{"isBot":false}"#.to_vec())), Ok(false));
    assert_eq!(pulse::conclude(Exchange::Body(br#"{"isBot":true}"#.to_vec())), Ok(true));
    assert_eq!(
        pulse::conclude(Exchange::RequestFailed("timeout".to_string())),
        Err(PulseError::UnknownError("Request failed: timeout".to_string()))
    );
    assert_eq!(
        pulse::conclude(Exchange::BodyFailed(String::new())),
        Err(PulseError::UnknownError("Failed to get response data: ".to_string()))
    );
    assert_eq!(
        pulse::conclude(Exchange::Body(Vec::new())),
        Err(PulseError::UnknownError(
            "Failed to get response data: EOF while parsing a value at line 1 column 0"
                .to_string()
        ))
    );
}
