use pulse::{APIErrorData, PulseError, TokenExpiredError, TokenNotFoundError, TokenUsedError};

fn entry(code: &str, error: &str) -> APIErrorData {
    APIErrorData { code: code.to_string(), error: error.to_string() }
}

#[test]
fn typed_failures_show_their_message() {
    assert_eq!(
        TokenNotFoundError(entry("TOKEN_NOT_FOUND", "no such token")).to_string(),
        "Token not found: no such token"
    );
    assert_eq!(TokenUsedError(entry("TOKEN_USED", "spent")).to_string(), "Token used: spent");
    assert_eq!(TokenExpiredError(entry("TOKEN_EXPIRED", "")).to_string(), "Token expired: ");
}

#[test]
fn failures_show_as_their_payload_does() {
    assert_eq!(
        PulseError::TokenNotFoundError(TokenNotFoundError(entry("TOKEN_NOT_FOUND", "m"))).to_string(),
        "Token not found: m"
    );
    assert_eq!(
        PulseError::TokenUsedError(TokenUsedError(entry("TOKEN_USED", "m"))).to_string(),
        "Token used: m"
    );
    assert_eq!(
        PulseError::TokenExpiredError(TokenExpiredError(entry("TOKEN_EXPIRED", "m"))).to_string(),
        "Token expired: m"
    );
    assert_eq!(PulseError::UnknownError("diagnostic".to_string()).to_string(), "Unknown error");
}

#[test]
fn typed_failures_convert_into_the_taxonomy() {
    let e = entry("TOKEN_NOT_FOUND", "m");
    assert_eq!(
        PulseError::from(TokenNotFoundError(e.clone())),
        PulseError::TokenNotFoundError(TokenNotFoundError(e.clone()))
    );
    let converted: PulseError = TokenUsedError(e.clone()).into();
    assert_eq!(converted, PulseError::TokenUsedError(TokenUsedError(e.clone())));
    let converted: PulseError = TokenExpiredError(e.clone()).into();
    assert_eq!(converted, PulseError::TokenExpiredError(TokenExpiredError(e)));
}

#[test]
fn failures_compare_by_kind_and_payload() {
    let a = entry("TOKEN_USED", "m");
    assert_eq!(a, a.clone());
    assert_ne!(a, entry("TOKEN_USED", "n"));
    assert_ne!(a, entry("TOKEN_EXPIRED", "m"));
    assert_eq!(TokenUsedError(a.clone()), TokenUsedError(a.clone()).clone());
    assert_eq!(TokenNotFoundError(a.clone()), TokenNotFoundError(a.clone()).clone());
    assert_eq!(TokenExpiredError(a.clone()), TokenExpiredError(a.clone()).clone());
    assert_ne!(
        PulseError::TokenUsedError(TokenUsedError(a.clone())),
        PulseError::TokenExpiredError(TokenExpiredError(a.clone()))
    );
    assert_ne!(
        PulseError::TokenUsedError(TokenUsedError(a.clone())),
        PulseError::UnknownError("TOKEN_USED".to_string())
    );
    assert_eq!(PulseError::UnknownError("x".to_string()), PulseError::UnknownError("x".to_string()));
    assert_ne!(PulseError::UnknownError("x".to_string()), PulseError::UnknownError("y".to_string()));
}

#[test]
fn payload_of_a_failure_is_inspectable() {
    let failure = PulseError::TokenExpiredError(TokenExpiredError(entry("TOKEN_EXPIRED", "late")));
    match failure {
        PulseError::TokenExpiredError(TokenExpiredError(data)) => {
            assert_eq!(data.code, "TOKEN_EXPIRED");
            assert_eq!(data.error, "late");
        }
        other => panic!("unexpected failure {:?}", other),
    }
}
