//! The closed set of failures a classification can end in.
use crate::types::{APIErrorData, ErrorEntry};
use vstd::prelude::*;
use vstd::std_specs::cmp::PartialEqSpecImpl;
use vstd::std_specs::convert::FromSpecImpl;
use vstd::string::*;

verus! {

/// Model of a failed classification.
pub enum ClassificationError {
    /// The service does not know the token.
    TokenNotFound(ErrorEntry),
    /// The token was consumed by an earlier classification.
    TokenUsed(ErrorEntry),
    /// The token's validity window has elapsed.
    TokenExpired(ErrorEntry),
    /// Anything else, with a diagnostic for people.
    Unknown(Seq<char>),
}

/// The service does not know the token.
#[derive(Debug)]
pub struct TokenNotFoundError(pub APIErrorData);

/// The token was consumed by an earlier classification.
#[derive(Debug)]
pub struct TokenUsedError(pub APIErrorData);

/// The token's validity window has elapsed.
#[derive(Debug)]
pub struct TokenExpiredError(pub APIErrorData);

/// Why a classification failed.
#[derive(Debug)]
pub enum PulseError {
    TokenNotFoundError(TokenNotFoundError),
    TokenUsedError(TokenUsedError),
    TokenExpiredError(TokenExpiredError),
    UnknownError(String),
}

impl View for TokenNotFoundError {
    type V = ErrorEntry;

    open spec fn view(&self) -> ErrorEntry {
        self.0@
    }
}

impl View for TokenUsedError {
    type V = ErrorEntry;

    open spec fn view(&self) -> ErrorEntry {
        self.0@
    }
}

impl View for TokenExpiredError {
    type V = ErrorEntry;

    open spec fn view(&self) -> ErrorEntry {
        self.0@
    }
}

impl View for PulseError {
    type V = ClassificationError;

    open spec fn view(&self) -> ClassificationError {
        match self {
            PulseError::TokenNotFoundError(e) => ClassificationError::TokenNotFound(e@),
            PulseError::TokenUsedError(e) => ClassificationError::TokenUsed(e@),
            PulseError::TokenExpiredError(e) => ClassificationError::TokenExpired(e@),
            PulseError::UnknownError(message) => ClassificationError::Unknown(message@),
        }
    }
}

/// The line a failure is shown to people as.
pub open spec fn display_text(e: ClassificationError) -> Seq<char> {
    match e {
        ClassificationError::TokenNotFound(entry) => "Token not found: "@ + entry.error,
        ClassificationError::TokenUsed(entry) => "Token used: "@ + entry.error,
        ClassificationError::TokenExpired(entry) => "Token expired: "@ + entry.error,
        ClassificationError::Unknown(_) => "Unknown error"@,
    }
}

impl TokenNotFoundError {
    /// The line this failure is shown as: a fixed lead and the service's
    /// message.
    pub fn to_string(&self) -> (line: String)
        ensures
            line@ == "Token not found: "@ + self@.error,
            line@ == display_text(ClassificationError::TokenNotFound(self@)),
    {
        String::from_str("Token not found: ").concat(self.0.error.as_str())
    }
}

impl TokenUsedError {
    /// The line this failure is shown as: a fixed lead and the service's
    /// message.
    pub fn to_string(&self) -> (line: String)
        ensures
            line@ == "Token used: "@ + self@.error,
            line@ == display_text(ClassificationError::TokenUsed(self@)),
    {
        String::from_str("Token used: ").concat(self.0.error.as_str())
    }
}

impl TokenExpiredError {
    /// The line this failure is shown as: a fixed lead and the service's
    /// message.
    pub fn to_string(&self) -> (line: String)
        ensures
            line@ == "Token expired: "@ + self@.error,
            line@ == display_text(ClassificationError::TokenExpired(self@)),
    {
        String::from_str("Token expired: ").concat(self.0.error.as_str())
    }
}

impl PulseError {
    /// The line this failure is shown as. A typed failure shows as its
    /// payload does; an unknown one shows a fixed line, and keeps its
    /// diagnostic for inspection.
    pub fn to_string(&self) -> (line: String)
        ensures
            line@ == display_text(self@),
    {
        match self {
            PulseError::TokenNotFoundError(e) => e.to_string(),
            PulseError::TokenUsedError(e) => e.to_string(),
            PulseError::TokenExpiredError(e) => e.to_string(),
            PulseError::UnknownError(_) => String::from_str("Unknown error"),
        }
    }
}

impl Clone for TokenNotFoundError {
    fn clone(&self) -> (copy: Self)
        ensures
            copy == *self,
    {
        TokenNotFoundError(self.0.clone())
    }
}

impl Clone for TokenUsedError {
    fn clone(&self) -> (copy: Self)
        ensures
            copy == *self,
    {
        TokenUsedError(self.0.clone())
    }
}

impl Clone for TokenExpiredError {
    fn clone(&self) -> (copy: Self)
        ensures
            copy == *self,
    {
        TokenExpiredError(self.0.clone())
    }
}

impl PartialEq for TokenNotFoundError {
    fn eq(&self, other: &Self) -> (same: bool) {
        self.0 == other.0
    }
}

impl PartialEqSpecImpl for TokenNotFoundError {
    open spec fn obeys_eq_spec() -> bool {
        true
    }

    open spec fn eq_spec(&self, other: &Self) -> bool {
        self@ == other@
    }
}

impl PartialEq for TokenUsedError {
    fn eq(&self, other: &Self) -> (same: bool) {
        self.0 == other.0
    }
}

impl PartialEqSpecImpl for TokenUsedError {
    open spec fn obeys_eq_spec() -> bool {
        true
    }

    open spec fn eq_spec(&self, other: &Self) -> bool {
        self@ == other@
    }
}

impl PartialEq for TokenExpiredError {
    fn eq(&self, other: &Self) -> (same: bool) {
        self.0 == other.0
    }
}

impl PartialEqSpecImpl for TokenExpiredError {
    open spec fn obeys_eq_spec() -> bool {
        true
    }

    open spec fn eq_spec(&self, other: &Self) -> bool {
        self@ == other@
    }
}

impl PartialEq for PulseError {
    fn eq(&self, other: &Self) -> (same: bool) {
        match self {
            PulseError::TokenNotFoundError(a) => match other {
                PulseError::TokenNotFoundError(b) => *a == *b,
                _ => false,
            },
            PulseError::TokenUsedError(a) => match other {
                PulseError::TokenUsedError(b) => *a == *b,
                _ => false,
            },
            PulseError::TokenExpiredError(a) => match other {
                PulseError::TokenExpiredError(b) => *a == *b,
                _ => false,
            },
            PulseError::UnknownError(a) => match other {
                PulseError::UnknownError(b) => *a == *b,
                _ => false,
            },
        }
    }
}

impl PartialEqSpecImpl for PulseError {
    open spec fn obeys_eq_spec() -> bool {
        true
    }

    open spec fn eq_spec(&self, other: &Self) -> bool {
        self@ == other@
    }
}

impl From<TokenNotFoundError> for PulseError {
    fn from(e: TokenNotFoundError) -> (wrapped: Self) {
        PulseError::TokenNotFoundError(e)
    }
}

impl FromSpecImpl<TokenNotFoundError> for PulseError {
    open spec fn obeys_from_spec() -> bool {
        true
    }

    open spec fn from_spec(e: TokenNotFoundError) -> Self {
        PulseError::TokenNotFoundError(e)
    }
}

impl From<TokenUsedError> for PulseError {
    fn from(e: TokenUsedError) -> (wrapped: Self) {
        PulseError::TokenUsedError(e)
    }
}

impl FromSpecImpl<TokenUsedError> for PulseError {
    open spec fn obeys_from_spec() -> bool {
        true
    }

    open spec fn from_spec(e: TokenUsedError) -> Self {
        PulseError::TokenUsedError(e)
    }
}

impl From<TokenExpiredError> for PulseError {
    fn from(e: TokenExpiredError) -> (wrapped: Self) {
        PulseError::TokenExpiredError(e)
    }
}

impl FromSpecImpl<TokenExpiredError> for PulseError {
    open spec fn obeys_from_spec() -> bool {
        true
    }

    open spec fn from_spec(e: TokenExpiredError) -> Self {
        PulseError::TokenExpiredError(e)
    }
}

} // verus!
