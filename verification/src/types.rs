//! The values that travel over the wire, and their mathematical models.
use vstd::prelude::*;
use vstd::std_specs::cmp::PartialEqSpecImpl;

verus! {

/// Model of an error entry: a stable machine-readable code and a message
/// meant for people.
pub struct ErrorEntry {
    pub code: Seq<char>,
    pub error: Seq<char>,
}

/// Model of the body of a classification request.
pub struct ClassificationRequest {
    pub token: Seq<char>,
    pub site_key: Seq<char>,
    pub secret_key: Seq<char>,
}

/// Model of a decoded reply: exactly one of a verdict and a list of errors.
pub enum ClassificationResult {
    IsBot { is_bot: bool },
    ErrorList { errors: Seq<ErrorEntry> },
}

/// One error as the service reports it.
#[derive(Debug)]
pub struct APIErrorData {
    pub error: String,
    pub code: String,
}

impl View for APIErrorData {
    type V = ErrorEntry;

    open spec fn view(&self) -> ErrorEntry {
        ErrorEntry { code: self.code@, error: self.error@ }
    }
}

impl Clone for APIErrorData {
    fn clone(&self) -> (copy: Self)
        ensures
            copy == *self,
    {
        APIErrorData { error: self.error.clone(), code: self.code.clone() }
    }
}

impl PartialEq for APIErrorData {
    fn eq(&self, other: &Self) -> (same: bool) {
        self.error == other.error && self.code == other.code
    }
}

impl PartialEqSpecImpl for APIErrorData {
    open spec fn obeys_eq_spec() -> bool {
        true
    }

    open spec fn eq_spec(&self, other: &Self) -> bool {
        self@ == other@
    }
}

/// The body of a classification request: the token under test and the
/// credentials of the integration that asks.
#[derive(Debug)]
pub struct APIClassifyPayload {
    pub token: String,
    pub site_key: String,
    pub secret_key: String,
}

impl View for APIClassifyPayload {
    type V = ClassificationRequest;

    open spec fn view(&self) -> ClassificationRequest {
        ClassificationRequest {
            token: self.token@,
            site_key: self.site_key@,
            secret_key: self.secret_key@,
        }
    }
}

/// A decoded reply of the service.
#[derive(Debug)]
pub enum APIClassifyResponse {
    IsBot { is_bot: bool },
    Errors { errors: Vec<APIErrorData> },
}

/// The models of a list of error entries, in order.
pub open spec fn entries_view(errors: Seq<APIErrorData>) -> Seq<ErrorEntry> {
    errors.map_values(|e: APIErrorData| e@)
}

impl View for APIClassifyResponse {
    type V = ClassificationResult;

    open spec fn view(&self) -> ClassificationResult {
        match self {
            APIClassifyResponse::IsBot { is_bot } => ClassificationResult::IsBot {
                is_bot: *is_bot,
            },
            APIClassifyResponse::Errors { errors } => ClassificationResult::ErrorList {
                errors: entries_view(errors@),
            },
        }
    }
}

} // verus!
