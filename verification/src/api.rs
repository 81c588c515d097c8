//! The client: what it sends, and how it reads what comes back.
use crate::errors::{
    ClassificationError, PulseError, TokenExpiredError, TokenNotFoundError, TokenUsedError,
};
use crate::types::{
    APIClassifyPayload, APIClassifyResponse, ClassificationRequest, ClassificationResult,
    ErrorEntry,
};
use crate::wire::{reply_of_bytes, request_text};
use vstd::prelude::*;
use vstd::string::*;

verus! {

/// Model of a client: its three pieces of configuration.
pub struct Configuration {
    pub site_key: Seq<char>,
    pub secret_key: Seq<char>,
    pub api_url: Seq<char>,
}

/// The base address of the production service.
pub open spec fn production_url() -> Seq<char> {
    "https://api.pulsesecurity.org"@
}

/// The address that classification requests are posted to.
pub open spec fn endpoint_of(api_url: Seq<char>) -> Seq<char> {
    api_url + "/api/classify"@
}

/// The failure that stands for a request that could not be made or sent.
pub open spec fn request_failure(complaint: Seq<char>) -> ClassificationError {
    ClassificationError::Unknown("Request failed: "@ + complaint)
}

/// The failure that stands for a reply that could not be read or decoded.
pub open spec fn response_failure(complaint: Seq<char>) -> ClassificationError {
    ClassificationError::Unknown("Failed to get response data: "@ + complaint)
}

/// The failure that an error entry stands for, by its code alone.
pub open spec fn failure_of(entry: ErrorEntry) -> ClassificationError {
    if entry.code == "TOKEN_NOT_FOUND"@ {
        ClassificationError::TokenNotFound(entry)
    } else if entry.code == "TOKEN_USED"@ {
        ClassificationError::TokenUsed(entry)
    } else if entry.code == "TOKEN_EXPIRED"@ {
        ClassificationError::TokenExpired(entry)
    } else {
        ClassificationError::Unknown("Unknown error code: "@ + entry.code)
    }
}

/// What a decoded reply means: a verdict is the classification, be it `true`
/// or `false`; an error list fails as its first entry says, and an empty one
/// fails for want of any entry.
pub open spec fn classification(reply: ClassificationResult) -> Result<
    bool,
    ClassificationError,
> {
    match reply {
        ClassificationResult::IsBot { is_bot } => Ok(is_bot),
        ClassificationResult::ErrorList { errors } => if errors.len() == 0 {
            Err(ClassificationError::Unknown("no error returned"@))
        } else {
            Err(failure_of(errors[0]))
        },
    }
}

/// A verdict is a success whichever way it falls, and nothing else is: a
/// reply classifies exactly when it is a verdict, and then as the verdict
/// says.
pub proof fn verdict_is_the_only_success(reply: ClassificationResult, is_bot: bool)
    ensures
        classification(reply) is Ok <==> reply is IsBot,
        classification(reply) == Ok::<bool, ClassificationError>(is_bot) <==> reply == (
        ClassificationResult::IsBot { is_bot }),
{
}

/// Each of the three known codes gives its own typed failure, which carries
/// the entry as it came.
pub proof fn known_codes_are_typed(entry: ErrorEntry)
    ensures
        entry.code == "TOKEN_NOT_FOUND"@ ==> failure_of(entry) == ClassificationError::TokenNotFound(
            entry,
        ),
        entry.code == "TOKEN_USED"@ ==> failure_of(entry) == ClassificationError::TokenUsed(entry),
        entry.code == "TOKEN_EXPIRED"@ ==> failure_of(entry) == ClassificationError::TokenExpired(
            entry,
        ),
{
    reveal_strlit("TOKEN_NOT_FOUND");
    reveal_strlit("TOKEN_USED");
    reveal_strlit("TOKEN_EXPIRED");
    assert("TOKEN_NOT_FOUND"@.len() == 15);
    assert("TOKEN_USED"@.len() == 10);
    assert("TOKEN_EXPIRED"@.len() == 13);
}

/// Every other code gives an unknown failure whose diagnostic ends in the
/// code.
pub proof fn other_codes_are_unknown(entry: ErrorEntry)
    requires
        entry.code != "TOKEN_NOT_FOUND"@,
        entry.code != "TOKEN_USED"@,
        entry.code != "TOKEN_EXPIRED"@,
    ensures
        failure_of(entry) == ClassificationError::Unknown("Unknown error code: "@ + entry.code),
{
}

/// An error list without entries fails as unknown.
pub proof fn empty_list_is_unknown()
    ensures
        classification(ClassificationResult::ErrorList { errors: Seq::empty() }) == Err::<
            bool,
            ClassificationError,
        >(ClassificationError::Unknown("no error returned"@)),
{
}

/// The first error wins: two error lists that begin with the same entry fail
/// alike, as that entry says, whatever follows it.
pub proof fn first_error_wins(errors: Seq<ErrorEntry>, others: Seq<ErrorEntry>)
    requires
        errors.len() > 0,
        others.len() > 0,
        errors[0] == others[0],
    ensures
        classification(ClassificationResult::ErrorList { errors }) == Err::<
            bool,
            ClassificationError,
        >(failure_of(errors[0])),
        classification(ClassificationResult::ErrorList { errors }) == classification(
            ClassificationResult::ErrorList { errors: others },
        ),
{
}

/// Model of what one exchange with the service came to.
pub enum ExchangeView {
    RequestFailed(Seq<char>),
    BodyFailed(Seq<char>),
    Body(Seq<u8>),
}

/// What one exchange with the service came to. The status line of a reply is
/// not part of it: a reply is read by its body alone.
#[derive(Debug)]
pub enum Exchange {
    /// No reply arrived; the transport says why.
    RequestFailed(String),
    /// A reply arrived, but its body could not be read; the transport says
    /// why.
    BodyFailed(String),
    /// The bytes of the reply's body.
    Body(Vec<u8>),
}

impl View for Exchange {
    type V = ExchangeView;

    open spec fn view(&self) -> ExchangeView {
        match self {
            Exchange::RequestFailed(complaint) => ExchangeView::RequestFailed(complaint@),
            Exchange::BodyFailed(complaint) => ExchangeView::BodyFailed(complaint@),
            Exchange::Body(bytes) => ExchangeView::Body(bytes@),
        }
    }
}

/// What an exchange means to the caller: a transport failure is passed on as
/// an unknown failure, and so is a body that does not decode; a body that
/// decodes means what the reply means.
pub open spec fn conclusion(exchange: ExchangeView) -> Result<bool, ClassificationError> {
    match exchange {
        ExchangeView::RequestFailed(complaint) => Err(request_failure(complaint)),
        ExchangeView::BodyFailed(complaint) => Err(response_failure(complaint)),
        ExchangeView::Body(bytes) => match reply_of_bytes(bytes) {
            Ok(reply) => classification(reply),
            Err(complaint) => Err(response_failure(complaint)),
        },
    }
}

/// A failure of the transport, and a body that does not decode, are never
/// told apart into the typed failures: each is passed on as unknown.
pub proof fn undecoded_exchange_is_unknown(exchange: ExchangeView)
    requires
        exchange is Body ==> reply_of_bytes(exchange->Body_0) is Err,
    ensures
        conclusion(exchange) is Err,
        conclusion(exchange)->Err_0 is Unknown,
{
}

/// Every exchange comes to exactly one of a verdict and a failure, and a
/// verdict only where the body decodes to one.
pub proof fn verdict_needs_a_decoded_verdict(exchange: ExchangeView, is_bot: bool)
    ensures
        conclusion(exchange) == Ok::<bool, ClassificationError>(is_bot) <==> (exchange is Body
            && reply_of_bytes(exchange->Body_0) == Ok::<ClassificationResult, Seq<char>>(
            ClassificationResult::IsBot { is_bot },
        )),
{
}

/// The model of a classification outcome.
pub open spec fn outcome_view(r: Result<bool, PulseError>) -> Result<bool, ClassificationError> {
    match r {
        Ok(is_bot) => Ok(is_bot),
        Err(e) => Err(e@),
    }
}

/// One request, ready for the transport: to be posted to `url` with `body`
/// as its JSON body.
#[derive(Debug)]
pub struct ClassifyRequest {
    pub url: String,
    pub body: String,
}

/// A client of the verification service.
pub struct Pulse {
    site_key: String,
    secret_key: String,
    api_url: String,
}

impl View for Pulse {
    type V = Configuration;

    closed spec fn view(&self) -> Configuration {
        Configuration {
            site_key: self.site_key@,
            secret_key: self.secret_key@,
            api_url: self.api_url@,
        }
    }
}

/// The failure to report for a request that could not be made or sent.
fn request_failed(complaint: &str) -> (e: PulseError)
    ensures
        e@ == request_failure(complaint@),
{
    PulseError::UnknownError(String::from_str("Request failed: ").concat(complaint))
}

/// The failure to report for a reply that could not be read or decoded.
fn response_failed(complaint: &str) -> (e: PulseError)
    ensures
        e@ == response_failure(complaint@),
{
    PulseError::UnknownError(String::from_str("Failed to get response data: ").concat(complaint))
}

/// Reads a decoded reply as the outcome of a classification.
pub fn interpret(data: APIClassifyResponse) -> (r: Result<bool, PulseError>)
    ensures
        outcome_view(r) == classification(data@),
{
    match data {
        APIClassifyResponse::IsBot { is_bot } => Ok(is_bot),
        APIClassifyResponse::Errors { errors } => {
            if errors.len() == 0 {
                return Err(PulseError::UnknownError(String::from_str("no error returned")));
            }
            let error = errors[0].clone();
            if error.code == String::from_str("TOKEN_NOT_FOUND") {
                Err(PulseError::from(TokenNotFoundError(error)))
            } else if error.code == String::from_str("TOKEN_USED") {
                Err(PulseError::from(TokenUsedError(error)))
            } else if error.code == String::from_str("TOKEN_EXPIRED") {
                Err(PulseError::from(TokenExpiredError(error)))
            } else {
                Err(
                    PulseError::UnknownError(
                        String::from_str("Unknown error code: ").concat(error.code.as_str()),
                    ),
                )
            }
        },
    }
}

/// Reads what an exchange came to as the outcome of a classification.
pub fn conclude(exchange: Exchange) -> (r: Result<bool, PulseError>)
    ensures
        outcome_view(r) == conclusion(exchange@),
{
    match exchange {
        Exchange::RequestFailed(complaint) => Err(request_failed(complaint.as_str())),
        Exchange::BodyFailed(complaint) => Err(response_failed(complaint.as_str())),
        Exchange::Body(bytes) => match APIClassifyResponse::from_json(bytes.as_slice()) {
            Ok(data) => interpret(data),
            Err(complaint) => Err(response_failed(complaint.as_str())),
        },
    }
}

impl Pulse {
    /// The body that this client sends for `token`.
    pub open spec fn payload_of(self, token: Seq<char>) -> ClassificationRequest {
        ClassificationRequest { token, site_key: self@.site_key, secret_key: self@.secret_key }
    }

    /// A client of the production service. Keys are taken as they are: only
    /// the service can tell whether they are good.
    pub fn new(site_key: String, secret_key: String) -> (client: Pulse)
        ensures
            client@ == (Configuration {
                site_key: site_key@,
                secret_key: secret_key@,
                api_url: production_url(),
            }),
    {
        Pulse::with_url(site_key, secret_key, String::from_str("https://api.pulsesecurity.org"))
    }

    /// A client of the service at `api_url`.
    pub fn with_url(site_key: String, secret_key: String, api_url: String) -> (client: Pulse)
        ensures
            client@ == (Configuration {
                site_key: site_key@,
                secret_key: secret_key@,
                api_url: api_url@,
            }),
    {
        Pulse { site_key, secret_key, api_url }
    }

    /// The address that this client posts to.
    pub fn endpoint(&self) -> (url: String)
        ensures
            url@ == endpoint_of(self@.api_url),
    {
        self.api_url.clone().concat("/api/classify")
    }

    /// The body that this client sends for `token`: the token, with the
    /// client's own two keys.
    pub fn payload(&self, token: String) -> (payload: APIClassifyPayload)
        ensures
            payload@ == self.payload_of(token@),
    {
        APIClassifyPayload {
            token,
            site_key: self.site_key.clone(),
            secret_key: self.secret_key.clone(),
        }
    }

    /// The request that this client makes for `token`, or the failure to
    /// report where its body cannot be written.
    pub fn request(&self, token: String) -> (r: Result<ClassifyRequest, PulseError>)
        ensures
            (match request_text(self.payload_of(token@)) {
                Ok(text) => r matches Ok(request) && request.url@ == endpoint_of(self@.api_url)
                    && request.body@ == text,
                Err(complaint) => r matches Err(e) && e@ == request_failure(complaint),
            }),
    {
        let payload = self.payload(token);
        match payload.to_json() {
            Ok(body) => Ok(ClassifyRequest { url: self.endpoint(), body }),
            Err(complaint) => Err(request_failed(complaint.as_str())),
        }
    }

    /// Classifies `token`: makes the request, hands it to `transport` once,
    /// and reads what the exchange came to. Where the request cannot be made,
    /// `transport` is not called.
    pub fn classify<F>(&self, token: String, transport: F) -> (r: Result<bool, PulseError>) where
        F: FnOnce(ClassifyRequest) -> Exchange,

        requires
            forall|request: ClassifyRequest|
                request.url@ == endpoint_of(self@.api_url) ==> transport.requires((request,)),
        ensures
            (match request_text(self.payload_of(token@)) {
                Ok(text) => exists|request: ClassifyRequest, exchange: Exchange|
                    {
                        &&& request.url@ == endpoint_of(self@.api_url)
                        &&& request.body@ == text
                        &&& transport.ensures((request,), exchange)
                        &&& outcome_view(r) == conclusion(exchange@)
                    },
                Err(complaint) => outcome_view(r) == Err::<bool, ClassificationError>(
                    request_failure(complaint),
                ),
            }),
    {
        match self.request(token) {
            Ok(request) => {
                let exchange = transport(request);
                conclude(exchange)
            },
            Err(e) => Err(e),
        }
    }
}

} // verus!
