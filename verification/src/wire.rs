//! The wire format: how a request is written as JSON text, and how the bytes
//! of a reply are read as one of the two shapes the service answers in.
use crate::json::{
    bool_of, items_of, json_model, json_models, json_parsed, json_quoted, member_of, parse_json,
    quote_json, text_of, JsonView,
};
use crate::types::{
    entries_view, APIClassifyPayload, APIClassifyResponse, APIErrorData, ClassificationRequest,
    ClassificationResult, ErrorEntry,
};
use vstd::prelude::*;
use vstd::string::*;

verus! {

/// The JSON text of a request: one object whose members `token`, `siteKey`
/// and `secretKey`, in that order, hold the three strings as JSON string
/// literals. Where a string cannot be printed, the complaint about the first
/// such string stands in place of the text.
pub open spec fn request_text(request: ClassificationRequest) -> Result<Seq<char>, Seq<char>> {
    match json_quoted(request.token) {
        Err(complaint) => Err(complaint),
        Ok(token) => match json_quoted(request.site_key) {
            Err(complaint) => Err(complaint),
            Ok(site_key) => match json_quoted(request.secret_key) {
                Err(complaint) => Err(complaint),
                Ok(secret_key) => Ok(
                    "{\"token\":"@ + token + ",\"siteKey\":"@ + site_key + ",\"secretKey\":"@
                        + secret_key + "}"@,
                ),
            },
        },
    }
}

/// The text stored under `key`, if the value is an object whose member of
/// that name is a string.
pub open spec fn text_member(value: JsonView, key: Seq<char>) -> Option<Seq<char>> {
    match value.member(key) {
        Some(member) => member.as_text(),
        None => None,
    }
}

/// The verdict a value carries: the boolean under `isBot`, if the value is an
/// object whose member of that name is a boolean.
pub open spec fn verdict_shape(value: JsonView) -> Option<bool> {
    match value.member("isBot"@) {
        Some(member) => member.as_bool(),
        None => None,
    }
}

/// The error entry a value carries, if it is an object whose members `code`
/// and `error` are both strings. Other members are not looked at.
pub open spec fn entry_shape(value: JsonView) -> Option<ErrorEntry> {
    match (text_member(value, "code"@), text_member(value, "error"@)) {
        (Some(code), Some(error)) => Some(ErrorEntry { code, error }),
        _ => None,
    }
}

/// Whether every item carries an error entry.
pub open spec fn all_entries(items: Seq<JsonView>) -> bool {
    forall|i: int| 0 <= i < items.len() ==> (#[trigger] entry_shape(items[i])) is Some
}

/// The entries that a run of items carries, in order.
pub open spec fn entries_of(items: Seq<JsonView>) -> Seq<ErrorEntry> {
    items.map_values(|item: JsonView| entry_shape(item).unwrap())
}

/// The error list a value carries: the entries under `errors`, in order, if
/// the value is an object whose member of that name is an array of which
/// every item carries an entry. The array may be empty.
pub open spec fn error_list_shape(value: JsonView) -> Option<Seq<ErrorEntry>> {
    match value.member("errors"@) {
        Some(member) => match member.as_items() {
            Some(items) => if all_entries(items) {
                Some(entries_of(items))
            } else {
                None
            },
            None => None,
        },
        None => None,
    }
}

/// What is said of a value that carries neither a verdict nor an error list.
pub open spec fn neither_shape_text() -> Seq<char> {
    "response carries neither a verdict nor an error list"@
}

/// What is said of a value that carries a verdict and an error list at once.
pub open spec fn both_shapes_text() -> Seq<char> {
    "response carries both a verdict and an error list"@
}

/// The reply a value decodes to. A reply is exactly one of the two shapes:
/// a value that carries neither is refused, and so is one that carries
/// both, since nothing says which of the two the service meant.
pub open spec fn reply_shape(value: JsonView) -> Result<ClassificationResult, Seq<char>> {
    match (verdict_shape(value), error_list_shape(value)) {
        (Some(is_bot), None) => Ok(ClassificationResult::IsBot { is_bot }),
        (None, Some(errors)) => Ok(ClassificationResult::ErrorList { errors }),
        (None, None) => Err(neither_shape_text()),
        (Some(_), Some(_)) => Err(both_shapes_text()),
    }
}

/// A decoded reply is exactly one of its two shapes, never both and never
/// neither: a value decodes when it carries one shape and not the other,
/// and then to what that shape holds.
pub proof fn reply_is_exactly_one_shape(value: JsonView)
    ensures
        reply_shape(value) is Ok <==> (verdict_shape(value) is Some) != (error_list_shape(value)
            is Some),
        reply_shape(value) is Ok && reply_shape(value)->Ok_0 is IsBot ==> error_list_shape(value)
            is None && verdict_shape(value) == Some(reply_shape(value)->Ok_0->is_bot),
        reply_shape(value) is Ok && reply_shape(value)->Ok_0 is ErrorList ==> verdict_shape(value)
            is None && error_list_shape(value) == Some(reply_shape(value)->Ok_0->errors),
{
}

/// A value with neither an `isBot` nor an `errors` member, such as an empty
/// object or anything that is no object, does not decode.
pub proof fn no_member_no_reply(value: JsonView)
    requires
        value.member("isBot"@) is None,
        value.member("errors"@) is None,
    ensures
        reply_shape(value) == Err::<ClassificationResult, Seq<char>>(neither_shape_text()),
{
}

/// The reply that the bytes of a body decode to: the shape of the document
/// they parse to, or the parser's complaint where they are no JSON document.
pub open spec fn reply_of_bytes(body: Seq<u8>) -> Result<ClassificationResult, Seq<char>> {
    match json_parsed(body) {
        Ok(value) => reply_shape(value),
        Err(complaint) => Err(complaint),
    }
}

/// The model of a decoding outcome.
pub open spec fn decoded_view(r: Result<APIClassifyResponse, String>) -> Result<
    ClassificationResult,
    Seq<char>,
> {
    match r {
        Ok(response) => Ok(response@),
        Err(complaint) => Err(complaint@),
    }
}

/// The model of a printing outcome.
pub open spec fn printed_view(r: Result<String, String>) -> Result<Seq<char>, Seq<char>> {
    match r {
        Ok(text) => Ok(text@),
        Err(complaint) => Err(complaint@),
    }
}

impl APIClassifyPayload {
    /// Writes the payload as the JSON text of a request body.
    pub fn to_json(&self) -> (r: Result<String, String>)
        ensures
            printed_view(r) == request_text(self@),
    {
        let token = match quote_json(self.token.as_str()) {
            Ok(literal) => literal,
            Err(complaint) => {
                return Err(complaint);
            },
        };
        let site_key = match quote_json(self.site_key.as_str()) {
            Ok(literal) => literal,
            Err(complaint) => {
                return Err(complaint);
            },
        };
        let secret_key = match quote_json(self.secret_key.as_str()) {
            Ok(literal) => literal,
            Err(complaint) => {
                return Err(complaint);
            },
        };
        let mut text = String::from_str("{\"token\":");
        text.append(token.as_str());
        text.append(",\"siteKey\":");
        text.append(site_key.as_str());
        text.append(",\"secretKey\":");
        text.append(secret_key.as_str());
        text.append("}");
        Ok(text)
    }
}

/// Reads the string stored under `key`.
fn read_text_member(value: &serde_json::Value, key: &str) -> (r: Option<String>)
    ensures
        (match r {
            Some(text) => text_member(json_model(*value), key@) == Some(text@),
            None => text_member(json_model(*value), key@) is None,
        }),
{
    match member_of(value, key) {
        Some(member) => match text_of(member) {
            Some(text) => Some(String::from_str(text)),
            None => None,
        },
        None => None,
    }
}

/// Reads the verdict a value carries.
fn read_verdict(value: &serde_json::Value) -> (r: Option<bool>)
    ensures
        r == verdict_shape(json_model(*value)),
{
    match member_of(value, "isBot") {
        Some(member) => bool_of(member),
        None => None,
    }
}

/// Reads the error entry a value carries.
fn read_entry(value: &serde_json::Value) -> (r: Option<APIErrorData>)
    ensures
        (match r {
            Some(entry) => entry_shape(json_model(*value)) == Some(entry@),
            None => entry_shape(json_model(*value)) is None,
        }),
{
    let code = match read_text_member(value, "code") {
        Some(code) => code,
        None => {
            return None;
        },
    };
    match read_text_member(value, "error") {
        Some(error) => Some(APIErrorData { error, code }),
        None => None,
    }
}

/// Reads the error list a value carries.
fn read_error_list(value: &serde_json::Value) -> (r: Option<Vec<APIErrorData>>)
    ensures
        (match r {
            Some(errors) => error_list_shape(json_model(*value)) == Some(entries_view(errors@)),
            None => error_list_shape(json_model(*value)) is None,
        }),
{
    let member = match member_of(value, "errors") {
        Some(member) => member,
        None => {
            return None;
        },
    };
    let items = match items_of(member) {
        Some(items) => items,
        None => {
            return None;
        },
    };
    let ghost models = json_models(items@);
    let mut errors: Vec<APIErrorData> = Vec::new();
    let mut i: usize = 0;
    while i < items.len()
        invariant
            i <= items.len(),
            models == json_models(items@),
            error_list_shape(json_model(*value)) == if all_entries(models) {
                Some(entries_of(models))
            } else {
                None
            },
            errors@.len() == i,
            forall|k: int|
                0 <= k < i ==> (#[trigger] entry_shape(models[k])) == Some(errors@[k]@),
        decreases items.len() - i,
    {
        match read_entry(&items[i]) {
            Some(entry) => {
                errors.push(entry);
            },
            None => {
                assert(entry_shape(models[i as int]) is None);
                return None;
            },
        }
        i += 1;
    }
    proof {
        assert(entries_view(errors@) =~= entries_of(models));
    }
    Some(errors)
}

impl APIClassifyResponse {
    /// Reads a parsed document as a reply.
    pub fn from_value(value: &serde_json::Value) -> (r: Result<APIClassifyResponse, String>)
        ensures
            decoded_view(r) == reply_shape(json_model(*value)),
    {
        let verdict = read_verdict(value);
        let errors = read_error_list(value);
        match verdict {
            Some(is_bot) => match errors {
                None => Ok(APIClassifyResponse::IsBot { is_bot }),
                Some(_) => Err(
                    String::from_str("response carries both a verdict and an error list"),
                ),
            },
            None => match errors {
                Some(errors) => Ok(APIClassifyResponse::Errors { errors }),
                None => Err(
                    String::from_str("response carries neither a verdict nor an error list"),
                ),
            },
        }
    }

    /// Decodes the bytes of a reply body.
    pub fn from_json(body: &[u8]) -> (r: Result<APIClassifyResponse, String>)
        ensures
            decoded_view(r) == reply_of_bytes(body@),
    {
        match parse_json(body) {
            Ok(value) => APIClassifyResponse::from_value(&value),
            Err(complaint) => Err(complaint),
        }
    }
}

} // verus!
