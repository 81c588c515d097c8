//! The JSON boundary: documents as `serde_json` parses and prints them, and
//! the mathematical model of a JSON value that the rest of the crate reasons
//! over.
use vstd::prelude::*;

verus! {

/// A JSON value as mathematics: the tree that a document denotes.
///
/// A number carries no payload, since nothing in the wire protocol reads one.
pub enum JsonView {
    Null,
    Bool(bool),
    Number,
    Text(Seq<char>),
    Array(Seq<JsonView>),
    Object(Map<Seq<char>, JsonView>),
}

impl JsonView {
    /// The member stored under `key`, if this is an object that has one.
    pub open spec fn member(self, key: Seq<char>) -> Option<JsonView> {
        match self {
            JsonView::Object(members) => if members.contains_key(key) {
                Some(members[key])
            } else {
                None
            },
            _ => None,
        }
    }

    /// The boolean, if this is one.
    pub open spec fn as_bool(self) -> Option<bool> {
        match self {
            JsonView::Bool(b) => Some(b),
            _ => None,
        }
    }

    /// The text, if this is a string.
    pub open spec fn as_text(self) -> Option<Seq<char>> {
        match self {
            JsonView::Text(text) => Some(text),
            _ => None,
        }
    }

    /// The items in order, if this is an array.
    pub open spec fn as_items(self) -> Option<Seq<JsonView>> {
        match self {
            JsonView::Array(items) => Some(items),
            _ => None,
        }
    }
}

/// `serde_json::Value`, taken as opaque: what one holds is told by
/// `json_model` alone.
#[verifier::external_type_specification]
#[verifier::external_body]
pub struct ExJsonValue(serde_json::Value);

/// The tree that a `serde_json::Value` holds.
pub uninterp spec fn json_model(value: serde_json::Value) -> JsonView;

/// What `serde_json::from_slice` makes of a document: the tree it denotes, or
/// the text of the parser's complaint.
pub uninterp spec fn json_parsed(document: Seq<u8>) -> Result<JsonView, Seq<char>>;

/// What `serde_json::to_string` makes of a string: the JSON string literal
/// that denotes it, quotes included, or the text of the printer's complaint.
pub uninterp spec fn json_quoted(text: Seq<char>) -> Result<Seq<char>, Seq<char>>;

/// The trees that a run of values holds, in order.
pub open spec fn json_models(values: Seq<serde_json::Value>) -> Seq<JsonView> {
    values.map_values(|value: serde_json::Value| json_model(value))
}

/// Parses a document with `serde_json::from_slice`.
///
/// Trusted: the outcome depends on the bytes alone and is the one that
/// `json_parsed` names. On success the value holds the parsed tree; on
/// failure the parser's message is handed back as text.
#[verifier::external_body]
pub(crate) fn parse_json(document: &[u8]) -> (r: Result<serde_json::Value, String>)
    ensures
        (match r {
            Ok(value) => json_parsed(document@) == Ok::<JsonView, Seq<char>>(json_model(value)),
            Err(complaint) => json_parsed(document@) == Err::<JsonView, Seq<char>>(complaint@),
        }),
{
    match serde_json::from_slice::<serde_json::Value>(document) {
        Ok(value) => Ok(value),
        Err(e) => Err(e.to_string()),
    }
}

/// Prints a string as a JSON string literal with `serde_json::to_string`.
///
/// Trusted: the outcome depends on the characters alone and is the one that
/// `json_quoted` names.
#[verifier::external_body]
pub(crate) fn quote_json(text: &str) -> (r: Result<String, String>)
    ensures
        (match r {
            Ok(literal) => json_quoted(text@) == Ok::<Seq<char>, Seq<char>>(literal@),
            Err(complaint) => json_quoted(text@) == Err::<Seq<char>, Seq<char>>(complaint@),
        }),
{
    match serde_json::to_string(text) {
        Ok(literal) => Ok(literal),
        Err(e) => Err(e.to_string()),
    }
}

/// Looks a key up with `serde_json::Value::get`.
///
/// Trusted: an object that has the key yields the member stored under it;
/// an object without the key, and every value that is no object, yields
/// `None`.
#[verifier::external_body]
pub(crate) fn member_of<'a>(value: &'a serde_json::Value, key: &str) -> (r: Option<
    &'a serde_json::Value,
>)
    ensures
        (match r {
            Some(member) => json_model(*value).member(key@) == Some(json_model(*member)),
            None => json_model(*value).member(key@) is None,
        }),
{
    value.get(key)
}

/// Reads a boolean with `serde_json::Value::as_bool`.
///
/// Trusted: `Some` of the boolean when the value is one, `None` otherwise.
#[verifier::external_body]
pub(crate) fn bool_of(value: &serde_json::Value) -> (r: Option<bool>)
    ensures
        r == json_model(*value).as_bool(),
{
    value.as_bool()
}

/// Reads a string with `serde_json::Value::as_str`.
///
/// Trusted: `Some` of the text when the value is a string, `None`
/// otherwise.
#[verifier::external_body]
pub(crate) fn text_of<'a>(value: &'a serde_json::Value) -> (r: Option<&'a str>)
    ensures
        (match r {
            Some(text) => json_model(*value).as_text() == Some(text@),
            None => json_model(*value).as_text() is None,
        }),
{
    value.as_str()
}

/// Reads an array with `serde_json::Value::as_array`.
///
/// Trusted: `Some` of the items in order when the value is an array, `None`
/// otherwise.
#[verifier::external_body]
pub(crate) fn items_of<'a>(value: &'a serde_json::Value) -> (r: Option<
    &'a Vec<serde_json::Value>,
>)
    ensures
        (match r {
            Some(items) => json_model(*value).as_items() == Some(json_models(items@)),
            None => json_model(*value).as_items() is None,
        }),
{
    value.as_array()
}

} // verus!
