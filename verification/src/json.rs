//! The JSON reader under the codec. Documents are read by `serde_json`; the
//! items of this file say what the library takes on trust about it.

use serde_json::Value;
use vstd::prelude::*;

verus! {

#[verifier::external_type_specification]
#[verifier::external_body]
pub struct ExValue(serde_json::Value);

#[verifier::external_type_specification]
#[verifier::external_body]
pub struct ExJsonError(serde_json::Error);

#[verifier::external_type_specification]
#[verifier::external_body]
pub struct ExNumber(serde_json::Number);

/// What a document holds under one key, as far as the codec looks: the kind of
/// the value, with the number or the string where it is one.
#[derive(Debug)]
pub enum Member {
    Null,
    Flag,
    Number(serde_json::Number),
    Text(String),
    Array,
    Object,
}

/// A `Member` in specifications.
pub enum MemberView {
    Null,
    Flag,
    Number(serde_json::Number),
    Text(Seq<char>),
    Array,
    Object,
}

impl View for Member {
    type V = MemberView;

    open spec fn view(&self) -> MemberView {
        match *self {
            Member::Null => MemberView::Null,
            Member::Flag => MemberView::Flag,
            Member::Number(n) => MemberView::Number(n),
            Member::Text(s) => MemberView::Text(s@),
            Member::Array => MemberView::Array,
            Member::Object => MemberView::Object,
        }
    }
}

/// What `serde_json::from_str` returns for `text`, read as one JSON value.
pub uninterp spec fn json_parse(text: Seq<char>) -> Result<Value, serde_json::Error>;

/// The message that a `serde_json::Error` displays.
pub uninterp spec fn json_error_text(error: serde_json::Error) -> Seq<char>;

/// The members of a JSON object by key. A document that is no object has none.
pub uninterp spec fn json_members(document: Value) -> Map<Seq<char>, MemberView>;

/// The value of a JSON number that is a whole number from 0 to `u64::MAX`;
/// `None` for a negative number and for one with a fraction or an exponent.
pub uninterp spec fn json_natural(number: serde_json::Number) -> Option<u64>;

/// `serde_json::from_str` at type `Value`. The outcome depends on the text
/// alone, so it has a name; nothing else is claimed of it.
#[verifier::external_body]
pub(crate) fn parse_json(text: &str) -> (r: Result<Value, serde_json::Error>)
    ensures
        r == json_parse(text@),
{
    serde_json::from_str::<Value>(text)
}

/// `to_string` of a `serde_json::Error`: its `Display` text, which is fixed by
/// the error.
#[verifier::external_body]
pub(crate) fn error_text(error: &serde_json::Error) -> (r: String)
    ensures
        r@ == json_error_text(*error),
{
    error.to_string()
}

/// `Value::get` with a string key: the value under `key` when the document is
/// an object that has the key, told apart by variant; `None` otherwise.
#[verifier::external_body]
pub(crate) fn member_of(document: &Value, key: &str) -> (r: Option<Member>)
    ensures
        r.is_some() == json_members(*document).contains_key(key@),
        r matches Some(m) ==> m@ == json_members(*document)[key@],
{
    match document.get(key) {
        None => None,
        Some(Value::Null) => Some(Member::Null),
        Some(Value::Bool(_)) => Some(Member::Flag),
        Some(Value::Number(n)) => Some(Member::Number(n.clone())),
        Some(Value::String(s)) => Some(Member::Text(s.clone())),
        Some(Value::Array(_)) => Some(Member::Array),
        Some(Value::Object(_)) => Some(Member::Object),
    }
}

/// `Number::as_u64`: the number as a `u64` where it is an integer that fits,
/// and `None` otherwise.
#[verifier::external_body]
pub(crate) fn natural_of(number: &serde_json::Number) -> (r: Option<u64>)
    ensures
        r == json_natural(*number),
{
    number.as_u64()
}

} // verus!
