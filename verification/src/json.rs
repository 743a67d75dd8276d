//! Reading the text members of a JSON object held as a `serde_json::Value`.

use vstd::prelude::*;

verus! {

#[verifier::external_type_specification]
#[verifier::external_body]
pub struct ExJsonValue(serde_json::Value);

/// The members of a JSON object whose values are strings, by key. A value
/// that is no object has none.
pub uninterp spec fn string_members(value: serde_json::Value) -> Map<Seq<char>, Seq<char>>;

/// The member `key` of `value`, where `value` is an object that has such a
/// member and the member is a string. Calls `serde_json::Value::get` with a
/// string index, which answers only for an object that holds the key, and
/// `serde_json::Value::as_str` on the member, which answers only for a
/// string; the text is copied out.
#[verifier::external_body]
pub(crate) fn string_member(value: &serde_json::Value, key: &str) -> (text: Option<String>)
    ensures
        match text {
            Some(t) => string_members(*value).contains_key(key@) && string_members(*value)[key@]
                == t@,
            None => !string_members(*value).contains_key(key@),
        },
{
    value.get(key).and_then(serde_json::Value::as_str).map(str::to_owned)
}

} // verus!
