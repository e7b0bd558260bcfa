//! JSON objects of the `serde_json` crate, as far as a record needs them:
//! an object is made empty, filled member by member and written as bytes.

use vstd::prelude::*;
use serde_json::Value;

verus! {

/// `serde_json::Value`, any JSON value.
#[verifier::external_type_specification]
#[verifier::external_body]
pub struct ExJsonValue(Value);

/// `serde_json::Map`, the members of a JSON object under their keys.
#[verifier::external_type_specification]
#[verifier::external_body]
#[verifier::reject_recursive_types(K)]
#[verifier::reject_recursive_types(V)]
pub struct ExJsonMap<K, V>(serde_json::Map<K, V>);

/// `serde_json::Error`, the error of `serde_json::to_vec`.
#[verifier::external_type_specification]
#[verifier::external_body]
pub struct ExJsonError(serde_json::Error);

/// One member of a JSON object, as far as its value goes.
pub enum JsonMember {
    /// A JSON string, by its text.
    Text(Seq<char>),
    /// A JSON number that is an unsigned integer of 32 bits, by its value.
    Number(u32),
    /// Any other JSON value, by the bytes that `serde_json` writes for it.
    Other(Seq<u8>),
}

/// The members that a JSON object holds, each under its key.
pub uninterp spec fn json_members(object: serde_json::Map<String, Value>) -> Map<
    Seq<char>,
    JsonMember,
>;

/// What `serde_json::to_vec` writes for an object with the members
/// `members`, or the diagnostic of the error that it reports.
pub uninterp spec fn json_text(members: Map<Seq<char>, JsonMember>) -> Result<
    Seq<u8>,
    Seq<char>,
>;

/// The diagnostic of a `serde_json::Error`: the text that its `Display`
/// impl writes.
pub uninterp spec fn json_diagnostic(e: serde_json::Error) -> Seq<char>;

/// `serde_json::Map::new`: an object without members.
#[verifier::external_body]
pub(crate) fn new_object() -> (made: serde_json::Map<String, Value>)
    ensures
        json_members(made) == (Map::<Seq<char>, JsonMember>::empty()),
{
    serde_json::Map::new()
}

/// `serde_json::Map::insert` of a JSON string: afterwards the object holds
/// the string `text` under `key`, in place of what it held there before, and
/// its other members as before.
#[verifier::external_body]
pub(crate) fn insert_text(object: &mut serde_json::Map<String, Value>, key: &str, text: &str)
    ensures
        json_members(*final(object)) == json_members(*old(object)).insert(
            key@,
            JsonMember::Text(text@),
        ),
{
    object.insert(key.to_owned(), Value::from(text));
}

/// `serde_json::Map::insert` of a JSON number: afterwards the object holds
/// the number `n` under `key`, in place of what it held there before, and
/// its other members as before.
#[verifier::external_body]
pub(crate) fn insert_number(object: &mut serde_json::Map<String, Value>, key: &str, n: u32)
    ensures
        json_members(*final(object)) == json_members(*old(object)).insert(
            key@,
            JsonMember::Number(n),
        ),
{
    object.insert(key.to_owned(), Value::from(n));
}

/// `serde_json::to_vec` of an object: the compact JSON text, the members in
/// the order of their keys. The result depends on the members alone. It is
/// never an error: writing into a `Vec` does not fail, the keys of the
/// object are strings, and the `Serialize` impl of `Value` fails only where
/// the writer does.
#[verifier::external_body]
pub(crate) fn object_to_vec(object: &serde_json::Map<String, Value>) -> (r: Result<
    Vec<u8>,
    serde_json::Error,
>)
    ensures
        match r {
            Ok(bytes) => json_text(json_members(*object)) == Ok::<Seq<u8>, Seq<char>>(bytes@),
            Err(e) => json_text(json_members(*object)) == Err::<Seq<u8>, Seq<char>>(
                json_diagnostic(e),
            ),
        },
        r is Ok,
{
    serde_json::to_vec(object)
}

/// `to_string` on a `serde_json::Error`, which runs the `Display` impl of
/// the error: the text of its diagnostic.
#[verifier::external_body]
pub(crate) fn json_error_text(e: &serde_json::Error) -> (text: String)
    ensures
        text@ == json_diagnostic(*e),
{
    e.to_string()
}

} // verus!
