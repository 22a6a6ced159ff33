//! What the service reads of a JSON payload: its compact encoding and the
//! members of its top-level object. The payload itself is held as text and
//! read by `serde_json`.

use vstd::prelude::*;

verus! {

/// The kind of a JSON value.
#[derive(Debug, Clone, Copy, PartialEq, Eq, Structural)]
pub enum JsonKind {
    Null,
    Bool,
    Number,
    Text,
    Array,
    Object,
}

/// A member of a JSON object: its name and the kind of its value.
#[derive(Debug)]
pub struct JsonMember {
    pub name: String,
    pub kind: JsonKind,
}

/// The compact encoding of the JSON document that `text` holds, as
/// `serde_json` writes it; `None` where `text` is no JSON document.
pub uninterp spec fn compact_json(text: Seq<char>) -> Option<Seq<u8>>;

/// The members of the JSON object that `text` holds, each with its name and
/// the kind of its value, in the order in which `serde_json` keeps them;
/// `None` where `text` is no JSON object.
pub uninterp spec fn json_members(text: Seq<char>) -> Option<Seq<(Seq<char>, JsonKind)>>;

/// `serde_json::from_str` to a `Value`, then `serde_json::to_vec`: the
/// document of `text` written again without insignificant white space. Both
/// are functions of their argument alone; text that does not parse gives
/// `None`.
#[verifier::external_body]
fn encode_compact(text: &str) -> (bytes: Option<Vec<u8>>)
    ensures
        bytes is Some <==> compact_json(text@) is Some,
        bytes is Some ==> bytes->0@ == compact_json(text@)->0,
{
    match serde_json::from_str::<serde_json::Value>(text) {
        Ok(value) => serde_json::to_vec(&value).ok(),
        Err(_) => None,
    }
}

/// `serde_json::from_str` to a `Map`: the members of the object of `text`,
/// each handed out as its name and the kind of its value. Text that holds
/// anything but one JSON object gives `None`.
#[verifier::external_body]
fn read_members(text: &str) -> (members: Option<Vec<JsonMember>>)
    ensures
        members is Some <==> json_members(text@) is Some,
        members is Some ==> members->0@.len() == json_members(text@)->0.len(),
        members is Some ==> forall|i: int|
            0 <= i < members->0@.len() ==> (#[trigger] members->0@[i]).name@ == json_members(
                text@,
            )->0[i].0 && members->0@[i].kind == json_members(text@)->0[i].1,
{
    let object = serde_json::from_str::<serde_json::Map<String, serde_json::Value>>(text).ok()?;
    let mut members = Vec::new();
    for (name, value) in object {
        let kind = match value {
            serde_json::Value::Null => JsonKind::Null,
            serde_json::Value::Bool(_) => JsonKind::Bool,
            serde_json::Value::Number(_) => JsonKind::Number,
            serde_json::Value::String(_) => JsonKind::Text,
            serde_json::Value::Array(_) => JsonKind::Array,
            serde_json::Value::Object(_) => JsonKind::Object,
        };
        members.push(JsonMember { name, kind });
    }
    Some(members)
}

/// The size in bytes of the compact encoding of `text`, where it is JSON.
pub open spec fn payload_size(text: Seq<char>) -> Option<nat> {
    match compact_json(text) {
        Some(bytes) => Some(bytes.len()),
        None => None,
    }
}

/// Measures a payload: the number of bytes of its compact encoding, or
/// `None` where the payload is not JSON.
pub fn measure_payload(text: &str) -> (size: Option<usize>)
    ensures
        size is Some <==> payload_size(text@) is Some,
        size is Some ==> size->0 as nat == payload_size(text@)->0,
{
    match encode_compact(text) {
        Some(bytes) => Some(bytes.len()),
        None => None,
    }
}

/// The names and kinds of `members`, in order.
pub open spec fn members_view(members: Seq<JsonMember>) -> Seq<(Seq<char>, JsonKind)> {
    Seq::new(members.len(), |i: int| (members[i].name@, members[i].kind))
}

/// The members of the top-level object of a payload, or `None` where the
/// payload is not a JSON object.
pub fn payload_members(text: &str) -> (members: Option<Vec<JsonMember>>)
    ensures
        match json_members(text@) {
            Some(described) => members is Some && members_view(members->0@) == described,
            None => members is None,
        },
{
    let members = read_members(text);
    proof {
        if members is Some {
            assert(members_view(members->0@) =~= json_members(text@)->0);
        }
    }
    members
}

} // verus!
