//! JSON documents as plain values, and the lookup of an object's members.

use vstd::prelude::*;

verus! {

/// `serde_json::Value`, which is only handed from the parser to [`lift`].
#[verifier::external_type_specification]
#[verifier::external_body]
pub struct ExJsonValue(serde_json::Value);

/// A JSON number, held the three ways it can be read.
///
/// `unsigned` is set for an integer from zero to `u64::MAX`, `signed` for an
/// integer that fits `i64`, and `real` holds the bit pattern of the number as
/// an IEEE 754 binary64 value.
#[derive(Clone, Copy, Debug, PartialEq, Eq)]
pub struct Number {
    pub unsigned: Option<u64>,
    pub signed: Option<i64>,
    pub real: Option<u64>,
}

/// A JSON document. An object keeps its members as a list of pairs, in the
/// order in which the parser hands them out.
#[derive(Debug, PartialEq, Eq)]
pub enum Json {
    Null,
    Bool(bool),
    Number(Number),
    Text(String),
    Array(Vec<Json>),
    Object(Vec<(String, Json)>),
}

/// The value of the first member named `key` at or after position `start`.
pub open spec fn member_from(members: Seq<(String, Json)>, key: Seq<char>, start: int) -> Option<Json>
    decreases members.len() - start,
{
    if start < 0 || start >= members.len() {
        None
    } else if members[start].0@ == key {
        Some(members[start].1)
    } else {
        member_from(members, key, start + 1)
    }
}

/// The document that `serde_json` reads from `body`, or the text of its
/// complaint.
pub uninterp spec fn json_document(body: Seq<u8>) -> Result<Json, Seq<char>>;

/// The document that a `serde_json::Value` holds.
pub uninterp spec fn value_document(value: serde_json::Value) -> Json;

impl Json {
    /// The value of the first member named `key`; `None` where there is no
    /// such member or the document is not an object.
    pub open spec fn member(self, key: Seq<char>) -> Option<Json> {
        match self {
            Json::Object(members) => member_from(members@, key, 0),
            _ => None,
        }
    }

    /// Looks a member up by its name.
    pub fn get(&self, key: &str) -> (found: Option<&Json>)
        ensures
            match found {
                Some(value) => self.member(key@) == Some(*value),
                None => self.member(key@) is None,
            },
    {
        match self {
            Json::Object(members) => {
                let wanted = key.to_owned();
                let mut at: usize = 0;
                while at < members.len()
                    invariant
                        at <= members.len(),
                        wanted@ == key@,
                        self.member(key@) == member_from(members@, key@, at as int),
                    decreases members.len() - at,
                {
                    if members[at].0 == wanted {
                        return Some(&members[at].1);
                    }
                    at += 1;
                }
                None
            },
            _ => None,
        }
    }

    /// Reads `body` as JSON text; where it is none, the error says where
    /// and why.
    pub fn parse(body: &[u8]) -> (outcome: Result<Json, String>)
        ensures
            match outcome {
                Ok(document) => json_document(body@) == Ok::<Json, Seq<char>>(document),
                Err(complaint) => json_document(body@) == Err::<Json, Seq<char>>(complaint@),
            },
    {
        match read_value(body) {
            Ok(value) => Ok(lift(value)),
            Err(complaint) => Err(complaint),
        }
    }
}

/// A member is found where its name first stands: no member before it has
/// the name.
pub proof fn lemma_member_is_first_of_its_name(members: Seq<(String, Json)>, key: Seq<char>, start: int) -> (at: int)
    requires
        0 <= start,
        member_from(members, key, start) is Some,
    ensures
        start <= at < members.len(),
        members[at].0@ == key,
        member_from(members, key, start) == Some(members[at].1),
        forall|i: int| start <= i < at ==> (#[trigger] members[i]).0@ != key,
    decreases members.len() - start,
{
    if members[start].0@ == key {
        start
    } else {
        lemma_member_is_first_of_its_name(members, key, start + 1)
    }
}

/// No member is found exactly where no member has the name.
pub proof fn lemma_no_member_of_its_name(members: Seq<(String, Json)>, key: Seq<char>, start: int)
    requires
        0 <= start,
    ensures
        member_from(members, key, start) is None <==> forall|i: int|
            start <= i < members.len() ==> (#[trigger] members[i]).0@ != key,
    decreases members.len() - start,
{
    if start < members.len() {
        lemma_no_member_of_its_name(members, key, start + 1);
    }
}

/// Turns a `serde_json::Value` into a [`Json`], variant for variant; a number
/// is read through `Number::as_u64`, `as_i64` and `as_f64`. The contract
/// names the result: it is what the value holds.
#[verifier::external_body]
fn lift(value: serde_json::Value) -> (document: Json)
    ensures
        document == value_document(value),
{
    match value {
        serde_json::Value::Null => Json::Null,
        serde_json::Value::Bool(b) => Json::Bool(b),
        serde_json::Value::Number(n) => Json::Number(
            Number { unsigned: n.as_u64(), signed: n.as_i64(), real: n.as_f64().map(|x| x.to_bits()) },
        ),
        serde_json::Value::String(s) => Json::Text(s),
        serde_json::Value::Array(items) => Json::Array(items.into_iter().map(lift).collect()),
        serde_json::Value::Object(members) => Json::Object(
            members.into_iter().map(|(key, value)| (key, lift(value))).collect(),
        ),
    }
}

/// Calls `serde_json::from_slice` for a `serde_json::Value`, and hands an
/// error over as its text. The contract only names the outcome: the same
/// bytes give a value that holds the same document, or the same complaint.
#[verifier::external_body]
fn read_value(body: &[u8]) -> (outcome: Result<serde_json::Value, String>)
    ensures
        match outcome {
            Ok(value) => json_document(body@) == Ok::<Json, Seq<char>>(value_document(value)),
            Err(complaint) => json_document(body@) == Err::<Json, Seq<char>>(complaint@),
        },
{
    serde_json::from_slice::<serde_json::Value>(body).map_err(|error| error.to_string())
}

} // verus!
