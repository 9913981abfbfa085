//! Records as lists of named fields, and the reading of one field from a
//! JSON object.

use vstd::prelude::*;
use crate::error::DecodeError;
use crate::json::{member_from, Json, Number};
use crate::time::{instant_of, parse_instant, Timestamp};

verus! {

/// What the member behind a field must hold.
pub enum Kind {
    /// Text that reads as a date and time.
    Instant,
    /// A whole number from zero to the given bound.
    Count(u64),
    /// Any number.
    Measure,
    /// Any text.
    Text,
    /// An object.
    Record,
}

/// A field of a record: the name of its member on the wire, and its kind.
pub type Field = (&'static str, Kind);

/// Whether `value` is of kind `kind`.
pub open spec fn fits(value: Json, kind: Kind) -> bool {
    match kind {
        Kind::Instant => value matches Json::Text(text) && instant_of(text@) is Some,
        Kind::Count(bound) => value matches Json::Number(number) && number.unsigned matches Some(count)
            && count <= bound,
        Kind::Measure => value is Number,
        Kind::Text => value is Text,
        Kind::Record => value is Object,
    }
}

/// What is wrong with the field `name` of kind `kind` in `document`, if
/// anything.
pub open spec fn fault(document: Json, name: &'static str, kind: Kind) -> Option<DecodeError> {
    match document.member(name@) {
        None => Some(DecodeError::Missing(name)),
        Some(value) => if fits(value, kind) {
            None
        } else {
            Some(DecodeError::Mistyped(name))
        },
    }
}

/// The fault of the first field at or after position `start` of `fields`
/// that `document` does not meet.
pub open spec fn first_fault(document: Json, fields: Seq<Field>, start: int) -> Option<DecodeError>
    decreases fields.len() - start,
{
    if start < 0 || start >= fields.len() {
        None
    } else {
        match fault(document, fields[start].0, fields[start].1) {
            Some(error) => Some(error),
            None => first_fault(document, fields, start + 1),
        }
    }
}

/// The instant in the member `name`.
pub open spec fn instant_at(document: Json, name: Seq<char>) -> Timestamp {
    instant_of(document.member(name)->Some_0->Text_0@)->Some_0
}

/// The whole number in the member `name`.
pub open spec fn count_at(document: Json, name: Seq<char>) -> u64 {
    document.member(name)->Some_0->Number_0.unsigned->Some_0
}

/// The number in the member `name`.
pub open spec fn measure_at(document: Json, name: Seq<char>) -> Number {
    document.member(name)->Some_0->Number_0
}

/// The text in the member `name`.
pub open spec fn text_at(document: Json, name: Seq<char>) -> Seq<char> {
    document.member(name)->Some_0->Text_0@
}

/// The object in the member `name`.
pub open spec fn record_at(document: Json, name: Seq<char>) -> Json {
    document.member(name)->Some_0
}

/// Reads the instant in the member `name`.
pub fn read_instant(document: &Json, name: &'static str) -> (outcome: Result<Timestamp, DecodeError>)
    ensures
        match outcome {
            Ok(instant) => fault(*document, name, Kind::Instant) is None && instant == instant_at(
                *document,
                name@,
            ),
            Err(error) => fault(*document, name, Kind::Instant) == Some(error),
        },
{
    match document.get(name) {
        None => Err(DecodeError::Missing(name)),
        Some(Json::Text(text)) => match parse_instant(text.as_str()) {
            Some(instant) => Ok(instant),
            None => Err(DecodeError::Mistyped(name)),
        },
        Some(_) => Err(DecodeError::Mistyped(name)),
    }
}

/// Reads the whole number in the member `name`, which may be `bound` at
/// most.
pub fn read_count(document: &Json, name: &'static str, bound: u64) -> (outcome: Result<u64, DecodeError>)
    ensures
        match outcome {
            Ok(count) => fault(*document, name, Kind::Count(bound)) is None && count == count_at(
                *document,
                name@,
            ),
            Err(error) => fault(*document, name, Kind::Count(bound)) == Some(error),
        },
{
    match document.get(name) {
        None => Err(DecodeError::Missing(name)),
        Some(Json::Number(number)) => match number.unsigned {
            Some(count) => if count <= bound {
                Ok(count)
            } else {
                Err(DecodeError::Mistyped(name))
            },
            None => Err(DecodeError::Mistyped(name)),
        },
        Some(_) => Err(DecodeError::Mistyped(name)),
    }
}

/// Reads the number in the member `name`.
pub fn read_measure(document: &Json, name: &'static str) -> (outcome: Result<Number, DecodeError>)
    ensures
        match outcome {
            Ok(number) => fault(*document, name, Kind::Measure) is None && number == measure_at(
                *document,
                name@,
            ),
            Err(error) => fault(*document, name, Kind::Measure) == Some(error),
        },
{
    match document.get(name) {
        None => Err(DecodeError::Missing(name)),
        Some(Json::Number(number)) => Ok(*number),
        Some(_) => Err(DecodeError::Mistyped(name)),
    }
}

/// Reads the text in the member `name`.
pub fn read_text(document: &Json, name: &'static str) -> (outcome: Result<String, DecodeError>)
    ensures
        match outcome {
            Ok(text) => fault(*document, name, Kind::Text) is None && text@ == text_at(*document, name@),
            Err(error) => fault(*document, name, Kind::Text) == Some(error),
        },
{
    match document.get(name) {
        None => Err(DecodeError::Missing(name)),
        Some(Json::Text(text)) => Ok(text.clone()),
        Some(_) => Err(DecodeError::Mistyped(name)),
    }
}

/// Finds the object in the member `name`.
pub fn read_record<'a>(document: &'a Json, name: &'static str) -> (outcome: Result<&'a Json, DecodeError>)
    ensures
        match outcome {
            Ok(record) => fault(*document, name, Kind::Record) is None && *record == record_at(
                *document,
                name@,
            ),
            Err(error) => fault(*document, name, Kind::Record) == Some(error),
        },
{
    match document.get(name) {
        None => Err(DecodeError::Missing(name)),
        Some(value) => match value {
            Json::Object(_) => Ok(value),
            _ => Err(DecodeError::Mistyped(name)),
        },
    }
}

/// Whether `outcome` is `wanted`, a record compared by its view.
pub open spec fn decoded<T: View>(outcome: Result<T, DecodeError>, wanted: Result<T::V, DecodeError>) -> bool {
    match outcome {
        Ok(record) => wanted == Ok::<T::V, DecodeError>(record@),
        Err(error) => wanted == Err::<T::V, DecodeError>(error),
    }
}

/// There is no fault from `start` on exactly when every field from there on
/// is met.
pub proof fn lemma_no_fault_when_all_fit(document: Json, fields: Seq<Field>, start: int)
    requires
        0 <= start,
    ensures
        first_fault(document, fields, start) is None <==> forall|i: int|
            start <= i < fields.len() ==> fault(document, (#[trigger] fields[i]).0, fields[i].1) is None,
    decreases fields.len() - start,
{
    if start < fields.len() {
        lemma_no_fault_when_all_fit(document, fields, start + 1);
    }
}

/// The first fault is the fault of a field before which every field is met.
pub proof fn lemma_first_fault_is_first(document: Json, fields: Seq<Field>, start: int) -> (at: int)
    requires
        0 <= start,
        first_fault(document, fields, start) is Some,
    ensures
        start <= at < fields.len(),
        fault(document, fields[at].0, fields[at].1) == first_fault(document, fields, start),
        forall|i: int| start <= i < at ==> fault(document, (#[trigger] fields[i]).0, fields[i].1) is None,
    decreases fields.len() - start,
{
    if fault(document, fields[start].0, fields[start].1) is Some {
        start
    } else {
        lemma_first_fault_is_first(document, fields, start + 1)
    }
}

/// Whether `name` is the name of one of `fields`.
pub open spec fn names(fields: Seq<Field>, name: Seq<char>) -> bool {
    exists|i: int| 0 <= i < fields.len() && (#[trigger] fields[i]).0@ == name
}

/// Whether `after` is the object `before` with the member `extra` put in
/// at position `at`.
pub open spec fn with_member(before: Json, after: Json, at: int, extra: (String, Json)) -> bool {
    &&& before matches Json::Object(old_members)
    &&& after matches Json::Object(new_members)
    &&& 0 <= at <= old_members@.len()
    &&& new_members@ == old_members@.insert(at, extra)
}

proof fn lemma_member_behind_insert(
    members: Seq<(String, Json)>,
    at: int,
    extra: (String, Json),
    key: Seq<char>,
    start: int,
)
    requires
        0 <= at <= start <= members.len(),
    ensures
        member_from(members.insert(at, extra), key, start + 1) == member_from(members, key, start),
    decreases members.len() - start,
{
    if start < members.len() {
        lemma_member_behind_insert(members, at, extra, key, start + 1);
    }
}

proof fn lemma_member_before_insert(
    members: Seq<(String, Json)>,
    at: int,
    extra: (String, Json),
    key: Seq<char>,
    start: int,
)
    requires
        0 <= start <= at <= members.len(),
        extra.0@ != key,
    ensures
        member_from(members.insert(at, extra), key, start) == member_from(members, key, start),
    decreases at - start,
{
    if start < at {
        lemma_member_before_insert(members, at, extra, key, start + 1);
    } else {
        lemma_member_behind_insert(members, at, extra, key, start);
    }
}

/// A member put into an object leaves every member of another name as it
/// was.
pub proof fn lemma_other_members_stay(before: Json, after: Json, at: int, extra: (String, Json), key: Seq<char>)
    requires
        with_member(before, after, at, extra),
        extra.0@ != key,
    ensures
        after.member(key) == before.member(key),
{
    lemma_member_before_insert(before->Object_0@, at, extra, key, 0);
}

/// Two documents that agree on the members that `fields` name have the
/// same first fault.
pub proof fn lemma_first_fault_reads_fields(a: Json, b: Json, fields: Seq<Field>, start: int)
    requires
        forall|i: int| 0 <= i < fields.len() ==> a.member((#[trigger] fields[i]).0@) == b.member(fields[i].0@),
    ensures
        first_fault(a, fields, start) == first_fault(b, fields, start),
    decreases fields.len() - start,
{
    if 0 <= start < fields.len() {
        lemma_first_fault_reads_fields(a, b, fields, start + 1);
    }
}

/// A document that lacks a member that `fields` name has a fault.
pub proof fn lemma_missing_member_is_a_fault(document: Json, fields: Seq<Field>, which: int, start: int)
    requires
        0 <= start <= which < fields.len(),
        document.member(fields[which].0@) is None,
    ensures
        first_fault(document, fields, start) is Some,
    decreases which - start,
{
    if start < which {
        lemma_missing_member_is_a_fault(document, fields, which, start + 1);
    }
}

} // verus!
