//! The nullable-field decoding policy.
//!
//! The remote system writes JSON `false` where a field has no value,
//! whatever the field's declared type. A statically-declared field
//! cannot hold "string or `false`", so the caller opts a field into
//! this policy: a decode failure becomes "absent" instead of an error,
//! and a successful decode becomes "present". The policy swallows any
//! decode failure, not only the `false`-for-no-value convention, so a
//! field that genuinely expects a boolean must not opt in.

use vstd::prelude::*;

use crate::error::Error;
use crate::json::{JsonData, JsonValue, json_data_of};

verus! {

/// The shape a caller declares for a field.
#[derive(Debug, Clone, Copy, PartialEq, Eq, Structural)]
pub enum FieldKind {
    Null,
    Bool,
    UInt,
    /// A number outside the unsigned 64-bit range, held as its decimal
    /// wire text.
    Num,
    Str,
    Array,
    Object,
}

/// The shape a JSON value actually has.
pub open spec fn kind_of(d: JsonData) -> FieldKind {
    match d {
        JsonData::Null => FieldKind::Null,
        JsonData::Bool(_) => FieldKind::Bool,
        JsonData::UInt(_) => FieldKind::UInt,
        JsonData::Num(_) => FieldKind::Num,
        JsonData::Str(_) => FieldKind::Str,
        JsonData::Array(_) => FieldKind::Array,
        JsonData::Object(_) => FieldKind::Object,
    }
}

/// Standard decoding of a raw value at a declared shape: the value
/// itself when the shapes agree, nothing otherwise.
pub open spec fn decoded_at_kind(d: JsonData, kind: FieldKind) -> Option<JsonData> {
    if kind_of(d) == kind {
        Some(d)
    } else {
        None
    }
}

pub fn kind_of_value(v: &JsonValue) -> (k: FieldKind)
    ensures
        k == kind_of(v@),
{
    match v {
        JsonValue::Null => FieldKind::Null,
        JsonValue::Bool(_) => FieldKind::Bool,
        JsonValue::UInt(_) => FieldKind::UInt,
        JsonValue::Num(_) => FieldKind::Num,
        JsonValue::Str(_) => FieldKind::Str,
        JsonValue::Array(_) => FieldKind::Array,
        JsonValue::Object(_) => FieldKind::Object,
    }
}

/// Strict decoding: a value of a different shape than declared is a
/// decode error.
pub fn decode_field(v: JsonValue, kind: FieldKind) -> (r: Result<JsonValue, Error>)
    ensures
        kind_of(v@) == kind ==> r == Ok::<JsonValue, Error>(v),
        kind_of(v@) != kind ==> (r matches Err(e) && e is Decode),
{
    if kind_of_value(&v) == kind {
        Ok(v)
    } else {
        Err(Error::Decode("field has a different shape than declared".to_owned()))
    }
}

/// The adapter: decoding under the nullable policy. A decode failure —
/// in particular the remote convention of `false` for "no value" — is
/// absorbed into "absent"; a successful decode is "present".
pub fn decode_nullable(v: JsonValue, kind: FieldKind) -> (r: Option<JsonValue>)
    ensures
        kind_of(v@) == kind ==> r == Some(v),
        kind_of(v@) != kind ==> r is None,
        match r {
            Some(w) => decoded_at_kind(v@, kind) == Some(json_data_of(w)),
            None => decoded_at_kind(v@, kind) is None,
        },
{
    if kind_of_value(&v) == kind {
        Some(v)
    } else {
        None
    }
}

/// The same policy in its general form, over any decoding outcome: a
/// successful decode is kept, any failure becomes "absent" rather than
/// an error.
pub fn nullable_of<E, F>(r: Result<E, F>) -> (o: Option<E>)
    ensures
        r matches Ok(e) ==> o == Some(e),
        r is Err ==> o is None,
{
    match r {
        Ok(e) => Some(e),
        Err(_) => None,
    }
}

/// Law: a raw value of JSON `false` decodes to "absent" under the
/// nullable policy at every non-boolean declared shape.
pub proof fn lemma_nullable_false_absent(kind: FieldKind)
    requires
        kind != FieldKind::Bool,
    ensures
        decoded_at_kind(JsonData::Bool(false), kind) is None,
{
}

/// Law: a raw value of the declared shape decodes to "present" with
/// exactly that value under the nullable policy.
pub proof fn lemma_nullable_well_typed_present(d: JsonData, kind: FieldKind)
    requires
        kind_of(d) == kind,
    ensures
        decoded_at_kind(d, kind) == Some(d),
{
}

} // verus!
