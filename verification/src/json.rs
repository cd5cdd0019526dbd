//! A self-contained model of JSON data.
//!
//! The remote protocol mixes strings, numbers, booleans, arrays and
//! objects in one positional parameter list, so requests and responses
//! are held as a tagged union. Object entries keep their order: the
//! wire format is ordered and the contracts speak of exact positions.
//!
//! The numbers this core interprets — ids, counts, paging — are
//! unsigned 64-bit integers and are held as such. Every other JSON
//! number (negative, fractional, oversized) is carried opaquely as its
//! decimal wire text: the core never reads one, only passes it through
//! in domains, argument lists and decoded records.

use vstd::prelude::*;

verus! {

broadcast use vstd::std_specs::vec::group_vec_axioms;

/// Specification-level JSON document: strings as character sequences,
/// arrays and objects as sequences. Object entries are ordered pairs.
pub enum JsonData {
    Null,
    Bool(bool),
    UInt(u64),
    Num(Seq<char>),
    Str(Seq<char>),
    Array(Seq<JsonData>),
    Object(Seq<(Seq<char>, JsonData)>),
}

/// Executable JSON value, the payload type of envelopes: positional
/// request parameters and decoded response bodies.
#[derive(Debug, PartialEq)]
pub enum JsonValue {
    Null,
    Bool(bool),
    UInt(u64),
    /// A number that is not an unsigned 64-bit integer, as its decimal
    /// wire text. Opaque to the core: built and read only at the
    /// transport boundary.
    Num(String),
    Str(String),
    Array(Vec<JsonValue>),
    Object(Vec<(String, JsonValue)>),
}

/// The document a value stands for.
pub open spec fn json_data_of(v: JsonValue) -> JsonData
    decreases v,
{
    match v {
        JsonValue::Null => JsonData::Null,
        JsonValue::Bool(b) => JsonData::Bool(b),
        JsonValue::UInt(n) => JsonData::UInt(n),
        JsonValue::Num(s) => JsonData::Num(s@),
        JsonValue::Str(s) => JsonData::Str(s@),
        JsonValue::Array(a) => JsonData::Array(json_data_of_seq(a@)),
        JsonValue::Object(o) => JsonData::Object(json_data_of_entries(o@)),
    }
}

pub open spec fn json_data_of_seq(s: Seq<JsonValue>) -> Seq<JsonData>
    decreases s,
{
    if s.len() == 0 {
        Seq::empty()
    } else {
        json_data_of_seq(s.drop_last()).push(json_data_of(s.last()))
    }
}

pub open spec fn json_data_of_entries(s: Seq<(String, JsonValue)>) -> Seq<(Seq<char>, JsonData)>
    decreases s,
{
    if s.len() == 0 {
        Seq::empty()
    } else {
        json_data_of_entries(s.drop_last()).push((s.last().0@, json_data_of(s.last().1)))
    }
}

impl View for JsonValue {
    type V = JsonData;

    open spec fn view(&self) -> JsonData {
        json_data_of(*self)
    }
}

pub broadcast proof fn lemma_json_data_of_seq_len(s: Seq<JsonValue>)
    ensures
        (#[trigger] json_data_of_seq(s)).len() == s.len(),
    decreases s,
{
    if s.len() != 0 {
        lemma_json_data_of_seq_len(s.drop_last());
    }
}

pub broadcast proof fn lemma_json_data_of_seq_index(s: Seq<JsonValue>, i: int)
    requires
        0 <= i < s.len(),
    ensures
        #[trigger] json_data_of_seq(s)[i] == json_data_of(s[i]),
    decreases s,
{
    lemma_json_data_of_seq_len(s);
    if i < s.len() - 1 {
        lemma_json_data_of_seq_index(s.drop_last(), i);
        lemma_json_data_of_seq_len(s.drop_last());
    } else {
        lemma_json_data_of_seq_len(s.drop_last());
    }
}

pub broadcast proof fn lemma_json_data_of_entries_len(s: Seq<(String, JsonValue)>)
    ensures
        (#[trigger] json_data_of_entries(s)).len() == s.len(),
    decreases s,
{
    if s.len() != 0 {
        lemma_json_data_of_entries_len(s.drop_last());
    }
}

pub broadcast proof fn lemma_json_data_of_entries_index(s: Seq<(String, JsonValue)>, i: int)
    requires
        0 <= i < s.len(),
    ensures
        #[trigger] json_data_of_entries(s)[i] == (s[i].0@, json_data_of(s[i].1)),
    decreases s,
{
    lemma_json_data_of_entries_len(s);
    if i < s.len() - 1 {
        lemma_json_data_of_entries_index(s.drop_last(), i);
        lemma_json_data_of_entries_len(s.drop_last());
    } else {
        lemma_json_data_of_entries_len(s.drop_last());
    }
}

pub broadcast group group_json_model {
    lemma_json_data_of_seq_len,
    lemma_json_data_of_seq_index,
    lemma_json_data_of_entries_len,
    lemma_json_data_of_entries_index,
}

/// A string value, copied from a slice.
pub fn json_str(s: &str) -> (v: JsonValue)
    ensures
        v@ == JsonData::Str(s@),
{
    JsonValue::Str(s.to_owned())
}

/// A `u32` read from a JSON value: present exactly when the value is an
/// unsigned number that fits.
pub open spec fn u32_of(d: JsonData) -> Option<u32> {
    match d {
        JsonData::UInt(n) => if n <= u32::MAX { Some(n as u32) } else { None },
        _ => None,
    }
}

pub fn u32_of_value(v: &JsonValue) -> (r: Option<u32>)
    ensures
        r == u32_of(v@),
{
    match v {
        JsonValue::UInt(n) => {
            if *n <= u32::MAX as u64 {
                Some(*n as u32)
            } else {
                None
            }
        },
        _ => None,
    }
}

} // verus!
