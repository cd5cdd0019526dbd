//! The RPC envelope codec.
//!
//! Outbound: a request envelope of service name, optional top-level
//! method, strictly positional parameters, and a correlation id, turned
//! into its wire JSON object. Inbound: a response envelope unwrapped
//! into the decoded payload or a structured remote error. Exactly one
//! of the response fields `result` and `error` may be bound; anything
//! else is a malformed response.

use vstd::prelude::*;

use crate::error::Error;
use crate::json::{JsonData, JsonValue, json_data_of, json_data_of_entries, json_data_of_seq};

verus! {

broadcast use crate::json::group_json_model;

/// The correlation id stamped on every request. Its value carries no
/// meaning at this layer; the remote server merely echoes it.
pub const REQUEST_ID: u64 = 1;

/// Outbound request envelope.
#[derive(Debug, PartialEq)]
pub struct Request {
    pub service: String,
    pub method: Option<String>,
    pub params: Vec<JsonValue>,
    pub id: u64,
}

/// Model of a request envelope.
#[verifier::ext_equal]
pub struct RequestData {
    pub service: Seq<char>,
    pub method: Option<Seq<char>>,
    pub params: Seq<JsonData>,
    pub id: u64,
}

impl View for Request {
    type V = RequestData;

    open spec fn view(&self) -> RequestData {
        RequestData {
            service: self.service@,
            method: match self.method {
                Some(m) => Some(m@),
                None => None,
            },
            params: json_data_of_seq(self.params@),
            id: self.id,
        }
    }
}

impl Request {
    /// A fresh envelope around the given positional parameters.
    pub fn new(service: &str, method: Option<&str>, params: Vec<JsonValue>) -> (r: Request)
        ensures
            r@ == (RequestData {
                service: service@,
                method: match method {
                    Some(m) => Some(m@),
                    None => None,
                },
                params: json_data_of_seq(params@),
                id: REQUEST_ID,
            }),
    {
        Request {
            service: service.to_owned(),
            method: match method {
                Some(m) => Some(m.to_owned()),
                None => None,
            },
            params,
            id: REQUEST_ID,
        }
    }

    /// The wire shape of the envelope: an object with exactly the
    /// fields "service", "method" (JSON null when no top-level method
    /// travels), "params" and "id", in this order.
    pub fn into_json(self) -> (v: JsonValue)
        ensures
            v@ == request_wire(self@),
    {
        let method_value = match self.method {
            Some(m) => JsonValue::Str(m),
            None => JsonValue::Null,
        };
        let mut entries: Vec<(String, JsonValue)> = Vec::new();
        entries.push(("service".to_owned(), JsonValue::Str(self.service)));
        entries.push(("method".to_owned(), method_value));
        entries.push(("params".to_owned(), JsonValue::Array(self.params)));
        entries.push(("id".to_owned(), JsonValue::UInt(self.id)));
        proof {
            assert(json_data_of_entries(entries@) =~= request_wire(self@)->Object_0);
        }
        JsonValue::Object(entries)
    }
}

/// The wire JSON object of a request envelope.
pub open spec fn request_wire(r: RequestData) -> JsonData {
    JsonData::Object(
        seq![
            ("service"@, JsonData::Str(r.service)),
            (
                "method"@,
                match r.method {
                    Some(m) => JsonData::Str(m),
                    None => JsonData::Null,
                },
            ),
            ("params"@, JsonData::Array(r.params)),
            ("id"@, JsonData::UInt(r.id)),
        ],
    )
}

/// The first value bound to `key`, scanning object entries from the
/// left.
pub open spec fn entries_lookup(entries: Seq<(Seq<char>, JsonData)>, key: Seq<char>) -> Option<
    JsonData,
>
    decreases entries.len(),
{
    if entries.len() == 0 {
        None
    } else if entries[0].0 == key {
        Some(entries[0].1)
    } else {
        entries_lookup(entries.drop_first(), key)
    }
}

pub proof fn lemma_entries_lookup_at(
    entries: Seq<(Seq<char>, JsonData)>,
    key: Seq<char>,
    i: int,
)
    requires
        0 <= i < entries.len(),
        entries[i].0 == key,
        forall|j: int| 0 <= j < i ==> entries[j].0 != key,
    ensures
        entries_lookup(entries, key) == Some(entries[i].1),
    decreases i,
{
    if i > 0 {
        lemma_entries_lookup_at(entries.drop_first(), key, i - 1);
    }
}

pub proof fn lemma_entries_lookup_none(entries: Seq<(Seq<char>, JsonData)>, key: Seq<char>)
    requires
        forall|j: int| 0 <= j < entries.len() ==> entries[j].0 != key,
    ensures
        entries_lookup(entries, key) is None,
    decreases entries.len(),
{
    if entries.len() > 0 {
        lemma_entries_lookup_none(entries.drop_first(), key);
    }
}

/// Index of the first entry named `key`, if any.
pub fn lookup_index(entries: &Vec<(String, JsonValue)>, key: &str) -> (r: Option<usize>)
    ensures
        match r {
            Some(i) => 0 <= i < entries@.len() && entries@[i as int].0@ == key@ && (forall|j: int|
                0 <= j < i ==> entries@[j].0@ != key@),
            None => forall|j: int| 0 <= j < entries@.len() ==> entries@[j].0@ != key@,
        },
{
    let key_owned = key.to_owned();
    let mut i: usize = 0;
    while i < entries.len()
        invariant
            key_owned@ == key@,
            i <= entries@.len(),
            forall|j: int| 0 <= j < i ==> entries@[j].0@ != key@,
        decreases entries@.len() - i,
    {
        if entries[i].0 == key_owned {
            return Some(i);
        }
        i = i + 1;
    }
    None
}

/// The response envelope is a well-formed success: an object binding
/// "result" and not "error".
pub open spec fn response_is_success(v: JsonData) -> bool {
    &&& v matches JsonData::Object(es)
    &&& entries_lookup(es, "result"@) is Some
    &&& entries_lookup(es, "error"@) is None
}

/// The decoded payload of a successful envelope.
pub open spec fn response_success_value(v: JsonData) -> JsonData
    recommends
        response_is_success(v),
{
    match v {
        JsonData::Object(es) => match entries_lookup(es, "result"@) {
            Some(d) => d,
            None => JsonData::Null,
        },
        _ => JsonData::Null,
    }
}

/// The response envelope reports a remote-side failure: an object
/// binding "error" and not "result".
pub open spec fn response_is_remote_error(v: JsonData) -> bool {
    &&& v matches JsonData::Object(es)
    &&& entries_lookup(es, "error"@) is Some
    &&& entries_lookup(es, "result"@) is None
}

/// The server-provided message inside the error value, empty when the
/// error value carries none.
pub open spec fn remote_error_message(v: JsonData) -> Seq<char> {
    match v {
        JsonData::Object(es) => match entries_lookup(es, "error"@) {
            Some(JsonData::Object(ee)) => match entries_lookup(ee, "message"@) {
                Some(JsonData::Str(m)) => m,
                _ => Seq::empty(),
            },
            _ => Seq::empty(),
        },
        _ => Seq::empty(),
    }
}

/// Unwrap a response envelope: the payload when exactly "result" is
/// bound, the remote error when exactly "error" is bound, and a decode
/// failure for every other shape.
pub fn decode_response(v: JsonValue) -> (r: Result<JsonValue, Error>)
    ensures
        r is Ok <==> response_is_success(v@),
        r matches Ok(d) ==> d@ == response_success_value(v@),
        response_is_remote_error(v@) ==> (r matches Err(e) && e matches Error::Remote(m)
            && m@ == remote_error_message(v@)),
        !response_is_success(v@) && !response_is_remote_error(v@) ==> (r matches Err(e)
            && e is Decode),
{
    match v {
        JsonValue::Object(mut entries) => {
            let res_idx = lookup_index(&entries, "result");
            let err_idx = lookup_index(&entries, "error");
            proof {
                let m = json_data_of_entries(entries@);
                match res_idx {
                    Some(i) => {
                        lemma_entries_lookup_at(m, "result"@, i as int);
                    },
                    None => {
                        lemma_entries_lookup_none(m, "result"@);
                    },
                }
                match err_idx {
                    Some(i) => {
                        lemma_entries_lookup_at(m, "error"@, i as int);
                    },
                    None => {
                        lemma_entries_lookup_none(m, "error"@);
                    },
                }
            }
            match (res_idx, err_idx) {
                (Some(i), None) => {
                    let pair = entries.remove(i);
                    Ok(pair.1)
                },
                (None, Some(j)) => {
                    let msg = remote_message_at(&entries, j);
                    Err(Error::Remote(msg))
                },
                _ => Err(Error::Decode("malformed response envelope".to_owned())),
            }
        },
        _ => Err(Error::Decode("response is not an object".to_owned())),
    }
}

/// The message carried by the error value at entry `j`.
fn remote_message_at(entries: &Vec<(String, JsonValue)>, j: usize) -> (msg: String)
    requires
        j < entries@.len(),
    ensures
        (match json_data_of(entries@[j as int].1) {
            JsonData::Object(ee) => match entries_lookup(ee, "message"@) {
                Some(JsonData::Str(m)) => m,
                _ => Seq::<char>::empty(),
            },
            _ => Seq::<char>::empty(),
        }) == msg@,
{
    match &entries[j].1 {
        JsonValue::Object(ee) => {
            let k_idx = lookup_index(ee, "message");
            proof {
                let m = json_data_of_entries(ee@);
                match k_idx {
                    Some(k) => {
                        lemma_entries_lookup_at(m, "message"@, k as int);
                    },
                    None => {
                        lemma_entries_lookup_none(m, "message"@);
                    },
                }
            }
            match k_idx {
                Some(k) => match &ee[k].1 {
                    JsonValue::Str(m) => m.clone(),
                    _ => String::new(),
                },
                None => String::new(),
            }
        },
        _ => String::new(),
    }
}

} // verus!
