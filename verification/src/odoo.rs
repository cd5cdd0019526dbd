//! The authenticated-session state machine and the RPC dispatch.
//!
//! A session is created with a host and a database, unauthenticated. A
//! successful authenticate call stores the numeric user id and the
//! credential, exactly once; there is no way back. Object-model calls
//! (search, read, search_read, create, write) are legal only on an
//! authenticated session and are refused locally — before any envelope
//! is built — otherwise.
//!
//! The functions here build the outbound envelopes and interpret the
//! decoded inbound ones; carrying the envelopes over HTTP is the
//! surrounding program's job.

use vstd::prelude::*;
use vstd::string::StringExecFns;

use crate::api::{
    REQUEST_ID, Request, RequestData, decode_response, entries_lookup, lemma_entries_lookup_at,
    lemma_entries_lookup_none, response_is_success, response_success_value,
};
use crate::error::Error;
use crate::json::{
    JsonData, JsonValue, json_data_of, json_data_of_entries, json_data_of_seq, json_str, u32_of,
    u32_of_value,
};

verus! {

broadcast use crate::json::group_json_model;

/// A connection target plus authentication state. The user id and the
/// credential appear together, on the first successful login.
#[derive(Debug)]
pub struct Odoo {
    pub host: String,
    pub database: String,
    pub uid: Option<u32>,
    pub password: Option<String>,
}

/// Positional parameters of the authenticate call: database, login,
/// password, and a fixed empty string.
pub open spec fn login_params(database: Seq<char>, login: Seq<char>, password: Seq<char>) -> Seq<
    JsonData,
> {
    seq![
        JsonData::Str(database),
        JsonData::Str(login),
        JsonData::Str(password),
        JsonData::Str(""@),
    ]
}

/// Positional parameters of an object-model call, as the remote
/// dispatcher binds them: database, user id, credential, model name,
/// method name, method arguments.
pub open spec fn call_params(s: Odoo, model: Seq<char>, method: Seq<char>, args: JsonData) -> Seq<
    JsonData,
>
    recommends
        s.authenticated(),
{
    seq![
        JsonData::Str(s.database@),
        JsonData::UInt(s.uid->0 as u64),
        JsonData::Str(s.password->0@),
        JsonData::Str(model),
        JsonData::Str(method),
        args,
    ]
}

/// The field list sent with a search: the caller's list, or empty for
/// "all fields", per the remote convention.
pub open spec fn search_read_fields(fields: Option<Seq<Seq<char>>>) -> Seq<JsonData> {
    match fields {
        Some(fs) => fs.map_values(|f: Seq<char>| JsonData::Str(f)),
        None => Seq::empty(),
    }
}

/// The trailing options object of a search: the field list always, the
/// paging keys exactly when the caller gave them. An omitted key is
/// absent, not null: the remote server distinguishes the two.
pub open spec fn search_read_options(
    fields: Option<Seq<Seq<char>>>,
    limit: Option<u32>,
    offset: Option<u32>,
) -> Seq<(Seq<char>, JsonData)> {
    let base = seq![("fields"@, JsonData::Array(search_read_fields(fields)))];
    let with_limit = match limit {
        Some(n) => base.push(("limit"@, JsonData::UInt(n as u64))),
        None => base,
    };
    match offset {
        Some(m) => with_limit.push(("offset"@, JsonData::UInt(m as u64))),
        None => with_limit,
    }
}

/// Positional parameters of a search_read call: the object-call prefix,
/// then the domain (passed through untouched) and the options object.
pub open spec fn search_read_params(
    s: Odoo,
    model: Seq<char>,
    domain: JsonData,
    fields: Option<Seq<Seq<char>>>,
    limit: Option<u32>,
    offset: Option<u32>,
) -> Seq<JsonData>
    recommends
        s.authenticated(),
{
    seq![
        JsonData::Str(s.database@),
        JsonData::UInt(s.uid->0 as u64),
        JsonData::Str(s.password->0@),
        JsonData::Str(model),
        JsonData::Str("search_read"@),
        JsonData::Array(seq![domain]),
        JsonData::Object(search_read_options(fields, limit, offset)),
    ]
}

/// The user id an authenticate response grants: present exactly when
/// the envelope is a well-formed success whose payload is a numeric id.
pub open spec fn login_uid(v: JsonData) -> Option<u32> {
    if response_is_success(v) {
        u32_of(response_success_value(v))
    } else {
        None
    }
}

/// The caller's field list as character sequences.
pub open spec fn fields_view(fields: Option<Vec<String>>) -> Option<Seq<Seq<char>>> {
    match fields {
        Some(fs) => Some(fs.deep_view()),
        None => None,
    }
}

impl Odoo {
    /// Both credentials are present: object-model calls are legal.
    pub open spec fn authenticated(&self) -> bool {
        self.uid is Some && self.password is Some
    }

    /// Pure construction; the session starts unauthenticated. No I/O.
    pub fn new(host: &str, database: &str) -> (s: Odoo)
        ensures
            s.host@ == host@,
            s.database@ == database@,
            s.uid is None,
            s.password is None,
            !s.authenticated(),
    {
        Odoo {
            host: host.to_owned(),
            database: database.to_owned(),
            uid: None,
            password: None,
        }
    }

    /// URL of an endpoint under the configured host: the generic RPC
    /// path by default, a distinct documented path for bootstrap calls.
    pub fn endpoint_url(&self, path: Option<&str>) -> (u: String)
        ensures
            u@ == self.host@ + "/"@ + (match path {
                Some(p) => p@,
                None => "jsonrpc"@,
            }),
    {
        let p = match path {
            Some(p) => p,
            None => "jsonrpc",
        };
        self.host.clone().concat("/").concat(p)
    }

    /// Envelope of the authenticate call: service "common", top-level
    /// method "authenticate", params (database, login, password, "").
    pub fn login_request(&self, login: &str, password: &str) -> (r: Request)
        ensures
            r@ == (RequestData {
                service: "common"@,
                method: Some("authenticate"@),
                params: login_params(self.database@, login@, password@),
                id: REQUEST_ID,
            }),
    {
        let mut params: Vec<JsonValue> = Vec::new();
        params.push(json_str(self.database.as_str()));
        params.push(json_str(login));
        params.push(json_str(password));
        params.push(json_str(""));
        proof {
            assert(json_data_of_seq(params@) =~= login_params(self.database@, login@, password@));
        }
        Request::new("common", Some("authenticate"), params)
    }

    /// Outcome of the authenticate call. A response granting a numeric
    /// user id authenticates the session: the id and the credential are
    /// stored and the id is returned. Any other response — a remote
    /// error, a malformed envelope, a non-numeric payload such as the
    /// server's `false` for bad credentials — is an authentication
    /// failure and leaves the session exactly as it was.
    pub fn login_response(&mut self, response: JsonValue, password: &str) -> (r: Result<u32, Error>)
        ensures
            login_uid(response@) matches Some(n) ==> {
                &&& r == Ok::<u32, Error>(n)
                &&& final(self).host == old(self).host
                &&& final(self).database == old(self).database
                &&& final(self).uid == Some(n)
                &&& final(self).password matches Some(p) && p@ == password@
                &&& final(self).authenticated()
            },
            login_uid(response@) is None ==> {
                &&& r matches Err(e) && e is Auth
                &&& *final(self) == *old(self)
            },
    {
        match decode_response(response) {
            Ok(d) => match u32_of_value(&d) {
                Some(n) => {
                    self.uid = Some(n);
                    self.password = Some(password.to_owned());
                    Ok(n)
                },
                None => Err(Error::Auth("authentication was refused by the server".to_owned())),
            },
            Err(e) => {
                let msg = e.message().to_owned();
                Err(Error::Auth(msg))
            },
        }
    }

    /// Envelope of the bootstrap discovery call: service "common",
    /// top-level method "start", no parameters. It travels on the
    /// distinct bootstrap path, not the generic RPC path.
    pub fn start_request(&self) -> (r: Request)
        ensures
            r@ == (RequestData {
                service: "common"@,
                method: Some("start"@),
                params: Seq::empty(),
                id: REQUEST_ID,
            }),
    {
        let params: Vec<JsonValue> = Vec::new();
        proof {
            assert(json_data_of_seq(params@) =~= Seq::<JsonData>::empty());
        }
        Request::new("common", Some("start"), params)
    }

    /// Outcome of the bootstrap discovery call: the key/value hints
    /// when the payload is an object of strings, in their wire order; a
    /// transport failure otherwise.
    pub fn start_response(&self, response: JsonValue) -> (r: Result<Vec<(String, String)>, Error>)
        ensures
            start_hints(response@) matches Some(hs) ==> {
                &&& r matches Ok(m)
                &&& m@.len() == hs.len()
                &&& forall|i: int|
                    0 <= i < hs.len() ==> m@[i].0@ == hs[i].0 && m@[i].1@ == hs[i].1
            },
            start_hints(response@) is None ==> (r matches Err(e) && e is Transport),
    {
        match decode_response(response) {
            Ok(d) => match d {
                JsonValue::Object(es) => {
                    let mut out: Vec<(String, String)> = Vec::new();
                    let mut i: usize = 0;
                    while i < es.len()
                        invariant
                            response_is_success(response@),
                            response_success_value(response@) == JsonData::Object(
                                json_data_of_entries(es@),
                            ),
                            i <= es@.len(),
                            out@.len() == i,
                            forall|j: int|
                                0 <= j < i ==> json_data_of_entries(es@)[j].1 is Str,
                            forall|j: int|
                                0 <= j < i ==> out@[j].0@ == es@[j].0@ && (json_data_of(
                                    es@[j].1,
                                ) matches JsonData::Str(mm) && out@[j].1@ == mm),
                        decreases es@.len() - i,
                    {
                        match &es[i].1 {
                            JsonValue::Str(s) => {
                                out.push((es[i].0.clone(), s.clone()));
                            },
                            _ => {
                                proof {
                                    let m = json_data_of_entries(es@);
                                    assert(i < m.len());
                                    assert(m[i as int].1 == json_data_of(es@[i as int].1));
                                    assert(!(m[i as int].1 is Str));
                                    assert(!(forall|k: int|
                                        0 <= k < m.len() ==> m[k].1 is Str));
                                    assert(start_hints(response@) is None);
                                }
                                return Err(
                                    Error::Transport(
                                        "bootstrap hints are not all strings".to_owned(),
                                    ),
                                );
                            },
                        }
                        i = i + 1;
                    }
                    Ok(out)
                },
                _ => Err(Error::Transport("bootstrap hints are not an object".to_owned())),
            },
            Err(e) => {
                let msg = e.message().to_owned();
                Err(Error::Transport(msg))
            },
        }
    }

    /// Envelope of a generic object-model call. Refused locally — no
    /// envelope exists, so nothing can be sent — unless the session is
    /// authenticated; the method name travels as the fifth positional
    /// parameter, per the remote dispatcher convention.
    pub fn call_request(&self, model: &str, method: &str, args: JsonValue) -> (r: Result<
        Request,
        Error,
    >)
        ensures
            r is Ok <==> self.authenticated(),
            self.authenticated() ==> (r matches Ok(req) && req@ == (RequestData {
                service: "object"@,
                method: None,
                params: call_params(*self, model@, method@, json_data_of(args)),
                id: REQUEST_ID,
            })),
            !self.authenticated() ==> (r matches Err(e) && e is Unauthenticated),
    {
        let uid = match self.uid {
            Some(u) => u,
            None => {
                return Err(Error::Unauthenticated);
            },
        };
        let password = match &self.password {
            Some(p) => p.clone(),
            None => {
                return Err(Error::Unauthenticated);
            },
        };
        let mut params: Vec<JsonValue> = Vec::new();
        params.push(json_str(self.database.as_str()));
        params.push(JsonValue::UInt(uid as u64));
        params.push(JsonValue::Str(password));
        params.push(json_str(model));
        params.push(json_str(method));
        params.push(args);
        proof {
            assert(json_data_of_seq(params@) =~= call_params(
                *self,
                model@,
                method@,
                json_data_of(args),
            ));
        }
        Ok(Request::new("object", None, params))
    }

    /// Envelope of the common read pattern, a search_read call: the
    /// domain filter is passed through untouched, the field list
    /// defaults to empty ("all fields"), and the paging keys appear in
    /// the options object exactly when given.
    pub fn search_read_request(
        &self,
        model: &str,
        domain: JsonValue,
        fields: Option<Vec<String>>,
        limit: Option<u32>,
        offset: Option<u32>,
    ) -> (r: Result<Request, Error>)
        ensures
            r is Ok <==> self.authenticated(),
            self.authenticated() ==> (r matches Ok(req) && req@ == (RequestData {
                service: "object"@,
                method: None,
                params: search_read_params(
                    *self,
                    model@,
                    json_data_of(domain),
                    fields_view(fields),
                    limit,
                    offset,
                ),
                id: REQUEST_ID,
            })),
            !self.authenticated() ==> (r matches Err(e) && e is Unauthenticated),
    {
        let uid = match self.uid {
            Some(u) => u,
            None => {
                return Err(Error::Unauthenticated);
            },
        };
        let password = match &self.password {
            Some(p) => p.clone(),
            None => {
                return Err(Error::Unauthenticated);
            },
        };
        let ghost fields_model = fields_view(fields);
        let mut field_values: Vec<JsonValue> = Vec::new();
        match fields {
            Some(fs) => {
                let mut i: usize = 0;
                while i < fs.len()
                    invariant
                        i <= fs@.len(),
                        field_values@.len() == i,
                        forall|j: int|
                            0 <= j < i ==> json_data_of(field_values@[j]) == JsonData::Str(
                                fs@[j]@,
                            ),
                    decreases fs@.len() - i,
                {
                    field_values.push(JsonValue::Str(fs[i].clone()));
                    i = i + 1;
                }
                proof {
                    assert(json_data_of_seq(field_values@) =~= search_read_fields(fields_model));
                }
            },
            None => {
                proof {
                    assert(json_data_of_seq(field_values@) =~= search_read_fields(fields_model));
                }
            },
        }
        let mut options: Vec<(String, JsonValue)> = Vec::new();
        options.push(("fields".to_owned(), JsonValue::Array(field_values)));
        match limit {
            Some(n) => {
                options.push(("limit".to_owned(), JsonValue::UInt(n as u64)));
            },
            None => {},
        }
        match offset {
            Some(m) => {
                options.push(("offset".to_owned(), JsonValue::UInt(m as u64)));
            },
            None => {},
        }
        proof {
            assert(json_data_of_entries(options@) =~= search_read_options(
                fields_model,
                limit,
                offset,
            ));
        }
        let mut domain_items: Vec<JsonValue> = Vec::new();
        domain_items.push(domain);
        let mut params: Vec<JsonValue> = Vec::new();
        params.push(json_str(self.database.as_str()));
        params.push(JsonValue::UInt(uid as u64));
        params.push(JsonValue::Str(password));
        params.push(json_str(model));
        params.push(json_str("search_read"));
        params.push(JsonValue::Array(domain_items));
        params.push(JsonValue::Object(options));
        proof {
            assert(json_data_of_seq(domain_items@) =~= seq![json_data_of(domain)]);
            assert(json_data_of_seq(params@) =~= search_read_params(
                *self,
                model@,
                json_data_of(domain),
                fields_model,
                limit,
                offset,
            ));
        }
        Ok(Request::new("object", None, params))
    }
}

/// The bootstrap hints a response carries: present exactly when the
/// envelope is a well-formed success whose payload is an object all of
/// whose values are strings.
pub open spec fn start_hints(v: JsonData) -> Option<Seq<(Seq<char>, Seq<char>)>> {
    if response_is_success(v) {
        match response_success_value(v) {
            JsonData::Object(es) => if forall|i: int| 0 <= i < es.len() ==> es[i].1 is Str {
                Some(
                    es.map_values(
                        |p: (Seq<char>, JsonData)|
                            (
                                p.0,
                                match p.1 {
                                    JsonData::Str(m) => m,
                                    _ => Seq::<char>::empty(),
                                },
                            ),
                    ),
                )
            } else {
                None
            },
            _ => None,
        }
    } else {
        None
    }
}

/// Law: a privileged call immediately after a successful login cannot
/// be refused locally. The state a successful authenticate response
/// leaves behind — user id and credential both stored — is exactly the
/// authenticated state that grants every object-model envelope.
/// Whether the remote server then honours the call is its own affair.
pub proof fn lemma_login_grants_object_access(s: Odoo, n: u32, password: Seq<char>)
    requires
        s.uid == Some(n),
        s.password matches Some(p) && p@ == password,
    ensures
        s.authenticated(),
{
}

/// Law: the paging options carry "limit" exactly when the caller gave
/// one, bound to that value, and "offset" likewise; an omitted key is
/// entirely absent. The field list is always present.
pub proof fn lemma_search_read_options_paging(
    fields: Option<Seq<Seq<char>>>,
    limit: Option<u32>,
    offset: Option<u32>,
)
    ensures
        entries_lookup(search_read_options(fields, limit, offset), "limit"@) == (match limit {
            Some(n) => Some(JsonData::UInt(n as u64)),
            None => None::<JsonData>,
        }),
        entries_lookup(search_read_options(fields, limit, offset), "offset"@) == (match offset {
            Some(m) => Some(JsonData::UInt(m as u64)),
            None => None::<JsonData>,
        }),
        entries_lookup(search_read_options(fields, limit, offset), "fields"@) == Some(
            JsonData::Array(search_read_fields(fields)),
        ),
{
    reveal_strlit("fields");
    reveal_strlit("limit");
    reveal_strlit("offset");
    assert("fields"@[0] == 'f' && "offset"@[0] == 'o');
    assert("fields"@ != "limit"@);
    assert("fields"@ != "offset"@);
    assert("limit"@ != "offset"@);
    let f_entry = ("fields"@, JsonData::Array(search_read_fields(fields)));
    let opts = search_read_options(fields, limit, offset);
    lemma_entries_lookup_at(opts, "fields"@, 0);
    match (limit, offset) {
        (None, None) => {
            assert(opts =~= seq![f_entry]);
            assert(opts.len() == 1 && opts[0].0 == "fields"@);
            lemma_entries_lookup_none(opts, "limit"@);
            lemma_entries_lookup_none(opts, "offset"@);
        },
        (Some(n), None) => {
            assert(opts =~= seq![f_entry, ("limit"@, JsonData::UInt(n as u64))]);
            lemma_entries_lookup_at(opts, "limit"@, 1);
            lemma_entries_lookup_none(opts, "offset"@);
        },
        (None, Some(m)) => {
            assert(opts =~= seq![f_entry, ("offset"@, JsonData::UInt(m as u64))]);
            lemma_entries_lookup_none(opts, "limit"@);
            lemma_entries_lookup_at(opts, "offset"@, 1);
        },
        (Some(n), Some(m)) => {
            assert(opts =~= seq![
                f_entry,
                ("limit"@, JsonData::UInt(n as u64)),
                ("offset"@, JsonData::UInt(m as u64)),
            ]);
            lemma_entries_lookup_at(opts, "limit"@, 1);
            lemma_entries_lookup_at(opts, "offset"@, 2);
        },
    }
}

/// Law: the search envelope is a function of the session state and the
/// call's arguments alone; repeating a search with identical model,
/// domain, fields, limit and offset yields an identical envelope.
pub proof fn lemma_search_read_request_deterministic(
    s: Odoo,
    model: Seq<char>,
    domain: JsonData,
    fields: Option<Seq<Seq<char>>>,
    limit: Option<u32>,
    offset: Option<u32>,
    r1: RequestData,
    r2: RequestData,
)
    requires
        r1 == (RequestData {
            service: "object"@,
            method: None::<Seq<char>>,
            params: search_read_params(s, model, domain, fields, limit, offset),
            id: REQUEST_ID,
        }),
        r2 == (RequestData {
            service: "object"@,
            method: None::<Seq<char>>,
            params: search_read_params(s, model, domain, fields, limit, offset),
            id: REQUEST_ID,
        }),
    ensures
        r1 == r2,
{
}

} // verus!
