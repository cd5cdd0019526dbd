use odoors::api::{REQUEST_ID, Request};
use odoors::error::Error;
use odoors::json::JsonValue;
use odoors::odoo::Odoo;

fn success_response(result: JsonValue) -> JsonValue {
    JsonValue::Object(vec![("result".to_string(), result)])
}

fn authenticated_session() -> Odoo {
    let mut session = Odoo::new("https://demo.odoo.com", "demo_db");
    let uid = session
        .login_response(success_response(JsonValue::UInt(7)), "admin")
        .unwrap();
    assert_eq!(uid, 7);
    session
}

#[test]
fn new_session_starts_unauthenticated() {
    let session = Odoo::new("https://demo.odoo.com", "");
    assert_eq!(session.host, "https://demo.odoo.com");
    assert_eq!(session.database, "");
    assert_eq!(session.uid, None);
    assert_eq!(session.password, None);
}

#[test]
fn endpoint_url_default_and_override() {
    let session = Odoo::new("https://demo.odoo.com", "");
    assert_eq!(session.endpoint_url(None), "https://demo.odoo.com/jsonrpc");
    assert_eq!(session.endpoint_url(Some("start")), "https://demo.odoo.com/start");
}

#[test]
fn login_request_envelope() {
    let session = Odoo::new("https://demo.odoo.com", "db1");
    let request = session.login_request("admin", "secret");
    assert_eq!(request.service, "common");
    assert_eq!(request.method.as_deref(), Some("authenticate"));
    assert_eq!(request.id, REQUEST_ID);
    assert_eq!(
        request.params,
        vec![
            JsonValue::Str("db1".to_string()),
            JsonValue::Str("admin".to_string()),
            JsonValue::Str("secret".to_string()),
            JsonValue::Str(String::new()),
        ]
    );
}

#[test]
fn login_response_success_stores_credentials() {
    let mut session = Odoo::new("https://demo.odoo.com", "demo_db");
    let result = session.login_response(success_response(JsonValue::UInt(42)), "pw");
    assert_eq!(result, Ok(42));
    assert_eq!(session.uid, Some(42));
    assert_eq!(session.password.as_deref(), Some("pw"));
}

#[test]
fn login_failure_keeps_session_unauthenticated() {
    let mut session = Odoo::new("https://demo.odoo.com", "fake");
    let response = JsonValue::Object(vec![(
        "error".to_string(),
        JsonValue::Object(vec![(
            "message".to_string(),
            JsonValue::Str("database not found".to_string()),
        )]),
    )]);
    let result = session.login_response(response, "admin");
    assert!(matches!(result, Err(Error::Auth(_))));
    assert_eq!(session.uid, None);
    assert_eq!(session.password, None);
}

#[test]
fn login_rejects_false_result() {
    // The server answers a bad login with `result: false`, not an error
    // envelope; that must not authenticate the session.
    let mut session = Odoo::new("https://demo.odoo.com", "demo_db");
    let result = session.login_response(success_response(JsonValue::Bool(false)), "admin");
    assert!(matches!(result, Err(Error::Auth(_))));
    assert_eq!(session.uid, None);
}

#[test]
fn login_rejects_oversized_uid() {
    let mut session = Odoo::new("https://demo.odoo.com", "demo_db");
    let too_big = u32::MAX as u64 + 1;
    let result = session.login_response(success_response(JsonValue::UInt(too_big)), "admin");
    assert!(matches!(result, Err(Error::Auth(_))));
    assert_eq!(session.uid, None);
}

#[test]
fn call_before_login_is_unauthenticated() {
    let session = Odoo::new("https://demo.odoo.com", "demo_db");
    let result = session.call_request("res.partner", "search", JsonValue::Array(vec![]));
    assert_eq!(result, Err(Error::Unauthenticated));
}

#[test]
fn search_read_before_login_is_unauthenticated() {
    let session = Odoo::new("https://demo.odoo.com", "demo_db");
    let result = session.search_read_request("res.partner", JsonValue::Null, None, None, None);
    assert_eq!(result, Err(Error::Unauthenticated));
}

#[test]
fn call_request_envelope_after_login() {
    let session = authenticated_session();
    let args = JsonValue::Array(vec![JsonValue::Array(vec![
        JsonValue::Str("id".to_string()),
        JsonValue::Str(">".to_string()),
        JsonValue::UInt(2),
    ])]);
    let request = session.call_request("res.partner", "search", args).unwrap();
    assert_eq!(request.service, "object");
    assert_eq!(request.method, None);
    assert_eq!(request.params.len(), 6);
    assert_eq!(request.params[0], JsonValue::Str("demo_db".to_string()));
    assert_eq!(request.params[1], JsonValue::UInt(7));
    assert_eq!(request.params[2], JsonValue::Str("admin".to_string()));
    assert_eq!(request.params[3], JsonValue::Str("res.partner".to_string()));
    assert_eq!(request.params[4], JsonValue::Str("search".to_string()));
    assert_eq!(
        request.params[5],
        JsonValue::Array(vec![JsonValue::Array(vec![
            JsonValue::Str("id".to_string()),
            JsonValue::Str(">".to_string()),
            JsonValue::UInt(2),
        ])])
    );
}

fn sample_domain() -> JsonValue {
    JsonValue::Array(vec![JsonValue::Array(vec![
        JsonValue::Str("id".to_string()),
        JsonValue::Str(">".to_string()),
        JsonValue::UInt(2),
    ])])
}

#[test]
fn search_read_request_with_paging() {
    let session = authenticated_session();
    let request = session
        .search_read_request(
            "res.partner",
            sample_domain(),
            Some(vec!["name".to_string()]),
            Some(5),
            Some(10),
        )
        .unwrap();
    assert_eq!(request.service, "object");
    assert_eq!(request.method, None);
    assert_eq!(request.params.len(), 7);
    assert_eq!(request.params[4], JsonValue::Str("search_read".to_string()));
    assert_eq!(request.params[5], JsonValue::Array(vec![sample_domain()]));
    assert_eq!(
        request.params[6],
        JsonValue::Object(vec![
            (
                "fields".to_string(),
                JsonValue::Array(vec![JsonValue::Str("name".to_string())]),
            ),
            ("limit".to_string(), JsonValue::UInt(5)),
            ("offset".to_string(), JsonValue::UInt(10)),
        ])
    );
}

#[test]
fn search_read_request_omits_absent_paging_keys() {
    let session = authenticated_session();
    let request = session
        .search_read_request("res.partner", sample_domain(), None, None, None)
        .unwrap();
    // The options object holds the (empty) field list and nothing else:
    // an omitted limit or offset is absent, not null.
    assert_eq!(
        request.params[6],
        JsonValue::Object(vec![("fields".to_string(), JsonValue::Array(vec![]))])
    );
}

#[test]
fn search_read_request_is_deterministic() {
    let session = authenticated_session();
    let first = session
        .search_read_request(
            "res.partner",
            sample_domain(),
            Some(vec!["name".to_string()]),
            Some(5),
            None,
        )
        .unwrap();
    let second = session
        .search_read_request(
            "res.partner",
            sample_domain(),
            Some(vec!["name".to_string()]),
            Some(5),
            None,
        )
        .unwrap();
    assert_eq!(first, second);
}

#[test]
fn raw_numbers_in_domain_pass_through_untouched() {
    // A domain may carry numbers the core never interprets — negative
    // or fractional — held as raw decimal text; the envelope carries
    // them through unchanged.
    let session = authenticated_session();
    let domain = JsonValue::Array(vec![JsonValue::Array(vec![
        JsonValue::Str("credit_limit".to_string()),
        JsonValue::Str(">".to_string()),
        JsonValue::Num("-2.5".to_string()),
    ])]);
    let request = session
        .search_read_request("res.partner", domain, None, None, None)
        .unwrap();
    assert_eq!(
        request.params[5],
        JsonValue::Array(vec![JsonValue::Array(vec![JsonValue::Array(vec![
            JsonValue::Str("credit_limit".to_string()),
            JsonValue::Str(">".to_string()),
            JsonValue::Num("-2.5".to_string()),
        ])])])
    );
}

#[test]
fn start_request_envelope() {
    let session = Odoo::new("https://demo.odoo.com", "");
    let request = session.start_request();
    assert_eq!(request.service, "common");
    assert_eq!(request.method.as_deref(), Some("start"));
    assert_eq!(request.params, Vec::<JsonValue>::new());
}

#[test]
fn request_wire_object_with_method() {
    let session = Odoo::new("https://demo.odoo.com", "db1");
    let wire = session.login_request("admin", "secret").into_json();
    match wire {
        JsonValue::Object(entries) => {
            assert_eq!(entries.len(), 4);
            assert_eq!(entries[0].0, "service");
            assert_eq!(entries[0].1, JsonValue::Str("common".to_string()));
            assert_eq!(entries[1].0, "method");
            assert_eq!(entries[1].1, JsonValue::Str("authenticate".to_string()));
            assert_eq!(entries[2].0, "params");
            assert!(matches!(entries[2].1, JsonValue::Array(_)));
            assert_eq!(entries[3].0, "id");
            assert_eq!(entries[3].1, JsonValue::UInt(REQUEST_ID));
        }
        other => panic!("wire envelope is not an object: {:?}", other),
    }
}

#[test]
fn request_wire_method_absent_is_null() {
    let session = authenticated_session();
    let request = session
        .call_request("res.partner", "read", JsonValue::Array(vec![]))
        .unwrap();
    let wire = request.into_json();
    match wire {
        JsonValue::Object(entries) => {
            assert_eq!(entries[1].0, "method");
            assert_eq!(entries[1].1, JsonValue::Null);
        }
        other => panic!("wire envelope is not an object: {:?}", other),
    }
}

#[test]
fn request_new_keeps_positional_order() {
    let request = Request::new(
        "object",
        None,
        vec![JsonValue::UInt(1), JsonValue::UInt(2), JsonValue::UInt(3)],
    );
    assert_eq!(
        request.params,
        vec![JsonValue::UInt(1), JsonValue::UInt(2), JsonValue::UInt(3)]
    );
}

#[test]
fn create_then_write_round_trip() {
    // A create followed by a write with the returned id and the same
    // values, each leg checked against its envelope and its decoded
    // success payload.
    let session = authenticated_session();
    let values = JsonValue::Object(vec![(
        "name".to_string(),
        JsonValue::Str("Test".to_string()),
    )]);
    let create = session
        .call_request("res.partner", "create", JsonValue::Array(vec![values]))
        .unwrap();
    assert_eq!(create.params[3], JsonValue::Str("res.partner".to_string()));
    assert_eq!(create.params[4], JsonValue::Str("create".to_string()));

    let created = odoors::api::decode_response(success_response(JsonValue::UInt(42))).unwrap();
    assert_eq!(created, JsonValue::UInt(42));

    let values_again = JsonValue::Object(vec![(
        "name".to_string(),
        JsonValue::Str("Test".to_string()),
    )]);
    let write = session
        .call_request(
            "res.partner",
            "write",
            JsonValue::Array(vec![
                JsonValue::Array(vec![JsonValue::UInt(42)]),
                values_again,
            ]),
        )
        .unwrap();
    assert_eq!(write.params[4], JsonValue::Str("write".to_string()));

    let flag = odoors::api::decode_response(success_response(JsonValue::Bool(true))).unwrap();
    assert_eq!(flag, JsonValue::Bool(true));
}
