use kv_gateway::config::{
    verbosity_level, Config, LogLevel, DEFAULT_CONCURRENCY_LIMIT, DEFAULT_MAX_PAYLOAD_BYTES,
    DEFAULT_TIMEOUT_MILLIS,
};
use kv_gateway::errors::KeyValueError;
use kv_gateway::handlers::{delete_all, delete_one, kv_get, kv_set, list_keys};
use kv_gateway::pipeline::{
    bearer_authorized, build_server, deadline_exceeded, handle, should_compress, Admission,
    BackendOutcome,
};
use kv_gateway::router::{route, Method, Request, Route};
use kv_gateway::store::Store;

fn get_request(key: &[u8]) -> Request {
    Request {
        method: Method::Get,
        segments: vec![key.to_vec()],
        body: Vec::new(),
        authorization: None,
    }
}

fn post_request(key: &[u8], body: &[u8]) -> Request {
    Request {
        method: Method::Post,
        segments: vec![key.to_vec()],
        body: body.to_vec(),
        authorization: None,
    }
}

fn admin_flush_request(authorization: Option<Vec<u8>>) -> Request {
    Request {
        method: Method::Delete,
        segments: vec![b"admin".to_vec(), b"keys".to_vec()],
        body: Vec::new(),
        authorization,
    }
}

fn admin_delete_request(key: &[u8], authorization: Option<Vec<u8>>) -> Request {
    Request {
        method: Method::Delete,
        segments: vec![b"admin".to_vec(), b"key".to_vec(), key.to_vec()],
        body: Vec::new(),
        authorization,
    }
}

fn valid_credential() -> Option<Vec<u8>> {
    Some(b"Bearer secret-token".to_vec())
}

#[test]
fn set_then_get_round_trip() {
    let mut store = Store::new();
    let key = b"alpha".to_vec();
    let value = b"some payload bytes".to_vec();
    assert!(kv_set(&mut store, &key, &value).is_ok());
    let got = kv_get(&store, &key);
    assert_eq!(got.unwrap(), value);
}

#[test]
fn set_overwrites_last_writer_wins() {
    let mut store = Store::new();
    let key = b"alpha".to_vec();
    assert!(kv_set(&mut store, &key, &b"first".to_vec()).is_ok());
    assert!(kv_set(&mut store, &key, &b"second".to_vec()).is_ok());
    assert_eq!(kv_get(&store, &key).unwrap(), b"second".to_vec());
}

#[test]
fn get_missing_yields_not_found() {
    let store = Store::new();
    let r = kv_get(&store, &b"never-written".to_vec());
    assert!(matches!(r, Err(KeyValueError::NotFound(k)) if k == b"never-written".to_vec()));
}

#[test]
fn delete_missing_yields_not_found() {
    let mut store = Store::new();
    let r = delete_one(&mut store, &b"never-written".to_vec());
    assert!(matches!(r, Err(KeyValueError::NotFound(k)) if k == b"never-written".to_vec()));
}

#[test]
fn deleted_key_yields_not_found_again() {
    let mut store = Store::new();
    let key = b"alpha".to_vec();
    assert!(kv_set(&mut store, &key, &b"v".to_vec()).is_ok());
    assert!(delete_one(&mut store, &key).is_ok());
    assert!(matches!(kv_get(&store, &key), Err(KeyValueError::NotFound(_))));
    assert!(matches!(delete_one(&mut store, &key), Err(KeyValueError::NotFound(_))));
}

#[test]
fn delete_all_twice_is_idempotent() {
    let mut store = Store::new();
    assert!(kv_set(&mut store, &b"a".to_vec(), &b"1".to_vec()).is_ok());
    assert!(kv_set(&mut store, &b"b".to_vec(), &b"2".to_vec()).is_ok());
    assert!(delete_all(&mut store).is_ok());
    assert_eq!(list_keys(&store).unwrap(), Vec::<u8>::new());
    assert!(delete_all(&mut store).is_ok());
    assert_eq!(list_keys(&store).unwrap(), Vec::<u8>::new());
}

#[test]
fn list_keys_newline_joined_in_scan_order() {
    let mut store = Store::new();
    assert_eq!(list_keys(&store).unwrap(), Vec::<u8>::new());
    assert!(kv_set(&mut store, &b"alpha".to_vec(), &b"1".to_vec()).is_ok());
    assert!(kv_set(&mut store, &b"beta".to_vec(), &b"2".to_vec()).is_ok());
    assert_eq!(list_keys(&store).unwrap(), b"alpha\nbeta".to_vec());
}

#[test]
fn payload_at_limit_accepted() {
    let config = Config::default();
    let mut store = Store::new();
    let body = vec![7u8; DEFAULT_MAX_PAYLOAD_BYTES];
    let r = handle(&config, &mut store, &post_request(b"big", &body));
    assert_eq!(r.status, 200);
    assert_eq!(r.body, Vec::<u8>::new());
    assert_eq!(kv_get(&store, &b"big".to_vec()).unwrap().len(), DEFAULT_MAX_PAYLOAD_BYTES);
}

#[test]
fn payload_over_limit_rejected_before_store() {
    let config = Config::default();
    let mut store = Store::new();
    let body = vec![7u8; DEFAULT_MAX_PAYLOAD_BYTES + 1];
    let r = handle(&config, &mut store, &post_request(b"big", &body));
    assert_eq!(r.status, 413);
    let after = handle(&config, &mut store, &get_request(b"big"));
    assert_eq!(after.status, 404);
}

#[test]
fn admission_sheds_past_the_limit() {
    let mut a = Admission::new(2);
    assert!(a.try_admit());
    assert!(a.try_admit());
    assert!(!a.try_admit());
    assert_eq!(a.in_flight, 2);
    a.release();
    assert!(a.try_admit());
}

#[test]
fn saturated_gateway_answers_overloaded() {
    let config = Config::new(1, DEFAULT_TIMEOUT_MILLIS, DEFAULT_MAX_PAYLOAD_BYTES, b"c".to_vec());
    let mut g = build_server(config);
    let mut store = Store::new();
    assert!(g.admission.try_admit());
    let r = g.process(&mut store, &get_request(b"alpha"), BackendOutcome::Completed);
    assert_eq!(r.status, 503);
    assert_eq!(r.body, b"service is overloaded, try again later".to_vec());
    assert_eq!(g.admission.in_flight, 1);
}

#[test]
fn timeout_answers_timed_out_without_leaking() {
    let mut g = build_server(Config::default());
    let mut store = Store::new();
    assert!(kv_set(&mut store, &b"alpha".to_vec(), &b"v".to_vec()).is_ok());
    let r = g.process(&mut store, &post_request(b"beta", b"w"), BackendOutcome::TimedOut);
    assert_eq!(r.status, 408);
    assert_eq!(r.body, b"request timed out".to_vec());
    assert_eq!(g.admission.in_flight, 0);
    assert!(matches!(kv_get(&store, &b"beta".to_vec()), Err(KeyValueError::NotFound(_))));
}

#[test]
fn backend_failure_answers_server_error() {
    let mut g = build_server(Config::default());
    let mut store = Store::new();
    let r = g.process(
        &mut store,
        &get_request(b"alpha"),
        BackendOutcome::Failed(b"connection refused".to_vec()),
    );
    assert_eq!(r.status, 500);
    assert_eq!(
        r.body,
        b"Unable to perform backend operation: connection refused.".to_vec()
    );
    assert_eq!(g.admission.in_flight, 0);
}

#[test]
fn admin_flush_without_credential_rejected() {
    let config = Config::default();
    let mut store = Store::new();
    assert!(kv_set(&mut store, &b"alpha".to_vec(), &b"v".to_vec()).is_ok());
    let r = handle(&config, &mut store, &admin_flush_request(None));
    assert_eq!(r.status, 401);
    assert_eq!(kv_get(&store, &b"alpha".to_vec()).unwrap(), b"v".to_vec());
}

#[test]
fn admin_flush_with_wrong_token_rejected() {
    let config = Config::default();
    let mut store = Store::new();
    assert!(kv_set(&mut store, &b"alpha".to_vec(), &b"v".to_vec()).is_ok());
    let r = handle(
        &config,
        &mut store,
        &admin_flush_request(Some(b"Bearer wrong-token".to_vec())),
    );
    assert_eq!(r.status, 401);
    assert_eq!(kv_get(&store, &b"alpha".to_vec()).unwrap(), b"v".to_vec());
}

#[test]
fn admin_flush_with_credential_clears_store() {
    let config = Config::default();
    let mut store = Store::new();
    assert!(kv_set(&mut store, &b"alpha".to_vec(), &b"v".to_vec()).is_ok());
    let r = handle(&config, &mut store, &admin_flush_request(valid_credential()));
    assert_eq!(r.status, 200);
    assert_eq!(r.body, Vec::<u8>::new());
    assert_eq!(list_keys(&store).unwrap(), Vec::<u8>::new());
}

#[test]
fn example_scenario() {
    let config = Config::default();
    let mut store = Store::new();
    let r1 = handle(&config, &mut store, &post_request(b"alpha", b"hello"));
    assert_eq!(r1.status, 200);
    let r2 = handle(&config, &mut store, &get_request(b"alpha"));
    assert_eq!(r2.status, 200);
    assert_eq!(r2.body, b"hello".to_vec());
    let r3 = handle(&config, &mut store, &admin_delete_request(b"alpha", valid_credential()));
    assert_eq!(r3.status, 200);
    let r4 = handle(&config, &mut store, &get_request(b"alpha"));
    assert_eq!(r4.status, 404);
    assert_eq!(r4.body, b"Unable to find key 'alpha'.".to_vec());
}

#[test]
fn unrouted_requests_answer_plain_not_found() {
    let config = Config::default();
    let mut store = Store::new();
    let cases = vec![
        Request {
            method: Method::Delete,
            segments: vec![b"alpha".to_vec()],
            body: Vec::new(),
            authorization: None,
        },
        Request {
            method: Method::Post,
            segments: vec![b"keys".to_vec()],
            body: b"x".to_vec(),
            authorization: None,
        },
        Request {
            method: Method::Get,
            segments: vec![b"admin".to_vec()],
            body: Vec::new(),
            authorization: None,
        },
        Request {
            method: Method::Get,
            segments: vec![b"".to_vec()],
            body: Vec::new(),
            authorization: None,
        },
        Request {
            method: Method::Get,
            segments: vec![b"a".to_vec(), b"b".to_vec()],
            body: Vec::new(),
            authorization: None,
        },
        Request {
            method: Method::Delete,
            segments: vec![b"admin".to_vec(), b"key".to_vec(), b"".to_vec()],
            body: Vec::new(),
            authorization: valid_credential(),
        },
    ];
    for req in cases {
        let r = handle(&config, &mut store, &req);
        assert_eq!(r.status, 404);
        assert_eq!(r.body, Vec::<u8>::new());
    }
}

#[test]
fn static_keys_path_wins_over_capture() {
    let r = route(&Method::Get, &vec![b"keys".to_vec()]);
    assert!(matches!(r, Some(Route::ListKeys)));
    let r2 = route(&Method::Get, &vec![b"other".to_vec()]);
    assert!(matches!(r2, Some(Route::GetValue(k)) if k == b"other".to_vec()));
    let r3 = route(&Method::Delete, &vec![b"admin".to_vec(), b"keys".to_vec()]);
    assert!(matches!(r3, Some(Route::DeleteAll)));
    let r4 = route(&Method::Delete, &vec![b"admin".to_vec(), b"key".to_vec(), b"k1".to_vec()]);
    assert!(matches!(r4, Some(Route::DeleteOne(k)) if k == b"k1".to_vec()));
}

#[test]
fn error_mapper_statuses_and_messages() {
    let r = KeyValueError::NotFound(b"k1".to_vec()).into_response();
    assert_eq!(r.status, 404);
    assert_eq!(r.body, b"Unable to find key 'k1'.".to_vec());
    let r = KeyValueError::BackendError(b"boom".to_vec()).into_response();
    assert_eq!(r.status, 500);
    assert_eq!(r.body, b"Unable to perform backend operation: boom.".to_vec());
    let r = KeyValueError::TimedOut.into_response();
    assert_eq!(r.status, 408);
    assert_eq!(r.body, b"request timed out".to_vec());
    let r = KeyValueError::Overloaded.into_response();
    assert_eq!(r.status, 503);
    assert_eq!(r.body, b"service is overloaded, try again later".to_vec());
    let r = KeyValueError::Unauthorized.into_response();
    assert_eq!(r.status, 401);
    assert_eq!(r.body, Vec::<u8>::new());
}

#[test]
fn bearer_check_is_exact() {
    let credential = b"secret-token".to_vec();
    assert!(bearer_authorized(&Some(b"Bearer secret-token".to_vec()), &credential));
    assert!(!bearer_authorized(&Some(b"Bearer secret-token ".to_vec()), &credential));
    assert!(!bearer_authorized(&Some(b"bearer secret-token".to_vec()), &credential));
    assert!(!bearer_authorized(&Some(b"secret-token".to_vec()), &credential));
    assert!(!bearer_authorized(&None, &credential));
}

#[test]
fn compression_applies_to_single_key_reads_only() {
    assert!(should_compress(&Route::GetValue(b"k".to_vec())));
    assert!(!should_compress(&Route::SetValue(b"k".to_vec())));
    assert!(!should_compress(&Route::ListKeys));
    assert!(!should_compress(&Route::DeleteAll));
    assert!(!should_compress(&Route::DeleteOne(b"k".to_vec())));
}

#[test]
fn deadline_is_a_strict_bound() {
    assert!(!deadline_exceeded(0, DEFAULT_TIMEOUT_MILLIS));
    assert!(!deadline_exceeded(DEFAULT_TIMEOUT_MILLIS, DEFAULT_TIMEOUT_MILLIS));
    assert!(deadline_exceeded(DEFAULT_TIMEOUT_MILLIS + 1, DEFAULT_TIMEOUT_MILLIS));
}

#[test]
fn verbosity_levels_map_in_order() {
    assert_eq!(verbosity_level(0), LogLevel::Warn);
    assert_eq!(verbosity_level(1), LogLevel::Info);
    assert_eq!(verbosity_level(2), LogLevel::Debug);
    assert_eq!(verbosity_level(3), LogLevel::Trace);
    assert_eq!(verbosity_level(17), LogLevel::Trace);
}

#[test]
fn default_config_matches_startup_defaults() {
    let c = Config::default();
    assert_eq!(c.concurrency_limit, DEFAULT_CONCURRENCY_LIMIT);
    assert_eq!(c.timeout_millis, DEFAULT_TIMEOUT_MILLIS);
    assert_eq!(c.max_payload, DEFAULT_MAX_PAYLOAD_BYTES);
    assert_eq!(c.credential, b"secret-token".to_vec());
}
