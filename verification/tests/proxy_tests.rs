use proxy_core::cache::HTTPCache;
use proxy_core::dispatch::{select_handler, HTTPStrikeSet, HandlerKind};
use proxy_core::handler::{
    forward_request_and_return_response, handle_get_forwarded, handle_get_lookup, handle_head,
    handle_post, stamp_forwarded_for, ForwardOutcome, BAD_GATEWAY,
};
use proxy_core::message::{extend_header_value, make_http_error, Method, Request, Response};

fn request(method: Method, host: &str, path: &str) -> Request {
    Request {
        method,
        host: host.to_owned(),
        path: path.to_owned(),
        headers: vec![("host".to_owned(), host.to_owned())],
        body: Vec::new(),
    }
}

fn origin_response() -> Response {
    Response {
        status: 200,
        headers: vec![("content-type".to_owned(), "text/plain".to_owned())],
        body: b"hello from origin".to_vec(),
    }
}

fn assert_responses_equal(a: &Response, b: &Response) {
    assert_eq!(a.status, b.status);
    assert_eq!(a.headers, b.headers);
    assert_eq!(a.body, b.body);
}

#[test]
fn unsupported_method_gets_no_handler() {
    assert_eq!(select_handler(Method::Get), Some(HandlerKind::Get));
    assert_eq!(select_handler(Method::Post), Some(HandlerKind::Post));
    assert_eq!(select_handler(Method::Head), Some(HandlerKind::Head));
    assert_eq!(select_handler(Method::Put), None);
    assert_eq!(select_handler(Method::Delete), None);
    assert_eq!(select_handler(Method::Connect), None);
    assert_eq!(select_handler(Method::Options), None);
    assert_eq!(select_handler(Method::Trace), None);
    assert_eq!(select_handler(Method::Patch), None);
}

#[test]
fn get_on_fresh_cache_forwards_and_caches() {
    let mut cache = HTTPCache::new();
    let req = request(Method::Get, "example.com", "/foo");

    assert!(!cache.contains_entry(&req));
    assert!(handle_get_lookup(&cache, &req).is_none());

    let relayed = handle_get_forwarded(&mut cache, &req, ForwardOutcome::Delivered(origin_response()));
    assert_responses_equal(&relayed, &origin_response());

    assert!(cache.contains_entry(&req));
    let stored = cache.get_cached_response(&req).expect("entry was just stored");
    assert_responses_equal(&stored, &origin_response());
}

#[test]
fn repeated_get_is_served_from_cache() {
    let mut cache = HTTPCache::new();
    let req = request(Method::Get, "example.com", "/foo");
    let first = handle_get_forwarded(&mut cache, &req, ForwardOutcome::Delivered(origin_response()));

    let second_req = request(Method::Get, "example.com", "/foo");
    let second = handle_get_lookup(&cache, &second_req).expect("second call hits the cache");
    assert_responses_equal(&second, &first);

    let third = handle_get_lookup(&cache, &second_req).expect("still cached");
    assert_responses_equal(&third, &first);
}

#[test]
fn concurrent_equal_gets_share_one_fetch() {
    let mut cache = HTTPCache::new();
    let req = request(Method::Get, "example.com", "/shared");

    // First worker enters the critical section: miss, so it forwards and stores.
    assert!(handle_get_lookup(&cache, &req).is_none());
    let inserted = handle_get_forwarded(&mut cache, &req, ForwardOutcome::Delivered(origin_response()));

    // Second worker enters next: a hit, so its own forward outcome is never
    // consumed and it observes exactly the inserted response.
    let observed = handle_get_lookup(&cache, &req).expect("populated by the first worker");
    assert_responses_equal(&observed, &inserted);
}

#[test]
fn post_never_reads_or_writes_cache() {
    let cache = HTTPCache::new();
    let req = request(Method::Post, "example.com", "/submit");

    let first = handle_post(&req, ForwardOutcome::Delivered(origin_response()));
    assert_responses_equal(&first, &origin_response());

    // Repetition changes nothing: the handler takes no cache at all, and the
    // shared cache holds no entry under the request's identity.
    let second = handle_post(&req, ForwardOutcome::Delivered(origin_response()));
    assert_responses_equal(&second, &origin_response());
    assert!(!cache.contains_entry(&req));
    assert!(cache.get_cached_response(&req).is_none());
}

#[test]
fn head_relays_without_cache() {
    let req = request(Method::Head, "example.com", "/foo");
    let res = handle_head(&req, ForwardOutcome::Delivered(origin_response()));
    assert_responses_equal(&res, &origin_response());
}

#[test]
fn write_failure_yields_clean_502() {
    let res = forward_request_and_return_response(ForwardOutcome::WriteFailed);
    assert_eq!(res.status, 502);
    assert!(res.body.is_empty());
    assert!(res.headers.is_empty());

    let mut cache = HTTPCache::new();
    let req = request(Method::Get, "example.com", "/down");
    let relayed = handle_get_forwarded(&mut cache, &req, ForwardOutcome::WriteFailed);
    assert_eq!(relayed.status, BAD_GATEWAY);
    assert!(relayed.body.is_empty());
}

#[test]
fn read_failure_yields_502_not_truncated() {
    let res = forward_request_and_return_response(ForwardOutcome::ReadFailed);
    assert_eq!(res.status, 502);
    assert!(res.body.is_empty());

    let req = request(Method::Post, "example.com", "/flaky");
    let relayed = handle_post(&req, ForwardOutcome::ReadFailed);
    assert_eq!(relayed.status, BAD_GATEWAY);
    assert!(relayed.body.is_empty());
}

#[test]
fn delivered_response_is_relayed_verbatim() {
    let res = forward_request_and_return_response(ForwardOutcome::Delivered(origin_response()));
    assert_responses_equal(&res, &origin_response());
}

#[test]
fn cache_distinguishes_identities() {
    let mut cache = HTTPCache::new();
    let foo = request(Method::Get, "example.com", "/foo");
    let bar = request(Method::Get, "example.com", "/bar");
    let other_host = request(Method::Get, "example.org", "/foo");
    let head_foo = request(Method::Head, "example.com", "/foo");

    cache.add_entry(&foo, &origin_response());
    assert!(cache.contains_entry(&foo));
    assert!(!cache.contains_entry(&bar));
    assert!(!cache.contains_entry(&other_host));
    assert!(!cache.contains_entry(&head_foo));
    assert!(cache.get_cached_response(&bar).is_none());
}

#[test]
fn add_entry_same_identity_supersedes() {
    let mut cache = HTTPCache::new();
    let req = request(Method::Get, "example.com", "/foo");
    let newer = Response { status: 203, headers: Vec::new(), body: b"newer".to_vec() };

    cache.add_entry(&req, &origin_response());
    cache.add_entry(&req, &newer);
    let stored = cache.get_cached_response(&req).expect("identity is present");
    assert_responses_equal(&stored, &newer);
}

#[test]
fn extend_header_value_appends_and_keeps_duplicates() {
    let mut req = request(Method::Get, "example.com", "/foo");
    extend_header_value(&mut req, "x-forwarded-for", "10.0.0.1");
    extend_header_value(&mut req, "x-forwarded-for", "10.0.0.2");

    assert_eq!(req.headers.len(), 3);
    assert_eq!(req.headers[0], ("host".to_owned(), "example.com".to_owned()));
    assert_eq!(req.headers[1], ("x-forwarded-for".to_owned(), "10.0.0.1".to_owned()));
    assert_eq!(req.headers[2], ("x-forwarded-for".to_owned(), "10.0.0.2".to_owned()));
    assert_eq!(req.method, Method::Get);
    assert_eq!(req.host, "example.com");
    assert_eq!(req.path, "/foo");
}

#[test]
fn stamp_forwarded_for_adds_client_ip() {
    let mut req = request(Method::Post, "example.com", "/submit");
    stamp_forwarded_for(&mut req, "192.168.1.7");
    let last = req.headers.last().expect("a header was appended");
    assert_eq!(last.0, "x-forwarded-for");
    assert_eq!(last.1, "192.168.1.7");
}

#[test]
fn make_http_error_is_bare_status() {
    let res = make_http_error(502);
    assert_eq!(res.status, 502);
    assert!(res.headers.is_empty());
    assert!(res.body.is_empty());

    let teapot = make_http_error(418);
    assert_eq!(teapot.status, 418);
}

#[test]
fn strike_set_always_allows() {
    let gate = HTTPStrikeSet::new();
    assert!(gate.permits(&request(Method::Get, "example.com", "/foo")));
    assert!(gate.permits(&request(Method::Post, "example.com", "/foo")));
}
