use bazaar_realm_api::cache::Cache;
use bazaar_realm_api::respond::check_etag;
use bazaar_realm_api::response::{CachedResponse, ContentType, ETagReply};

fn header<'a>(resp: &'a CachedResponse, name: &str) -> Option<&'a str> {
    resp.headers
        .iter()
        .find(|(n, _)| n == name)
        .map(|(_, v)| v.as_str())
}

#[test]
fn etag_is_the_hash_of_the_exact_bytes() {
    let body = serde_json::to_vec(&vec!["a", "b", "c"]).unwrap();
    let expected = format!("{:x}", seahash::hash(&body));
    let reply = ETagReply::from_bytes(body.clone(), ContentType::Json);
    assert_eq!(reply.etag(), &expected);
    assert_eq!(reply.body(), &body);
}

#[test]
fn etag_is_deterministic_across_calls() {
    let one = serde_json::to_vec(&vec![1, 2, 3]).unwrap();
    let two = serde_json::to_vec(&vec![1, 2, 3]).unwrap();
    let r1 = ETagReply::from_bytes(one, ContentType::Json);
    let r2 = ETagReply::from_bytes(two, ContentType::Json);
    assert_eq!(r1.etag(), r2.etag());
    let other = ETagReply::from_bytes(serde_json::to_vec(&vec![3, 2, 1]).unwrap(), ContentType::Json);
    assert_ne!(r1.etag(), other.etag());
}

#[test]
fn reply_headers_carry_media_type_server_and_etag() {
    let body = bincode::serialize(&12345i64).unwrap();
    let reply = ETagReply::from_bytes(body.clone(), ContentType::Bincode);
    let etag = reply.etag().clone();
    let resp = CachedResponse::from_reply(reply, 200);
    assert_eq!(resp.status, 200);
    assert_eq!(resp.body, body);
    assert_eq!(header(&resp, "content-type"), Some("application/octet-stream"));
    assert_eq!(header(&resp, "server"), Some("BazaarRealmAPI/0.1.0"));
    assert_eq!(header(&resp, "etag"), Some(etag.as_str()));

    let json = ETagReply::from_bytes(b"{}".to_vec(), ContentType::Json);
    let json_resp = CachedResponse::from_reply(json, 200);
    assert_eq!(header(&json_resp, "content-type"), Some("application/json"));
}

#[test]
fn conditional_get_downgrades_to_not_modified() {
    let reply = ETagReply::from_bytes(b"payload".to_vec(), ContentType::Json);
    let resp = CachedResponse::from_reply(reply, 200);
    let etag = header(&resp, "etag").unwrap().to_string();

    let downgraded = check_etag(Some(etag.clone()), resp.dup());
    assert_eq!(downgraded.status, 304);
    assert!(downgraded.body.is_empty());
    assert_eq!(downgraded.headers.len(), 1);
    assert_eq!(header(&downgraded, "etag"), Some(etag.as_str()));

    let unchanged = check_etag(Some("mismatch".to_string()), resp.dup());
    assert_eq!(unchanged.status, 200);
    assert_eq!(unchanged.body, resp.body);

    let unconditioned = check_etag(None, resp.dup());
    assert_eq!(unconditioned.status, 200);
}

#[test]
fn conditional_get_agrees_between_cache_and_fresh_compute() {
    let make = || {
        let reply = ETagReply::from_bytes(b"stable".to_vec(), ContentType::Json);
        Ok(CachedResponse::from_reply(reply, 200))
    };
    let mut cache: Cache<i32, CachedResponse> = Cache::new("resp", 4);
    let fresh = cache.get_response(1, make);
    let etag = header(&fresh, "etag").unwrap().to_string();
    let cached = cache.get_response(1, make);
    assert_eq!(cached.body, fresh.body);
    assert_eq!(header(&cached, "etag"), Some(etag.as_str()));

    let d1 = check_etag(Some(etag.clone()), fresh);
    let d2 = check_etag(Some(etag.clone()), cached);
    assert_eq!(d1.status, 304);
    assert_eq!(d2.status, 304);
}

#[test]
fn get_response_computes_once_and_replays_bytes() {
    let mut cache: Cache<i32, CachedResponse> = Cache::new("resp", 4);
    let mut calls = 0;
    let r1 = cache.get_response(3, || -> Result<CachedResponse, bazaar_realm_api::problem::Problem> {
        calls += 1;
        let reply = ETagReply::from_bytes(b"body-bytes".to_vec(), ContentType::Json);
        Ok(CachedResponse::from_reply(reply, 200))
    });
    assert_eq!(calls, 1);
    let mut calls2 = 0;
    let r2 = cache.get_response(3, || {
        calls2 += 1;
        let reply = ETagReply::from_bytes(b"other".to_vec(), ContentType::Json);
        Ok(CachedResponse::from_reply(reply, 200))
    });
    assert_eq!(calls2, 0);
    assert_eq!(r1.body, r2.body);
    assert_eq!(header(&r1, "etag"), header(&r2, "etag"));
}

#[test]
fn failed_compute_returns_problem_and_caches_nothing() {
    let mut cache: Cache<i32, CachedResponse> = Cache::new("resp", 4);
    let r = cache.get_response(8, || {
        Err(bazaar_realm_api::problem::Problem::from_status(500))
    });
    assert_eq!(r.status, 500);
    assert_eq!(header(&r, "content-type"), Some("application/problem+json"));
    assert_eq!(cache.len(), 0);
    let mut calls = 0;
    let _ = cache.get_response(8, || {
        calls += 1;
        let reply = ETagReply::from_bytes(b"ok".to_vec(), ContentType::Json);
        Ok(CachedResponse::from_reply(reply, 200))
    });
    assert_eq!(calls, 1);
    assert_eq!(cache.len(), 1);
}

#[test]
fn not_modified_is_minimal() {
    let r = CachedResponse::not_modified("abc123");
    assert_eq!(r.status, 304);
    assert!(r.body.is_empty());
    assert_eq!(r.headers, vec![("etag".to_string(), "abc123".to_string())]);
}
