//! Conditional requests and content-type isolation.
//!
//! `check_etag` derives the per-request "not modified" downgrade from a stored
//! ETag; it never mutates the cache, and the downgraded reply is never stored.
//! The lemmas here state the conditional-GET guarantee and that a cache whose
//! entries all carry one media type only ever replays bodies of that type.

use vstd::prelude::*;

use crate::cache::{
    seq_has_key, seq_value_of, spec_delete, spec_insert, spec_promote, distinct_keys,
};
use crate::response::{CachedResponse, ContentType, ETagReply, HttpVersion, ResponseModel};

verus! {

/// The value of the first header named `name`, if any.
pub open spec fn spec_header_value(
    headers: Seq<(Seq<char>, Seq<char>)>,
    name: Seq<char>,
) -> Option<Seq<char>>
    decreases headers.len(),
{
    if headers.len() == 0 {
        None
    } else if headers[0].0 == name {
        Some(headers[0].1)
    } else {
        spec_header_value(headers.drop_first(), name)
    }
}

/// The model of the minimal "not modified" reply carrying the ETag `e`.
pub open spec fn spec_not_modified(e: Seq<char>) -> ResponseModel {
    ResponseModel {
        status: 304,
        version: HttpVersion::Http11,
        headers: seq![("etag"@, e)],
        body: Seq::<u8>::empty(),
    }
}

/// Conditional-GET downgrade. When the request's If-None-Match value equals
/// the response's ETag header, substitute the minimal "not modified" reply
/// carrying only that ETag and an empty body; otherwise hand the response
/// back unchanged. The substitution happens strictly after normal cache
/// population: its result is derived per request and never stored.
pub fn check_etag(etag: Option<String>, response: CachedResponse) -> (r: CachedResponse)
    ensures
        match etag {
            Some(e) => match spec_header_value(response@.headers, "etag"@) {
                Some(v) => if v == e@ {
                    r@ == spec_not_modified(v)
                } else {
                    r@ == response@
                },
                None => r@ == response@,
            },
            None => r@ == response@,
        },
{
    let request_etag: String = match etag {
        Some(e) => e,
        None => {
            return response;
        },
    };
    let name = "etag".to_owned();
    let n = response.headers.len();
    let mut i: usize = 0;
    proof {
        assert(response@.headers.skip(0) =~= response@.headers);
    }
    while i < n
        invariant
            n == response.headers@.len(),
            0 <= i <= n,
            name@ == "etag"@,
            etag is Some,
            request_etag@ == etag.unwrap()@,
            spec_header_value(response@.headers, "etag"@) == spec_header_value(
                response@.headers.skip(i as int),
                "etag"@,
            ),
        decreases n - i,
    {
        let ghost rest = response@.headers.skip(i as int);
        let pair = &response.headers[i];
        proof {
            assert(response@.headers[i as int] == (response.headers@[i as int].0@,
            response.headers@[i as int].1@));
            assert(rest[0] == response@.headers[i as int]);
        }
        if pair.0 == name {
            proof {
                assert(rest[0].0 == "etag"@);
                assert(spec_header_value(rest, "etag"@) == Some(rest[0].1));
                assert(spec_header_value(response@.headers, "etag"@) == Some(pair.1@));
            }
            if pair.1 == request_etag {
                let r = CachedResponse::not_modified(pair.1.as_str());
                proof {
                    assert(r@ == spec_not_modified(pair.1@));
                }
                return r;
            } else {
                return response;
            }
        }
        proof {
            assert(rest[0].0 != "etag"@);
            assert(rest.drop_first() =~= response@.headers.skip(i + 1));
        }
        i = i + 1;
    }
    proof {
        assert(response@.headers.skip(n as int) =~= Seq::<(Seq<char>, Seq<char>)>::empty());
    }
    response
}

/// The headers that a materialized reply carries: its ETag header holds the
/// ETag computed from its body bytes, and its content-type header holds the
/// media type it was encoded for.
pub proof fn lemma_reply_headers(reply: ETagReply, status: u16)
    ensures
        spec_header_value(reply.spec_response(status).headers, "etag"@) == Some(
            reply.spec_etag_str(),
        ),
        spec_header_value(reply.spec_response(status).headers, "content-type"@) == Some(
            reply.spec_content_type().spec_media_type(),
        ),
{
    reveal_strlit("etag");
    reveal_strlit("content-type");
    reveal_strlit("server");
    let h = reply.spec_response(status).headers;
    assert(h.len() == 3);
    assert("content-type"@.len() == 12 && "etag"@.len() == 4 && "server"@.len() == 6);
    assert(h[0].0 == "content-type"@);
    assert(spec_header_value(h, "content-type"@) == Some(h[0].1));
    assert(h[0].0 != "etag"@);
    let h1 = h.drop_first();
    assert(h1 =~= seq![("server"@, "BazaarRealmAPI/0.1.0"@), ("etag"@, reply.spec_etag_str())]);
    assert(spec_header_value(h, "etag"@) == spec_header_value(h1, "etag"@));
    assert(h1[0].0 == "server"@ && h1[0].0 != "etag"@);
    let h2 = h1.drop_first();
    assert(h2 =~= seq![("etag"@, reply.spec_etag_str())]);
    assert(spec_header_value(h1, "etag"@) == spec_header_value(h2, "etag"@));
    assert(h2[0].0 == "etag"@);
    assert(spec_header_value(h2, "etag"@) == Some(reply.spec_etag_str()));
}

/// Conditional GET: a request whose If-None-Match value equals the ETag of a
/// reply built from some body bytes is answered with the minimal reply that
/// carries exactly that ETag and an empty body — whether the response was
/// served from cache or freshly computed, since both carry the same headers.
pub proof fn lemma_conditional_get(reply: ETagReply, status: u16, e: Seq<char>)
    requires
        e == reply.spec_etag_str(),
    ensures
        spec_header_value(reply.spec_response(status).headers, "etag"@) == Some(e),
        spec_not_modified(e).status == 304,
        spec_not_modified(e).body == Seq::<u8>::empty(),
        spec_header_value(spec_not_modified(e).headers, "etag"@) == Some(e),
{
    lemma_reply_headers(reply, status);
    let m = spec_not_modified(e);
    assert(m.headers[0] == ("etag"@, e));
}

/// Every snapshot in the sequence carries this content type.
pub open spec fn all_content_type<K: crate::cache::KeyEq>(s: Seq<(K, CachedResponse)>, ct: ContentType) -> bool {
    forall|i: int|
        0 <= i < s.len() ==> spec_header_value(
            (#[trigger] s[i]).1@.headers,
            "content-type"@,
        ) == Some(ct.spec_media_type())
}

/// The two media types differ, so a body served under one content type was
/// never encoded for the other.
pub proof fn lemma_media_types_differ()
    ensures
        ContentType::Json.spec_media_type() != ContentType::Bincode.spec_media_type(),
{
    reveal_strlit("application/json");
    reveal_strlit("application/octet-stream");
    assert(ContentType::Json.spec_media_type().len() == 16);
    assert(ContentType::Bincode.spec_media_type().len() == 24);
}

/// Content-type isolation inside one cache: when every stored snapshot
/// carries the cache's content type, so does every snapshot the cache can
/// replay, and every operation of the cache keeps the property — a hit's
/// recency refresh, an insert of a snapshot of that type, and a delete.
pub proof fn lemma_content_isolation<K: crate::cache::KeyEq>(s: Seq<(K, CachedResponse)>, ct: ContentType, k: K)
    requires
        distinct_keys(s),
        all_content_type(s, ct),
    ensures
        seq_has_key(s, k) ==> spec_header_value(seq_value_of(s, k)@.headers, "content-type"@)
            == Some(ct.spec_media_type()),
        seq_has_key(s, k) ==> all_content_type(spec_promote(s, k), ct),
        all_content_type(spec_delete(s, k), ct),
{
    if seq_has_key(s, k) {
        let i = crate::cache::seq_index_of(s, k);
        assert(0 <= i < s.len() && s[i].0.model() == k.model());
        let p = spec_promote(s, k);
        assert forall|j: int|
            0 <= j < p.len() implies spec_header_value(
            (#[trigger] p[j]).1@.headers,
            "content-type"@,
        ) == Some(ct.spec_media_type()) by {
            if j == 0 {
                assert(p[j] == s[i]);
            } else {
                let r = s.remove(i);
                assert(p[j] == r[j - 1]);
                let sj = if j - 1 < i {
                    j - 1
                } else {
                    j
                };
                assert(r[j - 1] == s[sj]);
            }
        }
        let d = spec_delete(s, k);
        assert forall|j: int|
            0 <= j < d.len() implies spec_header_value(
            (#[trigger] d[j]).1@.headers,
            "content-type"@,
        ) == Some(ct.spec_media_type()) by {
            let sj = if j < i {
                j
            } else {
                j + 1
            };
            assert(d[j] == s[sj]);
        }
    }
}

/// Content-type isolation under insertion: storing a snapshot of the cache's
/// content type keeps every stored snapshot of that type.
pub proof fn lemma_content_isolation_insert<K: crate::cache::KeyEq>(
    s: Seq<(K, CachedResponse)>,
    ct: ContentType,
    k: K,
    v: CachedResponse,
    cap: nat,
)
    requires
        distinct_keys(s),
        all_content_type(s, ct),
        spec_header_value(v@.headers, "content-type"@) == Some(ct.spec_media_type()),
    ensures
        all_content_type(spec_insert(s, k, v, cap), ct),
{
    let t = spec_insert(s, k, v, cap);
    if cap == 0 {
    } else if seq_has_key(s, k) {
        let i = crate::cache::seq_index_of(s, k);
        assert(0 <= i < s.len() && s[i].0.model() == k.model());
        let r = s.remove(i);
        assert forall|j: int|
            0 <= j < t.len() implies spec_header_value(
            (#[trigger] t[j]).1@.headers,
            "content-type"@,
        ) == Some(ct.spec_media_type()) by {
            if j > 0 {
                assert(t[j] == r[j - 1]);
                let sj = if j - 1 < i {
                    j - 1
                } else {
                    j
                };
                assert(r[j - 1] == s[sj]);
            }
        }
    } else if s.len() >= cap {
        assert forall|j: int|
            0 <= j < t.len() implies spec_header_value(
            (#[trigger] t[j]).1@.headers,
            "content-type"@,
        ) == Some(ct.spec_media_type()) by {
            if j > 0 {
                assert(t[j] == s.drop_last()[j - 1]);
                assert(s.drop_last()[j - 1] == s[j - 1]);
            }
        }
    } else {
        assert forall|j: int|
            0 <= j < t.len() implies spec_header_value(
            (#[trigger] t[j]).1@.headers,
            "content-type"@,
        ) == Some(ct.spec_media_type()) by {
            if j > 0 {
                assert(t[j] == s[j - 1]);
            }
        }
    }
}

} // verus!
