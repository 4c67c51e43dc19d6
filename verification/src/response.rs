//! Response snapshots and their construction.
//!
//! A `CachedResponse` is an immutable capture of an HTTP reply — status,
//! protocol version, headers and body bytes — that can be stored and replayed
//! without re-invoking its producer. An `ETagReply` is a serialized body
//! together with the ETag computed from exactly those bytes and the content
//! type the body was encoded for; turning it into a snapshot attaches the
//! content-type, server and etag headers.
//!
//! Header names are held lowercase, as they travel on the wire.

use vstd::prelude::*;

use crate::etag::{compute_etag, spec_etag};

verus! {

/// The two interchangeable response encodings: structured text and compact
/// binary.
#[derive(Clone, Copy, PartialEq, Eq, Structural, Debug)]
pub enum ContentType {
    Json,
    Bincode,
}

/// Marker for the structured-text encoding.
pub struct Json {}

/// Marker for the compact-binary encoding.
pub struct Bincode {}

impl Json {
    pub fn content_type() -> (r: ContentType)
        ensures
            r == ContentType::Json,
    {
        ContentType::Json
    }
}

impl Bincode {
    pub fn content_type() -> (r: ContentType)
        ensures
            r == ContentType::Bincode,
    {
        ContentType::Bincode
    }
}

impl ContentType {
    /// The media type sent in the content-type header for this encoding.
    pub open spec fn spec_media_type(self) -> Seq<char> {
        match self {
            ContentType::Json => "application/json"@,
            ContentType::Bincode => "application/octet-stream"@,
        }
    }

    pub fn media_type(self) -> (r: &'static str)
        ensures
            r@ == self.spec_media_type(),
    {
        match self {
            ContentType::Json => "application/json",
            ContentType::Bincode => "application/octet-stream",
        }
    }
}

/// HTTP protocol versions a snapshot can record.
#[derive(Clone, Copy, PartialEq, Eq, Structural, Debug)]
pub enum HttpVersion {
    Http09,
    Http10,
    Http11,
    H2,
    H3,
}

/// The server header value identifying this service.
pub fn server_string() -> (r: &'static str)
    ensures
        r@ == "BazaarRealmAPI/0.1.0"@,
{
    "BazaarRealmAPI/0.1.0"
}

/// The mathematical model of a response snapshot: status, version, the header
/// pairs in order, and the body bytes.
pub ghost struct ResponseModel {
    pub status: u16,
    pub version: HttpVersion,
    pub headers: Seq<(Seq<char>, Seq<char>)>,
    pub body: Seq<u8>,
}

/// An immutable capture of an HTTP reply, the only value type stored in the
/// response-flavored caches.
pub struct CachedResponse {
    pub status: u16,
    pub version: HttpVersion,
    pub headers: Vec<(String, String)>,
    pub body: Vec<u8>,
}

impl View for CachedResponse {
    type V = ResponseModel;

    open spec fn view(&self) -> ResponseModel {
        ResponseModel {
            status: self.status,
            version: self.version,
            headers: self.headers@.map_values(|p: (String, String)| (p.0@, p.1@)),
            body: self.body@,
        }
    }
}

impl CachedResponse {
    /// An exact duplicate: the copy has the same model as the original.
    pub fn dup(&self) -> (r: Self)
        ensures
            r@ == self@,
    {
        let mut headers: Vec<(String, String)> = Vec::new();
        let n = self.headers.len();
        let mut i: usize = 0;
        while i < n
            invariant
                n == self.headers@.len(),
                0 <= i <= n,
                headers@.len() == i,
                forall|j: int|
                    0 <= j < i ==> (#[trigger] headers@[j]).0@ == self.headers@[j].0@
                        && headers@[j].1@ == self.headers@[j].1@,
            decreases n - i,
        {
            let pair = &self.headers[i];
            headers.push((pair.0.clone(), pair.1.clone()));
            i = i + 1;
        }
        let r = CachedResponse {
            status: self.status,
            version: self.version,
            headers,
            body: self.body.clone(),
        };
        proof {
            assert(r@.headers =~= self@.headers);
            assert(r@.body =~= self@.body);
        }
        r
    }

    /// The minimal reply substituted for a conditional request whose validator
    /// matches: it carries only the ETag header and an empty body.
    pub fn not_modified(etag: &str) -> (r: Self)
        ensures
            r@.status == 304,
            r@.version == HttpVersion::Http11,
            r@.headers == seq![("etag"@, etag@)],
            r@.body == Seq::<u8>::empty(),
    {
        let mut headers: Vec<(String, String)> = Vec::new();
        headers.push(("etag".to_owned(), etag.to_owned()));
        let r = CachedResponse {
            status: 304,
            version: HttpVersion::Http11,
            headers,
            body: Vec::new(),
        };
        proof {
            assert(r@.headers =~= seq![("etag"@, etag@)]);
            assert(r@.body =~= Seq::<u8>::empty());
        }
        r
    }

    /// Capture a produced reply as a snapshot with the given status.
    pub fn from_reply(reply: ETagReply, status: u16) -> (r: Self)
        ensures
            r@ == reply.spec_response(status),
    {
        reply.into_cached_response(status)
    }
}

/// A serialized body, the ETag computed from exactly those bytes, and the
/// content type the body was encoded for. Constructing it from bytes is the
/// only way to obtain one, so the ETag always matches the body.
pub struct ETagReply {
    body: Vec<u8>,
    etag: String,
    content_type: ContentType,
}

impl ETagReply {
    pub closed spec fn spec_body(&self) -> Seq<u8> {
        self.body@
    }

    pub closed spec fn spec_etag_str(&self) -> Seq<char> {
        self.etag@
    }

    pub closed spec fn spec_content_type(&self) -> ContentType {
        self.content_type
    }

    /// The ETag is always the one computed from the body bytes.
    pub open spec fn wf(&self) -> bool {
        self.spec_etag_str() == spec_etag(self.spec_body())
    }

    /// Wrap a serialized body, computing its ETag. The bytes must be the exact
    /// sequence that will be transmitted.
    pub fn from_bytes(body: Vec<u8>, content_type: ContentType) -> (r: Self)
        ensures
            r.wf(),
            r.spec_body() == body@,
            r.spec_content_type() == content_type,
    {
        let etag = compute_etag(body.as_slice());
        ETagReply { body, etag, content_type }
    }

    pub fn body(&self) -> (r: &Vec<u8>)
        ensures
            r@ == self.spec_body(),
    {
        &self.body
    }

    pub fn etag(&self) -> (r: &String)
        ensures
            r@ == self.spec_etag_str(),
    {
        &self.etag
    }

    pub fn content_type(&self) -> (r: ContentType)
        ensures
            r == self.spec_content_type(),
    {
        self.content_type
    }

    /// The snapshot this reply turns into: its body, under the content-type,
    /// server and etag headers.
    pub open spec fn spec_response(self, status: u16) -> ResponseModel {
        ResponseModel {
            status,
            version: HttpVersion::Http11,
            headers: seq![
                ("content-type"@, self.spec_content_type().spec_media_type()),
                ("server"@, "BazaarRealmAPI/0.1.0"@),
                ("etag"@, self.spec_etag_str()),
            ],
            body: self.spec_body(),
        }
    }

    /// Materialize the reply as a response snapshot with the given status.
    pub fn into_cached_response(self, status: u16) -> (r: CachedResponse)
        ensures
            r@ == self.spec_response(status),
    {
        let mut headers: Vec<(String, String)> = Vec::new();
        headers.push(("content-type".to_owned(), self.content_type.media_type().to_owned()));
        headers.push(("server".to_owned(), server_string().to_owned()));
        headers.push(("etag".to_owned(), self.etag));
        let r = CachedResponse { status, version: HttpVersion::Http11, headers, body: self.body };
        proof {
            assert(r@.headers =~= self.spec_response(status).headers);
        }
        r
    }
}

} // verus!
