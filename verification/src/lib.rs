//! Core of a resource-oriented HTTP backend: a bounded memoization cache with
//! least-recently-used eviction, an immutable snapshot format for HTTP replies,
//! content-negotiated dual serialization with ETag computation, conditional-GET
//! short-circuiting, and the invalidation protocol that keeps a registry of
//! caches from serving stale data after writes.

pub mod accept;
pub mod cache;
pub mod etag;
pub mod params;
pub mod problem;
pub mod registry;
pub mod resource;
pub mod respond;
pub mod response;
pub mod text;
