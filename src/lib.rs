//! Discovery, enrichment and ranking of houses for sale, built on a caching,
//! rate-limited request layer.
//!
//! - `limiter`: per-provider rate limits (fixed spacing and a windowed
//!   ceiling) and the registry that shares them.
//! - `cache`: the digest-addressed file names of the response cache.
//! - `client`: one request as a state machine over the cache, the limiter
//!   and the network.
//! - `pattern`: fields taken from a listing's detail page.
//! - `internet`: broadband offers and the minimum-speed rule.
//! - `house`: the per-listing enrichment pipeline and its inclusion checks.
//! - `result`: the report record, its renderings and the report order.
//! - `etuovi`: the listing search and its paging.
//! - `text`: numbers written as text.

pub mod limiter;
pub mod text;
pub mod result;
pub mod pattern;
pub mod internet;
pub mod house;
pub mod cache;
pub mod client;
pub mod etuovi;
