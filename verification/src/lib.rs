//! A verified metadata-aggregation core for the Open Library source: canonical
//! value types, response decoders that absorb the source's shape variance,
//! pure normalizers (pagination, image-URL synthesis, deduplication, date and
//! page-count aggregation), an HTML fallback extractor for related works, and
//! a bounded retry policy for the resilient transport layer.

pub mod dates;
pub mod decode;
pub mod models;
pub mod normalize;
pub mod provider;
pub mod retry;
pub mod scrape;
pub mod text;

pub use text::get_key;
