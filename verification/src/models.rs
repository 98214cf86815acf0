//! The canonical data model: the value types every provider adapter must
//! produce, whatever the native shape of its source.

use vstd::prelude::*;
use crate::dates::OlDate;

verus! {

/// The media category of a record.
#[derive(Debug, Clone, Copy, PartialEq, Eq, Structural)]
pub enum MetadataLot {
    Book,
}

/// The source a record was aggregated from.
#[derive(Debug, Clone, Copy, PartialEq, Eq, Structural)]
pub enum MetadataSource {
    Openlibrary,
}

/// The purpose of an attached image.
#[derive(Debug, Clone, Copy, PartialEq, Eq, Structural)]
pub enum MetadataImageLot {
    Poster,
}

/// An image location: a pre-resolved absolute URL.
#[derive(Debug, Clone, PartialEq, Eq)]
pub enum StoredUrl {
    Url(String),
}

/// The resolved text of a stored URL.
pub open spec fn stored_url_text(u: StoredUrl) -> Seq<char> {
    match u {
        StoredUrl::Url(s) => s@,
    }
}

/// Book-specific payload of a canonical record.
#[derive(Debug, Clone, PartialEq, Eq)]
pub struct BookSpecifics {
    pub pages: Option<i32>,
}

/// Lot-specific payload, tagged by media category.
#[derive(Debug, Clone, PartialEq, Eq)]
pub enum MediaSpecifics {
    Book(BookSpecifics),
}

/// A creator credited on a record: name, role label, optional photo URL.
#[derive(Debug, Clone, PartialEq, Eq)]
pub struct MetadataCreator {
    pub name: String,
    pub role: String,
    pub image: Option<String>,
}

/// One image attached to a record.
#[derive(Debug, Clone, PartialEq, Eq)]
pub struct MetadataImage {
    pub url: StoredUrl,
    pub lot: MetadataImageLot,
}

/// A forward reference to a related work; resolving it takes a later
/// `details` call.
#[derive(Debug, Clone, PartialEq, Eq)]
pub struct PartialMetadata {
    pub title: String,
    pub image: Option<String>,
    pub identifier: String,
    pub lot: MetadataLot,
    pub source: MetadataSource,
}

/// A lightweight projection of one record for list results.
#[derive(Debug, Clone, PartialEq, Eq)]
pub struct MediaSearchItem {
    pub identifier: String,
    pub title: String,
    pub image: Option<String>,
    pub publish_year: Option<i32>,
}

/// Pagination bookkeeping for one page of results.
#[derive(Debug, Clone, PartialEq, Eq)]
pub struct SearchDetails {
    pub total: i32,
    pub next_page: Option<i32>,
}

/// One page of search results.
#[derive(Debug, Clone, PartialEq, Eq)]
pub struct SearchResults<T> {
    pub details: SearchDetails,
    pub items: Vec<T>,
}

/// The canonical record for one work.
#[derive(Debug, Clone, PartialEq)]
pub struct MediaDetails {
    pub identifier: String,
    pub title: String,
    pub production_status: String,
    pub description: Option<String>,
    pub lot: MetadataLot,
    pub source: MetadataSource,
    pub creators: Vec<MetadataCreator>,
    pub genres: Vec<String>,
    pub images: Vec<MetadataImage>,
    pub publish_year: Option<i32>,
    pub publish_date: Option<OlDate>,
    pub specifics: MediaSpecifics,
    pub suggestions: Vec<PartialMetadata>,
    pub provider_rating: Option<i64>,
    pub videos: Vec<String>,
    pub groups: Vec<String>,
    pub is_nsfw: Option<bool>,
}

/// The typed failure a provider surfaces to its caller.
#[derive(Debug, Clone, PartialEq, Eq)]
pub enum ProviderError {
    /// A network error, non-success status, malformed body, or an exhausted
    /// retry budget.
    Transport { context: String },
    /// A required field whose shape matched no known variant.
    Decode { context: String },
}

} // verus!
