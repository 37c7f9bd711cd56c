//! The catalog's records, the requests that create them, and the shapes of
//! a search: the provider's and the catalog's own.
use vstd::prelude::*;

verus! {

/// An instant in UTC: whole seconds since the Unix epoch and the nanoseconds past them.
#[derive(Debug, Clone, Copy, PartialEq, Eq)]
pub struct Timestamp {
    pub secs: i64,
    pub nanos: u32,
}

/// `a` is the same instant as `b` or a later one.
pub open spec fn not_before(a: Timestamp, b: Timestamp) -> bool {
    a.secs > b.secs || (a.secs == b.secs && a.nanos >= b.nanos)
}

impl Timestamp {
    /// Whether `self` is the same instant as `other` or a later one.
    pub fn is_not_before(&self, other: &Timestamp) -> (r: bool)
        ensures
            r == not_before(*self, *other),
    {
        self.secs > other.secs || (self.secs == other.secs && self.nanos >= other.nanos)
    }
}

/// A stored movie record. The identifier is the 128 bits of a UUID.
#[derive(Debug, Clone, PartialEq, Eq)]
pub struct Movie {
    pub id: u128,
    pub title: String,
    pub imdb_id: String,
    pub added_by: String,
    pub poster_url: Option<String>,
    pub year: Option<String>,
    pub media_type: Option<String>,
    pub notes: Option<String>,
    pub plot: Option<String>,
    pub created_at: Timestamp,
}

/// A request to add a movie record.
#[derive(Debug, Clone, PartialEq, Eq)]
pub struct NewMovie {
    pub title: String,
    pub imdb_id: String,
    pub added_by: String,
    pub poster_url: Option<String>,
    pub year: Option<String>,
    pub media_type: Option<String>,
    pub notes: Option<String>,
    pub plot: Option<String>,
}

/// The parameters of a search: the free-text query and an optional media-type filter.
#[derive(Debug, Clone, PartialEq, Eq)]
pub struct SearchParams {
    pub query: String,
    pub media_type: Option<String>,
}

/// One hit of a search, in the catalog's shape.
#[derive(Debug, Clone, PartialEq, Eq)]
pub struct SearchResultItem {
    pub title: String,
    pub year: Option<String>,
    pub imdb_id: String,
    pub media_type: Option<String>,
    pub poster_url: Option<String>,
}

/// The answer to a search: the hits and, where known, how many there are in all.
#[derive(Debug, Clone, PartialEq, Eq)]
pub struct SearchResponse {
    pub results: Vec<SearchResultItem>,
    pub total_results: Option<u32>,
}

/// The search provider's answer, as it sends it.
#[derive(Debug, Clone, PartialEq, Eq)]
pub struct OmdbSearchResponse {
    pub search: Option<Vec<OmdbSearchItem>>,
    pub total_results: Option<String>,
    pub response: String,
    pub error: Option<String>,
}

/// One hit of the search provider, as it sends it.
#[derive(Debug, Clone, PartialEq, Eq)]
pub struct OmdbSearchItem {
    pub title: String,
    pub year: Option<String>,
    pub imdb_id: String,
    pub media_type: Option<String>,
    pub poster_url: Option<String>,
}

/// `m` carries exactly the fields that `req` asked for.
pub open spec fn record_matches_request(m: Movie, req: NewMovie) -> bool {
    &&& m.title == req.title
    &&& m.imdb_id == req.imdb_id
    &&& m.added_by == req.added_by
    &&& m.poster_url == req.poster_url
    &&& m.year == req.year
    &&& m.media_type == req.media_type
    &&& m.notes == req.notes
    &&& m.plot == req.plot
}

/// The catalog's shape of a provider hit: the same fields, renamed.
pub open spec fn result_item_of(item: OmdbSearchItem) -> SearchResultItem {
    SearchResultItem {
        title: item.title,
        year: item.year,
        imdb_id: item.imdb_id,
        media_type: item.media_type,
        poster_url: item.poster_url,
    }
}

pub(crate) fn copy_text(s: &Option<String>) -> (r: Option<String>)
    ensures
        r == *s,
{
    match s {
        Some(t) => Some(t.clone()),
        None => None,
    }
}

impl Movie {
    /// The record that `request` asks for, with the given identifier and creation time.
    pub fn from_request(request: NewMovie, id: u128, created_at: Timestamp) -> (r: Movie)
        ensures
            record_matches_request(r, request),
            r.id == id,
            r.created_at == created_at,
    {
        Movie {
            id,
            title: request.title,
            imdb_id: request.imdb_id,
            added_by: request.added_by,
            poster_url: request.poster_url,
            year: request.year,
            media_type: request.media_type,
            notes: request.notes,
            plot: request.plot,
            created_at,
        }
    }

    /// A copy of the record, field for field.
    pub fn duplicate(&self) -> (r: Movie)
        ensures
            r == *self,
    {
        Movie {
            id: self.id,
            title: self.title.clone(),
            imdb_id: self.imdb_id.clone(),
            added_by: self.added_by.clone(),
            poster_url: copy_text(&self.poster_url),
            year: copy_text(&self.year),
            media_type: copy_text(&self.media_type),
            notes: copy_text(&self.notes),
            plot: copy_text(&self.plot),
            created_at: self.created_at,
        }
    }
}

impl SearchResultItem {
    /// The catalog's shape of a provider hit.
    pub fn from_omdb(item: OmdbSearchItem) -> (r: SearchResultItem)
        ensures
            r == result_item_of(item),
    {
        SearchResultItem {
            title: item.title,
            year: item.year,
            imdb_id: item.imdb_id,
            media_type: item.media_type,
            poster_url: item.poster_url,
        }
    }
}

} // verus!
