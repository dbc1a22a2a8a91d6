//! The records that the service stores, reads back and answers with.
use vstd::prelude::*;

verus! {

/// An instant in UTC: whole seconds since the Unix epoch (negative before
/// it) and the nanoseconds past that second (below one billion, or up to
/// two billion during a leap second, as `chrono` counts them).
#[derive(Debug, Clone, Copy, PartialEq, Eq)]
pub struct Timestamp {
    pub secs: i64,
    pub nanos: u32,
}

/// A stored short link and the instant it was created.
#[derive(Debug, Clone, PartialEq, Eq)]
pub struct UrlModel {
    pub id: i32,
    pub long_url: String,
    pub short_code: String,
    pub created_at: Timestamp,
}

/// A short link with the number of visits logged for it.
#[derive(Debug, Clone, PartialEq, Eq)]
pub struct UrlClickCount {
    pub url_id: i32,
    pub long_url: String,
    pub short_code: String,
    pub click_count: i64,
}

/// The answer to a successful creation. `short_code` holds the complete
/// short link; `created_at` is the instant of the answer.
#[derive(Debug, Clone, PartialEq, Eq)]
pub struct UrlResponse {
    pub short_code: String,
    pub long_url: String,
    pub created_at: Timestamp,
}

/// One page of a listing, with the numbers that place it among the others.
#[derive(Debug, Clone, PartialEq, Eq)]
pub struct PaginatedResponse<T> {
    pub items: Vec<T>,
    pub total: i64,
    pub page: i64,
    pub per_page: i64,
    pub last_page: i64,
}

} // verus!
