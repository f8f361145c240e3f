//! The records that the store keeps and answers with.
use vstd::prelude::*;

verus! {

/// A tracked web site.
#[derive(Debug, Clone)]
pub struct Site {
    pub domain: String,
    pub name: String,
    pub created_at: i64,
}

/// One recorded hit: a page view or a custom event.
#[derive(Debug, Clone)]
pub struct Event {
    pub site: String,
    pub kind: String,
    pub path: String,
    pub referrer: Option<String>,
    pub visitor_hash: String,
    pub country: Option<String>,
    pub device: Option<String>,
    pub browser: Option<String>,
    pub ts_ms: i64,
}

/// Traffic figures of one site over a time range.
#[derive(Debug, Clone)]
pub struct Stats {
    pub pageviews: i64,
    pub visitors: i64,
    pub top_pages: Vec<(String, i64)>,
    pub top_referrers: Vec<(String, i64)>,
    pub countries: Vec<(String, i64)>,
    pub devices: Vec<(String, i64)>,
    /// `"raw"`, `"hourly"` or `"daily"`: which tables answered.
    pub source: String,
}

} // verus!
