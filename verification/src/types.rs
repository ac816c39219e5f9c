use vstd::prelude::*;

verus! {

/// Default number of hits returned by the search tools.
pub fn default_limit() -> (r: u64)
    ensures
        r == 10,
{
    10
}

/// Default page size of `scroll_points`.
pub fn default_limit_u32() -> (r: u32)
    ensures
        r == 10,
{
    10
}

/// Payloads are returned unless a caller opts out.
pub fn default_with_payload() -> (r: bool)
    ensures
        r,
{
    true
}

/// Points are counted exactly unless a caller asks for an estimate.
pub fn default_exact() -> (r: bool)
    ensures
        r,
{
    true
}

/// Arguments of the `search_text` tool.
pub struct SearchTextArgs {
    /// The text query to search for semantically similar content.
    pub query: String,
    /// Maximum number of hits (default 10).
    pub limit: u64,
    /// Whether hits carry their payload (default `true`).
    pub with_payload: bool,
}

/// Arguments of the `scroll_points` tool.
pub struct ScrollPointsArgs {
    /// Page size (default 10).
    pub limit: u32,
    /// Point id to continue from; `None` starts at the beginning.
    pub offset: Option<String>,
    /// Whether points carry their payload (default `true`).
    pub with_payload: bool,
}

/// Arguments of the `count_points` tool.
pub struct CountPointsArgs {
    /// Exact count rather than an estimate (default `true`).
    pub exact: bool,
}

/// Arguments of the `filter_search` tool.
pub struct FilterSearchArgs {
    /// The text query to search for.
    pub query: String,
    /// Payload field to filter on (e.g. "username", "filename").
    pub filter_field: String,
    /// Value that the field must hold.
    pub filter_value: String,
    /// Maximum number of hits (default 10).
    pub limit: u64,
}

/// Arguments of the `keyword_search` tool.
pub struct KeywordSearchArgs {
    /// The text query to search for semantically similar content.
    pub query: String,
    /// Space-separated keywords that a hit's text must contain (default: none).
    pub must_contain_keywords: String,
    /// Maximum number of hits (default 10).
    pub limit: u64,
    /// Whether hits carry their payload (default `true`).
    pub with_payload: bool,
}

} // verus!
