//! Pages of stored articles: what a listing request asks for, and which
//! query answers it.

use vstd::prelude::*;

verus! {

/// The most articles one page may hold.
pub const MAX_PER_PAGE: i64 = 100;

/// The page of a request that names none.
pub fn default_page() -> (r: i64)
    ensures
        r == 1,
{
    1
}

/// The page size of a request that names none.
pub fn default_per_page() -> (r: i64)
    ensures
        r == 20,
{
    20
}

/// How many runs a request lists that names no limit.
pub fn default_limit() -> (r: i64)
    ensures
        r == 20,
{
    20
}

/// A request for a page of articles.
#[derive(Clone, Debug)]
pub struct ListArticlesQuery {
    pub page: i64,
    pub per_page: i64,
    pub search: Option<String>,
    pub tag: Option<String>,
    pub source: Option<String>,
}

/// A request for the latest runs.
#[derive(Clone, Copy, Debug, PartialEq, Eq, Structural)]
pub struct ListRunsQuery {
    pub limit: i64,
}

/// Where a page stands among all.
#[derive(Clone, Copy, Debug, PartialEq, Eq, Structural)]
pub struct Pagination {
    pub page: i64,
    pub per_page: i64,
    pub total: i64,
    pub total_pages: i64,
}

/// A page of items with its place among all.
#[derive(Debug)]
pub struct PaginatedResponse<T> {
    pub data: Vec<T>,
    pub pagination: Pagination,
}

/// The rows that a page request reads.
#[derive(Clone, Copy, Debug, PartialEq, Eq, Structural)]
pub struct PageWindow {
    /// The page, at least 1.
    pub page: i64,
    /// Rows on a page, 1 to `MAX_PER_PAGE`.
    pub per_page: i64,
    /// Rows before the page.
    pub offset: i64,
}

/// The page that is meant: at least the first.
pub open spec fn clamped_page(page: i64) -> i64 {
    if page < 1 {
        1
    } else {
        page
    }
}

/// The page size that is meant: at least 1, at most `MAX_PER_PAGE`.
pub open spec fn clamped_per_page(per_page: i64) -> i64 {
    if per_page > MAX_PER_PAGE {
        MAX_PER_PAGE
    } else if per_page < 1 {
        1
    } else {
        per_page
    }
}

/// The window of a request, where the rows before it can be counted in an
/// `i64`.
pub open spec fn window_of(page: i64, per_page: i64) -> Option<PageWindow> {
    let p = clamped_page(page);
    let n = clamped_per_page(per_page);
    if (p - 1) * n <= i64::MAX {
        Some(PageWindow { page: p, per_page: n, offset: ((p - 1) * n) as i64 })
    } else {
        None
    }
}

/// The rows that a request for `page` with `per_page` rows a page reads.
/// `None` where the page is so far out that the rows before it cannot be
/// counted.
pub fn page_window(page: i64, per_page: i64) -> (r: Option<PageWindow>)
    ensures
        r == window_of(page, per_page),
{
    let p = if page < 1 {
        1
    } else {
        page
    };
    let n = if per_page > MAX_PER_PAGE {
        MAX_PER_PAGE
    } else if per_page < 1 {
        1
    } else {
        per_page
    };
    assert((p - 1) * n >= 0) by (nonlinear_arith)
        requires
            p >= 1,
            n >= 1,
    ;
    match (p - 1).checked_mul(n) {
        Some(offset) => Some(PageWindow { page: p, per_page: n, offset }),
        None => None,
    }
}

/// How many pages of `per_page` rows hold `total` rows.
pub open spec fn pages_for(total: i64, per_page: i64) -> int {
    if total as int % per_page as int == 0 {
        total as int / per_page as int
    } else {
        total as int / per_page as int + 1
    }
}

/// The place of a window among `total` rows.
pub fn paginate(window: PageWindow, total: i64) -> (r: Pagination)
    requires
        window.per_page >= 1,
        total >= 0,
    ensures
        r.page == window.page,
        r.per_page == window.per_page,
        r.total == total,
        r.total_pages == pages_for(total, window.per_page),
        (r.total_pages - 1) * window.per_page < total <= r.total_pages * window.per_page,
{
    let full = total / window.per_page;
    let rest = total % window.per_page;
    assert(total == full * window.per_page + rest && 0 <= rest < window.per_page && 0 <= full
        <= total && (rest > 0 ==> full < total)) by (nonlinear_arith)
        requires
            full == total as int / window.per_page as int,
            rest == total as int % window.per_page as int,
            window.per_page >= 1,
            total >= 0,
    ;
    let total_pages = if rest == 0 {
        full
    } else {
        full + 1
    };
    assert((total_pages - 1) * window.per_page < total <= total_pages * window.per_page)
        by (nonlinear_arith)
        requires
            total == full * window.per_page + rest,
            0 <= rest < window.per_page,
            total_pages == if rest == 0 {
                full as int
            } else {
                full + 1
            },
            total >= 0,
            window.per_page >= 1,
    ;
    Pagination { page: window.page, per_page: window.per_page, total, total_pages }
}

/// Which stored articles a listing shows.
#[derive(Clone, Debug)]
pub enum ArticleFilter {
    SearchInSource { term: String, source: String },
    Search { term: String },
    TagInSource { tag: String, source: String },
    Tag { tag: String },
    Source { source: String },
    All,
}

/// The filter that a request means. A search term outranks a tag; a source
/// narrows either.
pub open spec fn filter_of(
    search: Option<String>,
    tag: Option<String>,
    source: Option<String>,
) -> ArticleFilter {
    match (search, tag, source) {
        (Some(term), _, Some(source)) => ArticleFilter::SearchInSource { term, source },
        (Some(term), _, None) => ArticleFilter::Search { term },
        (None, Some(tag), Some(source)) => ArticleFilter::TagInSource { tag, source },
        (None, Some(tag), None) => ArticleFilter::Tag { tag },
        (None, None, Some(source)) => ArticleFilter::Source { source },
        (None, None, None) => ArticleFilter::All,
    }
}

/// Picks the filter that a request means.
pub fn article_filter(search: Option<String>, tag: Option<String>, source: Option<String>) -> (r:
    ArticleFilter)
    ensures
        r == filter_of(search, tag, source),
{
    match (search, tag, source) {
        (Some(term), _, Some(source)) => ArticleFilter::SearchInSource { term, source },
        (Some(term), _, None) => ArticleFilter::Search { term },
        (None, Some(tag), Some(source)) => ArticleFilter::TagInSource { tag, source },
        (None, Some(tag), None) => ArticleFilter::Tag { tag },
        (None, None, Some(source)) => ArticleFilter::Source { source },
        (None, None, None) => ArticleFilter::All,
    }
}

/// The source shown for a stored article: its own, or AIBase where the store
/// has none for it.
pub fn shown_source(source: Option<String>) -> (r: String)
    ensures
        r@ == match source {
            Some(s) => s@,
            None => "AIBase"@,
        },
{
    match source {
        Some(s) => s,
        None => String::from_str("AIBase"),
    }
}

/// The 128-bit value of the UUID that a text spells, if it spells one.
pub uninterp spec fn uuid_value(text: Seq<char>) -> Option<u128>;

/// Reads a UUID.
///
/// Trusted: calls `uuid::Uuid::parse_str` and reads the result with
/// `Uuid::as_u128`. The result depends on the text alone. The contract names
/// it and says nothing else of it.
#[verifier::external_body]
fn parse_uuid(text: &str) -> (r: Option<u128>)
    ensures
        r == uuid_value(text@),
{
    match uuid::Uuid::parse_str(text) {
        Ok(id) => Some(id.as_u128()),
        Err(_) => None,
    }
}

/// By what a stored article is looked up.
#[derive(Clone, Debug)]
pub enum ArticleKey {
    /// By the id the store gave it.
    Id(u128),
    /// By the id its source gave it.
    ExternalId(String),
}

/// The key that `id` is, given the UUID it spells, if any: the store's id
/// where it spells one, the source's id otherwise.
pub fn key_from(parsed: Option<u128>, id: &str) -> (r: ArticleKey)
    ensures
        match parsed {
            Some(value) => r == ArticleKey::Id(value),
            None => r matches ArticleKey::ExternalId(external) && external@ == id@,
        },
{
    match parsed {
        Some(value) => ArticleKey::Id(value),
        None => ArticleKey::ExternalId(String::from_str(id)),
    }
}

/// The key that `id` is: the store's id where it spells a UUID, the
/// source's id otherwise.
pub fn article_key(id: &str) -> (r: ArticleKey)
    ensures
        match uuid_value(id@) {
            Some(value) => r == ArticleKey::Id(value),
            None => r matches ArticleKey::ExternalId(external) && external@ == id@,
        },
{
    key_from(parse_uuid(id), id)
}

} // verus!
