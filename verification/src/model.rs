//! The records that a crawl reads and writes.

use vstd::prelude::*;
use crate::source::Source;
use crate::text::{copy_opt_string, decimal_digits, format_decimal};

verus! {

/// Identity of one crawl run. Opaque: only ever compared.
#[derive(Clone, Copy, Debug, PartialEq, Eq, Hash, Structural)]
pub struct RunId(pub u128);

/// Where a run stands.
#[derive(Clone, Copy, Debug, PartialEq, Eq, Structural)]
pub enum ScrapeStatus {
    Running,
    Completed,
    Failed,
    Cancelled,
}

/// What kind of crawl a run is.
#[derive(Clone, Copy, Debug, PartialEq, Eq, Structural)]
pub enum ScrapeType {
    Full,
    Incremental,
    Single,
}

impl ScrapeStatus {
    /// A run in a terminal status never runs again.
    pub open spec fn is_terminal(self) -> bool {
        self != ScrapeStatus::Running
    }

    /// The status as the store spells it.
    pub fn name(&self) -> (r: &'static str)
        ensures
            r@ == match *self {
                ScrapeStatus::Running => "running"@,
                ScrapeStatus::Completed => "completed"@,
                ScrapeStatus::Failed => "failed"@,
                ScrapeStatus::Cancelled => "cancelled"@,
            },
    {
        match self {
            ScrapeStatus::Running => "running",
            ScrapeStatus::Completed => "completed",
            ScrapeStatus::Failed => "failed",
            ScrapeStatus::Cancelled => "cancelled",
        }
    }
}

/// How the candidates of a run are found, and when the run stops early.
#[derive(Clone, Copy, Debug, PartialEq, Eq, Structural)]
pub enum CrawlStrategy {
    /// Listing pages 1, 2, ... up to `max_pages`. Stops at an empty page and,
    /// when `incremental`, after a page on which nothing was new.
    Paginated { max_pages: u32, incremental: bool },
    /// Every identifier from `start_id` to `end_id`, ascending. Never stops
    /// early.
    IdRange { start_id: u32, end_id: u32 },
    /// The candidates an archive page lists. When `incremental`, stops at the
    /// first one that is stored already.
    Archive { max_count: Option<u32>, incremental: bool },
}

/// The parameters of a run, as fixed at admission.
#[derive(Clone, Copy, Debug, PartialEq, Eq, Structural)]
pub struct ScrapePlan {
    pub source: Source,
    pub scrape_type: ScrapeType,
    pub strategy: CrawlStrategy,
    pub force_rescrape: bool,
}

/// The identifier a source gives an article: a number on sites that count
/// their articles, a slug elsewhere.
#[derive(Clone, Debug)]
pub enum ExternalId {
    Number(u32),
    Text(String),
}

impl ExternalId {
    /// The identifier as the store and the URLs spell it.
    pub open spec fn text(self) -> Seq<char> {
        match self {
            ExternalId::Number(n) => decimal_digits(n as nat),
            ExternalId::Text(s) => s@,
        }
    }

    pub fn to_text(&self) -> (r: String)
        ensures
            r@ == self.text(),
    {
        match self {
            ExternalId::Number(n) => format_decimal(*n as u64),
            ExternalId::Text(s) => s.clone(),
        }
    }

    pub fn duplicate(&self) -> (r: ExternalId)
        ensures
            r == *self,
    {
        match self {
            ExternalId::Number(n) => ExternalId::Number(*n),
            ExternalId::Text(s) => ExternalId::Text(s.clone()),
        }
    }
}

/// An identifier awaiting the decision to fetch it, with the title a listing
/// showed for it, if any.
#[derive(Clone, Debug)]
pub struct Candidate {
    pub external_id: ExternalId,
    pub title: Option<String>,
}

impl Candidate {
    pub fn duplicate(&self) -> (r: Candidate)
        ensures
            r == *self,
    {
        Candidate { external_id: self.external_id.duplicate(), title: copy_opt_string(&self.title) }
    }
}

/// An article as extracted from a page, ready for the store.
#[derive(Clone, Debug)]
pub struct NewArticle {
    pub external_id: String,
    pub url: String,
    pub title: String,
    pub content: String,
    pub excerpt: Option<String>,
    pub author: Option<String>,
    pub source: Option<String>,
    /// Milliseconds since the Unix epoch.
    pub published_at: Option<i64>,
    pub view_count: Option<i64>,
    pub read_time_minutes: Option<i32>,
    pub thumbnail_url: Option<String>,
    pub content_hash: String,
    pub tags: Vec<String>,
}

/// An article as contracts see it.
pub struct NewArticleView {
    pub external_id: Seq<char>,
    pub url: Seq<char>,
    pub title: Seq<char>,
    pub content: Seq<char>,
    pub excerpt: Option<Seq<char>>,
    pub author: Option<Seq<char>>,
    pub source: Option<Seq<char>>,
    pub published_at: Option<i64>,
    pub view_count: Option<i64>,
    pub read_time_minutes: Option<i32>,
    pub thumbnail_url: Option<Seq<char>>,
    pub content_hash: Seq<char>,
    pub tags: Seq<Seq<char>>,
}

/// An optional text as contracts see it.
pub open spec fn opt_text_view(text: Option<String>) -> Option<Seq<char>> {
    match text {
        Some(s) => Some(s@),
        None => None,
    }
}

impl NewArticle {
    pub open spec fn view(&self) -> NewArticleView {
        NewArticleView {
            external_id: self.external_id@,
            url: self.url@,
            title: self.title@,
            content: self.content@,
            excerpt: opt_text_view(self.excerpt),
            author: opt_text_view(self.author),
            source: opt_text_view(self.source),
            published_at: self.published_at,
            view_count: self.view_count,
            read_time_minutes: self.read_time_minutes,
            thumbnail_url: opt_text_view(self.thumbnail_url),
            content_hash: self.content_hash@,
            tags: Seq::new(self.tags@.len(), |i: int| self.tags@[i]@),
        }
    }
}

/// The record of one crawl run. Made when the run is admitted; its counters
/// change with every flush, its status when the run ends.
#[derive(Clone, Debug)]
pub struct ScrapeRun {
    pub id: RunId,
    pub scrape_type: ScrapeType,
    pub status: ScrapeStatus,
    pub total_pages: Option<u32>,
    pub pages_scraped: u32,
    pub articles_found: u32,
    pub articles_new: u32,
    pub articles_failed: u32,
    /// Milliseconds since the Unix epoch.
    pub started_at: i64,
    pub completed_at: Option<i64>,
    pub last_error: Option<String>,
    /// The parameters the run was admitted with.
    pub config: ScrapePlan,
}

impl ScrapeRun {
    pub fn duplicate(&self) -> (r: ScrapeRun)
        ensures
            r == *self,
    {
        ScrapeRun {
            id: self.id,
            scrape_type: self.scrape_type,
            status: self.status,
            total_pages: self.total_pages,
            pages_scraped: self.pages_scraped,
            articles_found: self.articles_found,
            articles_new: self.articles_new,
            articles_failed: self.articles_failed,
            started_at: self.started_at,
            completed_at: self.completed_at,
            last_error: copy_opt_string(&self.last_error),
            config: self.config,
        }
    }
}

#[derive(Clone, Debug)]
pub struct Tag {
    pub id: i32,
    pub name: String,
}

#[derive(Clone, Debug)]
pub struct TagStat {
    pub name: String,
    pub count: i64,
}

} // verus!
