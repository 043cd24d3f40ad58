//! The scrapers of the sources: each knows where its pages are and how they
//! read, and carries the policy of its fetches. The fetching itself is the
//! caller's.

use vstd::prelude::*;
use crate::article::{
    article_of, article_url, issue_of, issue_page_of, issue_url, page_of, parse_article,
    parse_issue, BASE_URL, SMOLAI_BASE_URL,
};
use crate::dom::{found, selected, text_views};
use crate::fetch::{ScraperClient, DEFAULT_BASE_DELAY_MS};
use crate::listing::{
    archive_of, discover_articles, is_candidate_of, listed_candidates, listing_of, listing_url,
    listing_url_of, paired, parse_listing, preview_views, scrape_listing_page, well_listed,
    ArticlePreview, Discovery, DiscoveryStep, ISSUE_LINK, LISTING_ARTICLE_EXCERPT,
    LISTING_ARTICLE_THUMBNAIL, LISTING_ARTICLE_TITLE,
};
use crate::model::{Candidate, NewArticle};
use crate::source::Source;

verus! {

/// Reads AIBase listing pages.
#[derive(Clone, Copy, Debug)]
pub struct ListingScraper {
    client: ScraperClient,
}

impl ListingScraper {
    /// The rate cap of the fetches is positive.
    pub open spec fn wf(&self) -> bool {
        self.spec_client().wf()
    }

    pub closed spec fn spec_client(&self) -> ScraperClient {
        self.client
    }

    pub fn new(client: ScraperClient) -> (r: ListingScraper)
        requires
            client.wf(),
        ensures
            r.wf(),
            r.spec_client() == client,
    {
        ListingScraper { client }
    }

    /// The policy of the fetches.
    pub fn client(&self) -> (r: ScraperClient)
        ensures
            r == self.spec_client(),
    {
        self.client
    }

    /// The address of the listing page `page`.
    pub fn page_url(&self, page: u32) -> (r: String)
        ensures
            r@ == listing_url_of(page),
    {
        listing_url(page)
    }

    /// Reads the previews off a listing page, given its markup.
    pub fn scrape_page(&self, html: &str) -> (r: Vec<ArticlePreview>)
        ensures
            preview_views(r@) == listing_of(html@),
            paired(html@, LISTING_ARTICLE_TITLE@, Seq::empty()),
            paired(html@, LISTING_ARTICLE_EXCERPT@, Seq::empty()),
            paired(html@, LISTING_ARTICLE_THUMBNAIL@, seq!["src"@, "data-src"@]),
    {
        parse_listing(html)
    }

    /// Begins a walk through the listing pages that gathers every article
    /// listed on pages 1 to `max_pages`: over at once where `max_pages` is 0.
    pub fn discover_all_article_ids(&self, max_pages: u32) -> (r: DiscoveryStep)
        ensures
            match r {
                DiscoveryStep::Done { ids } => max_pages == 0 && ids@.len() == 0,
                DiscoveryStep::Fetch { walk } => {
                    &&& max_pages >= 1
                    &&& walk.wf()
                    &&& walk.max_pages == max_pages
                    &&& walk.page == 1
                    &&& walk.ids@.len() == 0
                },
            },
    {
        Discovery::begin(max_pages)
    }
}

/// Reads AIBase article pages.
#[derive(Clone, Copy, Debug)]
pub struct ArticleScraper {
    client: ScraperClient,
}

impl ArticleScraper {
    /// The rate cap of the fetches is positive.
    pub open spec fn wf(&self) -> bool {
        self.spec_client().wf()
    }

    pub closed spec fn spec_client(&self) -> ScraperClient {
        self.client
    }

    pub fn new(client: ScraperClient) -> (r: ArticleScraper)
        requires
            client.wf(),
        ensures
            r.wf(),
            r.spec_client() == client,
    {
        ArticleScraper { client }
    }

    /// The policy of the fetches.
    pub fn client(&self) -> (r: ScraperClient)
        ensures
            r == self.spec_client(),
    {
        self.client
    }

    /// The address of an article's page.
    pub fn article_url(&self, external_id: &str) -> (r: String)
        ensures
            r@ == BASE_URL@ + "/news/"@ + external_id@,
    {
        article_url(external_id)
    }

    /// Reads an article off its page, given the page's markup.
    pub fn scrape_article(&self, external_id: &str, html: &str) -> (r: NewArticle)
        ensures
            r@ == article_of(external_id@, BASE_URL@ + "/news/"@ + external_id@, page_of(html@)),
    {
        let url = article_url(external_id);
        parse_article(external_id, url.as_str(), html)
    }
}

/// The scraper of AIBase: listing pages that name numbered articles.
#[derive(Clone, Copy, Debug)]
pub struct AIBaseScraper {
    client: ScraperClient,
}

impl AIBaseScraper {
    /// The rate cap of the fetches is positive.
    pub open spec fn wf(&self) -> bool {
        self.spec_client().wf()
    }

    pub closed spec fn spec_client(&self) -> ScraperClient {
        self.client
    }

    /// A scraper that fetches at most `rate_limit` pages a second and retries
    /// a failed fetch up to `max_retries` times.
    pub fn new(rate_limit: u32, max_retries: u32) -> (r: AIBaseScraper)
        requires
            rate_limit > 0,
        ensures
            r.wf(),
            r.spec_client().wf(),
            r.spec_client().spec_requests_per_second() == rate_limit,
            r.spec_client().spec_max_retries() == max_retries,
            r.spec_client().spec_base_delay_ms() == DEFAULT_BASE_DELAY_MS,
    {
        AIBaseScraper { client: ScraperClient::new(rate_limit, max_retries) }
    }

    /// The policy of the fetches.
    pub fn client(&self) -> (r: ScraperClient)
        ensures
            r == self.spec_client(),
    {
        self.client
    }

    pub fn source(&self) -> (r: Source)
        ensures
            r == Source::AIBase,
    {
        Source::AIBase
    }

    /// The address of the listing page `page`.
    pub fn listing_url(&self, page: u32) -> (r: String)
        ensures
            r@ == listing_url_of(page),
    {
        listing_url(page)
    }

    /// The address of an article's page.
    pub fn article_url(&self, external_id: &str) -> (r: String)
        ensures
            r@ == BASE_URL@ + "/news/"@ + external_id@,
    {
        article_url(external_id)
    }

    /// Begins a walk through the listing pages that gathers every article
    /// listed on pages 1 to `max_pages`: over at once where `max_pages` is 0.
    pub fn discover_articles(&self, max_pages: u32) -> (r: DiscoveryStep)
        ensures
            match r {
                DiscoveryStep::Done { ids } => max_pages == 0 && ids@.len() == 0,
                DiscoveryStep::Fetch { walk } => {
                    &&& max_pages >= 1
                    &&& walk.wf()
                    &&& walk.max_pages == max_pages
                    &&& walk.page == 1
                    &&& walk.ids@.len() == 0
                },
            },
    {
        Discovery::begin(max_pages)
    }

    /// Reads the candidates off a listing page, given its markup.
    pub fn scrape_listing_page(&self, html: &str) -> (r: Vec<Candidate>)
        ensures
            r@.len() == listed_candidates(html@).len(),
            forall|i: int|
                0 <= i < r@.len() ==> is_candidate_of(#[trigger] r@[i], listed_candidates(html@)[i]),
            paired(html@, LISTING_ARTICLE_TITLE@, Seq::empty()),
    {
        scrape_listing_page(html)
    }

    /// Reads an article off its page, given the page's markup.
    pub fn scrape_article(&self, external_id: &str, html: &str) -> (r: NewArticle)
        ensures
            r@ == article_of(external_id@, BASE_URL@ + "/news/"@ + external_id@, page_of(html@)),
    {
        let url = article_url(external_id);
        parse_article(external_id, url.as_str(), html)
    }
}

/// The scraper of smol.ai: an archive page that names issues by slug.
#[derive(Clone, Copy, Debug)]
pub struct SmolAIScraper {
    client: ScraperClient,
}

impl SmolAIScraper {
    /// The rate cap of the fetches is positive.
    pub open spec fn wf(&self) -> bool {
        self.spec_client().wf()
    }

    pub closed spec fn spec_client(&self) -> ScraperClient {
        self.client
    }

    /// A scraper that fetches at most `rate_limit` pages a second and retries
    /// a failed fetch up to `max_retries` times.
    pub fn new(rate_limit: u32, max_retries: u32) -> (r: SmolAIScraper)
        requires
            rate_limit > 0,
        ensures
            r.wf(),
            r.spec_client().wf(),
            r.spec_client().spec_requests_per_second() == rate_limit,
            r.spec_client().spec_max_retries() == max_retries,
            r.spec_client().spec_base_delay_ms() == DEFAULT_BASE_DELAY_MS,
    {
        SmolAIScraper { client: ScraperClient::new(rate_limit, max_retries) }
    }

    /// The policy of the fetches.
    pub fn client(&self) -> (r: ScraperClient)
        ensures
            r == self.spec_client(),
    {
        self.client
    }

    pub fn source(&self) -> (r: Source)
        ensures
            r == Source::SmolAI,
    {
        Source::SmolAI
    }

    /// The address of an issue's page.
    pub fn article_url(&self, external_id: &str) -> (r: String)
        ensures
            r@ == SMOLAI_BASE_URL@ + "/issues/"@ + external_id@,
    {
        issue_url(external_id)
    }

    /// Reads the issues off the archive page, given its markup: each once, up
    /// to `max_count` of them.
    pub fn discover_articles(&self, html: &str, max_count: Option<u32>) -> (r: Vec<String>)
        ensures
            text_views(r@) == archive_of(html@, max_count),
            well_listed(
                text_views(r@),
                found(selected(html@, ISSUE_LINK@, seq!["href"@])),
                max_count,
            ),
            max_count matches Some(max) ==> r@.len() <= max,
    {
        discover_articles(html, max_count)
    }

    /// Reads an issue off its page, given the page's markup.
    pub fn scrape_article(&self, external_id: &str, html: &str) -> (r: NewArticle)
        ensures
            r@ == issue_of(
                external_id@,
                SMOLAI_BASE_URL@ + "/issues/"@ + external_id@,
                issue_page_of(html@),
            ),
    {
        let url = issue_url(external_id);
        parse_issue(external_id, url.as_str(), html)
    }
}

} // verus!
