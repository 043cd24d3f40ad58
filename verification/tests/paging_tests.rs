use aibase_scraper::config::{Config, ConfigError};
use aibase_scraper::paging::{
    article_key, key_from, ArticleKey,
    article_filter, default_limit, default_page, default_per_page, page_window, paginate,
    shown_source, ArticleFilter, PageWindow, Pagination,
};

fn s(text: &str) -> Option<String> {
    Some(text.to_string())
}

#[test]
fn defaults_of_a_listing() {
    assert_eq!(default_page(), 1);
    assert_eq!(default_per_page(), 20);
    assert_eq!(default_limit(), 20);
}

#[test]
fn window_is_clamped() {
    assert_eq!(page_window(1, 20), Some(PageWindow { page: 1, per_page: 20, offset: 0 }));
    assert_eq!(page_window(3, 20), Some(PageWindow { page: 3, per_page: 20, offset: 40 }));
    assert_eq!(page_window(0, 20), Some(PageWindow { page: 1, per_page: 20, offset: 0 }));
    assert_eq!(page_window(-4, 0), Some(PageWindow { page: 1, per_page: 1, offset: 0 }));
    assert_eq!(page_window(2, 1000), Some(PageWindow { page: 2, per_page: 100, offset: 100 }));
    assert_eq!(page_window(5, -3), Some(PageWindow { page: 5, per_page: 1, offset: 4 }));
}

#[test]
fn window_too_far_out_is_none() {
    assert_eq!(page_window(i64::MAX, 100), None);
    assert_eq!(
        page_window(i64::MAX, 1),
        Some(PageWindow { page: i64::MAX, per_page: 1, offset: i64::MAX - 1 })
    );
}

#[test]
fn pages_are_counted_rounding_up() {
    let w = PageWindow { page: 1, per_page: 20, offset: 0 };
    assert_eq!(paginate(w, 0).total_pages, 0);
    assert_eq!(paginate(w, 1).total_pages, 1);
    assert_eq!(paginate(w, 20).total_pages, 1);
    assert_eq!(paginate(w, 21).total_pages, 2);
    assert_eq!(
        paginate(PageWindow { page: 2, per_page: 100, offset: 100 }, 1234),
        Pagination { page: 2, per_page: 100, total: 1234, total_pages: 13 }
    );
    assert_eq!(
        paginate(PageWindow { page: 1, per_page: 1, offset: 0 }, i64::MAX).total_pages,
        i64::MAX
    );
}

#[test]
fn search_outranks_tag() {
    assert!(matches!(
        article_filter(s("gpt"), s("llm"), s("AIBase")),
        ArticleFilter::SearchInSource { term, source } if term == "gpt" && source == "AIBase"
    ));
    assert!(matches!(
        article_filter(s("gpt"), s("llm"), None),
        ArticleFilter::Search { term } if term == "gpt"
    ));
    assert!(matches!(
        article_filter(None, s("llm"), s("smol.ai")),
        ArticleFilter::TagInSource { tag, source } if tag == "llm" && source == "smol.ai"
    ));
    assert!(matches!(article_filter(None, s("llm"), None), ArticleFilter::Tag { tag } if tag == "llm"));
    assert!(matches!(
        article_filter(None, None, s("AIBase")),
        ArticleFilter::Source { source } if source == "AIBase"
    ));
    assert!(matches!(article_filter(None, None, None), ArticleFilter::All));
}

#[test]
fn article_without_source_is_shown_as_aibase() {
    assert_eq!(shown_source(None), "AIBase");
    assert_eq!(shown_source(s("smol.ai")), "smol.ai");
}

#[test]
fn config_defaults() {
    let c = Config::from_values(s("postgres://db"), None, None, None, None).unwrap();
    assert_eq!(c.database_url, "postgres://db");
    assert_eq!(c.server_host, "127.0.0.1");
    assert_eq!(c.server_port, 3001);
    assert_eq!(c.scraper_rate_limit, 2);
    assert_eq!(c.scraper_max_retries, 3);
}

#[test]
fn config_reads_what_is_set() {
    let c =
        Config::from_values(s("postgres://db"), s("0.0.0.0"), s("8080"), s("10"), s("0")).unwrap();
    assert_eq!(c.server_host, "0.0.0.0");
    assert_eq!(c.server_port, 8080);
    assert_eq!(c.scraper_rate_limit, 10);
    assert_eq!(c.scraper_max_retries, 0);
    let c = Config::from_values(s("x"), None, s("65535"), s("4294967295"), s("+5")).unwrap();
    assert_eq!(c.server_port, 65535);
    assert_eq!(c.scraper_rate_limit, u32::MAX);
    assert_eq!(c.scraper_max_retries, 5);
}

#[test]
fn config_errors_in_order() {
    assert_eq!(
        Config::from_values(None, None, s("x"), s("y"), s("z")).err(),
        Some(ConfigError::MissingDatabaseUrl)
    );
    assert_eq!(
        Config::from_values(s("db"), None, s("65536"), s("y"), s("z")).err(),
        Some(ConfigError::InvalidPort)
    );
    assert_eq!(
        Config::from_values(s("db"), None, s(""), None, None).err(),
        Some(ConfigError::InvalidPort)
    );
    assert_eq!(
        Config::from_values(s("db"), None, s("80"), s("-1"), s("z")).err(),
        Some(ConfigError::InvalidRateLimit)
    );
    assert_eq!(
        Config::from_values(s("db"), None, None, s("4294967296"), None).err(),
        Some(ConfigError::InvalidRateLimit)
    );
    assert_eq!(
        Config::from_values(s("db"), None, None, None, s("three")).err(),
        Some(ConfigError::InvalidMaxRetries)
    );
}

#[test]
fn uuid_is_looked_up_by_store_id() {
    match article_key("67e55044-10b1-426f-9247-bb680e5fe0c8") {
        ArticleKey::Id(value) => assert_eq!(value, 0x67e5504410b1426f9247bb680e5fe0c8u128),
        other => panic!("unexpected {:?}", other),
    }
    match article_key("67E5504410B1426F9247BB680E5FE0C8") {
        ArticleKey::Id(value) => assert_eq!(value, 0x67e5504410b1426f9247bb680e5fe0c8u128),
        other => panic!("unexpected {:?}", other),
    }
    match article_key("14040") {
        ArticleKey::ExternalId(id) => assert_eq!(id, "14040"),
        other => panic!("unexpected {:?}", other),
    }
    match article_key("") {
        ArticleKey::ExternalId(id) => assert_eq!(id, ""),
        other => panic!("unexpected {:?}", other),
    }
    assert!(matches!(key_from(Some(5), "x"), ArticleKey::Id(5)));
    assert!(matches!(key_from(None, "x"), ArticleKey::ExternalId(id) if id == "x"));
}
