use aibase_scraper::article::{
    article_url, assemble_article, byte_len, excerpt, extract_content, extract_date, extract_tags,
    extract_text, extract_thumbnail, extract_title, extract_view_count, issue_url, join,
    keep_texts, parse_article, parse_date_from_slug, parse_issue, read_time, ArticlePage,
    KeepRule,
};
use aibase_scraper::digest::compute_hash;
use aibase_scraper::dom::Element;

fn element(text: &str) -> Element {
    Element { name: "div".to_string(), text: text.to_string(), inner_html: String::new(), attrs: vec![] }
}

fn with_attrs(name: &str, text: &str, attrs: &[Option<&str>]) -> Element {
    Element {
        name: name.to_string(),
        text: text.to_string(),
        inner_html: String::new(),
        attrs: attrs.iter().map(|a| a.map(|s| s.to_string())).collect(),
    }
}

const ARTICLE: &str = r#"<html><head>
<meta property="og:image" content="https://cdn.example/cover.png">
<title>Ignored - Site</title></head><body>
<h1>  A headline  </h1>
<span class="author"> Jane Doe </span>
<time datetime="2024-05-01T10:00:00+02:00">May 1</time>
<div class="views">1,234 views</div>
<article>
<p>First paragraph of the article.</p>
<p>   </p>
<p>Second paragraph here.</p>
<img src="https://cdn.example/inline.png">
</article>
<a class="tag"> AI </a><a class="tag"></a><a class="tag">LLM</a>
</body></html>"#;

#[test]
fn aibase_article_is_read_off_its_page() {
    let a = parse_article("14040", "https://news.aibase.com/news/14040", ARTICLE);
    assert_eq!(a.external_id, "14040");
    assert_eq!(a.url, "https://news.aibase.com/news/14040");
    assert_eq!(a.title, "A headline");
    assert_eq!(a.content, "First paragraph of the article.\n\nSecond paragraph here.");
    assert_eq!(a.excerpt, Some(a.content.clone()));
    assert_eq!(a.author, Some("Jane Doe".to_string()));
    assert_eq!(a.source, Some("AIBase".to_string()));
    assert_eq!(a.published_at, Some(1714550400000));
    assert_eq!(a.view_count, Some(1234));
    assert_eq!(a.read_time_minutes, Some(1));
    assert_eq!(a.thumbnail_url, Some("https://cdn.example/cover.png".to_string()));
    assert_eq!(
        a.content_hash,
        "c70a3eab3e9831e1f4030959f37b73f5c44a69b58e41de4abadc61a733e60766"
    );
    assert_eq!(a.tags, vec!["AI", "LLM"]);
}

#[test]
fn empty_page_gives_the_fallbacks() {
    let a = parse_article("7", "u", "");
    assert_eq!(a.title, "Article 7");
    assert_eq!(a.content, "Content not available");
    assert_eq!(a.excerpt, Some("Content not available".to_string()));
    assert_eq!(a.author, None);
    assert_eq!(a.published_at, None);
    assert_eq!(a.view_count, None);
    assert_eq!(a.thumbnail_url, None);
    assert_eq!(a.read_time_minutes, Some(1));
    assert!(a.tags.is_empty());
    assert_eq!(
        a.content_hash,
        "b802ea71db53dc356e289011ee7e58407671ef5323d8190a2496a9582f5c4f13"
    );
}

#[test]
fn assembling_takes_what_was_read() {
    let page = ArticlePage {
        headings: vec![element(" T ")],
        blocks: vec![vec![], vec![element(" "), element("one"), element("two ")]],
        paragraphs: vec![element("this loose paragraph is long enough")],
        authors: vec![element("  "), element("late")],
        dates: vec![with_attrs("time", "2024-03-09", &[None, None])],
        tags: vec![element("x")],
        views: vec![element("none"), element("12k")],
        images: vec![with_attrs("img", "", &[None, Some("/relative.png")])],
    };
    let a = assemble_article("1", "u", &page);
    assert_eq!(a.title, "T");
    assert_eq!(a.content, "one\n\ntwo");
    // Only the first author element counts.
    assert_eq!(a.author, None);
    assert_eq!(a.published_at, Some(1709942400000));
    assert_eq!(a.view_count, Some(12));
    assert_eq!(a.thumbnail_url, None);
    assert_eq!(a.tags, vec!["x"]);
}

#[test]
fn content_falls_back_to_long_loose_paragraphs() {
    let blocks = vec![vec![element("  ")], vec![]];
    let loose = vec![
        element("short"),
        element("exactly twenty bytes"),
        element("  this one has more than twenty bytes  "),
        element("and so does this other paragraph"),
    ];
    assert_eq!(
        extract_content(&blocks, &loose),
        "this one has more than twenty bytes\n\nand so does this other paragraph"
    );
    assert_eq!(extract_content(&blocks, &vec![element("short")]), "Content not available");
    assert_eq!(extract_content(&vec![], &vec![]), "Content not available");
}

#[test]
fn excerpt_is_cut_at_two_hundred_bytes() {
    let short = "a".repeat(200);
    assert_eq!(excerpt(&short), short);
    let long = "b".repeat(201);
    assert_eq!(excerpt(&long), format!("{}...", "b".repeat(200)));
    let spaced = format!("{}{}tail", "c".repeat(190), " ".repeat(15));
    assert_eq!(excerpt(&spaced), format!("{}...", "c".repeat(190)));
    assert_eq!(excerpt(""), "");
}

#[test]
fn excerpt_is_cut_at_a_character_boundary() {
    // 199 bytes, then a two-byte character that straddles byte 200.
    let text = format!("{}{}", "d".repeat(199), "\u{e9}\u{e9}\u{e9}");
    assert_eq!(byte_len(&text), 205);
    assert_eq!(excerpt(&text), format!("{}...", "d".repeat(199)));
    // A boundary at byte 200 exactly.
    let text = format!("{}{}", "d".repeat(198), "\u{e9}\u{e9}\u{e9}");
    assert_eq!(excerpt(&text), format!("{}\u{e9}...", "d".repeat(198)));
}

#[test]
fn read_time_is_a_minute_per_two_hundred_words() {
    assert_eq!(read_time(0), 1);
    assert_eq!(read_time(199), 1);
    assert_eq!(read_time(200), 1);
    assert_eq!(read_time(399), 1);
    assert_eq!(read_time(400), 2);
    assert_eq!(read_time(1000), 5);
    assert_eq!(read_time(usize::MAX), i32::MAX);
}

#[test]
fn read_time_counts_words_of_the_content() {
    let words = vec!["word"; 450].join(" \n\t ");
    let page = ArticlePage {
        headings: vec![],
        blocks: vec![vec![element(&words)]],
        paragraphs: vec![],
        authors: vec![],
        dates: vec![],
        tags: vec![],
        views: vec![],
        images: vec![],
    };
    assert_eq!(assemble_article("1", "u", &page).read_time_minutes, Some(2));
}

#[test]
fn fingerprint_is_sha256_in_hex() {
    assert_eq!(
        compute_hash("abc"),
        "ba7816bf8f01cfea414140de5dae2223b00361a396177a9cb410ff61f20015ad"
    );
    assert_eq!(
        compute_hash(""),
        "e3b0c44298fc1c149afbf4c8996fb92427ae41e4649b934ca495991b7852b855"
    );
}

#[test]
fn date_is_read_by_attribute_then_by_text() {
    let rfc = with_attrs("time", "junk", &[Some("2024-05-01T12:30:00Z"), Some("0")]);
    assert_eq!(extract_date(&vec![rfc]), Some(1714566600000));

    let stamp = with_attrs("time", "junk", &[Some("yesterday"), Some("1705305600000")]);
    assert_eq!(extract_date(&vec![stamp]), Some(1705305600000));
    let negative = with_attrs("time", "", &[None, Some("-1000")]);
    assert_eq!(extract_date(&vec![negative]), Some(-1000));

    for (text, expected) in [
        ("2023-12-25", 1703462400000i64),
        ("  2023-12-25  ", 1703462400000),
        ("2025-01-02T10:00:00", 1735812000000),
        ("December 25, 2023", 1703462400000),
        ("Dec 25, 2023", 1703462400000),
        ("25 December 2023", 1703462400000),
        ("2023/12/25", 1703462400000),
    ] {
        let e = with_attrs("span", text, &[None, None]);
        assert_eq!(extract_date(&vec![e]), Some(expected), "{}", text);
    }
}

#[test]
fn date_is_taken_from_the_first_element_that_has_one() {
    let elements = vec![
        with_attrs("span", "soon", &[Some("not a date"), Some("x")]),
        with_attrs("span", "2024-02-30", &[None, Some("99999999999999999999")]),
        with_attrs("span", "2024-02-29", &[]),
        with_attrs("span", "2023-12-25", &[None, None]),
    ];
    assert_eq!(extract_date(&elements), Some(1709164800000));
    assert_eq!(extract_date(&vec![]), None);
    assert_eq!(extract_date(&vec![element("no date here")]), None);
    // An instant that the calendar does not reach is no date.
    let far = with_attrs("time", "", &[None, Some("9223372036854775807")]);
    assert_eq!(extract_date(&vec![far]), None);
}

#[test]
fn view_count_is_spelt_by_the_digits() {
    assert_eq!(extract_view_count(&vec![element("1,234 views")]), Some(1234));
    assert_eq!(extract_view_count(&vec![element("views"), element("7")]), Some(7));
    assert_eq!(extract_view_count(&vec![element("0 0 7")]), Some(7));
    assert_eq!(extract_view_count(&vec![element("none")]), None);
    assert_eq!(extract_view_count(&vec![]), None);
    assert_eq!(
        extract_view_count(&vec![element("9223372036854775807")]),
        Some(i64::MAX)
    );
    assert_eq!(
        extract_view_count(&vec![element("9223372036854775808"), element("5")]),
        Some(5)
    );
    // Numeric characters that are no decimal digits spell no number.
    assert_eq!(extract_view_count(&vec![element("\u{b2}")]), None);
}

#[test]
fn thumbnail_must_be_a_web_address() {
    let meta = with_attrs("meta", "", &[Some("https://a/b.png"), None]);
    assert_eq!(extract_thumbnail(&vec![meta]), Some("https://a/b.png".to_string()));
    let relative_meta = with_attrs("meta", "", &[Some("/b.png"), Some("http://c/d.png")]);
    assert_eq!(extract_thumbnail(&vec![relative_meta]), Some("http://c/d.png".to_string()));
    // `content` counts on a `meta` element only.
    let img = with_attrs("img", "", &[Some("https://a/b.png"), Some("/d.png")]);
    let next = with_attrs("img", "", &[None, Some("https://e/f.png")]);
    assert_eq!(extract_thumbnail(&vec![img, next]), Some("https://e/f.png".to_string()));
    assert_eq!(extract_thumbnail(&vec![with_attrs("img", "", &[])]), None);
    assert_eq!(extract_thumbnail(&vec![with_attrs("img", "", &[None, Some("htt")])]), None);
    assert_eq!(
        extract_thumbnail(&vec![with_attrs("img", "", &[None, Some("http")])]),
        Some("http".to_string())
    );
}

#[test]
fn tags_are_short_filled_and_few() {
    let long = "x".repeat(50);
    let almost = "y".repeat(49);
    let mut elements = vec![element(""), element(&long), element(&almost), element(" t ")];
    for n in 0..20 {
        elements.push(element(&format!("tag{}", n)));
    }
    let tags = extract_tags(&elements, 10);
    assert_eq!(tags.len(), 10);
    assert_eq!(tags[0], almost);
    assert_eq!(tags[1], "t");
    assert_eq!(tags[9], "tag7");
    assert_eq!(extract_tags(&elements, 20).len(), 20);
    assert_eq!(extract_tags(&elements, 0).len(), 0);
}

#[test]
fn texts_are_kept_by_rule() {
    let elements = vec![element(" a "), element(""), element("bcd"), element("ef")];
    assert_eq!(keep_texts(&elements, KeepRule::NonEmpty, None), vec!["a", "bcd", "ef"]);
    assert_eq!(keep_texts(&elements, KeepRule::LongerThan(1), None), vec!["bcd", "ef"]);
    assert_eq!(keep_texts(&elements, KeepRule::ShorterThan(3), None), vec!["a", "ef"]);
    assert_eq!(keep_texts(&elements, KeepRule::NonEmpty, Some(2)), vec!["a", "bcd"]);
    assert_eq!(join(&vec!["a".to_string(), "b".to_string()], ", "), "a, b");
    assert_eq!(join(&vec!["a".to_string()], ", "), "a");
    assert_eq!(join(&vec![], ", "), "");
    assert_eq!(extract_text(&vec![element(" x "), element("y")]), Some("x".to_string()));
    assert_eq!(extract_text(&vec![element("  "), element("y")]), None);
    assert_eq!(extract_text(&vec![]), None);
}

#[test]
fn addresses_of_articles() {
    assert_eq!(article_url("14040"), "https://news.aibase.com/news/14040");
    assert_eq!(issue_url("24-05-01-x"), "https://news.smol.ai/issues/24-05-01-x");
}

#[test]
fn slug_names_a_day() {
    assert_eq!(parse_date_from_slug("24-05-01-gpt-news"), Some(1714521600000));
    assert_eq!(parse_date_from_slug("24-05-01"), Some(1714521600000));
    assert_eq!(parse_date_from_slug("2024-05-01-x"), Some(1714521600000));
    assert_eq!(parse_date_from_slug("99-01-02-x"), Some(4070995200000));
    assert_eq!(parse_date_from_slug("1999-01-02-x"), Some(915235200000));
    assert_eq!(parse_date_from_slug("24-02-30-x"), None);
    assert_eq!(parse_date_from_slug("24-13-01-x"), None);
    assert_eq!(parse_date_from_slug("24-05"), None);
    assert_eq!(parse_date_from_slug("xx-05-01"), None);
    assert_eq!(parse_date_from_slug("-24-05-01"), None);
    assert_eq!(parse_date_from_slug(""), None);
    assert_eq!(parse_date_from_slug("24-05-4294967296"), None);
}

#[test]
fn issue_title_falls_back_step_by_step() {
    let h1 = vec![element(" Top story ")];
    let title = vec![element(" Page title - AINews ")];
    assert_eq!(extract_title(&h1, &title, "24-05-01-a-b"), "Top story");
    assert_eq!(extract_title(&vec![element(" ")], &title, "24-05-01-a-b"), "Page title");
    assert_eq!(extract_title(&vec![], &vec![element("Only")], "24-05-01-a-b"), "Only");
    // The page's title is trimmed before it is cut at " - ".
    assert_eq!(extract_title(&vec![], &vec![element(" - AINews")], "24-05-01-a-b"), "- AINews");
    assert_eq!(extract_title(&vec![], &vec![element("  ")], "24-05-01-a-b"), "a b");
    assert_eq!(extract_title(&vec![], &vec![], "24-05-01-some-long-title"), "some long title");
    assert_eq!(extract_title(&vec![], &vec![], "24-05-01"), "Issue 24-05-01");
    assert_eq!(extract_title(&vec![], &vec![], "24-05-01-"), "Issue 24-05-01-");
    assert_eq!(extract_title(&vec![], &vec![], "plain"), "Issue plain");
}

const ISSUE: &str = r#"<html><head><title>Issue page - AINews</title></head><body>
<h1></h1>
<article class="content-area">
   <h2>Heading</h2>

   <p>Some <b>bold</b> text</p>
</article>
<span data-pagefind-filter="company">OpenAI</span>
<span data-pagefind-filter="topic">agents</span>
</body></html>"#;

#[test]
fn smolai_issue_is_read_off_its_page() {
    let a = parse_issue("24-05-01-big-news", "https://news.smol.ai/issues/24-05-01-big-news", ISSUE);
    assert_eq!(a.title, "Issue page");
    assert_eq!(a.content, "<h2>Heading</h2>\n<p>Some <b>bold</b> text</p>");
    assert_eq!(a.excerpt, Some(a.content.clone()));
    assert_eq!(a.author, Some("smol.ai".to_string()));
    assert_eq!(a.source, Some("smol.ai".to_string()));
    assert_eq!(a.published_at, Some(1714521600000));
    assert_eq!(a.view_count, None);
    assert_eq!(a.thumbnail_url, None);
    assert_eq!(a.read_time_minutes, Some(1));
    assert_eq!(a.tags, vec!["OpenAI", "agents"]);
    assert_eq!(a.content_hash, compute_hash(&a.content));
}

#[test]
fn smolai_markup_keeps_attributes_in_source_order() {
    let html = r#"<article class="content-area"><a title="t" href="/x" id="i" class="c">l</a></article>"#;
    let a = parse_issue("s", "u", html);
    assert_eq!(a.content, r#"<a title="t" href="/x" id="i" class="c">l</a>"#);
}

#[test]
fn smolai_issue_without_content_area_uses_paragraphs() {
    let html = "<html><body><p>tiny</p><p>a paragraph with more than twenty bytes</p></body></html>";
    let a = parse_issue("24-01-02-x", "u", html);
    assert_eq!(a.content, "a paragraph with more than twenty bytes");
    assert_eq!(a.title, "x");
    let a = parse_issue("nothing", "u", "<article class='content-area'>  \n </article>");
    assert_eq!(a.content, "Content not available");
    assert_eq!(a.title, "Issue nothing");
    assert_eq!(a.published_at, None);
}

#[test]
fn timestamps_are_held_to_the_years_of_the_calendar() {
    use_stamp("-8334601228800000", Some(-8334601228800000));
    use_stamp("-8334601228800001", None);
    use_stamp("8210266876799999", Some(8210266876799999));
    use_stamp("8210266876800000", None);
    use_stamp("0", Some(0));
    use_stamp("-9223372036854775808", None);
}

fn use_stamp(stamp: &str, expected: Option<i64>) {
    let e = with_attrs("time", "", &[None, Some(stamp)]);
    assert_eq!(extract_date(&vec![e]), expected, "{}", stamp);
}
