//! Candidates from listing pages and archives.

use vstd::prelude::*;
use crate::chars::{
    after_prefix, all_in, before, chars_of, is_ascii_digit, string_from_chars, stripped, trimmed,
    CharClass,
};
use crate::chars::{all_in_class, same_chars, strip, strip_prefix, take_before, trim};
use crate::dom::{
    attr_names, element_views, find_all, find_within, first_of, found, found_within,
    nested_views, selected, selected_within, text_views, Element, ElementView,
};
use crate::model::{Candidate, ExternalId};
use crate::text::{concat2, decimal_digits, format_decimal};

verus! {

/// Where AIBase lists its news.
pub const NEWS_LISTING_URL: &'static str = "https://news.aibase.com/news";

/// Links to articles on an AIBase listing page.
pub const LISTING_ARTICLE_CARD: &'static str = "a[href^='/news/']";

/// Where a card shows its title.
pub const LISTING_ARTICLE_TITLE: &'static str = "h2, h3, .title";

/// Where a card shows its excerpt.
pub const LISTING_ARTICLE_EXCERPT: &'static str = "p, .excerpt, .description";

/// Where a card shows its thumbnail.
pub const LISTING_ARTICLE_THUMBNAIL: &'static str = "img";

/// Where smol.ai lists its issues.
pub const ARCHIVE_URL: &'static str = "https://news.smol.ai/issues";

/// Links to issues on the smol.ai archive page.
pub const ISSUE_LINK: &'static str = "a[href^='/issues/']";

/// The address of the listing page `page` of AIBase.
pub open spec fn listing_url_of(page: u32) -> Seq<char> {
    if page == 1 {
        NEWS_LISTING_URL@
    } else {
        NEWS_LISTING_URL@ + "?page="@ + decimal_digits(page as nat)
    }
}

pub fn listing_url(page: u32) -> (r: String)
    ensures
        r@ == listing_url_of(page),
{
    if page == 1 {
        String::from_str(NEWS_LISTING_URL)
    } else {
        let number = format_decimal(page as u64);
        let mut url = concat2(NEWS_LISTING_URL, "?page=");
        url.append(number.as_str());
        url
    }
}

/// The identifier that a link names: what follows `prefix` in `href`, without
/// slashes at either end, where that is not empty.
pub open spec fn linked_id(href: Seq<char>, prefix: Seq<char>) -> Option<Seq<char>> {
    match after_prefix(href, prefix) {
        Some(rest) => {
            let id = stripped(rest, CharClass::Is('/'));
            if id.len() > 0 {
                Some(id)
            } else {
                None
            }
        },
        None => None,
    }
}

/// The article that a link on an AIBase page names: `/news/` and a number.
pub open spec fn news_id_of(href: Seq<char>) -> Option<Seq<char>> {
    match linked_id(href, "/news/"@) {
        Some(id) if all_in(id, CharClass::Numeric) => Some(id),
        _ => None,
    }
}

/// The issue that a link on the smol.ai archive names: `/issues/` and a slug
/// other than `issues`.
pub open spec fn issue_id_of(href: Seq<char>) -> Option<Seq<char>> {
    match linked_id(href, "/issues/"@) {
        Some(id) if id != "issues"@ => Some(id),
        _ => None,
    }
}

fn link_id(href: &Vec<char>, prefix: &str) -> (r: Option<Vec<char>>)
    ensures
        match r {
            Some(id) => linked_id(href@, prefix@) == Some(id@),
            None => linked_id(href@, prefix@) is None,
        },
{
    let prefix_chars = chars_of(prefix);
    match strip_prefix(href, &prefix_chars) {
        Some(rest) => {
            let id = strip(&rest, CharClass::Is('/'));
            if id.len() > 0 {
                Some(id)
            } else {
                None
            }
        },
        None => None,
    }
}

/// A link of `/news/` and digits names the article of these digits: for
/// every text of one or more of the digits `0` to `9`, the link that follows
/// `/news/` with it names that text.
pub proof fn lemma_digits_name_an_article(digits: Seq<char>)
    requires
        digits.len() > 0,
        forall|i: int| 0 <= i < digits.len() ==> is_ascii_digit(#[trigger] digits[i]),
    ensures
        news_id_of("/news/"@ + digits) == Some(digits),
{
    let prefix = "/news/"@;
    let href = prefix + digits;
    let slash = CharClass::Is('/');
    assert(href.subrange(0, prefix.len() as int) =~= prefix);
    assert(href.subrange(prefix.len() as int, href.len() as int) =~= digits);
    assert(!slash.holds(digits[0]));
    assert(!slash.holds(digits.last()));
    assert(digits.subrange(0, digits.len() as int) =~= digits);
    assert(stripped(digits, slash) =~= digits);
    assert forall|i: int| 0 <= i < digits.len() implies CharClass::Numeric.holds(
        #[trigger] digits[i],
    ) by {}
}

/// Reads the article that a link on an AIBase page names.
pub fn news_id(href: &str) -> (r: Option<String>)
    ensures
        match r {
            Some(id) => news_id_of(href@) == Some(id@),
            None => news_id_of(href@) is None,
        },
{
    let chars = chars_of(href);
    match link_id(&chars, "/news/") {
        Some(id) => {
            if all_in_class(&id, CharClass::Numeric) {
                Some(string_from_chars(&id))
            } else {
                None
            }
        },
        None => None,
    }
}

/// Reads the issue that a link on the smol.ai archive names.
pub fn issue_id(href: &str) -> (r: Option<String>)
    ensures
        match r {
            Some(id) => issue_id_of(href@) == Some(id@),
            None => issue_id_of(href@) is None,
        },
{
    let chars = chars_of(href);
    match link_id(&chars, "/issues/") {
        Some(id) => {
            let word = chars_of("issues");
            if same_chars(&id, &word) {
                None
            } else {
                Some(string_from_chars(&id))
            }
        },
        None => None,
    }
}

/// An article as a listing page shows it.
#[derive(Clone, Debug)]
pub struct ArticlePreview {
    pub external_id: String,
    pub title: String,
    pub excerpt: Option<String>,
    pub thumbnail_url: Option<String>,
    pub url: String,
}

/// A preview as contracts see it.
pub struct ArticlePreviewView {
    pub external_id: Seq<char>,
    pub title: Seq<char>,
    pub excerpt: Option<Seq<char>>,
    pub thumbnail_url: Option<Seq<char>>,
    pub url: Seq<char>,
}

impl ArticlePreview {
    pub open spec fn view(&self) -> ArticlePreviewView {
        ArticlePreviewView {
            external_id: self.external_id@,
            title: self.title@,
            excerpt: match self.excerpt {
                Some(s) => Some(s@),
                None => None,
            },
            thumbnail_url: match self.thumbnail_url {
                Some(s) => Some(s@),
                None => None,
            },
            url: self.url@,
        }
    }
}

/// The previews as contracts see them.
pub open spec fn preview_views(previews: Seq<ArticlePreview>) -> Seq<ArticlePreviewView> {
    Seq::new(previews.len(), |i: int| previews[i]@)
}

/// What was found below the card at `index`; nothing where the lists do not
/// reach that far.
pub open spec fn nested_at(nested: Seq<Seq<ElementView>>, index: int) -> Seq<ElementView> {
    if 0 <= index < nested.len() {
        nested[index]
    } else {
        Seq::empty()
    }
}

/// The title of a card: the text of its title element; without one, the
/// first line of the card's own text if `link_text` is allowed and there is
/// any; else `Article` and the id.
pub open spec fn card_title(
    card: ElementView,
    titles: Seq<ElementView>,
    id: Seq<char>,
    link_text: bool,
) -> Seq<char> {
    match first_of(titles) {
        Some(title) => trimmed(title.text),
        None => {
            let text = trimmed(card.text);
            if link_text && text.len() > 0 {
                trimmed(before(text, seq!['\n']))
            } else {
                "Article "@ + id
            }
        },
    }
}

/// The excerpt of a card: the text of its excerpt element, unless empty.
pub open spec fn card_excerpt(excerpts: Seq<ElementView>) -> Option<Seq<char>> {
    match first_of(excerpts) {
        Some(excerpt) if trimmed(excerpt.text).len() > 0 => Some(trimmed(excerpt.text)),
        _ => None,
    }
}

/// The thumbnail of a card: the `src` of its first image, or else that
/// image's `data-src`. The images were read with these two attributes.
pub open spec fn card_thumbnail(images: Seq<ElementView>) -> Option<Seq<char>> {
    match first_of(images) {
        Some(image) => match image.attr(0) {
            Some(src) => Some(src),
            None => image.attr(1),
        },
        None => None,
    }
}

/// The preview that a card makes, if its link names an article. The card was
/// read with its `href`.
pub open spec fn card_preview_of(
    card: ElementView,
    titles: Seq<ElementView>,
    excerpts: Seq<ElementView>,
    images: Seq<ElementView>,
    link_text: bool,
) -> Option<ArticlePreviewView> {
    match card.attr(0) {
        Some(href) => match news_id_of(href) {
            Some(id) => Some(
                ArticlePreviewView {
                    external_id: id,
                    title: card_title(card, titles, id, link_text),
                    excerpt: card_excerpt(excerpts),
                    thumbnail_url: card_thumbnail(images),
                    url: "https://news.aibase.com"@ + href,
                },
            ),
            None => None,
        },
        None => None,
    }
}

/// Some preview has this id.
pub open spec fn has_id(previews: Seq<ArticlePreviewView>, id: Seq<char>) -> bool {
    exists|i: int| 0 <= i < previews.len() && (#[trigger] previews[i]).external_id == id
}

/// The previews that the first `upto` cards make, in order, each article
/// once: where two cards name the same article, the first stands.
pub open spec fn previews_of(
    cards: Seq<ElementView>,
    titles: Seq<Seq<ElementView>>,
    excerpts: Seq<Seq<ElementView>>,
    images: Seq<Seq<ElementView>>,
    link_text: bool,
    upto: int,
) -> Seq<ArticlePreviewView>
    decreases upto,
{
    if upto <= 0 {
        Seq::empty()
    } else {
        let earlier = previews_of(cards, titles, excerpts, images, link_text, upto - 1);
        match card_preview_of(
            cards[upto - 1],
            nested_at(titles, upto - 1),
            nested_at(excerpts, upto - 1),
            nested_at(images, upto - 1),
            link_text,
        ) {
            Some(preview) if !has_id(earlier, preview.external_id) => earlier.push(preview),
            _ => earlier,
        }
    }
}

fn copy_string(s: &String) -> (r: String)
    ensures
        r == *s,
{
    s.clone()
}

fn trimmed_text(text: &String) -> (r: Vec<char>)
    ensures
        r@ == trimmed(text@),
{
    let chars = chars_of(text.as_str());
    trim(&chars)
}

fn title_of_card(card: &Element, titles: &Vec<Element>, id: &String, link_text: bool) -> (r: String)
    ensures
        r@ == card_title(card@, element_views(titles@), id@, link_text),
{
    if titles.len() > 0 {
        let title = trimmed_text(&titles[0].text);
        string_from_chars(&title)
    } else {
        let text = trimmed_text(&card.text);
        if link_text && text.len() > 0 {
            let mut line_feed: Vec<char> = Vec::new();
            line_feed.push('\n');
            let line = take_before(&text, &line_feed);
            let title = trim(&line);
            string_from_chars(&title)
        } else {
            concat2("Article ", id.as_str())
        }
    }
}

fn excerpt_of_card(excerpts: &Vec<Element>) -> (r: Option<String>)
    ensures
        match r {
            Some(e) => card_excerpt(element_views(excerpts@)) == Some(e@),
            None => card_excerpt(element_views(excerpts@)) is None,
        },
{
    if excerpts.len() > 0 {
        let text = trimmed_text(&excerpts[0].text);
        if text.len() > 0 {
            Some(string_from_chars(&text))
        } else {
            None
        }
    } else {
        None
    }
}

fn thumbnail_of_card(images: &Vec<Element>) -> (r: Option<String>)
    ensures
        match r {
            Some(t) => card_thumbnail(element_views(images@)) == Some(t@),
            None => card_thumbnail(element_views(images@)) is None,
        },
{
    if images.len() > 0 {
        match images[0].attr(0) {
            Some(src) => Some(copy_string(src)),
            None => match images[0].attr(1) {
                Some(lazy) => Some(copy_string(lazy)),
                None => None,
            },
        }
    } else {
        None
    }
}

/// The preview that a card makes, if its link names an article.
pub fn card_preview(
    card: &Element,
    titles: &Vec<Element>,
    excerpts: &Vec<Element>,
    images: &Vec<Element>,
    link_text: bool,
) -> (r: Option<ArticlePreview>)
    ensures
        match r {
            Some(preview) => card_preview_of(
                card@,
                element_views(titles@),
                element_views(excerpts@),
                element_views(images@),
                link_text,
            ) == Some(preview@),
            None => card_preview_of(
                card@,
                element_views(titles@),
                element_views(excerpts@),
                element_views(images@),
                link_text,
            ) is None,
        },
{
    match card.attr(0) {
        Some(href) => match news_id(href.as_str()) {
            Some(id) => {
                let title = title_of_card(card, titles, &id, link_text);
                Some(
                    ArticlePreview {
                        external_id: id,
                        title,
                        excerpt: excerpt_of_card(excerpts),
                        thumbnail_url: thumbnail_of_card(images),
                        url: concat2("https://news.aibase.com", href.as_str()),
                    },
                )
            },
            None => None,
        },
        None => None,
    }
}

fn holds_id(previews: &Vec<ArticlePreview>, id: &String) -> (r: bool)
    ensures
        r == has_id(preview_views(previews@), id@),
{
    let mut i: usize = 0;
    while i < previews.len()
        invariant
            i <= previews.len(),
            forall|k: int| 0 <= k < i ==> (#[trigger] preview_views(previews@)[k]).external_id != id@,
        decreases previews.len() - i,
    {
        if previews[i].external_id == *id {
            assert(preview_views(previews@)[i as int].external_id == id@);
            return true;
        }
        i = i + 1;
    }
    false
}

/// The previews that the cards of a listing page make, each article once.
/// `titles`, `excerpts` and `images` hold what was found below each card, in
/// the order of the cards.
pub fn previews_from(
    cards: &Vec<Element>,
    titles: &Vec<Vec<Element>>,
    excerpts: &Vec<Vec<Element>>,
    images: &Vec<Vec<Element>>,
    link_text: bool,
) -> (r: Vec<ArticlePreview>)
    ensures
        preview_views(r@) == previews_of(
            element_views(cards@),
            nested_views(titles@),
            nested_views(excerpts@),
            nested_views(images@),
            link_text,
            cards@.len() as int,
        ),
{
    let nothing: Vec<Element> = Vec::new();
    let mut out: Vec<ArticlePreview> = Vec::new();
    let mut i: usize = 0;
    assert(preview_views(out@) =~= Seq::empty());
    while i < cards.len()
        invariant
            i <= cards.len(),
            nothing@.len() == 0,
            preview_views(out@) == previews_of(
                element_views(cards@),
                nested_views(titles@),
                nested_views(excerpts@),
                nested_views(images@),
                link_text,
                i as int,
            ),
        decreases cards.len() - i,
    {
        let below_titles = if i < titles.len() {
            &titles[i]
        } else {
            &nothing
        };
        let below_excerpts = if i < excerpts.len() {
            &excerpts[i]
        } else {
            &nothing
        };
        let below_images = if i < images.len() {
            &images[i]
        } else {
            &nothing
        };
        proof {
            assert(element_views(nothing@) =~= Seq::empty());
            assert(element_views(below_titles@) == nested_at(nested_views(titles@), i as int));
            assert(element_views(below_excerpts@) == nested_at(nested_views(excerpts@), i as int));
            assert(element_views(below_images@) == nested_at(nested_views(images@), i as int));
            assert(element_views(cards@)[i as int] == cards@[i as int]@);
        }
        let ghost earlier = preview_views(out@);
        match card_preview(&cards[i], below_titles, below_excerpts, below_images, link_text) {
            Some(preview) => {
                if !holds_id(&out, &preview.external_id) {
                    out.push(preview);
                    assert(preview_views(out@) =~= earlier.push(preview@));
                }
            },
            None => {},
        }
        i = i + 1;
    }
    out
}

/// The cards of the listing page `html`, read with their `href`.
pub open spec fn cards_of(html: Seq<char>) -> Seq<ElementView> {
    found(selected(html, LISTING_ARTICLE_CARD@, seq!["href"@]))
}

/// What `inner` finds below each card of the listing page `html`.
pub open spec fn below_cards(html: Seq<char>, inner: Seq<char>, attrs: Seq<Seq<char>>) -> Seq<
    Seq<ElementView>,
> {
    found_within(selected_within(html, LISTING_ARTICLE_CARD@, inner, attrs))
}

/// The previews of the listing page `html`: one for each card whose link
/// names an article, each article once.
pub open spec fn listing_of(html: Seq<char>) -> Seq<ArticlePreviewView> {
    previews_of(
        cards_of(html),
        below_cards(html, LISTING_ARTICLE_TITLE@, Seq::empty()),
        below_cards(html, LISTING_ARTICLE_EXCERPT@, Seq::empty()),
        below_cards(html, LISTING_ARTICLE_THUMBNAIL@, seq!["src"@, "data-src"@]),
        true,
        cards_of(html).len() as int,
    )
}

/// The candidates of the listing page `html`, as pairs of id and title: one
/// for each card whose link names an article, each article once.
pub open spec fn listed_candidates(html: Seq<char>) -> Seq<ArticlePreviewView> {
    previews_of(
        cards_of(html),
        below_cards(html, LISTING_ARTICLE_TITLE@, Seq::empty()),
        Seq::empty(),
        Seq::empty(),
        false,
        cards_of(html).len() as int,
    )
}

/// What `inner` finds below the cards of the listing page `html` pairs up
/// with the cards, one list for each card, unless `inner` is refused.
pub open spec fn paired(html: Seq<char>, inner: Seq<char>, attrs: Seq<Seq<char>>) -> bool {
    selected_within(html, LISTING_ARTICLE_CARD@, inner, attrs) is Some ==> below_cards(
        html,
        inner,
        attrs,
    ).len() == cards_of(html).len()
}

/// Reads the previews off an AIBase listing page. What was found below the
/// cards pairs up with the cards.
pub fn parse_listing(html: &str) -> (r: Vec<ArticlePreview>)
    ensures
        preview_views(r@) == listing_of(html@),
        paired(html@, LISTING_ARTICLE_TITLE@, Seq::empty()),
        paired(html@, LISTING_ARTICLE_EXCERPT@, Seq::empty()),
        paired(html@, LISTING_ARTICLE_THUMBNAIL@, seq!["src"@, "data-src"@]),
{
    let href = attr_names(&["href"]);
    let none = attr_names(&[]);
    let sources = attr_names(&["src", "data-src"]);
    assert(text_views(href@) =~= seq!["href"@]);
    assert(text_views(none@) =~= Seq::<Seq<char>>::empty());
    assert(text_views(sources@) =~= seq!["src"@, "data-src"@]);
    let cards = find_all(html, LISTING_ARTICLE_CARD, &href);
    let titles = find_within(html, LISTING_ARTICLE_CARD, LISTING_ARTICLE_TITLE, &none);
    let excerpts = find_within(html, LISTING_ARTICLE_CARD, LISTING_ARTICLE_EXCERPT, &none);
    let images = find_within(html, LISTING_ARTICLE_CARD, LISTING_ARTICLE_THUMBNAIL, &sources);
    previews_from(&cards, &titles, &excerpts, &images, true)
}

/// The candidate that a preview stands for.
pub open spec fn is_candidate_of(candidate: Candidate, preview: ArticlePreviewView) -> bool {
    &&& candidate.external_id matches ExternalId::Text(id) && id@ == preview.external_id
    &&& candidate.title matches Some(title) && title@ == preview.title
}

/// Reads the candidates off an AIBase listing page. The titles found below
/// the cards pair up with the cards.
pub fn scrape_listing_page(html: &str) -> (r: Vec<Candidate>)
    ensures
        r@.len() == listed_candidates(html@).len(),
        forall|i: int|
            0 <= i < r@.len() ==> is_candidate_of(#[trigger] r@[i], listed_candidates(html@)[i]),
        paired(html@, LISTING_ARTICLE_TITLE@, Seq::empty()),
{
    let href = attr_names(&["href"]);
    let none = attr_names(&[]);
    assert(text_views(href@) =~= seq!["href"@]);
    assert(text_views(none@) =~= Seq::<Seq<char>>::empty());
    let cards = find_all(html, LISTING_ARTICLE_CARD, &href);
    let titles = find_within(html, LISTING_ARTICLE_CARD, LISTING_ARTICLE_TITLE, &none);
    let nothing: Vec<Vec<Element>> = Vec::new();
    assert(nested_views(nothing@) =~= Seq::empty());
    let previews = previews_from(&cards, &titles, &nothing, &nothing, false);
    let mut out: Vec<Candidate> = Vec::new();
    let mut i: usize = 0;
    while i < previews.len()
        invariant
            i <= previews.len(),
            out@.len() == i,
            forall|k: int|
                0 <= k < i ==> is_candidate_of(#[trigger] out@[k], preview_views(previews@)[k]),
        decreases previews.len() - i,
    {
        out.push(
            Candidate {
                external_id: ExternalId::Text(copy_string(&previews[i].external_id)),
                title: Some(copy_string(&previews[i].title)),
            },
        );
        i = i + 1;
    }
    out
}

/// The archive has given as many issues as were asked for.
pub open spec fn enough(issues: Seq<Seq<char>>, max_count: Option<u32>) -> bool {
    max_count matches Some(max) && issues.len() >= max
}

/// The issues that the first `upto` links of an archive name, in the order
/// of the links, each once, and no more of them than `max_count`. The links
/// were read with their `href`.
pub open spec fn issues_of(links: Seq<ElementView>, max_count: Option<u32>, upto: int) -> Seq<
    Seq<char>,
>
    decreases upto,
{
    if upto <= 0 {
        Seq::empty()
    } else {
        let earlier = issues_of(links, max_count, upto - 1);
        if enough(earlier, max_count) {
            earlier
        } else {
            match links[upto - 1].attr(0) {
                Some(href) => match issue_id_of(href) {
                    Some(id) if !earlier.contains(id) => earlier.push(id),
                    _ => earlier,
                },
                None => earlier,
            }
        }
    }
}

fn holds_text(texts: &Vec<String>, text: &String) -> (r: bool)
    ensures
        r == text_views(texts@).contains(text@),
{
    let mut i: usize = 0;
    while i < texts.len()
        invariant
            i <= texts.len(),
            forall|k: int| 0 <= k < i ==> text_views(texts@)[k] != text@,
        decreases texts.len() - i,
    {
        if texts[i] == *text {
            assert(text_views(texts@)[i as int] == text@);
            return true;
        }
        i = i + 1;
    }
    false
}

/// The link names the issue `id`.
pub open spec fn names_issue(link: ElementView, id: Seq<char>) -> bool {
    link.attr(0) matches Some(href) && issue_id_of(href) == Some(id)
}

/// One of the links names the issue `id`.
pub open spec fn is_named(links: Seq<ElementView>, id: Seq<char>) -> bool {
    exists|k: int| 0 <= k < links.len() && #[trigger] names_issue(links[k], id)
}

/// What holds of the issues of an archive, whatever its links: they are no
/// more than `max_count`, no two are the same, none is empty or the word
/// `issues`, and each is named by one of the links.
pub open spec fn well_listed(
    issues: Seq<Seq<char>>,
    links: Seq<ElementView>,
    max_count: Option<u32>,
) -> bool {
    &&& max_count matches Some(max) ==> issues.len() <= max
    &&& issues.len() <= links.len()
    &&& forall|i: int, j: int| 0 <= i < j < issues.len() ==> issues[i] != issues[j]
    &&& forall|i: int|
        0 <= i < issues.len() ==> (#[trigger] issues[i]).len() > 0 && issues[i] != "issues"@
    &&& forall|i: int| 0 <= i < issues.len() ==> is_named(links, #[trigger] issues[i])
}

/// The issues of an archive are bounded, distinct and named by its links:
/// with a `max_count` of 0 there are none.
pub proof fn lemma_issues_are_well_listed(
    links: Seq<ElementView>,
    max_count: Option<u32>,
    upto: int,
)
    requires
        upto <= links.len(),
    ensures
        well_listed(issues_of(links, max_count, upto), links, max_count),
        issues_of(links, max_count, upto).len() <= if upto < 0 {
            0
        } else {
            upto
        },
    decreases upto,
{
    if upto > 0 {
        lemma_issues_are_well_listed(links, max_count, upto - 1);
        let earlier = issues_of(links, max_count, upto - 1);
        let issues = issues_of(links, max_count, upto);
        if issues != earlier {
            let href = links[upto - 1].attr(0)->0;
            let id = issue_id_of(href)->0;
            assert(issues == earlier.push(id));
            assert forall|i: int| 0 <= i < issues.len() implies is_named(
                links,
                #[trigger] issues[i],
            ) by {
                if i < earlier.len() {
                    assert(issues[i] == earlier[i]);
                } else {
                    assert(names_issue(links[upto - 1], issues[i]));
                }
            }
            assert forall|i: int, j: int| 0 <= i < j < issues.len() implies issues[i]
                != issues[j] by {
                if j == earlier.len() {
                    assert(earlier[i] != id);
                }
            }
        }
    }
}

/// The issues that the links of an archive name, each once, up to
/// `max_count` of them.
pub fn issues_from(links: &Vec<Element>, max_count: Option<u32>) -> (r: Vec<String>)
    ensures
        text_views(r@) == issues_of(
            element_views(links@),
            max_count,
            links@.len() as int,
        ),
        well_listed(text_views(r@), element_views(links@), max_count),
        max_count matches Some(max) ==> r@.len() <= max,
{
    proof {
        lemma_issues_are_well_listed(element_views(links@), max_count, links@.len() as int);
    }
    let mut out: Vec<String> = Vec::new();
    let mut i: usize = 0;
    assert(text_views(out@) =~= Seq::<Seq<char>>::empty());
    while i < links.len()
        invariant
            i <= links.len(),
            text_views(out@) == issues_of(element_views(links@), max_count, i as int),
        decreases links.len() - i,
    {
        let full = match max_count {
            Some(max) => out.len() >= max as usize,
            None => false,
        };
        let ghost earlier = text_views(out@);
        assert(element_views(links@)[i as int] == links@[i as int]@);
        if !full {
            match links[i].attr(0) {
                Some(href) => match issue_id(href.as_str()) {
                    Some(id) => {
                        if !holds_text(&out, &id) {
                            out.push(id);
                            assert(text_views(out@) =~= earlier.push(id@));
                        }
                    },
                    None => {},
                },
                None => {},
            }
        }
        i = i + 1;
    }
    out
}

/// The issues that the archive page `html` lists.
pub open spec fn archive_of(html: Seq<char>, max_count: Option<u32>) -> Seq<Seq<char>> {
    let links = found(selected(html, ISSUE_LINK@, seq!["href"@]));
    issues_of(links, max_count, links.len() as int)
}

/// Reads the issues off the smol.ai archive page, each once, up to
/// `max_count` of them: none where `max_count` is 0.
pub fn discover_articles(html: &str, max_count: Option<u32>) -> (r: Vec<String>)
    ensures
        text_views(r@) == archive_of(html@, max_count),
        well_listed(
            text_views(r@),
            found(selected(html@, ISSUE_LINK@, seq!["href"@])),
            max_count,
        ),
        max_count matches Some(max) ==> r@.len() <= max,
{
    let href = attr_names(&["href"]);
    assert(text_views(href@) =~= seq!["href"@]);
    let links = find_all(html, ISSUE_LINK, &href);
    issues_from(&links, max_count)
}

/// A walk through listing pages that gathers every article listed: page 1,
/// then one page after another, no page beyond `max_pages`, until a page
/// lists nothing.
#[derive(Debug)]
pub struct Discovery {
    pub max_pages: u32,
    /// The page that has been asked for.
    pub page: u32,
    /// What the pages before it listed.
    pub ids: Vec<String>,
}

/// What follows a page of a walk.
#[derive(Debug)]
pub enum DiscoveryStep {
    /// Fetch the page that `walk` asks for, and come back with what it lists.
    Fetch { walk: Discovery },
    /// The walk is over; these are the articles it found.
    Done { ids: Vec<String> },
}

impl Discovery {
    /// The page asked for is one of the pages 1 to `max_pages`.
    pub open spec fn wf(&self) -> bool {
        1 <= self.page <= self.max_pages
    }

    /// Begins a walk: page 1 is due, unless no page is allowed, in which case
    /// the walk is over and has found nothing.
    pub fn begin(max_pages: u32) -> (r: DiscoveryStep)
        ensures
            match r {
                DiscoveryStep::Done { ids } => max_pages == 0 && ids@.len() == 0,
                DiscoveryStep::Fetch { walk } => {
                    &&& max_pages >= 1
                    &&& walk.wf()
                    &&& walk.max_pages == max_pages
                    &&& walk.page == 1
                    &&& walk.ids@.len() == 0
                },
            },
    {
        if max_pages == 0 {
            DiscoveryStep::Done { ids: Vec::new() }
        } else {
            DiscoveryStep::Fetch { walk: Discovery { max_pages, page: 1, ids: Vec::new() } }
        }
    }

    /// Takes what the page listed and says what follows: the walk is over
    /// after an empty page and after page `max_pages`; else the next page is
    /// due.
    pub fn on_page(self, listed: Vec<String>) -> (r: DiscoveryStep)
        ensures
            match r {
                DiscoveryStep::Done { ids } => {
                    &&& ids@ == self.ids@ + listed@
                    &&& listed@.len() == 0 || self.page >= self.max_pages
                },
                DiscoveryStep::Fetch { walk } => {
                    &&& listed@.len() > 0
                    &&& self.page < self.max_pages
                    &&& self.wf() ==> walk.wf()
                    &&& walk.max_pages == self.max_pages
                    &&& walk.page == self.page + 1
                    &&& walk.ids@ == self.ids@ + listed@
                },
            },
    {
        let mut ids = self.ids;
        let mut listed = listed;
        if listed.len() == 0 {
            assert(ids@ + listed@ =~= ids@);
            return DiscoveryStep::Done { ids };
        }
        ids.append(&mut listed);
        if self.page >= self.max_pages {
            DiscoveryStep::Done { ids }
        } else {
            DiscoveryStep::Fetch {
                walk: Discovery { max_pages: self.max_pages, page: self.page + 1, ids },
            }
        }
    }
}

} // verus!
