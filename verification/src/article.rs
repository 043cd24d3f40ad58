//! Articles from article pages.

use vstd::prelude::*;
use vstd::string::StringSliceAdditionalSpecFns;
use vstd::utf8::{decode_utf8, encode_utf8, is_char_boundary};
use crate::chars::{
    before, chars_of, count_words, has_prefix, keep, only, split, split_on, starts_with,
    string_from_chars, take_before, trim, trimmed, word_count, CharClass,
};
use crate::dates::{
    calendar_holds, checked_millis, date_instant, datetime_instant, day_instant, parse_date,
    parse_datetime, parse_rfc3339, rfc3339_instant, start_of_day,
};
use crate::digest::{compute_hash, hex_text, sha256};
use crate::dom::{
    attr_names, element_views, find_all, find_within, first_of, found, found_within,
    nested_views, selected, selected_within, text_views, Element, ElementView,
};
use crate::model::{opt_text_view, NewArticle, NewArticleView};
use crate::text::{
    concat2, concat3, parse_decimal, parse_signed, same_text, signed_decimal, unsigned_decimal,
};

verus! {

/// How many bytes the UTF-8 form of a text takes.
pub open spec fn utf8_len(text: Seq<char>) -> nat {
    encode_utf8(text).len()
}

/// Counts the bytes that the UTF-8 form of a text takes.
pub fn byte_len(text: &str) -> (r: usize)
    ensures
        r == utf8_len(text@),
{
    text.as_bytes().len()
}

/// Which texts a list keeps.
#[derive(Clone, Copy, Debug, PartialEq, Eq, Structural)]
pub enum KeepRule {
    /// Those that are not empty.
    NonEmpty,
    /// Those of more than so many bytes.
    LongerThan(usize),
    /// Those that are not empty and of fewer than so many bytes.
    ShorterThan(usize),
}

impl KeepRule {
    pub open spec fn keeps(self, text: Seq<char>) -> bool {
        match self {
            KeepRule::NonEmpty => text.len() > 0,
            KeepRule::LongerThan(n) => text.len() > 0 && utf8_len(text) > n,
            KeepRule::ShorterThan(n) => text.len() > 0 && utf8_len(text) < n,
        }
    }

    fn test(&self, text: &String) -> (r: bool)
        ensures
            r == self.keeps(text@),
    {
        let empty = text.as_str().is_empty();
        let bytes = byte_len(text.as_str());
        match self {
            KeepRule::NonEmpty => !empty,
            KeepRule::LongerThan(n) => !empty && bytes > *n,
            KeepRule::ShorterThan(n) => !empty && bytes < *n,
        }
    }
}

/// The list holds as many texts as it may.
pub open spec fn at_limit(texts: Seq<Seq<char>>, limit: Option<usize>) -> bool {
    limit matches Some(n) && texts.len() >= n
}

/// The texts of the first `upto` elements, trimmed, as far as `rule` keeps
/// them, in order, and no more than `limit` of them.
pub open spec fn kept_texts(
    elements: Seq<ElementView>,
    rule: KeepRule,
    limit: Option<usize>,
    upto: int,
) -> Seq<Seq<char>>
    decreases upto,
{
    if upto <= 0 {
        Seq::empty()
    } else {
        let earlier = kept_texts(elements, rule, limit, upto - 1);
        let text = trimmed(elements[upto - 1].text);
        if !at_limit(earlier, limit) && rule.keeps(text) {
            earlier.push(text)
        } else {
            earlier
        }
    }
}

/// The texts of the elements, trimmed, as far as `rule` keeps them, and no
/// more than `limit` of them.
pub fn keep_texts(elements: &Vec<Element>, rule: KeepRule, limit: Option<usize>) -> (r: Vec<String>)
    ensures
        text_views(r@) == kept_texts(element_views(elements@), rule, limit, elements@.len() as int),
{
    let mut out: Vec<String> = Vec::new();
    let mut i: usize = 0;
    assert(text_views(out@) =~= Seq::<Seq<char>>::empty());
    while i < elements.len()
        invariant
            i <= elements.len(),
            text_views(out@) == kept_texts(element_views(elements@), rule, limit, i as int),
        decreases elements.len() - i,
    {
        let full = match limit {
            Some(n) => out.len() >= n,
            None => false,
        };
        let ghost earlier = text_views(out@);
        assert(element_views(elements@)[i as int] == elements@[i as int]@);
        if !full {
            let chars = chars_of(elements[i].text.as_str());
            let text = string_from_chars(&trim(&chars));
            if rule.test(&text) {
                out.push(text);
                assert(text_views(out@) =~= earlier.push(text@));
            }
        }
        i = i + 1;
    }
    out
}

/// The texts in a row, with `separator` between each two.
pub open spec fn joined(texts: Seq<Seq<char>>, separator: Seq<char>) -> Seq<char>
    decreases texts.len(),
{
    if texts.len() == 0 {
        Seq::empty()
    } else if texts.len() == 1 {
        texts[0]
    } else {
        joined(texts.drop_last(), separator) + separator + texts.last()
    }
}

/// Writes the texts in a row, with `separator` between each two.
pub fn join(texts: &Vec<String>, separator: &str) -> (r: String)
    ensures
        r@ == joined(text_views(texts@), separator@),
{
    let mut out = String::new();
    let mut i: usize = 0;
    while i < texts.len()
        invariant
            i <= texts.len(),
            out@ == joined(text_views(texts@).subrange(0, i as int), separator@),
        decreases texts.len() - i,
    {
        let ghost upto = text_views(texts@).subrange(0, i as int + 1);
        assert(upto.drop_last() =~= text_views(texts@).subrange(0, i as int));
        assert(upto.last() == texts@[i as int]@);
        if i > 0 {
            out.append(separator);
        }
        out.append(texts[i].as_str());
        assert(out@ =~= joined(upto, separator@));
        i = i + 1;
    }
    assert(text_views(texts@).subrange(0, texts.len() as int) =~= text_views(texts@));
    out
}

/// The longest excerpt is cut from so many bytes of content.
pub const EXCERPT_BYTES: usize = 200;

/// The last character boundary of `bytes` at or before `index`.
pub open spec fn boundary_before(bytes: Seq<u8>, index: int) -> int
    decreases index,
{
    if index <= 0 {
        0
    } else if is_char_boundary(bytes, index) {
        index
    } else {
        boundary_before(bytes, index - 1)
    }
}

/// The excerpt of a content: the content itself where it takes no more than
/// `EXCERPT_BYTES` bytes; else what stands before the last character
/// boundary within those bytes, trimmed, and three dots.
pub open spec fn excerpt_of(content: Seq<char>) -> Seq<char> {
    let bytes = encode_utf8(content);
    if bytes.len() > EXCERPT_BYTES {
        trimmed(decode_utf8(bytes.subrange(0, boundary_before(bytes, EXCERPT_BYTES as int))))
            + "..."@
    } else {
        content
    }
}

/// Cuts the excerpt of a content.
pub fn excerpt(content: &str) -> (r: String)
    ensures
        r@ == excerpt_of(content@),
{
    if byte_len(content) > EXCERPT_BYTES {
        broadcast use vstd::utf8::encode_utf8_valid_utf8;
        broadcast use vstd::utf8::encode_utf8_decode_utf8;
        broadcast use vstd::utf8::is_char_boundary_start_end_of_seq;

        let ghost bytes = content.spec_bytes();
        let mut cut: usize = EXCERPT_BYTES;
        while cut > 0 && !content.is_char_boundary(cut)
            invariant
                cut <= EXCERPT_BYTES,
                bytes == content.spec_bytes(),
                boundary_before(bytes, EXCERPT_BYTES as int) == boundary_before(bytes, cut as int),
            decreases cut,
        {
            cut = cut - 1;
        }
        assert(is_char_boundary(bytes, cut as int));
        let (head, _) = content.split_at(cut);
        assert(head@ == decode_utf8(head.spec_bytes()));
        let chars = chars_of(head);
        let mut out = string_from_chars(&trim(&chars));
        out.append("...");
        out
    } else {
        String::from_str(content)
    }
}

/// The minutes it takes to read so many words, at 200 a minute: at least
/// one, and no more than an `i32` holds.
pub open spec fn read_time_of(words: nat) -> i32 {
    if words / 200 < 1 {
        1
    } else if words / 200 > i32::MAX {
        i32::MAX
    } else {
        (words / 200) as i32
    }
}

/// Computes the minutes it takes to read so many words.
pub fn read_time(words: usize) -> (r: i32)
    ensures
        r == read_time_of(words as nat),
{
    let minutes = words / 200;
    if minutes < 1 {
        1
    } else if minutes > i32::MAX as usize {
        i32::MAX
    } else {
        minutes as i32
    }
}

/// The text of the first element, trimmed, unless there is no element or the
/// text is empty.
pub open spec fn first_filled_text(elements: Seq<ElementView>) -> Option<Seq<char>> {
    match first_of(elements) {
        Some(e) if trimmed(e.text).len() > 0 => Some(trimmed(e.text)),
        _ => None,
    }
}

/// Reads the text of the first element, unless it is empty.
pub fn extract_text(elements: &Vec<Element>) -> (r: Option<String>)
    ensures
        opt_text_view(r) == first_filled_text(element_views(elements@)),
{
    if elements.len() > 0 {
        let chars = chars_of(elements[0].text.as_str());
        let text = trim(&chars);
        if text.len() > 0 {
            Some(string_from_chars(&text))
        } else {
            None
        }
    } else {
        None
    }
}

/// The content that the first block with paragraphs holds, from `from` on:
/// its paragraphs, two line feeds between each two.
pub open spec fn block_content(blocks: Seq<Seq<ElementView>>, from: int) -> Option<Seq<char>>
    decreases blocks.len() - from,
{
    if from < 0 || from >= blocks.len() {
        None
    } else {
        let paragraphs = kept_texts(blocks[from], KeepRule::NonEmpty, None, blocks[from].len() as int);
        if paragraphs.len() > 0 {
            Some(joined(paragraphs, "\n\n"@))
        } else {
            block_content(blocks, from + 1)
        }
    }
}

/// The content of an article: that of the first content block with
/// paragraphs; without one, the page's paragraphs of more than 20 bytes;
/// without any, a notice.
pub open spec fn content_of(blocks: Seq<Seq<ElementView>>, paragraphs: Seq<ElementView>) -> Seq<
    char,
> {
    match block_content(blocks, 0) {
        Some(content) => content,
        None => loose_content(paragraphs),
    }
}

/// The content of a page without content block: its paragraphs of more than
/// 20 bytes; without any, a notice.
pub open spec fn loose_content(paragraphs: Seq<ElementView>) -> Seq<char> {
    let kept = kept_texts(paragraphs, KeepRule::LongerThan(20), None, paragraphs.len() as int);
    if kept.len() > 0 {
        joined(kept, "\n\n"@)
    } else {
        "Content not available"@
    }
}

fn extract_loose_content(paragraphs: &Vec<Element>) -> (r: String)
    ensures
        r@ == loose_content(element_views(paragraphs@)),
{
    let kept = keep_texts(paragraphs, KeepRule::LongerThan(20), None);
    if kept.len() > 0 {
        join(&kept, "\n\n")
    } else {
        String::from_str("Content not available")
    }
}

/// Reads the content of an article off its content blocks, or else off the
/// page's paragraphs.
pub fn extract_content(blocks: &Vec<Vec<Element>>, paragraphs: &Vec<Element>) -> (r: String)
    ensures
        r@ == content_of(nested_views(blocks@), element_views(paragraphs@)),
{
    let ghost all = nested_views(blocks@);
    let mut i: usize = 0;
    while i < blocks.len()
        invariant
            i <= blocks.len(),
            all == nested_views(blocks@),
            block_content(all, 0) == block_content(all, i as int),
        decreases blocks.len() - i,
    {
        assert(all[i as int] == element_views(blocks@[i as int]@));
        let kept = keep_texts(&blocks[i], KeepRule::NonEmpty, None);
        if kept.len() > 0 {
            return join(&kept, "\n\n");
        }
        i = i + 1;
    }
    extract_loose_content(paragraphs)
}

/// How many formats a date in text is tried in.
pub const DATE_FORMATS: usize = 6;

/// The formats that a date in text is tried in, in order.
pub open spec fn date_format(index: int) -> Seq<char> {
    if index == 0 {
        "%Y-%m-%d"@
    } else if index == 1 {
        "%Y-%m-%dT%H:%M:%S"@
    } else if index == 2 {
        "%B %d, %Y"@
    } else if index == 3 {
        "%b %d, %Y"@
    } else if index == 4 {
        "%d %B %Y"@
    } else {
        "%Y/%m/%d"@
    }
}

fn format_at(index: usize) -> (r: &'static str)
    ensures
        r@ == date_format(index as int),
{
    if index == 0 {
        "%Y-%m-%d"
    } else if index == 1 {
        "%Y-%m-%dT%H:%M:%S"
    } else if index == 2 {
        "%B %d, %Y"
    } else if index == 3 {
        "%b %d, %Y"
    } else if index == 4 {
        "%d %B %Y"
    } else {
        "%Y/%m/%d"
    }
}

/// The instant that a text names in the first format, from `from` on, in
/// which it reads as date and time or, failing that, as a date.
pub open spec fn text_instant(text: Seq<char>, from: int) -> Option<i64>
    decreases DATE_FORMATS - from,
{
    if from < 0 || from >= DATE_FORMATS {
        None
    } else if datetime_instant(text, date_format(from)) is Some {
        datetime_instant(text, date_format(from))
    } else if date_instant(text, date_format(from)) is Some {
        date_instant(text, date_format(from))
    } else {
        text_instant(text, from + 1)
    }
}

/// The instant in milliseconds that a `data-timestamp` names, if it is a
/// number that the calendar reaches.
pub open spec fn stamp_instant(stamp: Seq<char>) -> Option<i64> {
    match signed_decimal(stamp) {
        Some(n) if i64::MIN <= n <= i64::MAX && calendar_holds(n as i64) => Some(n as i64),
        _ => None,
    }
}

/// The instant that a date element names: by its `datetime` in RFC 3339
/// form, or else by its `data-timestamp` in milliseconds, or else by its
/// text. The element was read with these two attributes.
pub open spec fn element_instant(e: ElementView) -> Option<i64> {
    if e.attr(0) matches Some(datetime) && rfc3339_instant(datetime) is Some {
        rfc3339_instant(e.attr(0)->0)
    } else if e.attr(1) matches Some(stamp) && stamp_instant(stamp) is Some {
        stamp_instant(e.attr(1)->0)
    } else {
        text_instant(trimmed(e.text), 0)
    }
}

/// The instant that the first date element names that names one, from `from`
/// on.
pub open spec fn date_from(elements: Seq<ElementView>, from: int) -> Option<i64>
    decreases elements.len() - from,
{
    if from < 0 || from >= elements.len() {
        None
    } else if element_instant(elements[from]) is Some {
        element_instant(elements[from])
    } else {
        date_from(elements, from + 1)
    }
}

fn instant_of_text(text: &str) -> (r: Option<i64>)
    ensures
        r == text_instant(text@, 0),
{
    let mut i: usize = 0;
    while i < DATE_FORMATS
        invariant
            i <= DATE_FORMATS,
            text_instant(text@, 0) == text_instant(text@, i as int),
        decreases DATE_FORMATS - i,
    {
        let format = format_at(i);
        match parse_datetime(text, format) {
            Some(at) => {
                return Some(at);
            },
            None => {},
        }
        match parse_date(text, format) {
            Some(at) => {
                return Some(at);
            },
            None => {},
        }
        i = i + 1;
    }
    None
}

fn instant_of_element(e: &Element) -> (r: Option<i64>)
    ensures
        r == element_instant(e@),
{
    match e.attr(0) {
        Some(datetime) => match parse_rfc3339(datetime.as_str()) {
            Some(at) => {
                return Some(at);
            },
            None => {},
        },
        None => {},
    }
    match e.attr(1) {
        Some(stamp) => match parse_signed(stamp.as_str()) {
            Some(millis) => match checked_millis(millis) {
                Some(at) => {
                    return Some(at);
                },
                None => {},
            },
            None => {},
        },
        None => {},
    }
    let chars = chars_of(e.text.as_str());
    let text = string_from_chars(&trim(&chars));
    instant_of_text(text.as_str())
}

/// Reads the date of an article off its date elements.
pub fn extract_date(elements: &Vec<Element>) -> (r: Option<i64>)
    ensures
        r == date_from(element_views(elements@), 0),
{
    let mut i: usize = 0;
    while i < elements.len()
        invariant
            i <= elements.len(),
            date_from(element_views(elements@), 0) == date_from(element_views(elements@), i as int),
        decreases elements.len() - i,
    {
        assert(element_views(elements@)[i as int] == elements@[i as int]@);
        match instant_of_element(&elements[i]) {
            Some(at) => {
                return Some(at);
            },
            None => {},
        }
        i = i + 1;
    }
    None
}

/// The number that the numeric characters of a text spell, if they spell one
/// that an `i64` holds.
pub open spec fn count_in(text: Seq<char>) -> Option<i64> {
    match unsigned_decimal(only(text, CharClass::Numeric)) {
        Some(n) if n <= i64::MAX => Some(n as i64),
        _ => None,
    }
}

/// The count that the first element shows that shows one, from `from` on.
pub open spec fn view_count_from(elements: Seq<ElementView>, from: int) -> Option<i64>
    decreases elements.len() - from,
{
    if from < 0 || from >= elements.len() {
        None
    } else if count_in(elements[from].text) is Some {
        count_in(elements[from].text)
    } else {
        view_count_from(elements, from + 1)
    }
}

/// Reads the view count of an article off its counter elements.
pub fn extract_view_count(elements: &Vec<Element>) -> (r: Option<i64>)
    ensures
        r == view_count_from(element_views(elements@), 0),
{
    let mut i: usize = 0;
    while i < elements.len()
        invariant
            i <= elements.len(),
            view_count_from(element_views(elements@), 0) == view_count_from(
                element_views(elements@),
                i as int,
            ),
        decreases elements.len() - i,
    {
        assert(element_views(elements@)[i as int] == elements@[i as int]@);
        let chars = chars_of(elements[i].text.as_str());
        let digits = string_from_chars(&keep(&chars, CharClass::Numeric));
        match parse_decimal(digits.as_str()) {
            Some(n) => {
                if n <= i64::MAX as u64 {
                    return Some(n as i64);
                }
            },
            None => {},
        }
        i = i + 1;
    }
    None
}

/// The address is one of the web: it begins with `http`.
pub open spec fn is_web_address(address: Seq<char>) -> bool {
    starts_with(address, "http"@)
}

/// The image that an element names: for a `meta` element its `content`, if
/// that is a web address; else its `src`, if that is one. The element was
/// read with these two attributes.
pub open spec fn element_image(e: ElementView) -> Option<Seq<char>> {
    if e.name == "meta"@ && (e.attr(0) matches Some(content) && is_web_address(content)) {
        e.attr(0)
    } else if e.attr(1) matches Some(src) && is_web_address(src) {
        e.attr(1)
    } else {
        None
    }
}

/// The image that the first element names that names one, from `from` on.
pub open spec fn thumbnail_from(elements: Seq<ElementView>, from: int) -> Option<Seq<char>>
    decreases elements.len() - from,
{
    if from < 0 || from >= elements.len() {
        None
    } else if element_image(elements[from]) is Some {
        element_image(elements[from])
    } else {
        thumbnail_from(elements, from + 1)
    }
}

fn web_address(address: &String) -> (r: bool)
    ensures
        r == is_web_address(address@),
{
    let chars = chars_of(address.as_str());
    let prefix = chars_of("http");
    has_prefix(&chars, &prefix)
}

fn image_of_element(e: &Element) -> (r: Option<String>)
    ensures
        opt_text_view(r) == element_image(e@),
{
    if same_text(e.name.as_str(), "meta") {
        match e.attr(0) {
            Some(content) => {
                if web_address(content) {
                    return Some(content.clone());
                }
            },
            None => {},
        }
    }
    match e.attr(1) {
        Some(src) => {
            if web_address(src) {
                return Some(src.clone());
            }
        },
        None => {},
    }
    None
}

/// Reads the thumbnail of an article off its image elements.
pub fn extract_thumbnail(elements: &Vec<Element>) -> (r: Option<String>)
    ensures
        opt_text_view(r) == thumbnail_from(element_views(elements@), 0),
{
    let mut i: usize = 0;
    while i < elements.len()
        invariant
            i <= elements.len(),
            thumbnail_from(element_views(elements@), 0) == thumbnail_from(
                element_views(elements@),
                i as int,
            ),
        decreases elements.len() - i,
    {
        assert(element_views(elements@)[i as int] == elements@[i as int]@);
        match image_of_element(&elements[i]) {
            Some(image) => {
                return Some(image);
            },
            None => {},
        }
        i = i + 1;
    }
    None
}

/// The most tags an AIBase article is given.
pub const MAX_TAGS: usize = 10;

/// The tags of an article: the texts of its tag elements that are not empty
/// and take fewer than 50 bytes, up to `limit` of them.
pub open spec fn tags_of(elements: Seq<ElementView>, limit: usize) -> Seq<Seq<char>> {
    kept_texts(elements, KeepRule::ShorterThan(50), Some(limit), elements.len() as int)
}

/// Reads the tags of an article off its tag elements.
pub fn extract_tags(elements: &Vec<Element>, limit: usize) -> (r: Vec<String>)
    ensures
        text_views(r@) == tags_of(element_views(elements@), limit),
{
    keep_texts(elements, KeepRule::ShorterThan(50), Some(limit))
}

/// Where AIBase keeps its articles.
pub const BASE_URL: &'static str = "https://news.aibase.com";

pub const ARTICLE_TITLE: &'static str = "h1";

pub const ARTICLE_CONTENT: &'static str = "article, .article-content, .content, .post-content, main";

pub const ARTICLE_PARAGRAPHS: &'static str = "p";

pub const ARTICLE_DATE: &'static str = "time, [datetime], .date, .published";

pub const ARTICLE_AUTHOR: &'static str = ".author, .byline, [rel='author']";

pub const ARTICLE_TAGS: &'static str = ".tag, .tags a, [rel='tag']";

pub const ARTICLE_VIEW_COUNT: &'static str = ".views, .view-count, .read-count";

pub const ARTICLE_THUMBNAIL: &'static str = "meta[property='og:image'], .featured-image img, article img";

/// Where smol.ai keeps its issues.
pub const SMOLAI_BASE_URL: &'static str = "https://news.smol.ai";

pub const SMOLAI_PAGE_TITLE: &'static str = "title";

pub const SMOLAI_CONTENT: &'static str = "article.content-area";

pub const SMOLAI_TAGS: &'static str = "[data-pagefind-filter='company'], [data-pagefind-filter='topic']";

/// The most tags a smol.ai issue is given.
pub const SMOLAI_MAX_TAGS: usize = 20;

/// The address of the AIBase article `external_id`.
pub fn article_url(external_id: &str) -> (r: String)
    ensures
        r@ == BASE_URL@ + "/news/"@ + external_id@,
{
    concat3(BASE_URL, "/news/", external_id)
}

/// The address of the smol.ai issue `external_id`.
pub fn issue_url(external_id: &str) -> (r: String)
    ensures
        r@ == SMOLAI_BASE_URL@ + "/issues/"@ + external_id@,
{
    concat3(SMOLAI_BASE_URL, "/issues/", external_id)
}

/// What the rules read off an AIBase article page.
#[derive(Clone, Debug)]
pub struct ArticlePage {
    /// The headings of the first rank.
    pub headings: Vec<Element>,
    /// For each content block, its paragraphs.
    pub blocks: Vec<Vec<Element>>,
    /// Every paragraph of the page.
    pub paragraphs: Vec<Element>,
    pub authors: Vec<Element>,
    /// The date elements, read with `datetime` and `data-timestamp`.
    pub dates: Vec<Element>,
    pub tags: Vec<Element>,
    pub views: Vec<Element>,
    /// The image elements, read with `content` and `src`.
    pub images: Vec<Element>,
}

/// An article page as contracts see it.
pub struct ArticlePageView {
    pub headings: Seq<ElementView>,
    pub blocks: Seq<Seq<ElementView>>,
    pub paragraphs: Seq<ElementView>,
    pub authors: Seq<ElementView>,
    pub dates: Seq<ElementView>,
    pub tags: Seq<ElementView>,
    pub views: Seq<ElementView>,
    pub images: Seq<ElementView>,
}

impl ArticlePage {
    pub open spec fn view(&self) -> ArticlePageView {
        ArticlePageView {
            headings: element_views(self.headings@),
            blocks: nested_views(self.blocks@),
            paragraphs: element_views(self.paragraphs@),
            authors: element_views(self.authors@),
            dates: element_views(self.dates@),
            tags: element_views(self.tags@),
            views: element_views(self.views@),
            images: element_views(self.images@),
        }
    }
}

/// The title of an AIBase article: the text of its first heading, or
/// `Article` and the id where it has none.
pub open spec fn heading_title(headings: Seq<ElementView>, external_id: Seq<char>) -> Seq<char> {
    match first_of(headings) {
        Some(heading) => trimmed(heading.text),
        None => "Article "@ + external_id,
    }
}

/// The article that an AIBase page makes.
pub open spec fn article_of(external_id: Seq<char>, url: Seq<char>, page: ArticlePageView) -> NewArticleView {
    let content = content_of(page.blocks, page.paragraphs);
    NewArticleView {
        external_id,
        url,
        title: heading_title(page.headings, external_id),
        content,
        excerpt: Some(excerpt_of(content)),
        author: first_filled_text(page.authors),
        source: Some("AIBase"@),
        published_at: date_from(page.dates, 0),
        view_count: view_count_from(page.views, 0),
        read_time_minutes: Some(read_time_of(word_count(content))),
        thumbnail_url: thumbnail_from(page.images, 0),
        content_hash: hex_text(sha256(encode_utf8(content))),
        tags: tags_of(page.tags, MAX_TAGS),
    }
}

fn words_in(content: &str) -> (r: usize)
    ensures
        r == word_count(content@),
{
    let chars = chars_of(content);
    count_words(&chars)
}

fn trimmed_string(text: &String) -> (r: String)
    ensures
        r@ == trimmed(text@),
{
    let chars = chars_of(text.as_str());
    string_from_chars(&trim(&chars))
}

/// Makes the article out of what was read off an AIBase page.
pub fn assemble_article(external_id: &str, url: &str, page: &ArticlePage) -> (r: NewArticle)
    ensures
        r@ == article_of(external_id@, url@, page@),
{
    let title = if page.headings.len() > 0 {
        trimmed_string(&page.headings[0].text)
    } else {
        concat2("Article ", external_id)
    };
    let content = extract_content(&page.blocks, &page.paragraphs);
    let tags = extract_tags(&page.tags, MAX_TAGS);
    let article = NewArticle {
        external_id: String::from_str(external_id),
        url: String::from_str(url),
        title,
        excerpt: Some(excerpt(content.as_str())),
        author: extract_text(&page.authors),
        source: Some(String::from_str("AIBase")),
        published_at: extract_date(&page.dates),
        view_count: extract_view_count(&page.views),
        read_time_minutes: Some(read_time(words_in(content.as_str()))),
        thumbnail_url: extract_thumbnail(&page.images),
        content_hash: compute_hash(content.as_str()),
        content,
        tags,
    };
    assert(article@.tags =~= tags_of(page@.tags, MAX_TAGS));
    article
}

/// What the rules read off the AIBase article page `html`.
pub open spec fn page_of(html: Seq<char>) -> ArticlePageView {
    ArticlePageView {
        headings: found(selected(html, ARTICLE_TITLE@, Seq::empty())),
        blocks: found_within(
            selected_within(html, ARTICLE_CONTENT@, ARTICLE_PARAGRAPHS@, Seq::empty()),
        ),
        paragraphs: found(selected(html, ARTICLE_PARAGRAPHS@, Seq::empty())),
        authors: found(selected(html, ARTICLE_AUTHOR@, Seq::empty())),
        dates: found(selected(html, ARTICLE_DATE@, seq!["datetime"@, "data-timestamp"@])),
        tags: found(selected(html, ARTICLE_TAGS@, Seq::empty())),
        views: found(selected(html, ARTICLE_VIEW_COUNT@, Seq::empty())),
        images: found(selected(html, ARTICLE_THUMBNAIL@, seq!["content"@, "src"@])),
    }
}

/// Reads an AIBase article off its page.
pub fn parse_article(external_id: &str, url: &str, html: &str) -> (r: NewArticle)
    ensures
        r@ == article_of(external_id@, url@, page_of(html@)),
{
    let none = attr_names(&[]);
    let date_attrs = attr_names(&["datetime", "data-timestamp"]);
    let image_attrs = attr_names(&["content", "src"]);
    assert(text_views(none@) =~= Seq::<Seq<char>>::empty());
    assert(text_views(date_attrs@) =~= seq!["datetime"@, "data-timestamp"@]);
    assert(text_views(image_attrs@) =~= seq!["content"@, "src"@]);
    let page = ArticlePage {
        headings: find_all(html, ARTICLE_TITLE, &none),
        blocks: find_within(html, ARTICLE_CONTENT, ARTICLE_PARAGRAPHS, &none),
        paragraphs: find_all(html, ARTICLE_PARAGRAPHS, &none),
        authors: find_all(html, ARTICLE_AUTHOR, &none),
        dates: find_all(html, ARTICLE_DATE, &date_attrs),
        tags: find_all(html, ARTICLE_TAGS, &none),
        views: find_all(html, ARTICLE_VIEW_COUNT, &none),
        images: find_all(html, ARTICLE_THUMBNAIL, &image_attrs),
    };
    assemble_article(external_id, url, &page)
}

/// The number that a piece of a slug spells, if it is at most `max`.
pub open spec fn slug_number(piece: Seq<char>, max: u64) -> Option<u64> {
    match unsigned_decimal(piece) {
        Some(n) if n <= max => Some(n as u64),
        _ => None,
    }
}

/// The year that the first piece of a slug means: a year below 100 counts
/// from 2000.
pub open spec fn slug_year(year: u64) -> i32 {
    if year < 100 {
        (2000 + year) as i32
    } else {
        year as i32
    }
}

/// The day that a slug of the form `YY-MM-DD-...` names, as the instant at
/// which it begins.
pub open spec fn slug_date(slug: Seq<char>) -> Option<i64> {
    let pieces = split_on(slug, '-');
    if pieces.len() >= 3 {
        match (
            slug_number(pieces[0], i32::MAX as u64),
            slug_number(pieces[1], u32::MAX as u64),
            slug_number(pieces[2], u32::MAX as u64),
        ) {
            (Some(year), Some(month), Some(day)) => day_instant(
                slug_year(year),
                month as u32,
                day as u32,
            ),
            _ => None,
        }
    } else {
        None
    }
}

fn number_in(piece: &Vec<char>, max: u64) -> (r: Option<u64>)
    ensures
        r == slug_number(piece@, max),
{
    let text = string_from_chars(piece);
    match parse_decimal(text.as_str()) {
        Some(n) => if n <= max {
            Some(n)
        } else {
            None
        },
        None => None,
    }
}

/// Reads the day that a slug names.
pub fn parse_date_from_slug(slug: &str) -> (r: Option<i64>)
    ensures
        r == slug_date(slug@),
{
    let chars = chars_of(slug);
    let pieces = split(&chars, '-');
    if pieces.len() < 3 {
        return None;
    }
    let year = match number_in(&pieces[0], i32::MAX as u64) {
        Some(n) => n,
        None => {
            return None;
        },
    };
    let month = match number_in(&pieces[1], u32::MAX as u64) {
        Some(n) => n,
        None => {
            return None;
        },
    };
    let day = match number_in(&pieces[2], u32::MAX as u64) {
        Some(n) => n,
        None => {
            return None;
        },
    };
    let full_year = if year < 100 {
        (2000 + year) as i32
    } else {
        year as i32
    };
    start_of_day(full_year, month as u32, day as u32)
}

/// The title that a slug gives: what follows its first three pieces, with
/// blanks for hyphens; `Issue` and the slug where nothing follows.
pub open spec fn slug_title(slug: Seq<char>) -> Seq<char> {
    let pieces = split_on(slug, '-');
    let words = if pieces.len() > 3 {
        pieces.subrange(3, pieces.len() as int)
    } else {
        Seq::empty()
    };
    if joined(words, " "@).len() > 0 {
        joined(words, " "@)
    } else {
        "Issue "@ + slug
    }
}

/// The title of a smol.ai issue: the text of its first heading; if that is
/// empty or missing, what the page's title says before ` - `; if that is
/// empty or missing, what the slug gives.
pub open spec fn issue_title(
    headings: Seq<ElementView>,
    page_titles: Seq<ElementView>,
    slug: Seq<char>,
) -> Seq<char> {
    if first_filled_text(headings) is Some {
        first_filled_text(headings)->0
    } else if first_of(page_titles) matches Some(t) && trimmed(
        before(trimmed(t.text), " - "@),
    ).len() > 0 {
        trimmed(before(trimmed(first_of(page_titles)->0.text), " - "@))
    } else {
        slug_title(slug)
    }
}

fn title_from_slug(slug: &str) -> (r: String)
    ensures
        r@ == slug_title(slug@),
{
    let chars = chars_of(slug);
    let pieces = split(&chars, '-');
    let mut words: Vec<String> = Vec::new();
    let mut i: usize = 3;
    let ghost all = split_on(slug@, '-');
    assert(text_views(words@) =~= Seq::<Seq<char>>::empty());
    while i < pieces.len()
        invariant
            3 <= i,
            pieces.len() >= 3 ==> i <= pieces.len(),
            pieces@.len() == all.len(),
            forall|k: int| 0 <= k < pieces@.len() ==> (#[trigger] pieces@[k])@ == all[k],
            i <= pieces.len() ==> text_views(words@) == all.subrange(3, i as int),
            i > pieces.len() ==> words@.len() == 0,
        decreases pieces.len() - i,
    {
        let ghost earlier = text_views(words@);
        let word = string_from_chars(&pieces[i]);
        words.push(word);
        assert(text_views(words@) =~= earlier.push(all[i as int]));
        assert(all.subrange(3, i as int + 1) =~= all.subrange(3, i as int).push(all[i as int]));
        i = i + 1;
    }
    proof {
        if pieces.len() > 3 {
            assert(text_views(words@) == all.subrange(3, all.len() as int));
        } else {
            assert(text_views(words@) =~= Seq::<Seq<char>>::empty());
        }
    }
    let title = join(&words, " ");
    if title.as_str().is_empty() {
        concat2("Issue ", slug)
    } else {
        title
    }
}

/// Reads the title of a smol.ai issue.
pub fn extract_title(headings: &Vec<Element>, page_titles: &Vec<Element>, slug: &str) -> (r: String)
    ensures
        r@ == issue_title(element_views(headings@), element_views(page_titles@), slug@),
{
    match extract_text(headings) {
        Some(title) => {
            return title;
        },
        None => {},
    }
    if page_titles.len() > 0 {
        let chars = chars_of(page_titles[0].text.as_str());
        let text = trim(&chars);
        let separator = chars_of(" - ");
        let head = trim(&take_before(&text, &separator));
        if head.len() > 0 {
            return string_from_chars(&head);
        }
    }
    title_from_slug(slug)
}

/// The lines among the first `upto` that are not blank, each trimmed.
pub open spec fn filled_lines(lines: Seq<Seq<char>>, upto: int) -> Seq<Seq<char>>
    decreases upto,
{
    if upto <= 0 {
        Seq::empty()
    } else {
        let earlier = filled_lines(lines, upto - 1);
        if trimmed(lines[upto - 1]).len() > 0 {
            earlier.push(trimmed(lines[upto - 1]))
        } else {
            earlier
        }
    }
}

/// Markup tidied up: its lines that are not blank, each trimmed, one line
/// feed between each two.
pub open spec fn tidied(markup: Seq<char>) -> Seq<char> {
    let lines = split_on(markup, '\n');
    joined(filled_lines(lines, lines.len() as int), "\n"@)
}

fn tidy(markup: &Vec<char>) -> (r: String)
    ensures
        r@ == tidied(markup@),
{
    let lines = split(markup, '\n');
    let ghost all = split_on(markup@, '\n');
    let mut kept: Vec<String> = Vec::new();
    let mut i: usize = 0;
    assert(text_views(kept@) =~= Seq::<Seq<char>>::empty());
    while i < lines.len()
        invariant
            i <= lines.len(),
            lines@.len() == all.len(),
            forall|k: int| 0 <= k < lines@.len() ==> (#[trigger] lines@[k])@ == all[k],
            text_views(kept@) == filled_lines(all, i as int),
        decreases lines.len() - i,
    {
        let ghost earlier = text_views(kept@);
        let line = trim(&lines[i]);
        if line.len() > 0 {
            let text = string_from_chars(&line);
            kept.push(text);
            assert(text_views(kept@) =~= earlier.push(trimmed(all[i as int])));
        }
        i = i + 1;
    }
    join(&kept, "\n")
}

/// The content that the first content area with markup holds, from `from`
/// on: its markup, tidied up.
pub open spec fn area_content(areas: Seq<ElementView>, from: int) -> Option<Seq<char>>
    decreases areas.len() - from,
{
    if from < 0 || from >= areas.len() {
        None
    } else if trimmed(areas[from].inner_html).len() > 0 {
        Some(tidied(areas[from].inner_html))
    } else {
        area_content(areas, from + 1)
    }
}

/// The content of a smol.ai issue: the markup of its first content area that
/// has any; without one, the page's paragraphs of more than 20 bytes; without
/// any, a notice.
pub open spec fn issue_content(areas: Seq<ElementView>, paragraphs: Seq<ElementView>) -> Seq<char> {
    match area_content(areas, 0) {
        Some(content) => content,
        None => loose_content(paragraphs),
    }
}

/// Reads the content of a smol.ai issue.
pub fn extract_issue_content(areas: &Vec<Element>, paragraphs: &Vec<Element>) -> (r: String)
    ensures
        r@ == issue_content(element_views(areas@), element_views(paragraphs@)),
{
    let mut i: usize = 0;
    while i < areas.len()
        invariant
            i <= areas.len(),
            area_content(element_views(areas@), 0) == area_content(
                element_views(areas@),
                i as int,
            ),
        decreases areas.len() - i,
    {
        assert(element_views(areas@)[i as int] == areas@[i as int]@);
        let markup = chars_of(areas[i].inner_html.as_str());
        if trim(&markup).len() > 0 {
            return tidy(&markup);
        }
        i = i + 1;
    }
    extract_loose_content(paragraphs)
}

/// What the rules read off a smol.ai issue page.
#[derive(Clone, Debug)]
pub struct IssuePage {
    /// The headings of the first rank.
    pub headings: Vec<Element>,
    /// The page's `title` elements.
    pub page_titles: Vec<Element>,
    /// The content areas.
    pub areas: Vec<Element>,
    /// Every paragraph of the page.
    pub paragraphs: Vec<Element>,
    pub tags: Vec<Element>,
}

/// An issue page as contracts see it.
pub struct IssuePageView {
    pub headings: Seq<ElementView>,
    pub page_titles: Seq<ElementView>,
    pub areas: Seq<ElementView>,
    pub paragraphs: Seq<ElementView>,
    pub tags: Seq<ElementView>,
}

impl IssuePage {
    pub open spec fn view(&self) -> IssuePageView {
        IssuePageView {
            headings: element_views(self.headings@),
            page_titles: element_views(self.page_titles@),
            areas: element_views(self.areas@),
            paragraphs: element_views(self.paragraphs@),
            tags: element_views(self.tags@),
        }
    }
}

/// The article that a smol.ai issue page makes.
pub open spec fn issue_of(external_id: Seq<char>, url: Seq<char>, page: IssuePageView) -> NewArticleView {
    let content = issue_content(page.areas, page.paragraphs);
    NewArticleView {
        external_id,
        url,
        title: issue_title(page.headings, page.page_titles, external_id),
        content,
        excerpt: Some(excerpt_of(content)),
        author: Some("smol.ai"@),
        source: Some("smol.ai"@),
        published_at: slug_date(external_id),
        view_count: None,
        read_time_minutes: Some(read_time_of(word_count(content))),
        thumbnail_url: None,
        content_hash: hex_text(sha256(encode_utf8(content))),
        tags: tags_of(page.tags, SMOLAI_MAX_TAGS),
    }
}

/// Makes the article out of what was read off a smol.ai issue page.
pub fn assemble_issue(external_id: &str, url: &str, page: &IssuePage) -> (r: NewArticle)
    ensures
        r@ == issue_of(external_id@, url@, page@),
{
    let content = extract_issue_content(&page.areas, &page.paragraphs);
    let tags = extract_tags(&page.tags, SMOLAI_MAX_TAGS);
    let article = NewArticle {
        external_id: String::from_str(external_id),
        url: String::from_str(url),
        title: extract_title(&page.headings, &page.page_titles, external_id),
        excerpt: Some(excerpt(content.as_str())),
        author: Some(String::from_str("smol.ai")),
        source: Some(String::from_str("smol.ai")),
        published_at: parse_date_from_slug(external_id),
        view_count: None,
        read_time_minutes: Some(read_time(words_in(content.as_str()))),
        thumbnail_url: None,
        content_hash: compute_hash(content.as_str()),
        content,
        tags,
    };
    assert(article@.tags =~= tags_of(page@.tags, SMOLAI_MAX_TAGS));
    article
}

/// What the rules read off the smol.ai issue page `html`.
pub open spec fn issue_page_of(html: Seq<char>) -> IssuePageView {
    IssuePageView {
        headings: found(selected(html, ARTICLE_TITLE@, Seq::empty())),
        page_titles: found(selected(html, SMOLAI_PAGE_TITLE@, Seq::empty())),
        areas: found(selected(html, SMOLAI_CONTENT@, Seq::empty())),
        paragraphs: found(selected(html, ARTICLE_PARAGRAPHS@, Seq::empty())),
        tags: found(selected(html, SMOLAI_TAGS@, Seq::empty())),
    }
}

/// Reads a smol.ai issue off its page.
pub fn parse_issue(external_id: &str, url: &str, html: &str) -> (r: NewArticle)
    ensures
        r@ == issue_of(external_id@, url@, issue_page_of(html@)),
{
    let none = attr_names(&[]);
    assert(text_views(none@) =~= Seq::<Seq<char>>::empty());
    let page = IssuePage {
        headings: find_all(html, ARTICLE_TITLE, &none),
        page_titles: find_all(html, SMOLAI_PAGE_TITLE, &none),
        areas: find_all(html, SMOLAI_CONTENT, &none),
        paragraphs: find_all(html, ARTICLE_PARAGRAPHS, &none),
        tags: find_all(html, SMOLAI_TAGS, &none),
    };
    assemble_issue(external_id, url, &page)
}

} // verus!
