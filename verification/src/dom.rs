//! What the extraction rules read of a page: the elements that a selector
//! matches, each as plain text.

use scraper::{ElementRef, Html, Selector};
use vstd::prelude::*;

verus! {

/// One element of a page, as far as the rules read it.
#[derive(Clone, Debug)]
pub struct Element {
    /// The tag name.
    pub name: String,
    /// The text of the element and of all below it, in document order.
    pub text: String,
    /// The markup below the element.
    pub inner_html: String,
    /// The values of the attributes that were asked for, in the order of
    /// asking; `None` where the element has no such attribute.
    pub attrs: Vec<Option<String>>,
}

/// An element as contracts see it.
pub struct ElementView {
    pub name: Seq<char>,
    pub text: Seq<char>,
    pub inner_html: Seq<char>,
    pub attrs: Seq<Option<Seq<char>>>,
}

/// An attribute value as contracts see it.
pub open spec fn attr_view(value: Option<String>) -> Option<Seq<char>> {
    match value {
        Some(s) => Some(s@),
        None => None,
    }
}

impl Element {
    pub open spec fn view(&self) -> ElementView {
        ElementView {
            name: self.name@,
            text: self.text@,
            inner_html: self.inner_html@,
            attrs: Seq::new(self.attrs@.len(), |i: int| attr_view(self.attrs@[i])),
        }
    }
}

impl ElementView {
    /// The value of the attribute that was asked for at `index`.
    pub open spec fn attr(self, index: int) -> Option<Seq<char>> {
        if 0 <= index < self.attrs.len() {
            self.attrs[index]
        } else {
            None
        }
    }
}

impl Element {
    /// The value of the attribute that was asked for at `index`.
    pub fn attr(&self, index: usize) -> (r: Option<&String>)
        ensures
            match r {
                Some(value) => self@.attr(index as int) == Some(value@),
                None => self@.attr(index as int) is None,
            },
    {
        if index < self.attrs.len() {
            match &self.attrs[index] {
                Some(value) => Some(value),
                None => None,
            }
        } else {
            None
        }
    }
}

/// The first of the elements, if there is one.
pub open spec fn first_of(elements: Seq<ElementView>) -> Option<ElementView> {
    if elements.len() > 0 {
        Some(elements[0])
    } else {
        None
    }
}

/// The elements as contracts see them.
pub open spec fn element_views(elements: Seq<Element>) -> Seq<ElementView> {
    Seq::new(elements.len(), |i: int| elements[i]@)
}

/// The strings as contracts see them.
pub open spec fn text_views(texts: Seq<String>) -> Seq<Seq<char>> {
    Seq::new(texts.len(), |i: int| texts[i]@)
}

/// The elements of the document `html` that `selector` matches, in the order
/// in which the parser made them (the order of the markup, but for elements
/// that the parser moves out of mis-nested markup), each with the attributes
/// named in `attrs`; `None` where `selector` is no CSS selector group.
pub uninterp spec fn selected(html: Seq<char>, selector: Seq<char>, attrs: Seq<Seq<char>>) -> Option<
    Seq<ElementView>,
>;

/// For each element of the document `html` that `outer` matches, in the
/// order of `selected`, the elements below it that `inner` matches, in the
/// order of the tree below it, each with the attributes named in `attrs`;
/// `None` where `outer` or `inner` is no CSS selector group.
pub uninterp spec fn selected_within(
    html: Seq<char>,
    outer: Seq<char>,
    inner: Seq<char>,
    attrs: Seq<Seq<char>>,
) -> Option<Seq<Seq<ElementView>>>;

/// Parses `html` as a document and returns the elements that `selector`
/// matches.
///
/// Trusted: calls `scraper::Html::select` on the document that
/// `Html::parse_document` makes of `html`, with the selector that
/// `Selector::parse` makes of `selector`, and reads each match with
/// `Element::name`, `ElementRef::text`, `ElementRef::inner_html` and
/// `Element::attr`. Parsing and matching depend on the arguments alone, and
/// the crate is built to keep attributes in source order, so that the markup
/// it writes does too. The contract names the result and says nothing else of
/// it.
#[verifier::external_body]
pub(crate) fn select(html: &str, selector: &str, attrs: &Vec<String>) -> (r: Option<Vec<Element>>)
    ensures
        match r {
            Some(found) => selected(html@, selector@, text_views(attrs@)) == Some(
                element_views(found@),
            ),
            None => selected(html@, selector@, text_views(attrs@)) is None,
        },
{
    let selector = match Selector::parse(selector) {
        Ok(parsed) => parsed,
        Err(_) => return None,
    };
    let document = Html::parse_document(html);
    let mut found = Vec::new();
    for e in document.select(&selector) {
        found.push(Element {
            name: e.value().name().to_string(),
            text: e.text().collect(),
            inner_html: e.inner_html(),
            attrs: attrs.iter().map(|a| e.value().attr(a).map(|v| v.to_string())).collect(),
        });
    }
    Some(found)
}

/// Parses `html` as a document and returns, for each element that `outer`
/// matches, the elements below it that `inner` matches.
///
/// Trusted: calls `scraper::ElementRef::select` on each element that `outer`
/// matches in the document, with the selector that `Selector::parse` makes of
/// `inner`, and reads each match as `select` does. The contract names the
/// result and says one thing of it: where there is a result, `outer` is a
/// selector for `select` too, and the result has one list for each element
/// that `select` finds with it, because the elements are walked by
/// `Html::select` there as here, whatever attributes are read.
#[verifier::external_body]
pub(crate) fn select_within(html: &str, outer: &str, inner: &str, attrs: &Vec<String>) -> (r: Option<
    Vec<Vec<Element>>,
>)
    ensures
        match r {
            Some(found) => selected_within(html@, outer@, inner@, text_views(attrs@)) == Some(
                Seq::new(found@.len(), |i: int| element_views(found@[i]@)),
            ),
            None => selected_within(html@, outer@, inner@, text_views(attrs@)) is None,
        },
        r matches Some(found) ==> forall|names: Seq<Seq<char>>|
            (#[trigger] selected(html@, outer@, names)) matches Some(outers) && outers.len()
                == found@.len(),
{
    let (outer, inner) = match (Selector::parse(outer), Selector::parse(inner)) {
        (Ok(o), Ok(i)) => (o, i),
        _ => return None,
    };
    let document = Html::parse_document(html);
    let read = |e: ElementRef| Element {
        name: e.value().name().to_string(),
        text: e.text().collect(),
        inner_html: e.inner_html(),
        attrs: attrs.iter().map(|a| e.value().attr(a).map(|v| v.to_string())).collect(),
    };
    Some(document.select(&outer).map(|o| o.select(&inner).map(|e| read(e)).collect()).collect())
}

/// The lists of elements as contracts see them.
pub open spec fn nested_views(nested: Seq<Vec<Element>>) -> Seq<Seq<ElementView>> {
    Seq::new(nested.len(), |i: int| element_views(nested[i]@))
}

/// The elements that a selector finds; none where it is refused.
pub open spec fn found(elements: Option<Seq<ElementView>>) -> Seq<ElementView> {
    match elements {
        Some(e) => e,
        None => Seq::empty(),
    }
}

/// What a selector finds below the elements of another; nothing where either
/// is refused.
pub open spec fn found_within(nested: Option<Seq<Seq<ElementView>>>) -> Seq<Seq<ElementView>> {
    match nested {
        Some(n) => n,
        None => Seq::empty(),
    }
}

/// Whatever attributes are read, `outer` matches `count` elements of the
/// document `html`.
pub open spec fn pairs_up(html: Seq<char>, outer: Seq<char>, count: nat) -> bool {
    forall|names: Seq<Seq<char>>|
        (#[trigger] selected(html, outer, names)) matches Some(outers) && outers.len() == count
}

/// The given names, as the attributes to read.
pub fn attr_names(names: &[&str]) -> (r: Vec<String>)
    ensures
        text_views(r@) == Seq::new(names@.len(), |i: int| names@[i]@),
{
    let mut out: Vec<String> = Vec::new();
    let mut i: usize = 0;
    while i < names.len()
        invariant
            i <= names.len(),
            out@.len() == i,
            forall|k: int| 0 <= k < i ==> (#[trigger] out@[k])@ == names@[k]@,
        decreases names.len() - i,
    {
        out.push(String::from_str(names[i]));
        i = i + 1;
    }
    assert(text_views(out@) =~= Seq::new(names@.len(), |i: int| names@[i]@));
    out
}

/// The elements of a page that a selector matches, in the order in which
/// the parser made them, each with the attributes named; none where the
/// selector is refused.
pub fn find_all(html: &str, selector: &str, attrs: &Vec<String>) -> (r: Vec<Element>)
    ensures
        element_views(r@) == found(selected(html@, selector@, text_views(attrs@))),
{
    match select(html, selector, attrs) {
        Some(elements) => elements,
        None => {
            let none: Vec<Element> = Vec::new();
            assert(element_views(none@) =~= Seq::empty());
            none
        },
    }
}

/// For each element of a page that `outer` matches, the elements below it
/// that `inner` matches; nothing where a selector is refused. Where neither
/// is, there is one list for each element that `outer` matches.
pub fn find_within(html: &str, outer: &str, inner: &str, attrs: &Vec<String>) -> (r: Vec<
    Vec<Element>,
>)
    ensures
        nested_views(r@) == found_within(
            selected_within(html@, outer@, inner@, text_views(attrs@)),
        ),
        selected_within(html@, outer@, inner@, text_views(attrs@)) is Some ==> pairs_up(
            html@,
            outer@,
            r@.len(),
        ),
{
    match select_within(html, outer, inner, attrs) {
        Some(nested) => {
            assert(nested_views(nested@) =~= Seq::new(
                nested@.len(),
                |i: int| element_views(nested@[i]@),
            ));
            nested
        },
        None => {
            let none: Vec<Vec<Element>> = Vec::new();
            assert(nested_views(none@) =~= Seq::empty());
            none
        },
    }
}

} // verus!
