//! The HTML tree, built and queried by `scraper`.
//!
//! What `scraper` finds depends on the page's text and the queries alone, so
//! its answers are named here (`match_count`, `has_match`, `attr_of_match`,
//! `text_of_match`), each over the page's text and the address of an element:
//! the `i`-th match of a query in the page, and within it the first match of a
//! second query. The handles below carry that address beside the `scraper`
//! value; their fields are private to this module, and only the functions
//! here pair a value with its address.
use vstd::prelude::*;
use scraper::error::SelectorErrorKind;
use scraper::{ElementRef, Html, Selector};

verus! {

#[verifier::external_type_specification]
#[verifier::external_body]
pub struct ExHtml(Html);

#[verifier::external_type_specification]
#[verifier::external_body]
pub struct ExSelector(Selector);

#[verifier::external_type_specification]
#[verifier::external_body]
pub struct ExElementRef<'a>(ElementRef<'a>);

#[verifier::external_type_specification]
#[verifier::external_body]
pub struct ExSelectorErrorKind<'a>(SelectorErrorKind<'a>);

/// The longest page, in characters, that is handed to the parser: at four
/// bytes at most per character its text stays within `u32::MAX` bytes, the
/// most that the parser's buffers hold.
pub const MAX_PAGE_CHARS: usize = 0x3fff_ffff;

/// Whether `scraper` accepts `query` as a CSS selector group.
pub uninterp spec fn selector_compiles(query: Seq<char>) -> bool;

/// How many elements of the document parsed from `page` match `query`.
pub uninterp spec fn match_count(page: Seq<char>, query: Seq<char>) -> nat;

/// Whether the `i`-th element of `page` that matches `outer` has a descendant
/// that matches `inner`.
pub uninterp spec fn has_match(page: Seq<char>, outer: Seq<char>, i: nat, inner: Seq<char>) -> bool;

/// The attribute `attr` of the first descendant matching `inner` of the `i`-th
/// element of `page` that matches `outer`.
pub uninterp spec fn attr_of_match(
    page: Seq<char>,
    outer: Seq<char>,
    i: nat,
    inner: Seq<char>,
    attr: Seq<char>,
) -> Option<Seq<char>>;

/// The first text node under the first descendant matching `inner` of the
/// `i`-th element of `page` that matches `outer`.
pub uninterp spec fn text_of_match(
    page: Seq<char>,
    outer: Seq<char>,
    i: nat,
    inner: Seq<char>,
) -> Option<Seq<char>>;

/// Relies on `scraper::Html::parse_document`, which builds a tree from any
/// text (errors in the markup are recovered from, never returned); its buffer
/// takes at most `u32::MAX` bytes.
pub assume_specification[ Html::parse_document ](document: &str) -> Html
    requires
        document@.len() <= MAX_PAGE_CHARS,
;

/// Relies on `scraper::Selector::parse`: whether it succeeds depends on the
/// query alone.
pub assume_specification[ Selector::parse ](selectors: &str) -> (r: Result<
    Selector,
    SelectorErrorKind<'_>,
>)
    ensures
        r is Ok <==> selector_compiles(selectors@),
;

/// A parsed page, with the text it was parsed from.
pub struct Document<'h> {
    tree: Html,
    source: &'h str,
}

impl<'h> Document<'h> {
    pub closed spec fn source(&self) -> Seq<char> {
        self.source@
    }

    /// Parses `source`.
    pub fn parse(source: &'h str) -> (r: Document<'h>)
        requires
            source@.len() <= MAX_PAGE_CHARS,
        ensures
            r.source() == source@,
    {
        Document { tree: Html::parse_document(source), source }
    }
}

/// A compiled query, with its text.
pub struct Query {
    selector: Selector,
    text: &'static str,
}

impl Query {
    pub closed spec fn text(&self) -> Seq<char> {
        self.text@
    }

    /// Compiles `text`, if `scraper` accepts it.
    pub fn compile(text: &'static str) -> (r: Option<Query>)
        ensures
            r is Some <==> selector_compiles(text@),
            r matches Some(q) ==> q.text() == text@,
    {
        match Selector::parse(text) {
            Ok(selector) => Some(Query { selector, text }),
            Err(_) => None,
        }
    }
}

/// The elements of a page that match a query, in the order `scraper` yields
/// them: `elements[i]` is the `i`-th match of `query` in `document`.
pub struct Matches<'a, 'h> {
    document: &'a Document<'h>,
    query: &'a Query,
    elements: Vec<ElementRef<'a>>,
}

impl<'a, 'h> Matches<'a, 'h> {
    /// The text of the page searched.
    pub closed spec fn source(&self) -> Seq<char> {
        self.document.source()
    }

    /// The text of the query.
    pub closed spec fn query(&self) -> Seq<char> {
        self.query.text()
    }

    /// How many elements matched.
    pub closed spec fn count(&self) -> nat {
        self.elements@.len()
    }

    pub fn len(&self) -> (r: usize)
        ensures
            r == self.count(),
    {
        self.elements.len()
    }
}

/// An element found by a second query: `element` is the first descendant
/// matching `inner` of the `index`-th element of `matches`.
pub struct Found<'a, 'h> {
    matches: &'a Matches<'a, 'h>,
    index: usize,
    inner: &'a Query,
    element: ElementRef<'a>,
}

impl<'a, 'h> Found<'a, 'h> {
    /// The text of the page searched.
    pub closed spec fn source(&self) -> Seq<char> {
        self.matches.source()
    }

    /// The text of the query whose matches were searched.
    pub closed spec fn outer(&self) -> Seq<char> {
        self.matches.query()
    }

    /// Which of those matches was searched.
    pub closed spec fn index(&self) -> nat {
        self.index as nat
    }

    /// The text of the query searched for within it.
    pub closed spec fn inner(&self) -> Seq<char> {
        self.inner.text()
    }
}

/// Relies on `scraper::Html::select`: the elements of the document that match
/// the query.
#[verifier::external_body]
pub fn select_all<'a, 'h>(document: &'a Document<'h>, query: &'a Query) -> (r: Matches<'a, 'h>)
    ensures
        r.source() == document.source(),
        r.query() == query.text(),
        r.count() == match_count(document.source(), query.text()),
{
    Matches { document, query, elements: document.tree.select(&query.selector).collect() }
}

/// Relies on `scraper::ElementRef::select`: the first descendant of the
/// `i`-th match that matches `inner`.
#[verifier::external_body]
pub fn select_first<'a, 'h>(matches: &'a Matches<'a, 'h>, i: usize, inner: &'a Query) -> (r:
    Option<Found<'a, 'h>>)
    requires
        i < matches.count(),
    ensures
        r is Some <==> has_match(matches.source(), matches.query(), i as nat, inner.text()),
        r matches Some(f) ==> f.source() == matches.source() && f.outer() == matches.query()
            && f.index() == i && f.inner() == inner.text(),
{
    match matches.elements[i].select(&inner.selector).next() {
        Some(element) => Some(Found { matches, index: i, inner, element }),
        None => None,
    }
}

/// Relies on `scraper::ElementRef::attr`: the value of an attribute of the
/// found element.
#[verifier::external_body]
pub fn found_attr<'a, 'h>(found: &Found<'a, 'h>, attr: &str) -> (r: Option<&'a str>)
    ensures
        match r {
            Some(v) => attr_of_match(found.source(), found.outer(), found.index(), found.inner(), attr@)
                == Some(v@),
            None => attr_of_match(
                found.source(),
                found.outer(),
                found.index(),
                found.inner(),
                attr@,
            ) is None,
        },
{
    found.element.attr(attr)
}

/// Relies on `scraper::ElementRef::text`: the first text node under the found
/// element.
#[verifier::external_body]
pub fn found_text<'a, 'h>(found: &Found<'a, 'h>) -> (r: Option<&'a str>)
    ensures
        match r {
            Some(v) => text_of_match(found.source(), found.outer(), found.index(), found.inner())
                == Some(v@),
            None => text_of_match(found.source(), found.outer(), found.index(), found.inner()) is None,
        },
{
    found.element.text().next()
}

} // verus!
