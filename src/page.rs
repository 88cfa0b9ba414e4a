//! Reading a catalog page: where each field of a listing stands, and how the
//! listings of a page become records.
use vstd::prelude::*;
use crate::adapter::{Militariamart, record_of};
use crate::dom::{
    attr_of_match, found_attr, found_text, has_match, match_count, select_all, select_first,
    selector_compiles, text_of_match, Document, Matches, Query, MAX_PAGE_CHARS,
};
use crate::fields::{indicator_of, indicator_text, opt_opt_chars};
use crate::item::{opt_chars, ItemRecord, RawListing, RawListingView};

verus! {

/// Why a page could not be read at all.
#[derive(Clone, Copy, Debug, PartialEq, Eq, Structural)]
pub enum ExtractError {
    /// One of the fixed queries could not be compiled.
    InvalidSelector,
}

pub const LISTING_QUERY: &'static str = "div.shopitem > div.inner-wrapper";
pub const ITEM_CODE_QUERY: &'static str = "div.block-text > p.itemCode > a";
pub const TITLE_QUERY: &'static str = "div.block-text > a.shopitemTitle";
pub const DESCRIPTION_QUERY: &'static str = "div.block-text > p.itemDescription";
pub const PRICE_QUERY: &'static str = "div.block-text > div.actioncontainer > p.price";
pub const BUTTON_QUERY: &'static str = "div.block-text > div.actioncontainer > form > button";
pub const STATUS_QUERY: &'static str = "div.block-text > div.actioncontainer > form > p";
pub const IMAGE_QUERY: &'static str = "div.block-image > a > img";

/// Whether all the fixed queries compile.
pub open spec fn queries_compile() -> bool {
    &&& selector_compiles(LISTING_QUERY@)
    &&& selector_compiles(ITEM_CODE_QUERY@)
    &&& selector_compiles(TITLE_QUERY@)
    &&& selector_compiles(DESCRIPTION_QUERY@)
    &&& selector_compiles(PRICE_QUERY@)
    &&& selector_compiles(BUTTON_QUERY@)
    &&& selector_compiles(STATUS_QUERY@)
    &&& selector_compiles(IMAGE_QUERY@)
}

/// The attribute `attr` of the first element at `path` in listing `i` of
/// `page`, if both exist.
pub open spec fn listing_attr(page: Seq<char>, i: nat, path: Seq<char>, attr: Seq<char>) -> Option<
    Seq<char>,
> {
    if has_match(page, LISTING_QUERY@, i, path) {
        attr_of_match(page, LISTING_QUERY@, i, path, attr)
    } else {
        None
    }
}

/// Whether listing `i` of `page` has an element at `path`, and if so its
/// first text.
pub open spec fn listing_element_text(page: Seq<char>, i: nat, path: Seq<char>) -> Option<
    Option<Seq<char>>,
> {
    if has_match(page, LISTING_QUERY@, i, path) {
        Some(text_of_match(page, LISTING_QUERY@, i, path))
    } else {
        None
    }
}

/// The first text of the first element at `path` in listing `i` of `page`.
pub open spec fn listing_text(page: Seq<char>, i: nat, path: Seq<char>) -> Option<Seq<char>> {
    match listing_element_text(page, i, path) {
        Some(t) => t,
        None => None,
    }
}

/// What listing `i` of `page` holds at the fixed places: the item-code link's
/// `href`, the title link's `title`, the first texts of the description and
/// price paragraphs, the text of the action button or else of the status
/// paragraph, and the image's `src`.
pub open spec fn listing_at(page: Seq<char>, i: nat) -> RawListingView {
    RawListingView {
        href: listing_attr(page, i, ITEM_CODE_QUERY@, "href"@),
        title: listing_attr(page, i, TITLE_QUERY@, "title"@),
        description: listing_text(page, i, DESCRIPTION_QUERY@),
        price_text: listing_text(page, i, PRICE_QUERY@),
        state_text: indicator_of(
            listing_element_text(page, i, BUTTON_QUERY@),
            listing_element_text(page, i, STATUS_QUERY@),
        ),
        image_src: listing_attr(page, i, IMAGE_QUERY@, "src"@),
    }
}

/// Compiles one query, failing with `InvalidSelector`.
fn compile(text: &'static str) -> (r: Result<Query, ExtractError>)
    ensures
        r is Ok <==> selector_compiles(text@),
        r matches Ok(q) ==> q.text() == text@,
        r matches Err(e) ==> e == ExtractError::InvalidSelector,
{
    match Query::compile(text) {
        Some(q) => Ok(q),
        None => Err(ExtractError::InvalidSelector),
    }
}

/// The compiled queries that locate a listing and each of its fields.
struct ListingQueries {
    listing: Query,
    item_code: Query,
    title: Query,
    description: Query,
    price: Query,
    button: Query,
    status: Query,
    image: Query,
}

impl ListingQueries {
    /// Each query is the fixed one of its field.
    spec fn wf(&self) -> bool {
        &&& self.listing.text() == LISTING_QUERY@
        &&& self.item_code.text() == ITEM_CODE_QUERY@
        &&& self.title.text() == TITLE_QUERY@
        &&& self.description.text() == DESCRIPTION_QUERY@
        &&& self.price.text() == PRICE_QUERY@
        &&& self.button.text() == BUTTON_QUERY@
        &&& self.status.text() == STATUS_QUERY@
        &&& self.image.text() == IMAGE_QUERY@
    }

    /// Compiles the fixed queries.
    fn new() -> (r: Result<ListingQueries, ExtractError>)
        ensures
            r is Ok <==> queries_compile(),
            r matches Ok(q) ==> q.wf(),
            r matches Err(e) ==> e == ExtractError::InvalidSelector,
    {
        let listing = compile(LISTING_QUERY)?;
        let item_code = compile(ITEM_CODE_QUERY)?;
        let title = compile(TITLE_QUERY)?;
        let description = compile(DESCRIPTION_QUERY)?;
        let price = compile(PRICE_QUERY)?;
        let button = compile(BUTTON_QUERY)?;
        let status = compile(STATUS_QUERY)?;
        let image = compile(IMAGE_QUERY)?;
        Ok(ListingQueries { listing, item_code, title, description, price, button, status, image })
    }
}

/// An optional borrowed string, owned.
fn owned(s: Option<&str>) -> (r: Option<String>)
    ensures
        match s {
            Some(t) => opt_chars(r) == Some(t@),
            None => r is None,
        },
{
    match s {
        Some(t) => Some(String::from_str(t)),
        None => None,
    }
}

/// Whether match `i` has an element at `inner`, and if so its first text.
fn element_text_at(matches: &Matches, i: usize, inner: &Query) -> (r: Option<Option<String>>)
    requires
        i < matches.count(),
    ensures
        opt_opt_chars(r) == (if has_match(
            matches.source(),
            matches.query(),
            i as nat,
            inner.text(),
        ) {
            Some(text_of_match(matches.source(), matches.query(), i as nat, inner.text()))
        } else {
            None
        }),
{
    match select_first(matches, i, inner) {
        Some(found) => Some(owned(found_text(&found))),
        None => None,
    }
}

/// The first text of the element at `inner` in match `i`.
fn text_at(matches: &Matches, i: usize, inner: &Query) -> (r: Option<String>)
    requires
        i < matches.count(),
    ensures
        opt_chars(r) == (if has_match(
            matches.source(),
            matches.query(),
            i as nat,
            inner.text(),
        ) {
            text_of_match(matches.source(), matches.query(), i as nat, inner.text())
        } else {
            None
        }),
{
    match element_text_at(matches, i, inner) {
        Some(t) => t,
        None => None,
    }
}

/// The attribute `attr` of the element at `inner` in match `i`.
fn attr_at(matches: &Matches, i: usize, inner: &Query, attr: &str) -> (r: Option<String>)
    requires
        i < matches.count(),
    ensures
        opt_chars(r) == (if has_match(
            matches.source(),
            matches.query(),
            i as nat,
            inner.text(),
        ) {
            attr_of_match(
                matches.source(),
                matches.query(),
                i as nat,
                inner.text(),
                attr@,
            )
        } else {
            None
        }),
{
    match select_first(matches, i, inner) {
        Some(found) => owned(found_attr(&found, attr)),
        None => None,
    }
}

/// The raw strings of listing `i`, read at the fixed places (see `listing_at`).
fn read_listing(matches: &Matches, i: usize, queries: &ListingQueries) -> (r: RawListing)
    requires
        i < matches.count(),
        queries.wf(),
        matches.query() == LISTING_QUERY@,
    ensures
        r@ == listing_at(matches.source(), i as nat),
{
    let button = element_text_at(matches, i, &queries.button);
    let status = element_text_at(matches, i, &queries.status);
    RawListing {
        href: attr_at(matches, i, &queries.item_code, "href"),
        title: attr_at(matches, i, &queries.title, "title"),
        description: text_at(matches, i, &queries.description),
        price_text: text_at(matches, i, &queries.price),
        state_text: indicator_text(button, status),
        image_src: attr_at(matches, i, &queries.image, "src"),
    }
}

/// The listings of a page, in the order scraper yields them, each read at the
/// fixed places; none is left out, whatever it lacks. It fails only where a
/// fixed query does not compile, whatever the page holds.
pub fn read_page(html: &str) -> (r: Result<Vec<RawListing>, ExtractError>)
    requires
        html@.len() <= MAX_PAGE_CHARS,
    ensures
        r is Ok <==> queries_compile(),
        r matches Err(e) ==> e == ExtractError::InvalidSelector,
        r matches Ok(v) ==> v@.len() == match_count(html@, LISTING_QUERY@) && forall|i: int|
            0 <= i < v@.len() ==> (#[trigger] v@[i])@ == listing_at(html@, i as nat),
{
    let queries = ListingQueries::new()?;
    let document = Document::parse(html);
    let matches = select_all(&document, &queries.listing);
    let mut out: Vec<RawListing> = Vec::new();
    let mut i: usize = 0;
    while i < matches.len()
        invariant
            queries.wf(),
            matches.source() == html@,
            matches.query() == LISTING_QUERY@,
            matches.count() == match_count(html@, LISTING_QUERY@),
            i <= matches.count(),
            out@.len() == i,
            forall|k: int| 0 <= k < i ==> (#[trigger] out@[k])@ == listing_at(html@, k as nat),
        decreases matches.count() - i,
    {
        out.push(read_listing(&matches, i, &queries));
        i = i + 1;
    }
    Ok(out)
}

impl Militariamart {
    /// The records of one page, one for each listing, in the order scraper
    /// yields them. It fails only where a fixed query does not compile,
    /// whatever the page holds; a page without listings gives no records.
    pub fn extract_page(&self, html: &str) -> (r: Result<Vec<ItemRecord>, ExtractError>)
        requires
            html@.len() <= MAX_PAGE_CHARS,
        ensures
            r is Ok <==> queries_compile(),
            r matches Err(e) ==> e == ExtractError::InvalidSelector,
            r matches Ok(v) ==> v@.len() == match_count(html@, LISTING_QUERY@) && forall|i: int|
                0 <= i < v@.len() ==> (#[trigger] v@[i]).wf() && v@[i]@ == record_of(
                    self.base_url@,
                    self.language,
                    listing_at(html@, i as nat),
                ),
    {
        let listings = read_page(html)?;
        let records = self.extract_records(&listings);
        Ok(records)
    }
}

} // verus!
