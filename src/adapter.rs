//! The source adapter of one shop: the URLs it reads, and the record it builds
//! from each listing.
use vstd::prelude::*;
use crate::fields::{item_id_from_href, item_id_of, parse_price, price_of, state_from_text, state_of};
use crate::item::{opt_chars, ItemRecord, ItemRecordView, Language, LocalizedText, RawListing, RawListingView};
use crate::text::{trim, trimmed};

verus! {

/// The records that the shop at `base`, read in language `lang`, makes of a
/// page's listings `raws`: one for each, in the same order.
pub open spec fn records_of(base: Seq<char>, lang: Language, raws: Seq<RawListingView>) -> Seq<ItemRecordView> {
    raws.map_values(|raw: RawListingView| record_of(base, lang, raw))
}

/// The decimal digit `d` (below ten) as a character.
pub open spec fn digit_char(d: nat) -> char {
    if d == 0 { '0' }
    else if d == 1 { '1' }
    else if d == 2 { '2' }
    else if d == 3 { '3' }
    else if d == 4 { '4' }
    else if d == 5 { '5' }
    else if d == 6 { '6' }
    else if d == 7 { '7' }
    else if d == 8 { '8' }
    else { '9' }
}

/// `n` written in decimal, without leading zeros.
pub open spec fn nat_text(n: nat) -> Seq<char>
    decreases n,
{
    if n < 10 {
        seq![digit_char(n)]
    } else {
        nat_text(n / 10) + seq![digit_char(n % 10)]
    }
}

/// `n` written in decimal, with a `-` when it is negative.
pub open spec fn int_text(n: int) -> Seq<char> {
    if n < 0 {
        seq!['-'] + nat_text((-n) as nat)
    } else {
        nat_text(n as nat)
    }
}

/// The catalog page `page` of the shop at `base`, in category `dimension`.
pub open spec fn page_url_of(base: Seq<char>, dimension: int, page: int) -> Seq<char> {
    base + "/shop.php?d="@ + int_text(dimension) + "&pg="@ + int_text(page)
}

/// The category read when none is configured.
pub open spec fn dimension_or_default(d: Option<i8>) -> int {
    match d {
        Some(x) => x as int,
        None => 1,
    }
}

/// The permalink of the item `id` of the shop at `base`.
pub open spec fn canonical_url_of(base: Seq<char>, id: Seq<char>) -> Seq<char> {
    base + "/shop.php?code="@ + id
}

/// The absolute URL of an image path relative to the shop at `base`.
pub open spec fn image_url_of(base: Seq<char>, path: Seq<char>) -> Seq<char> {
    base + "/"@ + path
}

/// `text` in language `lang` alone, or nothing.
pub open spec fn localized(lang: Language, text: Option<Seq<char>>) -> Map<Language, Seq<char>> {
    match text {
        Some(t) => map![lang => t],
        None => Map::empty(),
    }
}

/// The record that the shop at `base`, read in language `lang`, makes of `raw`.
pub open spec fn record_of(base: Seq<char>, lang: Language, raw: RawListingView) -> ItemRecordView {
    let id = item_id_of(raw.href);
    ItemRecordView {
        identifier: id,
        source_key: base,
        canonical_url: match id {
            Some(i) => Some(canonical_url_of(base, i)),
            None => None,
        },
        image_url: match raw.image_src {
            Some(p) => Some(image_url_of(base, p)),
            None => None,
        },
        availability_state: state_of(raw.state_text),
        price: match raw.price_text {
            Some(t) => price_of(t),
            None => None,
        },
        name: localized(lang, raw.title),
        description: localized(
            lang,
            match raw.description {
                Some(d) => Some(trimmed(d)),
                None => None,
            },
        ),
    }
}

/// The digit `d` as a one-character string.
fn digit_str(d: u32) -> (r: &'static str)
    requires
        d < 10,
    ensures
        r@ == seq![digit_char(d as nat)],
{
    proof {
        reveal_strlit("0");
        reveal_strlit("1");
        reveal_strlit("2");
        reveal_strlit("3");
        reveal_strlit("4");
        reveal_strlit("5");
        reveal_strlit("6");
        reveal_strlit("7");
        reveal_strlit("8");
        reveal_strlit("9");
    }
    match d {
        0 => "0",
        1 => "1",
        2 => "2",
        3 => "3",
        4 => "4",
        5 => "5",
        6 => "6",
        7 => "7",
        8 => "8",
        _ => "9",
    }
}

/// Appends `n` in decimal to `out`.
pub fn append_nat(out: &mut String, n: u32)
    ensures
        final(out)@ == old(out)@ + nat_text(n as nat),
    decreases n,
{
    if n >= 10 {
        append_nat(out, n / 10);
    }
    out.append(digit_str(n % 10));
    proof {
        assert(final(out)@ =~= old(out)@ + nat_text(n as nat));
    }
}

/// Appends `n` in decimal to `out`, with a `-` when it is negative.
pub fn append_int(out: &mut String, n: i32)
    ensures
        final(out)@ == old(out)@ + int_text(n as int),
{
    if n < 0 {
        proof {
            reveal_strlit("-");
        }
        out.append("-");
        let m = (0 - (n as i64)) as u32;
        append_nat(out, m);
        proof {
            assert(final(out)@ =~= old(out)@ + int_text(n as int));
        }
    } else {
        append_nat(out, n as u32);
    }
}

/// A catalog site, read in one language; its configuration never changes
/// during a crawl.
pub struct Militariamart {
    /// The shop's address, without a trailing `/`.
    pub base_url: String,
    /// The catalog category to list; category `1` where none is given.
    pub shop_dimension: Option<i8>,
    /// The language whose name and description slots the records fill.
    pub language: Language,
}

impl Militariamart {
    /// The address of catalog page `page_num` (counted from 1):
    /// `{base_url}/shop.php?d={dimension}&pg={page_num}`.
    pub fn page_url(&self, page_num: i16) -> (r: String)
        ensures
            r@ == page_url_of(
                self.base_url@,
                dimension_or_default(self.shop_dimension),
                page_num as int,
            ),
    {
        let mut out = self.base_url.clone();
        out.append("/shop.php?d=");
        let d: i8 = match self.shop_dimension {
            Some(x) => x,
            None => 1,
        };
        append_int(&mut out, d as i32);
        out.append("&pg=");
        append_int(&mut out, page_num as i32);
        proof {
            assert(out@ =~= page_url_of(
                self.base_url@,
                dimension_or_default(self.shop_dimension),
                page_num as int,
            ));
        }
        out
    }

    /// The permalink of item `id`: `{base_url}/shop.php?code={id}`.
    pub fn canonical_url(&self, id: &str) -> (r: String)
        ensures
            r@ == canonical_url_of(self.base_url@, id@),
    {
        let mut out = self.base_url.clone();
        out.append("/shop.php?code=");
        out.append(id);
        proof {
            assert(out@ =~= canonical_url_of(self.base_url@, id@));
        }
        out
    }

    /// The absolute address of an image path: `{base_url}/{path}`.
    pub fn image_url(&self, path: &str) -> (r: String)
        ensures
            r@ == image_url_of(self.base_url@, path@),
    {
        let mut out = self.base_url.clone();
        out.append("/");
        out.append(path);
        proof {
            assert(out@ =~= image_url_of(self.base_url@, path@));
        }
        out
    }

    /// `text`, where present, in this adapter's language alone.
    fn localize(&self, text: Option<String>) -> (r: LocalizedText)
        ensures
            r.wf(),
            r.view() == localized(self.language, opt_chars(text)),
    {
        match text {
            Some(t) => LocalizedText::single(self.language, t),
            None => LocalizedText::empty(),
        }
    }

    /// The record of one listing: each field read on its own, absent where its
    /// markup is, and never an error.
    pub fn assemble_record(&self, raw: &RawListing) -> (r: ItemRecord)
        ensures
            r.wf(),
            r@ == record_of(self.base_url@, self.language, raw@),
    {
        let href = match &raw.href {
            Some(h) => Some(h.as_str()),
            None => None,
        };
        let identifier = item_id_from_href(href);
        let canonical_url = match &identifier {
            Some(id) => Some(self.canonical_url(id.as_str())),
            None => None,
        };
        let image_url = match &raw.image_src {
            Some(p) => Some(self.image_url(p.as_str())),
            None => None,
        };
        let state_text = match &raw.state_text {
            Some(t) => Some(t.as_str()),
            None => None,
        };
        let availability_state = state_from_text(state_text);
        let price = match &raw.price_text {
            Some(t) => parse_price(t.as_str()),
            None => None,
        };
        let title = match &raw.title {
            Some(t) => Some(t.clone()),
            None => None,
        };
        let description = match &raw.description {
            Some(d) => Some(String::from_str(trim(d.as_str()))),
            None => None,
        };
        let name = self.localize(title);
        let description = self.localize(description);
        let r = ItemRecord {
            identifier,
            source_key: self.base_url.clone(),
            canonical_url,
            image_url,
            availability_state,
            price,
            name,
            description,
        };
        r
    }

    /// The records of a page's listings, one for each, in the same order.
    pub fn extract_records(&self, listings: &Vec<RawListing>) -> (r: Vec<ItemRecord>)
        ensures
            r@.len() == listings@.len(),
            r@.map_values(|x: ItemRecord| x@) == records_of(
                self.base_url@,
                self.language,
                listings@.map_values(|l: RawListing| l@),
            ),
            forall|i: int|
                0 <= i < r@.len() ==> (#[trigger] r@[i]).wf() && r@[i]@ == record_of(
                    self.base_url@,
                    self.language,
                    listings@[i]@,
                ),
    {
        let mut out: Vec<ItemRecord> = Vec::new();
        let mut i: usize = 0;
        while i < listings.len()
            invariant
                i <= listings@.len(),
                out@.len() == i,
                forall|k: int|
                    0 <= k < i ==> (#[trigger] out@[k]).wf() && out@[k]@ == record_of(
                        self.base_url@,
                        self.language,
                        listings@[k]@,
                    ),
            decreases listings@.len() - i,
        {
            let rec = self.assemble_record(&listings[i]);
            out.push(rec);
            i = i + 1;
        }
        proof {
            assert(out@.map_values(|x: ItemRecord| x@) =~= records_of(
                self.base_url@,
                self.language,
                listings@.map_values(|l: RawListing| l@),
            ));
        }
        out
    }
}

} // verus!
