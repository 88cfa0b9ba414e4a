//! The record that extraction yields, and the plain values it is built from.
use vstd::prelude::*;

verus! {

/// A language whose text a record can carry.
#[derive(Clone, Copy, Debug, PartialEq, Eq, Structural, Hash)]
pub enum Language {
    EN,
    DE,
}

/// A currency that the shop quotes prices in.
#[derive(Clone, Copy, Debug, PartialEq, Eq, Structural, Hash)]
pub enum Currency {
    EUR,
    GBP,
    USD,
}

/// Whether, and how, an item can be bought.
#[derive(Clone, Copy, Debug, PartialEq, Eq, Structural, Hash)]
pub enum ItemState {
    LISTED,
    AVAILABLE,
    RESERVED,
    SOLD,
}

/// A decimal number written with its digits as they stand: the value is
/// `units / 10^scale` (so `45.50` is `units == 4550`, `scale == 2`).
#[derive(Clone, Copy, Debug, PartialEq, Eq, Structural, Hash)]
pub struct Decimal {
    pub units: u64,
    pub scale: usize,
}

/// An amount together with its currency; never one without the other.
#[derive(Clone, Copy, Debug, PartialEq, Eq, Structural, Hash)]
pub struct Price {
    pub amount: Decimal,
    pub currency: Currency,
}

/// Text keyed by language, each language at most once.
#[derive(Clone, Debug)]
pub struct LocalizedText {
    pub entries: Vec<(Language, String)>,
}

/// The text that the last entry for `l` in `e` holds.
pub open spec fn text_in(e: Seq<(Language, String)>, l: Language) -> Option<Seq<char>>
    decreases e.len(),
{
    if e.len() == 0 {
        None
    } else if e.last().0 == l {
        Some(e.last().1@)
    } else {
        text_in(e.drop_last(), l)
    }
}

/// The languages of `e`, in order.
pub open spec fn entry_keys(e: Seq<(Language, String)>) -> Seq<Language> {
    e.map_values(|p: (Language, String)| p.0)
}

impl LocalizedText {
    /// Each language occurs at most once.
    pub open spec fn wf(&self) -> bool {
        entry_keys(self.entries@).no_duplicates()
    }

    /// The text mapped to each language that has one.
    pub open spec fn view(&self) -> Map<Language, Seq<char>> {
        Map::new(
            |l: Language| text_in(self.entries@, l) is Some,
            |l: Language| text_in(self.entries@, l)->0,
        )
    }

    /// No text at all.
    pub fn empty() -> (r: LocalizedText)
        ensures
            r.wf(),
            r.view() == Map::<Language, Seq<char>>::empty(),
    {
        let r = LocalizedText { entries: Vec::new() };
        proof {
            assert(entry_keys(r.entries@) =~= Seq::<Language>::empty());
            assert(r.view() =~= Map::<Language, Seq<char>>::empty());
        }
        r
    }

    /// `text` in the one language `lang`.
    pub fn single(lang: Language, text: String) -> (r: LocalizedText)
        ensures
            r.wf(),
            r.view() == map![lang => text@],
    {
        let ghost t = text@;
        let mut v: Vec<(Language, String)> = Vec::new();
        v.push((lang, text));
        let r = LocalizedText { entries: v };
        proof {
            assert(entry_keys(r.entries@) =~= seq![lang]);
            assert(r.entries@.drop_last() =~= Seq::<(Language, String)>::empty());
            assert(r.entries@.last() == (lang, r.entries@[0].1));
            assert(text_in(r.entries@, lang) == Some(t));
            assert forall|l: Language| l != lang implies text_in(r.entries@, l) is None by {
                assert(text_in(r.entries@.drop_last(), l) is None);
            }
            assert(r.view().dom() =~= set![lang]);
            assert(r.view() =~= map![lang => t]);
        }
        r
    }

    /// The text in `lang`, if there is one.
    pub fn get(&self, lang: Language) -> (r: Option<&String>)
        ensures
            match r {
                None => !self.view().contains_key(lang),
                Some(t) => self.view().contains_key(lang) && self.view()[lang] == t@,
            },
    {
        let mut i: usize = self.entries.len();
        proof {
            assert(self.entries@.take(i as int) =~= self.entries@);
        }
        while i > 0
            invariant
                i <= self.entries@.len(),
                text_in(self.entries@.take(i as int), lang) == text_in(self.entries@, lang),
            decreases i,
        {
            let ghost e = self.entries@.take(i as int);
            proof {
                assert(e.drop_last() =~= self.entries@.take(i - 1));
            }
            if self.entries[i - 1].0 == lang {
                return Some(&self.entries[i - 1].1);
            }
            i = i - 1;
        }
        None
    }
}

/// One catalog entry as read from the page, before any interpretation: the
/// raw strings found at each fixed place of a listing, each absent where the
/// markup is missing.
#[derive(Clone, Debug)]
pub struct RawListing {
    /// The `href` of the item-code link.
    pub href: Option<String>,
    /// The `title` of the item's title link.
    pub title: Option<String>,
    /// The first text of the description paragraph.
    pub description: Option<String>,
    /// The first text of the price paragraph.
    pub price_text: Option<String>,
    /// The first text of the first state indicator found: the action button,
    /// else the status paragraph.
    pub state_text: Option<String>,
    /// The `src` of the item's image.
    pub image_src: Option<String>,
}

/// The characters of an optional string.
pub open spec fn opt_chars(o: Option<String>) -> Option<Seq<char>> {
    match o {
        Some(s) => Some(s@),
        None => None,
    }
}

/// The plain values of a `RawListing`.
pub struct RawListingView {
    pub href: Option<Seq<char>>,
    pub title: Option<Seq<char>>,
    pub description: Option<Seq<char>>,
    pub price_text: Option<Seq<char>>,
    pub state_text: Option<Seq<char>>,
    pub image_src: Option<Seq<char>>,
}

impl View for RawListing {
    type V = RawListingView;

    open spec fn view(&self) -> RawListingView {
        RawListingView {
            href: opt_chars(self.href),
            title: opt_chars(self.title),
            description: opt_chars(self.description),
            price_text: opt_chars(self.price_text),
            state_text: opt_chars(self.state_text),
            image_src: opt_chars(self.image_src),
        }
    }
}

/// The normalized record of one catalog entry.
#[derive(Clone, Debug)]
pub struct ItemRecord {
    /// The site's item code, from the item's permalink.
    pub identifier: Option<String>,
    /// The catalog the record comes from (its base URL).
    pub source_key: String,
    /// The item's permalink, present exactly when the identifier is.
    pub canonical_url: Option<String>,
    /// The absolute URL of the item's image.
    pub image_url: Option<String>,
    pub availability_state: ItemState,
    pub price: Option<Price>,
    pub name: LocalizedText,
    pub description: LocalizedText,
}

/// The plain values of an `ItemRecord`.
pub struct ItemRecordView {
    pub identifier: Option<Seq<char>>,
    pub source_key: Seq<char>,
    pub canonical_url: Option<Seq<char>>,
    pub image_url: Option<Seq<char>>,
    pub availability_state: ItemState,
    pub price: Option<Price>,
    pub name: Map<Language, Seq<char>>,
    pub description: Map<Language, Seq<char>>,
}

impl ItemRecord {
    pub open spec fn wf(&self) -> bool {
        self.name.wf() && self.description.wf()
    }
}

impl View for ItemRecord {
    type V = ItemRecordView;

    open spec fn view(&self) -> ItemRecordView {
        ItemRecordView {
            identifier: opt_chars(self.identifier),
            source_key: self.source_key@,
            canonical_url: opt_chars(self.canonical_url),
            image_url: opt_chars(self.image_url),
            availability_state: self.availability_state,
            price: self.price,
            name: self.name.view(),
            description: self.description.view(),
        }
    }
}

} // verus!
