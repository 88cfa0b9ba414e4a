//! Properties that hold of every page and every listing.
use vstd::prelude::*;
use crate::adapter::{canonical_url_of, record_of, records_of};
use crate::fields::{currency_of, decimal_of, item_id_of, price_of};
use crate::item::{ItemState, Language, Price, RawListingView};
use crate::text::first_two_words;

verus! {

/// A page yields no records exactly when it holds no listings, and otherwise
/// one record per listing: an empty result is the signal that the catalog has
/// ended.
pub proof fn lemma_no_listings_no_records(base: Seq<char>, lang: Language, raws: Seq<RawListingView>)
    ensures
        records_of(base, lang, raws).len() == raws.len(),
        records_of(base, lang, raws).len() == 0 <==> raws.len() == 0,
{
}

/// A listing without an item code gives a record with neither identifier nor
/// permalink, whose other fields are read as for any listing: changing only
/// the link of a listing changes only those two fields.
pub proof fn lemma_missing_identifier(
    base: Seq<char>,
    lang: Language,
    raw: RawListingView,
    other_href: Option<Seq<char>>,
)
    requires
        item_id_of(raw.href) is None,
    ensures
        ({
            let r = record_of(base, lang, raw);
            let s = record_of(base, lang, RawListingView { href: other_href, ..raw });
            &&& r.identifier is None
            &&& r.canonical_url is None
            &&& r.source_key == s.source_key
            &&& r.image_url == s.image_url
            &&& r.availability_state == s.availability_state
            &&& r.price == s.price
            &&& r.name == s.name
            &&& r.description == s.description
        }),
{
}

/// A listing with an item code has it as identifier, and its permalink.
pub proof fn lemma_identifier_gives_permalink(base: Seq<char>, lang: Language, raw: RawListingView)
    requires
        item_id_of(raw.href) is Some,
    ensures
        record_of(base, lang, raw).identifier == item_id_of(raw.href),
        record_of(base, lang, raw).canonical_url == Some(
            canonical_url_of(base, item_id_of(raw.href)->0),
        ),
{
}

/// A price is there exactly when both the amount and the currency code of the
/// text are understood, and then it holds both; no amount stands alone.
pub proof fn lemma_price_all_or_nothing(text: Seq<char>)
    ensures
        match first_two_words(text) {
            None => price_of(text) is None,
            Some((a, c)) => match (decimal_of(a), currency_of(c)) {
                (Some(amount), Some(currency)) => price_of(text) == Some(
                    Price { amount, currency },
                ),
                _ => price_of(text) is None,
            },
        },
{
}

/// The state of a listing: `LISTED` without any indicator; `SOLD`,
/// `RESERVED` or `AVAILABLE` for an indicator reading exactly `"SOLD"`,
/// `"Reserved"` or `"Add to basket"`; `LISTED` for any other text.
pub proof fn lemma_state_default(base: Seq<char>, lang: Language, raw: RawListingView)
    ensures
        raw.state_text is None ==> record_of(base, lang, raw).availability_state
            == ItemState::LISTED,
        raw.state_text == Some("SOLD"@) ==> record_of(base, lang, raw).availability_state
            == ItemState::SOLD,
        raw.state_text == Some("Reserved"@) ==> record_of(base, lang, raw).availability_state
            == ItemState::RESERVED,
        raw.state_text == Some("Add to basket"@) ==> record_of(
            base,
            lang,
            raw,
        ).availability_state == ItemState::AVAILABLE,
        (raw.state_text is Some && raw.state_text->0 != "SOLD"@ && raw.state_text->0
            != "Reserved"@ && raw.state_text->0 != "Add to basket"@) ==> record_of(
            base,
            lang,
            raw,
        ).availability_state == ItemState::LISTED,
{
    reveal_strlit("SOLD");
    reveal_strlit("Reserved");
    reveal_strlit("Add to basket");
    assert("SOLD"@.len() != "Reserved"@.len());
    assert("SOLD"@.len() != "Add to basket"@.len());
    assert("Reserved"@.len() != "Add to basket"@.len());
}

/// Two adapters of one shop that differ only in language make of a listing
/// records that agree on every field but name and description, and each fills
/// those for its own language alone, with the same text.
pub proof fn lemma_locale_isolation(
    base: Seq<char>,
    lang1: Language,
    lang2: Language,
    raw: RawListingView,
)
    ensures
        ({
            let r1 = record_of(base, lang1, raw);
            let r2 = record_of(base, lang2, raw);
            &&& r1.identifier == r2.identifier
            &&& r1.canonical_url == r2.canonical_url
            &&& r1.image_url == r2.image_url
            &&& r1.availability_state == r2.availability_state
            &&& r1.price == r2.price
            &&& r1.name.dom().subset_of(set![lang1])
            &&& r2.name.dom().subset_of(set![lang2])
            &&& r1.description.dom().subset_of(set![lang1])
            &&& r2.description.dom().subset_of(set![lang2])
            &&& lang1 != lang2 ==> !r1.name.contains_key(lang2) && !r2.name.contains_key(lang1)
                && !r1.description.contains_key(lang2) && !r2.description.contains_key(lang1)
            &&& r1.name.contains_key(lang1) <==> r2.name.contains_key(lang2)
            &&& r1.name.contains_key(lang1) ==> r1.name[lang1] == r2.name[lang2]
            &&& r1.description.contains_key(lang1) <==> r2.description.contains_key(lang2)
            &&& r1.description.contains_key(lang1) ==> r1.description[lang1]
                == r2.description[lang2]
        }),
{
}

} // verus!
