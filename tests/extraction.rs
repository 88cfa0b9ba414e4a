use scrape_militariamart::adapter::Militariamart;
use scrape_militariamart::item::{Currency, Decimal, ItemRecord, ItemState, Language, Price};
use scrape_militariamart::page::{read_page, ExtractError};

const BASE: &str = "https://example.com";

fn shop(language: Language) -> Militariamart {
    Militariamart { base_url: BASE.to_string(), shop_dimension: None, language }
}

fn listing(code_link: &str, title: &str, price: &str, indicator: &str) -> String {
    format!(
        "<div class=\"shopitem\"><div class=\"inner-wrapper\">\
         <div class=\"block-image\"><a href=\"?code=x\"><img src=\"images/item.jpg\"></a></div>\
         <div class=\"block-text\">\
         <a class=\"shopitemTitle\" title=\"{title}\" href=\"#\">{title}</a>\
         {code_link}\
         <p class=\"itemDescription\">  A fine instrument...  </p>\
         <div class=\"actioncontainer\"><p class=\"price\">{price}</p>{indicator}</div>\
         </div></div></div>"
    )
}

fn page(listings: &[String]) -> String {
    format!("<html><head><title>Shop</title></head><body>{}</body></html>", listings.concat())
}

fn code(id: &str) -> String {
    format!("<p class=\"itemCode\"><a href=\"?code={id}\">{id}</a></p>")
}

fn button(text: &str) -> String {
    format!("<form><button>{text}</button></form>")
}

fn status(text: &str) -> String {
    format!("<form><p>{text}</p></form>")
}

fn one(html: &str, language: Language) -> ItemRecord {
    let records = shop(language).extract_page(html).unwrap();
    assert_eq!(records.len(), 1);
    records.into_iter().next().unwrap()
}

#[test]
fn example_listing_is_extracted() {
    let html = page(&[listing(&code("ABC123"), "Brass Compass", "45 GBP", &button("Add to basket"))]);
    let r = one(&html, Language::EN);
    assert_eq!(r.identifier.as_deref(), Some("ABC123"));
    assert_eq!(r.canonical_url.as_deref(), Some("https://example.com/shop.php?code=ABC123"));
    assert_eq!(
        r.price,
        Some(Price { amount: Decimal { units: 45, scale: 0 }, currency: Currency::GBP })
    );
    assert_eq!(r.availability_state, ItemState::AVAILABLE);
    assert_eq!(r.name.get(Language::EN).map(|s| s.as_str()), Some("Brass Compass"));
    assert_eq!(r.name.entries.len(), 1);
    assert_eq!(r.source_key, BASE);
    assert_eq!(r.image_url.as_deref(), Some("https://example.com/images/item.jpg"));
    assert_eq!(r.description.get(Language::EN).map(|s| s.as_str()), Some("A fine instrument..."));
}

#[test]
fn non_numeric_price_is_absent_and_rest_extracts() {
    let html = page(&[listing(&code("ABC123"), "Brass Compass", "SOLD", &button("Add to basket"))]);
    let r = one(&html, Language::EN);
    assert_eq!(r.price, None);
    assert_eq!(r.identifier.as_deref(), Some("ABC123"));
    assert_eq!(r.canonical_url.as_deref(), Some("https://example.com/shop.php?code=ABC123"));
    assert_eq!(r.availability_state, ItemState::AVAILABLE);
    assert_eq!(r.name.get(Language::EN).map(|s| s.as_str()), Some("Brass Compass"));
}

#[test]
fn page_without_listings_is_empty_not_error() {
    let html = "<html><body><p>No items found</p></body></html>";
    let records = shop(Language::EN).extract_page(html).unwrap();
    assert!(records.is_empty());
    assert_eq!(shop(Language::EN).extract_page("").map(|v| v.len()), Ok(0));
    assert_eq!(read_page("<div class=\"shopitem\"></div>").map(|v| v.len()), Ok(0));
}

#[test]
fn listing_without_identifier_keeps_other_fields() {
    let html = page(&[listing("", "Cap Badge", "12.50 EUR", &status("SOLD"))]);
    let r = one(&html, Language::EN);
    assert_eq!(r.identifier, None);
    assert_eq!(r.canonical_url, None);
    assert_eq!(r.name.get(Language::EN).map(|s| s.as_str()), Some("Cap Badge"));
    assert_eq!(
        r.price,
        Some(Price { amount: Decimal { units: 1250, scale: 2 }, currency: Currency::EUR })
    );
    assert_eq!(r.availability_state, ItemState::SOLD);
    assert!(r.image_url.is_some());
}

#[test]
fn link_without_code_parameter_has_no_identifier() {
    let link = "<p class=\"itemCode\"><a href=\"/other.php\">x</a></p>";
    let r = one(&page(&[listing(link, "Medal", "5 GBP", "")]), Language::EN);
    assert_eq!(r.identifier, None);
    assert_eq!(r.canonical_url, None);
}

#[test]
fn state_without_indicator_is_listed() {
    let r = one(&page(&[listing(&code("A1"), "Medal", "5 GBP", "")]), Language::EN);
    assert_eq!(r.availability_state, ItemState::LISTED);
}

#[test]
fn state_follows_button_text() {
    let cases = [
        ("SOLD", ItemState::SOLD),
        ("Reserved", ItemState::RESERVED),
        ("Add to basket", ItemState::AVAILABLE),
        ("Enquire", ItemState::LISTED),
        ("sold", ItemState::LISTED),
    ];
    for (text, expected) in cases {
        let r = one(&page(&[listing(&code("A1"), "Medal", "5 GBP", &button(text))]), Language::EN);
        assert_eq!(r.availability_state, expected, "button text {text:?}");
    }
}

#[test]
fn state_falls_back_to_status_paragraph() {
    let r = one(&page(&[listing(&code("A1"), "Medal", "5 GBP", &status("Reserved"))]), Language::EN);
    assert_eq!(r.availability_state, ItemState::RESERVED);
}

#[test]
fn locales_are_isolated() {
    let html = page(&[listing(&code("A1"), "Helm", "100 GBP", "")]);
    let en = one(&html, Language::EN);
    let de = one(&html, Language::DE);
    assert_eq!(en.name.get(Language::EN).map(|s| s.as_str()), Some("Helm"));
    assert_eq!(en.name.get(Language::DE), None);
    assert_eq!(de.name.get(Language::DE).map(|s| s.as_str()), Some("Helm"));
    assert_eq!(de.name.get(Language::EN), None);
    assert_eq!(en.description.get(Language::DE), None);
    assert_eq!(de.description.get(Language::EN), None);
    assert_eq!(en.identifier, de.identifier);
    assert_eq!(en.price, de.price);
}

#[test]
fn records_keep_document_order() {
    let html = page(&[
        listing(&code("FIRST"), "One", "1 GBP", ""),
        listing("", "Two", "2 GBP", ""),
        listing(&code("THIRD"), "Three", "3 USD", &button("SOLD")),
    ]);
    let records = shop(Language::EN).extract_page(&html).unwrap();
    assert_eq!(records.len(), 3);
    assert_eq!(records[0].identifier.as_deref(), Some("FIRST"));
    assert_eq!(records[1].identifier, None);
    assert_eq!(records[1].name.get(Language::EN).map(|s| s.as_str()), Some("Two"));
    assert_eq!(records[2].identifier.as_deref(), Some("THIRD"));
    assert_eq!(records[2].availability_state, ItemState::SOLD);
    assert_eq!(
        records[2].price,
        Some(Price { amount: Decimal { units: 3, scale: 0 }, currency: Currency::USD })
    );
}

#[test]
fn listing_with_no_markup_yields_empty_record() {
    let html = "<div class=\"shopitem\"><div class=\"inner-wrapper\"></div></div>";
    let r = one(html, Language::EN);
    assert_eq!(r.identifier, None);
    assert_eq!(r.canonical_url, None);
    assert_eq!(r.image_url, None);
    assert_eq!(r.price, None);
    assert_eq!(r.availability_state, ItemState::LISTED);
    assert!(r.name.entries.is_empty());
    assert!(r.description.entries.is_empty());
    assert_eq!(r.source_key, BASE);
}

#[test]
fn error_kind_is_comparable() {
    let e = ExtractError::InvalidSelector;
    assert_eq!(e, ExtractError::InvalidSelector);
}

#[test]
fn button_wins_over_status_paragraph() {
    let html = "<div class='shopitem'><div class='inner-wrapper'><div class='block-text'>\
                <div class='actioncontainer'><form><button>Add to basket</button><p>SOLD</p></form>\
                </div></div></div></div>";
    assert_eq!(one(html, Language::EN).availability_state, ItemState::AVAILABLE);
}

#[test]
fn status_paragraph_is_the_fallback() {
    let html = "<div class='shopitem'><div class='inner-wrapper'><div class='block-text'>\
                <div class='actioncontainer'><form><p>Reserved</p></form></div></div></div></div>";
    assert_eq!(one(html, Language::EN).availability_state, ItemState::RESERVED);
}

#[test]
fn name_comes_from_title_attribute() {
    let html = "<div class='shopitem'><div class='inner-wrapper'><div class='block-text'>\
                <a class='shopitemTitle' title='Brass Compass'>Brass Comp...</a></div></div></div>";
    let r = one(html, Language::EN);
    assert_eq!(r.name.get(Language::EN).map(|s| s.as_str()), Some("Brass Compass"));
}

#[test]
fn identifier_is_the_code_parameter() {
    let link = "<p class=\"itemCode\"><a href=\"shop.php?code=X1&amp;pg=2\">X1</a></p>";
    let r = one(&page(&[listing(link, "Medal", "+5 GBP", "")]), Language::EN);
    assert_eq!(r.identifier.as_deref(), Some("X1"));
    assert_eq!(r.canonical_url.as_deref(), Some("https://example.com/shop.php?code=X1"));
    assert_eq!(
        r.price,
        Some(Price { amount: Decimal { units: 5, scale: 0 }, currency: Currency::GBP })
    );
}

#[test]
fn malformed_markup_still_reads() {
    for html in ["plain text", "<div><p>unclosed", "</div></span>stray", "<<<>>>"] {
        assert_eq!(shop(Language::EN).extract_page(html).map(|v| v.len()), Ok(0), "{html:?}");
    }
}
