use scrape_militariamart::adapter::Militariamart;
use scrape_militariamart::fields::{
    code_value, indicator_text, item_id_from_href, parse_currency, parse_decimal, parse_price,
    query_part, state_from_text,
};
use scrape_militariamart::item::{
    Currency, Decimal, ItemState, Language, LocalizedText, Price, RawListing,
};
use scrape_militariamart::text::{is_whitespace, str_eq, trim, two_words};

fn dec(units: u64, scale: usize) -> Option<Decimal> {
    Some(Decimal { units, scale })
}

#[test]
fn decimals_parse() {
    assert_eq!(parse_decimal("45"), dec(45, 0));
    assert_eq!(parse_decimal("45.50"), dec(4550, 2));
    assert_eq!(parse_decimal("0.05"), dec(5, 2));
    assert_eq!(parse_decimal(".5"), dec(5, 1));
    assert_eq!(parse_decimal("5."), dec(5, 0));
    assert_eq!(parse_decimal("+45"), dec(45, 0));
    assert_eq!(parse_decimal("+0.5"), dec(5, 1));
    assert_eq!(parse_decimal("18446744073709551615"), dec(u64::MAX, 0));
}

#[test]
fn malformed_decimals_are_rejected() {
    for t in ["", ".", "+", "++5", "+.", "4a", "1.2.3", "-5", "1,250.00", "18446744073709551616", "SOLD"] {
        assert_eq!(parse_decimal(t), None, "{t:?}");
    }
}

#[test]
fn currencies_parse() {
    assert_eq!(parse_currency("GBP"), Some(Currency::GBP));
    assert_eq!(parse_currency("EUR"), Some(Currency::EUR));
    assert_eq!(parse_currency("USD"), Some(Currency::USD));
    assert_eq!(parse_currency("gbp"), None);
    assert_eq!(parse_currency("XYZ"), None);
}

#[test]
fn prices_are_all_or_nothing() {
    assert_eq!(
        parse_price("45 GBP"),
        Some(Price { amount: Decimal { units: 45, scale: 0 }, currency: Currency::GBP })
    );
    assert_eq!(
        parse_price("  12.5\tEUR incl. VAT"),
        Some(Price { amount: Decimal { units: 125, scale: 1 }, currency: Currency::EUR })
    );
    for t in ["45", "GBP 45", "45 XYZ", "SOLD", "", "   ", "abc GBP"] {
        assert_eq!(parse_price(t), None, "{t:?}");
    }
}

#[test]
fn states_map_verbatim() {
    assert_eq!(state_from_text(Some("SOLD")), ItemState::SOLD);
    assert_eq!(state_from_text(Some("Reserved")), ItemState::RESERVED);
    assert_eq!(state_from_text(Some("Add to basket")), ItemState::AVAILABLE);
    assert_eq!(state_from_text(Some(" SOLD")), ItemState::LISTED);
    assert_eq!(state_from_text(Some("")), ItemState::LISTED);
    assert_eq!(state_from_text(None), ItemState::LISTED);
}

#[test]
fn item_ids_come_from_code_links() {
    assert_eq!(item_id_from_href(Some("?code=ABC123")).as_deref(), Some("ABC123"));
    assert_eq!(item_id_from_href(Some("shop.php?code=X1")).as_deref(), Some("X1"));
    assert_eq!(item_id_from_href(Some("?code=X1&pg=2")).as_deref(), Some("X1"));
    assert_eq!(item_id_from_href(Some("/shop.php?d=3&code=Z9#top")).as_deref(), Some("Z9"));
    assert_eq!(item_id_from_href(Some("?code=")).as_deref(), Some(""));
    assert_eq!(item_id_from_href(Some("?code")).as_deref(), Some(""));
    assert_eq!(item_id_from_href(Some("?codes=1&xcode=2")), None);
    assert_eq!(item_id_from_href(Some("shop.php#?code=1")), None);
    assert_eq!(item_id_from_href(Some("/other.php")), None);
    assert_eq!(item_id_from_href(None), None);
}

#[test]
fn queries_and_parameters() {
    assert_eq!(query_part("a/b.php?x=1&y=2#frag"), Some("x=1&y=2"));
    assert_eq!(query_part("a/b.php"), None);
    assert_eq!(query_part("?"), Some(""));
    assert_eq!(code_value("a=1&code=77&code=88"), Some("77"));
    assert_eq!(code_value("a=1&b"), None);
    assert_eq!(code_value(""), None);
}

#[test]
fn button_text_wins_over_status_text() {
    let s = |t: &str| Some(t.to_string());
    assert_eq!(indicator_text(Some(s("Add to basket")), Some(s("SOLD"))), s("Add to basket"));
    assert_eq!(indicator_text(Some(None), Some(s("SOLD"))), None);
    assert_eq!(indicator_text(None, Some(s("Reserved"))), s("Reserved"));
    assert_eq!(indicator_text(None, Some(None)), None);
    assert_eq!(indicator_text(None, None), None);
}

#[test]
fn text_helpers() {
    assert_eq!(trim("  a b \n"), "a b");
    assert_eq!(trim("\u{a0}x\u{3000}"), "x");
    assert_eq!(trim("   "), "");
    assert_eq!(two_words(" 45\u{2003}GBP more"), Some(("45", "GBP")));
    assert_eq!(two_words("45"), None);
    assert!(is_whitespace('\u{85}'));
    assert!(!is_whitespace('x'));
    assert!(str_eq("abc", "abc"));
    assert!(!str_eq("abc", "abd"));
    assert!(!str_eq("abc", "ab"));
}

#[test]
fn page_urls() {
    let m = Militariamart {
        base_url: "https://example.com".to_string(),
        shop_dimension: None,
        language: Language::EN,
    };
    assert_eq!(m.page_url(1), "https://example.com/shop.php?d=1&pg=1");
    assert_eq!(m.page_url(32767), "https://example.com/shop.php?d=1&pg=32767");
    assert_eq!(m.page_url(-12), "https://example.com/shop.php?d=1&pg=-12");
    let m = Militariamart { shop_dimension: Some(10), ..m };
    assert_eq!(m.page_url(3), "https://example.com/shop.php?d=10&pg=3");
    let m = Militariamart { shop_dimension: Some(-128), ..m };
    assert_eq!(m.page_url(0), "https://example.com/shop.php?d=-128&pg=0");
}

#[test]
fn derived_urls() {
    let m = Militariamart {
        base_url: "https://shop.test".to_string(),
        shop_dimension: Some(2),
        language: Language::DE,
    };
    assert_eq!(m.canonical_url("X9"), "https://shop.test/shop.php?code=X9");
    assert_eq!(m.image_url("img/a.png"), "https://shop.test/img/a.png");
}

#[test]
fn records_from_raw_listings() {
    let m = Militariamart {
        base_url: "https://example.com".to_string(),
        shop_dimension: None,
        language: Language::DE,
    };
    let raw = RawListing {
        href: Some("?code=Q1".to_string()),
        title: Some("Helm".to_string()),
        description: Some("\n  Stahlhelm... ".to_string()),
        price_text: Some("99.99 EUR".to_string()),
        state_text: Some("Reserved".to_string()),
        image_src: None,
    };
    let records = m.extract_records(&vec![raw.clone(), RawListing { href: None, ..raw }]);
    assert_eq!(records.len(), 2);
    let r = &records[0];
    assert_eq!(r.identifier.as_deref(), Some("Q1"));
    assert_eq!(r.canonical_url.as_deref(), Some("https://example.com/shop.php?code=Q1"));
    assert_eq!(r.image_url, None);
    assert_eq!(r.availability_state, ItemState::RESERVED);
    assert_eq!(
        r.price,
        Some(Price { amount: Decimal { units: 9999, scale: 2 }, currency: Currency::EUR })
    );
    assert_eq!(r.description.get(Language::DE).map(|s| s.as_str()), Some("Stahlhelm..."));
    assert_eq!(records[1].identifier, None);
    assert_eq!(records[1].canonical_url, None);
    assert_eq!(records[1].price, r.price);
    assert!(m.extract_records(&Vec::new()).is_empty());
}

#[test]
fn localized_text() {
    let e = LocalizedText::empty();
    assert_eq!(e.get(Language::EN), None);
    let s = LocalizedText::single(Language::DE, "Helm".to_string());
    assert_eq!(s.get(Language::DE).map(|x| x.as_str()), Some("Helm"));
    assert_eq!(s.get(Language::EN), None);
}
