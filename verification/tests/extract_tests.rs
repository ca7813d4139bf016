use portfolio_gateway::extract::build_record;
use portfolio_gateway::extract::build_records;
use portfolio_gateway::extract::extract;
use portfolio_gateway::extract::heading_name;
use portfolio_gateway::extract::RawCard;

const ORIGIN: &str = "https://nimaniazi.com";

fn page(cards: &str) -> String {
    format!(
        "<html><body><div id=\"four\"><div class=\"content\">{}</div></div></body></html>",
        cards
    )
}

#[test]
fn no_cards_yields_empty() {
    let html = "<html><body><div id=\"four\"><div class=\"content\"><p>nothing here</p></div></div></body></html>";
    let records = extract(html, ORIGIN);
    assert!(records.is_empty());
}

#[test]
fn wrong_nesting_yields_empty() {
    let html = "<html><body><div class=\"card\"><a href=\"/x\">x</a></div></body></html>";
    let records = extract(html, ORIGIN);
    assert!(records.is_empty());
}

#[test]
fn full_card_has_all_fields() {
    let html = page(
        "<div class=\"card\"><a href=\"/projects/alpha\"><img src=\"/images/alpha.png\"></a><h3>Alpha</h3></div>",
    );
    let records = extract(&html, ORIGIN);
    assert_eq!(records.len(), 1);
    assert_eq!(records[0].url.as_deref(), Some("https://nimaniazi.com/projects/alpha"));
    assert_eq!(records[0].image.as_deref(), Some("https://nimaniazi.com/images/alpha.png"));
    assert_eq!(records[0].name.as_deref(), Some("Alpha"));
}

#[test]
fn absolute_href_is_not_prefixed_again() {
    let html = page(
        "<div class=\"card\"><a href=\"https://example.com/demo\">demo</a><h3>Demo</h3></div>",
    );
    let records = extract(&html, ORIGIN);
    assert_eq!(records.len(), 1);
    assert_eq!(records[0].url.as_deref(), Some("https://example.com/demo"));
}

#[test]
fn absolute_image_is_still_prefixed() {
    // The image source is prefixed unconditionally, unlike the link.
    let html = page(
        "<div class=\"card\"><a href=\"/p\"><img src=\"https://cdn.example.com/i.png\"></a></div>",
    );
    let records = extract(&html, ORIGIN);
    assert_eq!(records.len(), 1);
    assert_eq!(
        records[0].image.as_deref(),
        Some("https://nimaniazi.comhttps://cdn.example.com/i.png")
    );
}

#[test]
fn missing_heading_leaves_name_absent() {
    let html = page(
        "<div class=\"card\"><a href=\"/projects/beta\"><img src=\"/images/beta.png\"></a></div>",
    );
    let records = extract(&html, ORIGIN);
    assert_eq!(records.len(), 1);
    assert_eq!(records[0].url.as_deref(), Some("https://nimaniazi.com/projects/beta"));
    assert_eq!(records[0].image.as_deref(), Some("https://nimaniazi.com/images/beta.png"));
    assert_eq!(records[0].name, None);
}

#[test]
fn missing_anchor_leaves_url_and_image_absent() {
    let html = page("<div class=\"card\"><h3>Gamma</h3></div>");
    let records = extract(&html, ORIGIN);
    assert_eq!(records.len(), 1);
    assert_eq!(records[0].url, None);
    assert_eq!(records[0].image, None);
    assert_eq!(records[0].name.as_deref(), Some("Gamma"));
}

#[test]
fn record_order_matches_document_order() {
    let html = page(
        "<div class=\"card\"><a href=\"/a\">a</a><h3>First</h3></div>\
         <div class=\"card\"><a href=\"/b\">b</a><h3>Second</h3></div>\
         <div class=\"card\"><a href=\"/c\">c</a><h3>Third</h3></div>",
    );
    let records = extract(&html, ORIGIN);
    assert_eq!(records.len(), 3);
    assert_eq!(records[0].name.as_deref(), Some("First"));
    assert_eq!(records[1].name.as_deref(), Some("Second"));
    assert_eq!(records[2].name.as_deref(), Some("Third"));
    assert_eq!(records[0].url.as_deref(), Some("https://nimaniazi.com/a"));
    assert_eq!(records[1].url.as_deref(), Some("https://nimaniazi.com/b"));
    assert_eq!(records[2].url.as_deref(), Some("https://nimaniazi.com/c"));
}

#[test]
fn nested_heading_text_is_concatenated_and_trimmed() {
    let html = page("<div class=\"card\"><h3>  Foo <span>Bar</span>  </h3></div>");
    let records = extract(&html, ORIGIN);
    assert_eq!(records.len(), 1);
    assert_eq!(records[0].name.as_deref(), Some("Foo Bar"));
}

#[test]
fn first_anchor_and_heading_win() {
    let html = page(
        "<div class=\"card\"><a href=\"/one\">1</a><a href=\"/two\">2</a><h3>Kept</h3><h3>Ignored</h3></div>",
    );
    let records = extract(&html, ORIGIN);
    assert_eq!(records.len(), 1);
    assert_eq!(records[0].url.as_deref(), Some("https://nimaniazi.com/one"));
    assert_eq!(records[0].name.as_deref(), Some("Kept"));
}

#[test]
fn build_record_resolves_each_field() {
    let card = RawCard {
        href: Some("/p".to_string()),
        image: Some("/i.png".to_string()),
        heading: Some(vec!["  Hello ".to_string(), "World ".to_string()]),
    };
    let rec = build_record(ORIGIN, &card);
    assert_eq!(rec.url.as_deref(), Some("https://nimaniazi.com/p"));
    assert_eq!(rec.image.as_deref(), Some("https://nimaniazi.com/i.png"));
    assert_eq!(rec.name.as_deref(), Some("Hello World"));
}

#[test]
fn build_records_keeps_every_card() {
    let cards = vec![
        RawCard { href: Some("https://other.site/x".to_string()), image: None, heading: None },
        RawCard { href: None, image: None, heading: None },
        RawCard { href: None, image: Some("/i.png".to_string()), heading: Some(vec![]) },
    ];
    let recs = build_records(ORIGIN, &cards);
    assert_eq!(recs.len(), 3);
    assert_eq!(recs[0].url.as_deref(), Some("https://other.site/x"));
    assert_eq!(recs[1].url, None);
    assert_eq!(recs[1].image, None);
    assert_eq!(recs[1].name, None);
    assert_eq!(recs[2].image.as_deref(), Some("https://nimaniazi.com/i.png"));
    assert_eq!(recs[2].name.as_deref(), Some(""));
}

#[test]
fn heading_name_joins_then_trims() {
    let parts = vec!["  Foo ".to_string(), "Bar".to_string(), "  ".to_string()];
    assert_eq!(heading_name(&parts), "Foo Bar");
}
