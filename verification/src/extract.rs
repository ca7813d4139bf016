//! The extractor: turns the raw HTML of the portfolio homepage into an
//! ordered sequence of project records.
//!
//! The card lookup itself is done by the `scraper` crate behind two trusted
//! wrappers; everything that follows — resolving relative links against the
//! origin, joining and trimming heading text, assembling the records in
//! document order — is verified.
use crate::text::concat_all;
use crate::text::concat_strings;
use crate::text::normalize_image;
use crate::text::normalize_image_spec;
use crate::text::normalize_url;
use crate::text::normalize_url_spec;
use crate::text::trim_spec;
use crate::text::trim_str;
use crate::text::views_of;
use scraper::Html;
use scraper::Selector;
use vstd::prelude::*;

verus! {

/// The structural path of one project card in the portfolio page's markup.
pub const CARD_SELECTOR: &'static str = "div#four>div.content>div.card";

/// The selector for a card's link element.
pub const ANCHOR_SELECTOR: &'static str = "a";

/// The selector for a card's image element.
pub const IMAGE_SELECTOR: &'static str = "a>img";

/// The selector for a card's title element.
pub const HEADING_SELECTOR: &'static str = "h3";

/// The raw parts of one card, exactly as they stand in the document: the
/// first anchor's link attribute, the first image's source attribute, and
/// the text nodes of the first heading (absent when the card has none).
pub struct RawCard {
    pub href: Option<String>,
    pub image: Option<String>,
    pub heading: Option<Vec<String>>,
}

/// One extracted project: absolute link, absolute image and trimmed title,
/// each absent when the card lacks the matching element.
pub struct ProjectRecord {
    pub url: Option<String>,
    pub image: Option<String>,
    pub name: Option<String>,
}

/// The serialized HTML of each element that `card_sel` matches in the
/// document `html`, in document order; empty when the selector does not
/// parse.
pub uninterp spec fn card_fragments(html: Seq<char>, card_sel: Seq<char>) -> Seq<Seq<char>>;

/// Relies on scraper: `Html::parse_document`, `Html::select` and
/// `ElementRef::html`.  Yields the serialized HTML of each matched card in
/// document order, and nothing when the selector does not parse.
#[verifier::external_body]
fn select_card_fragments(html: &str, card_sel: &str) -> (r: Vec<String>)
    ensures
        views_of(r@) == card_fragments(html@, card_sel@),
{
    let doc = Html::parse_document(html);
    let mut out = Vec::new();
    if let Ok(sel) = Selector::parse(card_sel) {
        for el in doc.select(&sel) {
            out.push(el.html());
        }
    }
    out
}

/// The parts of one card fragment: the first `anchor_sel` descendant's
/// `href`, the first `image_sel` descendant's `src`, and the text nodes of
/// the first `heading_sel` descendant; all absent when a selector does not
/// parse.
pub uninterp spec fn card_parts(
    fragment: Seq<char>,
    anchor_sel: Seq<char>,
    image_sel: Seq<char>,
    heading_sel: Seq<char>,
) -> RawCard;

/// Relies on scraper: `Html::parse_fragment`, `Html::select`,
/// `ElementRef::attr` and `ElementRef::text`.  Reads one card's fragment
/// back and looks up its link attribute, image source and heading text
/// nodes, each `None` when the card has no such element.
#[verifier::external_body]
fn parse_card_parts(fragment: &str, anchor_sel: &str, image_sel: &str, heading_sel: &str) -> (r:
    RawCard)
    ensures
        r == card_parts(fragment@, anchor_sel@, image_sel@, heading_sel@),
{
    let doc = Html::parse_fragment(fragment);
    let sels = (Selector::parse(anchor_sel), Selector::parse(image_sel), Selector::parse(heading_sel));
    let (Ok(a), Ok(i), Ok(h)) = sels else {
        return RawCard { href: None, image: None, heading: None };
    };
    let href = doc.select(&a).next().and_then(|x| x.attr("href")).map(str::to_owned);
    let image = doc.select(&i).next().and_then(|x| x.attr("src")).map(str::to_owned);
    let heading = doc.select(&h).next().map(|x| x.text().map(str::to_owned).collect());
    RawCard { href, image, heading }
}

/// The view of an optional string.
pub open spec fn opt_view(o: Option<String>) -> Option<Seq<char>> {
    match o {
        Option::Some(s) => Option::Some(s@),
        Option::None => Option::None,
    }
}

/// The record's url field: the card's link resolved against the origin,
/// absent when the card has no link.
pub open spec fn url_of(origin: Seq<char>, c: RawCard) -> Option<Seq<char>> {
    match c.href {
        Option::Some(h) => Option::Some(normalize_url_spec(origin, h@)),
        Option::None => Option::None,
    }
}

/// The record's image field: the origin prepended to the card's image
/// source, absent when the card has no image.
pub open spec fn image_of(origin: Seq<char>, c: RawCard) -> Option<Seq<char>> {
    match c.image {
        Option::Some(s) => Option::Some(normalize_image_spec(origin, s@)),
        Option::None => Option::None,
    }
}

/// The heading's text nodes joined in order, then trimmed.
pub open spec fn heading_name_spec(ts: Seq<String>) -> Seq<char> {
    trim_spec(concat_all(views_of(ts)))
}

/// The record's name field, absent when the card has no heading.
pub open spec fn name_of(c: RawCard) -> Option<Seq<char>> {
    match c.heading {
        Option::Some(ts) => Option::Some(heading_name_spec(ts@)),
        Option::None => Option::None,
    }
}

/// `r` is the record that the card `c` yields under `origin`.
pub open spec fn record_matches(origin: Seq<char>, c: RawCard, r: ProjectRecord) -> bool {
    &&& opt_view(r.url) == url_of(origin, c)
    &&& opt_view(r.image) == image_of(origin, c)
    &&& opt_view(r.name) == name_of(c)
}

/// Joins a heading's text nodes and trims the result.
pub fn heading_name(ts: &Vec<String>) -> (r: String)
    ensures
        r@ == heading_name_spec(ts@),
{
    let joined = concat_strings(ts);
    trim_str(joined.as_str())
}

/// Builds the record of one card: link and image resolved against the
/// origin, heading text joined and trimmed; a missing sub-element leaves
/// the matching field absent, never a default.
pub fn build_record(origin: &str, card: &RawCard) -> (r: ProjectRecord)
    ensures
        record_matches(origin@, *card, r),
{
    let url = match &card.href {
        Option::Some(h) => Option::Some(normalize_url(origin, h.as_str())),
        Option::None => Option::None,
    };
    let image = match &card.image {
        Option::Some(s) => Option::Some(normalize_image(origin, s.as_str())),
        Option::None => Option::None,
    };
    let name = match &card.heading {
        Option::Some(ts) => Option::Some(heading_name(ts)),
        Option::None => Option::None,
    };
    ProjectRecord { url, image, name }
}

/// Builds one record per card, in order: the record at each position comes
/// from the card at the same position, so document order is kept.
pub fn build_records(origin: &str, cards: &Vec<RawCard>) -> (r: Vec<ProjectRecord>)
    ensures
        r@.len() == cards@.len(),
        forall|i: int| 0 <= i < cards@.len() ==> record_matches(
            origin@,
            cards@[i],
            #[trigger] r@[i],
        ),
{
    let mut out: Vec<ProjectRecord> = Vec::new();
    let mut i: usize = 0;
    while i < cards.len()
        invariant
            i <= cards@.len(),
            out@.len() == i,
            forall|j: int| 0 <= j < i ==> record_matches(origin@, cards@[j], #[trigger] out@[j]),
        decreases cards@.len() - i,
    {
        let rec = build_record(origin, &cards[i]);
        out.push(rec);
        i += 1;
    }
    out
}

/// The cards of a document under the fixed selectors: each matched
/// fragment's parts, in document order.
pub open spec fn extracted(html: Seq<char>) -> Seq<RawCard> {
    card_fragments(html, CARD_SELECTOR@).map_values(
        |f: Seq<char>| card_parts(f, ANCHOR_SELECTOR@, IMAGE_SELECTOR@, HEADING_SELECTOR@),
    )
}

/// Collects the raw parts of every card of the document, in document order.
fn scrape_cards(html: &str) -> (r: Vec<RawCard>)
    ensures
        r@ == extracted(html@),
{
    let fragments = select_card_fragments(html, CARD_SELECTOR);
    let mut out: Vec<RawCard> = Vec::new();
    let mut i: usize = 0;
    while i < fragments.len()
        invariant
            i <= fragments@.len(),
            out@.len() == i,
            views_of(fragments@) == card_fragments(html@, CARD_SELECTOR@),
            forall|j: int| 0 <= j < i ==> #[trigger] out@[j] == extracted(html@)[j],
        decreases fragments@.len() - i,
    {
        let card = parse_card_parts(
            fragments[i].as_str(),
            ANCHOR_SELECTOR,
            IMAGE_SELECTOR,
            HEADING_SELECTOR,
        );
        proof {
            assert(views_of(fragments@)[i as int] == fragments@[i as int]@);
        }
        out.push(card);
        i += 1;
    }
    proof {
        assert(out@.len() == extracted(html@).len());
    }
    out
}

/// Extracts the project records of an HTML document: one record per matched
/// card, in document order, each built as `record_matches` states.
pub fn extract(html: &str, origin: &str) -> (r: Vec<ProjectRecord>)
    ensures
        r@.len() == extracted(html@).len(),
        forall|i: int| 0 <= i < r@.len() ==> record_matches(
            origin@,
            extracted(html@)[i],
            #[trigger] r@[i],
        ),
{
    let cards = scrape_cards(html);
    build_records(origin, &cards)
}

/// An anchor link that already carries the scheme prefix is returned
/// unchanged: the origin is never prepended twice.
pub proof fn lemma_absolute_href_unchanged(origin: Seq<char>, href: Seq<char>)
    requires
        crate::text::starts_with_spec(href, "https://"@),
    ensures
        normalize_url_spec(origin, href) == href,
{
}

/// A card with no heading yields a record whose name is absent, while the
/// url and image fields are still those of the card's link and image.
pub proof fn lemma_missing_heading(origin: Seq<char>, c: RawCard, r: ProjectRecord)
    requires
        record_matches(origin, c, r),
        c.heading is None,
    ensures
        r.name is None,
        opt_view(r.url) == url_of(origin, c),
        opt_view(r.image) == image_of(origin, c),
{
}

} // verus!
