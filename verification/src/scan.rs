//! Reading a parsed page: which texts stand under which marker.

use vstd::prelude::*;
use crate::markers::Markers;
use crate::markup::{
    element_matches, element_pieces, fits, page_matches, parse_document, parsed,
    select_in_element, select_in_page, text_pieces,
};
use crate::page::{card_views, chain_views, item_views, Card, CardView, Item, ItemView, Page, PageView};
use crate::text::{concatenate, concatenated, views};

verus! {

/// The text of an element: the text nodes at any depth below it, in the
/// order of the page, one after the other with nothing between them.
pub open spec fn element_text(element: scraper::ElementRef) -> Seq<char> {
    concatenated(element_pieces(element))
}

/// The text of each element of a list.
pub open spec fn texts_of(elements: Seq<scraper::ElementRef>) -> Seq<Seq<char>> {
    elements.map_values(|element: scraper::ElementRef| element_text(element))
}

/// The text of each element below `scope` that matches a selector.
pub open spec fn texts_under(scope: scraper::ElementRef, selector: scraper::Selector) -> Seq<
    Seq<char>,
> {
    texts_of(element_matches(scope, selector))
}

/// What an item element shows.
pub open spec fn item_shown(item: scraper::ElementRef, markers: Markers) -> ItemView {
    ItemView {
        headwords: seq![
            texts_under(item, markers.cleaned_word),
            texts_under(item, markers.searched_word),
            texts_under(item, markers.hanja_word),
        ],
        pronunciations: seq![
            texts_under(item, markers.reading),
            texts_under(item, markers.phonetic),
        ],
        glosses: texts_under(item, markers.gloss),
    }
}

/// What a card element shows.
pub open spec fn card_shown(card: scraper::ElementRef, markers: Markers) -> CardView {
    CardView {
        headings: texts_under(card, markers.heading),
        items: element_matches(card, markers.item).map_values(
            |item: scraper::ElementRef| item_shown(item, markers),
        ),
    }
}

/// What a parsed page shows.
pub open spec fn page_shown(page: scraper::Html, markers: Markers) -> PageView {
    PageView {
        cards: page_matches(page, markers.card).map_values(
            |card: scraper::ElementRef| card_shown(card, markers),
        ),
        alternatives: texts_of(page_matches(page, markers.alternative)),
    }
}

/// The text of an element.
fn text_of(element: scraper::ElementRef) -> (text: String)
    ensures
        text@ == element_text(element),
{
    let pieces = text_pieces(element);
    concatenate(&pieces)
}

/// The text of each element of a list.
fn texts(elements: &Vec<scraper::ElementRef>) -> (found: Vec<String>)
    ensures
        views(found@) == texts_of(elements@),
{
    let mut found: Vec<String> = Vec::new();
    let mut at: usize = 0;
    while at < elements.len()
        invariant
            at <= elements.len(),
            found.len() == at,
            forall|k: int| 0 <= k < at ==> found@[k]@ == element_text(elements@[k]),
        decreases elements.len() - at,
    {
        found.push(text_of(elements[at]));
        at += 1;
    }
    found
}

/// The text of each element below `scope` that matches a selector.
fn texts_in(scope: scraper::ElementRef, selector: &scraper::Selector) -> (found: Vec<String>)
    ensures
        views(found@) == texts_under(scope, *selector),
{
    let elements = select_in_element(scope, selector);
    texts(&elements)
}

/// Reads one item of a card.
fn scan_item(item: scraper::ElementRef, markers: &Markers) -> (shown: Item)
    ensures
        shown@ == item_shown(item, *markers),
{
    let mut headwords: Vec<Vec<String>> = Vec::new();
    headwords.push(texts_in(item, &markers.cleaned_word));
    headwords.push(texts_in(item, &markers.searched_word));
    headwords.push(texts_in(item, &markers.hanja_word));
    let mut pronunciations: Vec<Vec<String>> = Vec::new();
    pronunciations.push(texts_in(item, &markers.reading));
    pronunciations.push(texts_in(item, &markers.phonetic));
    let glosses = texts_in(item, &markers.gloss);
    assert(chain_views(headwords@) =~= item_shown(item, *markers).headwords);
    assert(chain_views(pronunciations@) =~= item_shown(item, *markers).pronunciations);
    Item { headwords, pronunciations, glosses }
}

/// Reads one card of a page.
fn scan_card(card: scraper::ElementRef, markers: &Markers) -> (shown: Card)
    ensures
        shown@ == card_shown(card, *markers),
{
    let headings = texts_in(card, &markers.heading);
    let elements = select_in_element(card, &markers.item);
    let mut items: Vec<Item> = Vec::new();
    let mut at: usize = 0;
    while at < elements.len()
        invariant
            at <= elements.len(),
            items.len() == at,
            forall|k: int| 0 <= k < at ==> items@[k]@ == item_shown(elements@[k], *markers),
        decreases elements.len() - at,
    {
        items.push(scan_item(elements[at], markers));
        at += 1;
    }
    assert(item_views(items@) =~= card_shown(card, *markers).items);
    Card { headings, items }
}

/// Parses a page and reads what it shows under the given markers. The text
/// must be short enough for the parser.
pub fn scan(html: &str, markers: &Markers) -> (shown: Page)
    requires
        fits(html@),
    ensures
        shown@ == page_shown(parsed(html@), *markers),
{
    let page = parse_document(html);
    let elements = select_in_page(&page, &markers.card);
    let mut cards: Vec<Card> = Vec::new();
    let mut at: usize = 0;
    while at < elements.len()
        invariant
            at <= elements.len(),
            cards.len() == at,
            forall|k: int| 0 <= k < at ==> cards@[k]@ == card_shown(elements@[k], *markers),
        decreases elements.len() - at,
    {
        cards.push(scan_card(elements[at], markers));
        at += 1;
    }
    let suggested = select_in_page(&page, &markers.alternative);
    let alternatives = texts(&suggested);
    assert(card_views(cards@) =~= page_shown(page, *markers).cards);
    Page { cards, alternatives }
}

} // verus!
