//! What a result page shows, as plain text: the cards of the page, the items
//! of each card, and the texts found under each marker.

use vstd::prelude::*;
use crate::text::views;

verus! {

/// The texts found under each marker of a fallback chain, the marker that is
/// preferred first.
pub open spec fn chain_views(chain: Seq<Vec<String>>) -> Seq<Seq<Seq<char>>> {
    chain.map_values(|found: Vec<String>| views(found@))
}

/// One entry of a card as the page shows it.
#[derive(Debug, PartialEq, Eq)]
pub struct Item {
    /// The texts under each headword marker, the preferred marker first.
    pub headwords: Vec<Vec<String>>,
    /// The texts under each pronunciation marker, the preferred marker first.
    pub pronunciations: Vec<Vec<String>>,
    /// The texts under the gloss marker.
    pub glosses: Vec<String>,
}

/// An `Item` as a mathematical value.
pub struct ItemView {
    pub headwords: Seq<Seq<Seq<char>>>,
    pub pronunciations: Seq<Seq<Seq<char>>>,
    pub glosses: Seq<Seq<char>>,
}

impl View for Item {
    type V = ItemView;

    open spec fn view(&self) -> ItemView {
        ItemView {
            headwords: chain_views(self.headwords@),
            pronunciations: chain_views(self.pronunciations@),
            glosses: views(self.glosses@),
        }
    }
}

/// A list of items as a list of mathematical values.
pub open spec fn item_views(items: Seq<Item>) -> Seq<ItemView> {
    items.map_values(|item: Item| item@)
}

/// One card of the page: the entries of one dictionary.
#[derive(Debug, PartialEq, Eq)]
pub struct Card {
    /// The texts under the heading marker.
    pub headings: Vec<String>,
    /// The items of the card.
    pub items: Vec<Item>,
}

/// A `Card` as a mathematical value.
pub struct CardView {
    pub headings: Seq<Seq<char>>,
    pub items: Seq<ItemView>,
}

impl View for Card {
    type V = CardView;

    open spec fn view(&self) -> CardView {
        CardView { headings: views(self.headings@), items: item_views(self.items@) }
    }
}

/// A list of cards as a list of mathematical values.
pub open spec fn card_views(cards: Seq<Card>) -> Seq<CardView> {
    cards.map_values(|card: Card| card@)
}

/// A result page.
#[derive(Debug, PartialEq, Eq)]
pub struct Page {
    /// The cards of the page.
    pub cards: Vec<Card>,
    /// The texts under the marker of a suggested spelling, anywhere on the page.
    pub alternatives: Vec<String>,
}

/// A `Page` as a mathematical value.
pub struct PageView {
    pub cards: Seq<CardView>,
    pub alternatives: Seq<Seq<char>>,
}

impl View for Page {
    type V = PageView;

    open spec fn view(&self) -> PageView {
        PageView { cards: card_views(self.cards@), alternatives: views(self.alternatives@) }
    }
}

} // verus!
