//! From what a page shows to the words it stands for.

use vstd::prelude::*;
use crate::lang::{classify, Lang, LangView};
use crate::page::{card_views, chain_views, item_views, Card, CardView, Item, ItemView, Page, PageView};
use crate::text::copy_texts;
use crate::word::{option_view, word_views, Search, SearchView, Word, WordView};

verus! {

/// The first text under the first marker of a chain that found anything.
pub open spec fn first_found(chain: Seq<Seq<Seq<char>>>) -> Option<Seq<char>>
    decreases chain.len(),
{
    if chain.len() == 0 {
        None
    } else if chain[0].len() > 0 {
        Some(chain[0][0])
    } else {
        first_found(chain.drop_first())
    }
}

/// The entry that an item stands for in a card of language `lang`: none where
/// no headword marker found a text, or where the headword found is empty.
pub open spec fn entry(item: ItemView, lang: LangView) -> Option<WordView> {
    match first_found(item.headwords) {
        Some(word) => if word.len() > 0 {
            Some(
                WordView {
                    word,
                    meaning: item.glosses,
                    pronounce: first_found(item.pronunciations),
                    lang,
                },
            )
        } else {
            None
        },
        None => None,
    }
}

/// The entries of a list of items: one for every item that stands for an
/// entry, in the order of the items.
pub open spec fn entries(items: Seq<ItemView>, lang: LangView) -> Seq<WordView>
    decreases items.len(),
{
    if items.len() == 0 {
        Seq::empty()
    } else {
        let before = entries(items.drop_last(), lang);
        match entry(items.last(), lang) {
            Some(word) => before.push(word),
            None => before,
        }
    }
}

/// Every item of the card that stands for an entry, in the order of the
/// items and in the language that the first heading of the card stands for;
/// none where the card has no heading.
pub open spec fn card_entries(card: CardView) -> Seq<WordView> {
    if card.headings.len() == 0 {
        Seq::empty()
    } else {
        entries(card.items, classify(card.headings[0]))
    }
}

/// The entries of the cards, one card after the other.
pub open spec fn page_entries(cards: Seq<CardView>) -> Seq<WordView>
    decreases cards.len(),
{
    if cards.len() == 0 {
        Seq::empty()
    } else {
        page_entries(cards.drop_last()) + card_entries(cards.last())
    }
}

/// What a lookup returns for a page.
pub open spec fn search_of(page: PageView) -> SearchView {
    SearchView { words: page_entries(page.cards), alternatives: page.alternatives }
}

/// An optional word as a mathematical value.
pub open spec fn option_word_view(word: Option<Word>) -> Option<WordView> {
    match word {
        Some(word) => Some(word@),
        None => None,
    }
}

/// Skipping markers that found nothing does not change what a chain finds.
pub proof fn first_found_skips_empty(chain: Seq<Seq<Seq<char>>>, skipped: int)
    requires
        0 <= skipped <= chain.len(),
        forall|k: int| 0 <= k < skipped ==> chain[k].len() == 0,
    ensures
        first_found(chain) == first_found(chain.skip(skipped)),
    decreases skipped,
{
    if skipped > 0 {
        first_found_skips_empty(chain.drop_first(), skipped - 1);
        assert(chain.drop_first().skip(skipped - 1) =~= chain.skip(skipped));
    } else {
        assert(chain.skip(0) =~= chain);
    }
}

/// A chain finds nothing exactly where none of its markers found a text.
pub proof fn nothing_found_means_all_empty(chain: Seq<Seq<Seq<char>>>)
    ensures
        first_found(chain) is None <==> forall|k: int| 0 <= k < chain.len() ==> chain[k].len() == 0,
    decreases chain.len(),
{
    if chain.len() > 0 {
        let rest = chain.drop_first();
        nothing_found_means_all_empty(rest);
        if chain[0].len() == 0 {
            if first_found(rest) is None {
                assert forall|k: int| 0 <= k < chain.len() implies chain[k].len() == 0 by {
                    if k > 0 {
                        assert(chain[k] == rest[k - 1]);
                    }
                }
            }
        }
    }
}

/// What a chain finds is the first text under the marker of highest priority
/// that found any: every marker before it found nothing.
pub proof fn found_is_first_of_preferred(chain: Seq<Seq<Seq<char>>>, preferred: int)
    requires
        0 <= preferred < chain.len(),
        chain[preferred].len() > 0,
        forall|k: int| 0 <= k < preferred ==> chain[k].len() == 0,
    ensures
        first_found(chain) == Some(chain[preferred][0]),
{
    first_found_skips_empty(chain, preferred);
}

/// An item stands for an entry exactly where its headword chain finds a text
/// that is not empty; whether a pronunciation or a meaning was found decides
/// nothing. The entry carries the language of its card, every gloss of the
/// item in order, and the pronunciation that was found, if any.
pub proof fn entry_needs_only_a_headword(item: ItemView, lang: LangView)
    ensures
        entry(item, lang) is Some <==> (first_found(item.headwords) is Some && first_found(
            item.headwords,
        )->0.len() > 0),
        entry(item, lang) is Some ==> {
            let word = entry(item, lang)->0;
            &&& word.wf()
            &&& word.word == first_found(item.headwords)->0
            &&& word.lang == lang
            &&& word.meaning == item.glosses
            &&& word.pronounce == first_found(item.pronunciations)
        },
{
}

/// The entries of two runs of items, one after the other, are the entries of
/// the first run followed by those of the second: no item is passed over,
/// and the order of the items is kept.
pub proof fn entries_follow_the_items(first: Seq<ItemView>, second: Seq<ItemView>, lang: LangView)
    ensures
        entries(first + second, lang) == entries(first, lang) + entries(second, lang),
    decreases second.len(),
{
    if second.len() == 0 {
        assert(first + second =~= first);
    } else {
        entries_follow_the_items(first, second.drop_last(), lang);
        assert((first + second).drop_last() =~= first + second.drop_last());
    }
}

/// A single item gives its entry, or nothing where it stands for none.
pub proof fn entries_of_one_item(item: ItemView, lang: LangView)
    ensures
        entries(seq![item], lang) == match entry(item, lang) {
            Some(word) => seq![word],
            None => Seq::empty(),
        },
{
    let one = seq![item];
    assert(one.drop_last() =~= Seq::<ItemView>::empty());
    assert(entries(one.drop_last(), lang) =~= Seq::<WordView>::empty());
    assert(one.last() == item);
    match entry(item, lang) {
        Some(word) => {
            assert(entries(one, lang) =~= seq![word]);
        },
        None => {},
    }
}

/// Every item that stands for an entry has that entry among those of its
/// list, whatever stands before or after it.
pub proof fn entries_hold_every_entry(items: Seq<ItemView>, lang: LangView, at: int)
    requires
        0 <= at < items.len(),
        entry(items[at], lang) is Some,
    ensures
        entries(items, lang).contains(entry(items[at], lang)->0),
{
    let before = items.take(at);
    let after = items.skip(at + 1);
    let word = entry(items[at], lang)->0;
    assert(items =~= before + seq![items[at]] + after);
    entries_follow_the_items(before + seq![items[at]], after, lang);
    entries_follow_the_items(before, seq![items[at]], lang);
    entries_of_one_item(items[at], lang);
    let found = entries(items, lang);
    assert(found[entries(before, lang).len() as int] == word);
}

/// Every entry of a list of items names its word, there are no more entries
/// than items, and all of them carry the language given.
pub proof fn entries_are_well_formed(items: Seq<ItemView>, lang: LangView)
    ensures
        entries(items, lang).len() <= items.len(),
        forall|k: int|
            0 <= k < entries(items, lang).len() ==> {
                &&& (#[trigger] entries(items, lang)[k]).wf()
                &&& entries(items, lang)[k].lang == lang
            },
    decreases items.len(),
{
    if items.len() > 0 {
        entries_are_well_formed(items.drop_last(), lang);
    }
}

/// A card without a heading, or without items, gives no entry; the entries
/// of any other card name their words and carry the language of its first
/// heading.
pub proof fn card_entries_follow_the_heading(card: CardView)
    ensures
        card.headings.len() == 0 || card.items.len() == 0 ==> card_entries(card).len() == 0,
        forall|k: int|
            0 <= k < card_entries(card).len() ==> {
                &&& (#[trigger] card_entries(card)[k]).wf()
                &&& card_entries(card)[k].lang == classify(card.headings[0])
            },
{
    if card.headings.len() > 0 {
        entries_are_well_formed(card.items, classify(card.headings[0]));
    }
}

/// The entries of two runs of cards, one after the other, are the entries of
/// the first run followed by those of the second: the order of the page is
/// kept.
pub proof fn page_entries_follow_the_cards(first: Seq<CardView>, second: Seq<CardView>)
    ensures
        page_entries(first + second) == page_entries(first) + page_entries(second),
    decreases second.len(),
{
    if second.len() == 0 {
        assert(first + second =~= first);
    } else {
        page_entries_follow_the_cards(first, second.drop_last());
        assert((first + second).drop_last() =~= first + second.drop_last());
    }
}

/// Every entry of a page names its word.
pub proof fn page_entries_are_well_formed(cards: Seq<CardView>)
    ensures
        forall|k: int| 0 <= k < page_entries(cards).len() ==> (#[trigger] page_entries(cards)[k]).wf(),
    decreases cards.len(),
{
    if cards.len() > 0 {
        page_entries_are_well_formed(cards.drop_last());
        card_entries_follow_the_heading(cards.last());
        let before = page_entries(cards.drop_last());
        let added = card_entries(cards.last());
        assert forall|k: int| 0 <= k < page_entries(cards).len() implies (#[trigger] page_entries(
            cards,
        )[k]).wf() by {
            if k < before.len() {
                assert(page_entries(cards)[k] == before[k]);
            } else {
                assert(page_entries(cards)[k] == added[k - before.len()]);
            }
        }
    }
}

/// What a lookup returns is well formed, whatever the page shows. A page
/// without cards gives no words, and the suggested spellings are those of the
/// page, whatever its cards hold.
pub proof fn search_of_any_page(page: PageView)
    ensures
        search_of(page).wf(),
        page.cards.len() == 0 ==> search_of(page).words.len() == 0,
        search_of(page).alternatives == page.alternatives,
{
    page_entries_are_well_formed(page.cards);
}

/// The first text under the first marker of a chain that found anything.
pub fn first_text(chain: &Vec<Vec<String>>) -> (found: Option<String>)
    ensures
        option_view(found) == first_found(chain_views(chain@)),
{
    let mut at: usize = 0;
    while at < chain.len()
        invariant
            at <= chain.len(),
            forall|k: int| 0 <= k < at ==> chain@[k].len() == 0,
        decreases chain.len() - at,
    {
        if chain[at].len() > 0 {
            let text = chain[at][0].clone();
            proof {
                first_found_skips_empty(chain_views(chain@), at as int);
            }
            return Some(text);
        }
        at += 1;
    }
    proof {
        first_found_skips_empty(chain_views(chain@), chain@.len() as int);
    }
    None
}

/// The entry that an item stands for in a card of language `lang`.
pub fn word_of(item: &Item, lang: &Lang) -> (word: Option<Word>)
    ensures
        option_word_view(word) == entry(item@, lang@),
{
    match first_text(&item.headwords) {
        Some(word) => {
            if word.as_str().is_empty() {
                None
            } else {
                Some(
                    Word {
                        word,
                        meaning: copy_texts(&item.glosses),
                        pronounce: first_text(&item.pronunciations),
                        lang: lang.clone(),
                    },
                )
            }
        },
        None => None,
    }
}

/// The entries of a card: one for every item that stands for an entry.
pub fn words_of_card(card: &Card) -> (words: Vec<Word>)
    ensures
        word_views(words@) == card_entries(card@),
{
    let mut words: Vec<Word> = Vec::new();
    if card.headings.len() == 0 {
        return words;
    }
    let lang = Lang::from_label(card.headings[0].as_str());
    let ghost items = item_views(card.items@);
    let mut at: usize = 0;
    while at < card.items.len()
        invariant
            at <= card.items.len(),
            items == item_views(card.items@),
            word_views(words@) == entries(items.take(at as int), lang@),
        decreases card.items.len() - at,
    {
        assert(items.take(at + 1).drop_last() =~= items.take(at as int));
        match word_of(&card.items[at], &lang) {
            Some(word) => {
                words.push(word);
            },
            None => {},
        }
        at += 1;
    }
    assert(items.take(card.items.len() as int) =~= items);
    words
}

/// The words and the suggested spellings that a page stands for.
pub fn assemble(page: &Page) -> (search: Search)
    ensures
        search@ == search_of(page@),
        search.wf(),
{
    proof {
        search_of_any_page(page@);
    }
    let mut words: Vec<Word> = Vec::new();
    let ghost cards = card_views(page.cards@);
    let mut at: usize = 0;
    while at < page.cards.len()
        invariant
            at <= page.cards.len(),
            cards == card_views(page.cards@),
            word_views(words@) == page_entries(cards.take(at as int)),
        decreases page.cards.len() - at,
    {
        assert(cards.take(at + 1).drop_last() =~= cards.take(at as int));
        let mut found = words_of_card(&page.cards[at]);
        let ghost before = words@;
        let ghost added = found@;
        words.append(&mut found);
        assert(word_views(before + added) =~= word_views(before) + word_views(added));
        at += 1;
    }
    assert(cards.take(page.cards.len() as int) =~= cards);
    Search { words, alternatives: copy_texts(&page.alternatives) }
}

} // verus!
