//! The markers by which the entries are found on a result page.

use vstd::prelude::*;
use crate::markup::{compile, compiled};
use crate::text::bytes_are_bounded_by_chars;

verus! {

/// The compiled selector of every marker that a lookup reads.
#[derive(Debug)]
pub struct Markers {
    /// A card: the entries of one dictionary.
    pub card: scraper::Selector,
    /// An item of a card: one entry.
    pub item: scraper::Selector,
    /// The heading of a card, which names its dictionary.
    pub heading: scraper::Selector,
    /// The headword as the site cleaned it up: preferred.
    pub cleaned_word: scraper::Selector,
    /// The headword as it was searched for: second choice.
    pub searched_word: scraper::Selector,
    /// The headword of a Hanja entry: last choice.
    pub hanja_word: scraper::Selector,
    /// The reading of a word: the preferred pronunciation.
    pub reading: scraper::Selector,
    /// The phonetic transcription of a word: second choice.
    pub phonetic: scraper::Selector,
    /// One meaning of a word.
    pub gloss: scraper::Selector,
    /// A spelling that the site suggests in place of the search term.
    pub alternative: scraper::Selector,
}

/// The markers of the Daum dictionary, where all of them compile.
pub open spec fn marker_table() -> Option<Markers> {
    match (
        compiled(".card_word"@),
        compiled(".cleanword_type,.search_type"@),
        compiled(".tit_word"@),
        compiled(".txt_cleansch"@),
        compiled(".txt_searchword"@),
        compiled(".txt_hanjaword"@),
        compiled(".sub_read"@),
        compiled(".txt_pronounce"@),
        compiled(".txt_search"@),
        compiled(".link_speller"@),
    ) {
        (
            Some(card),
            Some(item),
            Some(heading),
            Some(cleaned_word),
            Some(searched_word),
            Some(hanja_word),
            Some(reading),
            Some(phonetic),
            Some(gloss),
            Some(alternative),
        ) => Some(
            Markers {
                card,
                item,
                heading,
                cleaned_word,
                searched_word,
                hanja_word,
                reading,
                phonetic,
                gloss,
                alternative,
            },
        ),
        _ => None,
    }
}

impl Markers {
    /// Compiles the markers of the Daum dictionary. There are none where one
    /// of them does not compile.
    pub fn compile() -> (markers: Option<Markers>)
        ensures
            markers == marker_table(),
    {
        proof {
            reveal_strlit(".card_word");
            reveal_strlit(".cleanword_type,.search_type");
            reveal_strlit(".tit_word");
            reveal_strlit(".txt_cleansch");
            reveal_strlit(".txt_searchword");
            reveal_strlit(".txt_hanjaword");
            reveal_strlit(".sub_read");
            reveal_strlit(".txt_pronounce");
            reveal_strlit(".txt_search");
            reveal_strlit(".link_speller");
            bytes_are_bounded_by_chars(".card_word"@);
            bytes_are_bounded_by_chars(".cleanword_type,.search_type"@);
            bytes_are_bounded_by_chars(".tit_word"@);
            bytes_are_bounded_by_chars(".txt_cleansch"@);
            bytes_are_bounded_by_chars(".txt_searchword"@);
            bytes_are_bounded_by_chars(".txt_hanjaword"@);
            bytes_are_bounded_by_chars(".sub_read"@);
            bytes_are_bounded_by_chars(".txt_pronounce"@);
            bytes_are_bounded_by_chars(".txt_search"@);
            bytes_are_bounded_by_chars(".link_speller"@);
        }
        let card = compile(".card_word");
        let item = compile(".cleanword_type,.search_type");
        let heading = compile(".tit_word");
        let cleaned_word = compile(".txt_cleansch");
        let searched_word = compile(".txt_searchword");
        let hanja_word = compile(".txt_hanjaword");
        let reading = compile(".sub_read");
        let phonetic = compile(".txt_pronounce");
        let gloss = compile(".txt_search");
        let alternative = compile(".link_speller");
        match (
            card,
            item,
            heading,
            cleaned_word,
            searched_word,
            hanja_word,
            reading,
            phonetic,
            gloss,
            alternative,
        ) {
            (
                Some(card),
                Some(item),
                Some(heading),
                Some(cleaned_word),
                Some(searched_word),
                Some(hanja_word),
                Some(reading),
                Some(phonetic),
                Some(gloss),
                Some(alternative),
            ) => Some(
                Markers {
                    card,
                    item,
                    heading,
                    cleaned_word,
                    searched_word,
                    hanja_word,
                    reading,
                    phonetic,
                    gloss,
                    alternative,
                },
            ),
            _ => None,
        }
    }
}

} // verus!
