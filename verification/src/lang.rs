//! The language of a dictionary entry, read off the heading of its card.

use vstd::prelude::*;
use crate::text::starts_with;

verus! {

/// The language of a word.
#[derive(PartialEq, Eq, Debug)]
pub enum Lang {
    /// Korean
    Korean,
    /// English
    English,
    /// Japanese
    Japanese,
    /// Chinese characters, which also turn up among Korean and Japanese results.
    Hanja,
    /// Any other dictionary, under the heading the site gave it.
    Other(String),
}

/// A `Lang` as a mathematical value.
pub enum LangView {
    Korean,
    English,
    Japanese,
    Hanja,
    Other(Seq<char>),
}

impl View for Lang {
    type V = LangView;

    open spec fn view(&self) -> LangView {
        match self {
            Lang::Korean => LangView::Korean,
            Lang::English => LangView::English,
            Lang::Japanese => LangView::Japanese,
            Lang::Hanja => LangView::Hanja,
            Lang::Other(label) => LangView::Other(label@),
        }
    }
}

/// The start of every heading of the Korean dictionary.
pub open spec fn korean_prefix() -> Seq<char> {
    seq!['한', '국']
}

/// The start of every heading of the English dictionary.
pub open spec fn english_prefix() -> Seq<char> {
    seq!['영']
}

/// The start of every heading of the Japanese dictionary.
pub open spec fn japanese_prefix() -> Seq<char> {
    seq!['일']
}

/// The start of every heading of the Hanja dictionary.
pub open spec fn hanja_prefix() -> Seq<char> {
    seq!['한', '자']
}

/// Whether a heading begins like one of the four known dictionaries.
pub open spec fn is_known(label: Seq<char>) -> bool {
    ||| korean_prefix().is_prefix_of(label)
    ||| english_prefix().is_prefix_of(label)
    ||| japanese_prefix().is_prefix_of(label)
    ||| hanja_prefix().is_prefix_of(label)
}

/// The language that a card's heading stands for: the known dictionaries by
/// the start of the heading, tried in a fixed order, and any other heading as
/// itself.
pub open spec fn classify(label: Seq<char>) -> LangView {
    if korean_prefix().is_prefix_of(label) {
        LangView::Korean
    } else if english_prefix().is_prefix_of(label) {
        LangView::English
    } else if japanese_prefix().is_prefix_of(label) {
        LangView::Japanese
    } else if hanja_prefix().is_prefix_of(label) {
        LangView::Hanja
    } else {
        LangView::Other(label)
    }
}

/// No heading begins like two of the known dictionaries, so the order in
/// which the four prefixes are tried decides nothing: a heading that begins
/// like one of them stands for that dictionary.
pub proof fn known_heading_is_classified(label: Seq<char>)
    ensures
        korean_prefix().is_prefix_of(label) ==> classify(label) == LangView::Korean,
        english_prefix().is_prefix_of(label) ==> classify(label) == LangView::English,
        japanese_prefix().is_prefix_of(label) ==> classify(label) == LangView::Japanese,
        hanja_prefix().is_prefix_of(label) ==> classify(label) == LangView::Hanja,
{
    // A heading begins with the characters of each prefix that it begins like.
    if korean_prefix().is_prefix_of(label) {
        assert(label[0] == korean_prefix()[0] && label[1] == korean_prefix()[1]);
    }
    if english_prefix().is_prefix_of(label) {
        assert(label[0] == english_prefix()[0]);
    }
    if japanese_prefix().is_prefix_of(label) {
        assert(label[0] == japanese_prefix()[0]);
    }
    if hanja_prefix().is_prefix_of(label) {
        assert(label[0] == hanja_prefix()[0] && label[1] == hanja_prefix()[1]);
    }
}

/// Each of the four prefixes, taken as a heading, stands for its dictionary.
pub proof fn prefix_stands_for_its_language()
    ensures
        classify(korean_prefix()) == LangView::Korean,
        classify(english_prefix()) == LangView::English,
        classify(japanese_prefix()) == LangView::Japanese,
        classify(hanja_prefix()) == LangView::Hanja,
{
    assert(korean_prefix().is_prefix_of(korean_prefix()));
    assert(english_prefix().is_prefix_of(english_prefix()));
    assert(japanese_prefix().is_prefix_of(japanese_prefix()));
    assert(hanja_prefix().is_prefix_of(hanja_prefix()));
    known_heading_is_classified(korean_prefix());
    known_heading_is_classified(english_prefix());
    known_heading_is_classified(japanese_prefix());
    known_heading_is_classified(hanja_prefix());
}

/// A heading that begins like none of the known dictionaries is kept as it
/// is.
pub proof fn unknown_heading_is_kept(label: Seq<char>)
    requires
        !is_known(label),
    ensures
        classify(label) == LangView::Other(label),
{
}

/// Only a heading that begins like none of the known dictionaries is kept,
/// and it is kept unchanged.
pub proof fn kept_heading_is_unknown(label: Seq<char>)
    requires
        classify(label) is Other,
    ensures
        !is_known(label),
        classify(label)->Other_0 == label,
{
}

impl Clone for Lang {
    fn clone(&self) -> (copy: Lang)
        ensures
            copy@ == self@,
    {
        match self {
            Lang::Korean => Lang::Korean,
            Lang::English => Lang::English,
            Lang::Japanese => Lang::Japanese,
            Lang::Hanja => Lang::Hanja,
            Lang::Other(label) => Lang::Other(label.clone()),
        }
    }
}

impl Lang {
    /// Classifies a card by its heading.
    pub fn from_label(label: &str) -> (lang: Lang)
        ensures
            lang@ == classify(label@),
    {
        proof {
            reveal_strlit("한국");
            reveal_strlit("영");
            reveal_strlit("일");
            reveal_strlit("한자");
        }
        if starts_with(label, "한국") {
            Lang::Korean
        } else if starts_with(label, "영") {
            Lang::English
        } else if starts_with(label, "일") {
            Lang::Japanese
        } else if starts_with(label, "한자") {
            Lang::Hanja
        } else {
            Lang::Other(label.to_owned())
        }
    }
}

} // verus!
