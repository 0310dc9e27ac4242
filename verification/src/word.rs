//! The result of a lookup: the words found and the spellings suggested.

use vstd::prelude::*;
use crate::lang::{Lang, LangView};
use crate::text::{copy_texts, join, joined, views};

verus! {

/// One dictionary entry: a word with its meanings, pronunciation and language.
#[derive(Debug, PartialEq, Eq)]
pub struct Word {
    /// The word as the dictionary spells it.
    pub word: String,
    /// The meanings of the word, mostly written in Korean.
    pub meaning: Vec<String>,
    /// The pronunciation of the word, where the dictionary gives one.
    pub pronounce: Option<String>,
    /// The language of the word.
    pub lang: Lang,
}

/// A `Word` as a mathematical value.
pub struct WordView {
    pub word: Seq<char>,
    pub meaning: Seq<Seq<char>>,
    pub pronounce: Option<Seq<char>>,
    pub lang: LangView,
}

/// An optional string as a mathematical value.
pub open spec fn option_view(text: Option<String>) -> Option<Seq<char>> {
    match text {
        Some(text) => Some(text@),
        None => None,
    }
}

impl View for Word {
    type V = WordView;

    open spec fn view(&self) -> WordView {
        WordView {
            word: self.word@,
            meaning: views(self.meaning@),
            pronounce: option_view(self.pronounce),
            lang: self.lang@,
        }
    }
}

impl WordView {
    /// An entry names the word it is about.
    pub open spec fn wf(self) -> bool {
        self.word.len() > 0
    }

    /// The entry on one line: the heading of its dictionary in brackets where
    /// the language is none of the known ones, the word, the pronunciation
    /// where there is one, and the meanings with commas between them.
    pub open spec fn line(self) -> Seq<char> {
        let heading = match self.lang {
            LangView::Other(label) => "("@ + label + ")  "@,
            _ => Seq::empty(),
        };
        let pronounce = match self.pronounce {
            Some(pronounce) => pronounce + "  "@,
            None => Seq::empty(),
        };
        heading + self.word + "  "@ + pronounce + joined(self.meaning, ", "@)
    }
}

impl Clone for Word {
    fn clone(&self) -> (copy: Word)
        ensures
            copy@ == self@,
    {
        let pronounce = match &self.pronounce {
            Some(pronounce) => Some(pronounce.clone()),
            None => None,
        };
        Word {
            word: self.word.clone(),
            meaning: copy_texts(&self.meaning),
            pronounce,
            lang: self.lang.clone(),
        }
    }
}

impl Word {
    /// An entry names the word it is about.
    pub open spec fn wf(&self) -> bool {
        self@.wf()
    }

    /// The entry on one line, as it is shown to a reader.
    pub fn to_string(&self) -> (line: String)
        ensures
            line@ == self@.line(),
    {
        let mut line = String::new();
        if let Lang::Other(label) = &self.lang {
            line.append("(");
            line.append(label.as_str());
            line.append(")  ");
        }
        line.append(self.word.as_str());
        line.append("  ");
        if let Some(pronounce) = &self.pronounce {
            line.append(pronounce.as_str());
            line.append("  ");
        }
        let meaning = join(&self.meaning, ", ");
        line.append(meaning.as_str());
        line
    }
}

/// The words found for a search term, and the terms the dictionary suggests
/// in its place.
#[derive(Debug, PartialEq, Eq)]
pub struct Search {
    /// The words found, in the order of the page.
    pub words: Vec<Word>,
    /// The search terms suggested, in the order of the page.
    pub alternatives: Vec<String>,
}

/// A `Search` as a mathematical value.
pub struct SearchView {
    pub words: Seq<WordView>,
    pub alternatives: Seq<Seq<char>>,
}

/// A list of words as a list of mathematical values.
pub open spec fn word_views(words: Seq<Word>) -> Seq<WordView> {
    words.map_values(|word: Word| word@)
}

impl View for Search {
    type V = SearchView;

    open spec fn view(&self) -> SearchView {
        SearchView { words: word_views(self.words@), alternatives: views(self.alternatives@) }
    }
}

impl SearchView {
    /// Every entry names its word.
    pub open spec fn wf(self) -> bool {
        forall|k: int| 0 <= k < self.words.len() ==> (#[trigger] self.words[k]).wf()
    }
}

impl Clone for Search {
    fn clone(&self) -> (copy: Search)
        ensures
            copy@ == self@,
    {
        let mut words: Vec<Word> = Vec::new();
        let mut at: usize = 0;
        while at < self.words.len()
            invariant
                at <= self.words.len(),
                words.len() == at,
                forall|k: int| 0 <= k < at ==> words@[k]@ == self.words@[k]@,
            decreases self.words.len() - at,
        {
            words.push(self.words[at].clone());
            at += 1;
        }
        assert(word_views(words@) =~= word_views(self.words@));
        Search { words, alternatives: copy_texts(&self.alternatives) }
    }
}

impl Search {
    /// Every entry names its word.
    pub open spec fn wf(&self) -> bool {
        self@.wf()
    }
}

} // verus!
