//! The ways in which a lookup fails.

use vstd::prelude::*;

verus! {

/// Why a lookup gave no result.
#[derive(Debug, PartialEq, Eq)]
pub enum DictionaryError {
    /// The search term was empty.
    EmptyWord,
    /// The page could not be fetched; the text is what the fetcher reported.
    FetchFailed(String),
    /// The page could not be read: it is too long for the parser, or the
    /// markers of the dictionary do not compile.
    ParsingFailed,
}

/// A `DictionaryError` as a mathematical value.
pub enum DictionaryErrorView {
    EmptyWord,
    FetchFailed(Seq<char>),
    ParsingFailed,
}

impl View for DictionaryError {
    type V = DictionaryErrorView;

    open spec fn view(&self) -> DictionaryErrorView {
        match self {
            DictionaryError::EmptyWord => DictionaryErrorView::EmptyWord,
            DictionaryError::FetchFailed(report) => DictionaryErrorView::FetchFailed(report@),
            DictionaryError::ParsingFailed => DictionaryErrorView::ParsingFailed,
        }
    }
}

impl DictionaryErrorView {
    /// The error in words.
    pub open spec fn message(self) -> Seq<char> {
        match self {
            DictionaryErrorView::EmptyWord => "empty word was given"@,
            DictionaryErrorView::FetchFailed(report) => "fetching failed: "@ + report,
            DictionaryErrorView::ParsingFailed => "parsing failed"@,
        }
    }
}

impl Clone for DictionaryError {
    fn clone(&self) -> (copy: DictionaryError)
        ensures
            copy@ == self@,
    {
        match self {
            DictionaryError::EmptyWord => DictionaryError::EmptyWord,
            DictionaryError::FetchFailed(report) => DictionaryError::FetchFailed(report.clone()),
            DictionaryError::ParsingFailed => DictionaryError::ParsingFailed,
        }
    }
}

impl DictionaryError {
    /// The error in words, as it is shown to a reader.
    pub fn to_string(&self) -> (message: String)
        ensures
            message@ == self@.message(),
    {
        match self {
            DictionaryError::EmptyWord => String::from_str("empty word was given"),
            DictionaryError::FetchFailed(report) => {
                let mut message = String::from_str("fetching failed: ");
                message.append(report.as_str());
                message
            },
            DictionaryError::ParsingFailed => String::from_str("parsing failed"),
        }
    }
}

} // verus!
