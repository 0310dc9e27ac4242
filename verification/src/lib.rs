//! Dictionary lookups against the Daum web dictionary: the result page of a
//! search is read into words, each with its meanings, pronunciation and
//! language, and into the alternative spellings the site suggests.
//!
//! The library fetches nothing itself. [`search`] checks the term and says
//! where to ask for it; [`Query::complete`] takes what the fetch gave and
//! reads the page with [`parse`].

pub mod errors;
pub mod extract;
pub mod lang;
pub mod markers;
pub mod markup;
pub mod page;
pub mod scan;
pub mod text;
pub mod word;

pub use errors::DictionaryError;
pub use lang::Lang;
pub use markers::Markers;
pub use word::{Search, Word};

use vstd::prelude::*;
use errors::DictionaryErrorView;
use extract::{assemble, search_of, search_of_any_page};
use markers::marker_table;
use markup::{fits, parsed, MAX_PAGE_BYTES};
use scan::{page_shown, scan};
use text::byte_length;
use word::SearchView;

verus! {

/// The outcome of a lookup as a mathematical value.
pub open spec fn outcome_view(outcome: Result<Search, DictionaryError>) -> Result<
    SearchView,
    DictionaryErrorView,
> {
    match outcome {
        Ok(search) => Ok(search@),
        Err(error) => Err(error@),
    }
}

/// What a page stands for under the given markers.
pub open spec fn extracted(html: Seq<char>, markers: Markers) -> SearchView {
    search_of(page_shown(parsed(html), markers))
}

/// What reading a page gives, with markers or without: a text that is too
/// long for the parser is not read, nor is any text without markers.
pub open spec fn parsed_with(html: Seq<char>, markers: Option<Markers>) -> Result<
    SearchView,
    DictionaryErrorView,
> {
    match markers {
        Some(markers) => if fits(html) {
            Ok(extracted(html, markers))
        } else {
            Err(DictionaryErrorView::ParsingFailed)
        },
        None => Err(DictionaryErrorView::ParsingFailed),
    }
}

/// Whether a lookup that succeeded gave a well-formed result.
pub open spec fn well_formed(outcome: Result<Search, DictionaryError>) -> bool {
    outcome matches Ok(search) ==> search.wf()
}

/// The address that answers a search: the term is sent to it as a query
/// parameter.
pub open spec fn endpoint_text() -> Seq<char> {
    "https://dic.daum.net/search.do"@
}

/// The name of the query parameter that carries the search term.
pub open spec fn parameter_text() -> Seq<char> {
    "q"@
}

/// What a lookup ends with: the page that was fetched, read with the markers
/// given, or the failure of the fetch, handed on.
pub open spec fn completed(fetched: Result<String, String>, markers: Option<Markers>) -> Result<
    SearchView,
    DictionaryErrorView,
> {
    match fetched {
        Ok(html) => parsed_with(html@, markers),
        Err(report) => Err(DictionaryErrorView::FetchFailed(report@)),
    }
}

/// With its markers compiled, reading succeeds on every text that is short
/// enough for the parser, whatever the text holds, and what it gives is well
/// formed; a page on which no card is found gives no words. On a longer
/// text, and without markers, it fails.
pub proof fn reading_succeeds_with_markers(html: Seq<char>, markers: Option<Markers>)
    ensures
        parsed_with(html, markers) is Ok <==> markers is Some && fits(html),
        parsed_with(html, markers) is Err ==> parsed_with(html, markers) == Err::<
            SearchView,
            DictionaryErrorView,
        >(DictionaryErrorView::ParsingFailed),
        parsed_with(html, markers) is Ok ==> {
            let shown = page_shown(parsed(html), markers->0);
            let search = parsed_with(html, markers)->Ok_0;
            &&& search.wf()
            &&& search.alternatives == shown.alternatives
            &&& shown.cards.len() == 0 ==> search.words.len() == 0
        },
{
    if markers is Some {
        search_of_any_page(page_shown(parsed(html), markers->0));
    }
}

/// Reading the same text twice gives the same result.
pub proof fn reading_is_repeatable(
    html: Seq<char>,
    first: Result<Search, DictionaryError>,
    second: Result<Search, DictionaryError>,
)
    requires
        outcome_view(first) == parsed_with(html, marker_table()),
        outcome_view(second) == parsed_with(html, marker_table()),
    ensures
        outcome_view(first) == outcome_view(second),
{
}

/// Reads the words and the suggested spellings off a page, with markers that
/// are already compiled. Text that is no HTML, or HTML without any of the
/// markers, gives a result without words. The text must be short enough for
/// the parser: `parse_with` tests that first.
pub fn extract(html: &str, markers: &Markers) -> (search: Search)
    requires
        fits(html@),
    ensures
        search@ == extracted(html@, *markers),
        search.wf(),
{
    let shown = scan(html, markers);
    assemble(&shown)
}

/// Reads a page with the markers given. It fails where there are none, and
/// where the text is longer than `MAX_PAGE_BYTES` bytes.
pub fn parse_with(html: &str, markers: &Option<Markers>) -> (outcome: Result<
    Search,
    DictionaryError,
>)
    ensures
        outcome_view(outcome) == parsed_with(html@, *markers),
        well_formed(outcome),
{
    match markers {
        Some(markers) => if byte_length(html) <= MAX_PAGE_BYTES {
            Ok(extract(html, markers))
        } else {
            Err(DictionaryError::ParsingFailed)
        },
        None => Err(DictionaryError::ParsingFailed),
    }
}

/// Reads the words and the suggested spellings off a result page of the Daum
/// dictionary. It fails where the text is longer than `MAX_PAGE_BYTES` bytes,
/// and where the markers of the dictionary do not compile.
pub fn parse(html: &str) -> (outcome: Result<Search, DictionaryError>)
    ensures
        outcome_view(outcome) == parsed_with(html@, marker_table()),
        well_formed(outcome),
{
    let markers = Markers::compile();
    parse_with(html, &markers)
}

/// A search term that was accepted, and whose page has yet to be fetched.
#[derive(Debug, PartialEq, Eq)]
pub struct Query {
    word: String,
}

impl Query {
    /// The search term.
    pub closed spec fn term(&self) -> Seq<char> {
        self.word@
    }

    /// The search term.
    pub fn word(&self) -> (word: &str)
        ensures
            word@ == self.term(),
    {
        self.word.as_str()
    }

    /// The address to send the request to. The search term is no part of
    /// it: the client adds the term as a query parameter, and encodes it.
    pub fn endpoint(&self) -> (address: String)
        ensures
            address@ == endpoint_text(),
    {
        String::from_str("https://dic.daum.net/search.do")
    }

    /// The name of the query parameter that carries the search term.
    pub fn parameter(&self) -> (name: String)
        ensures
            name@ == parameter_text(),
    {
        String::from_str("q")
    }

    /// Ends the lookup with what the fetch gave, and reads the page with
    /// markers that the caller compiled before: the text of the page, which
    /// is then read, or the report of a failure, which is handed on.
    pub fn complete_with(self, fetched: Result<String, String>, markers: &Option<Markers>) -> (outcome:
        Result<Search, DictionaryError>)
        ensures
            outcome_view(outcome) == completed(fetched, *markers),
            well_formed(outcome),
    {
        match fetched {
            Ok(html) => parse_with(html.as_str(), markers),
            Err(report) => Err(DictionaryError::FetchFailed(report)),
        }
    }

    /// Ends the lookup with what the fetch gave: the text of the page, which
    /// is then read, or the report of a failure, which is handed on.
    pub fn complete(self, fetched: Result<String, String>) -> (outcome: Result<
        Search,
        DictionaryError,
    >)
        ensures
            outcome_view(outcome) == completed(fetched, marker_table()),
            well_formed(outcome),
    {
        match fetched {
            Ok(html) => parse(html.as_str()),
            Err(report) => Err(DictionaryError::FetchFailed(report)),
        }
    }
}

/// Begins a lookup: an empty term is refused, before anything is fetched.
pub fn search(word: &str) -> (begun: Result<Query, DictionaryError>)
    ensures
        match begun {
            Ok(query) => word@.len() > 0 && query.term() == word@,
            Err(error) => word@.len() == 0 && error@ == DictionaryErrorView::EmptyWord,
        },
{
    if word.is_empty() {
        Err(DictionaryError::EmptyWord)
    } else {
        Ok(Query { word: word.to_owned() })
    }
}

} // verus!
