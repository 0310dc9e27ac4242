//! The page as a tree: what the HTML parser and its selectors hand back.
//!
//! Parsing and selecting are the work of the `scraper` crate. Its types are
//! opaque here: a page, a selector and an element are carried through, and
//! all that is known of them is what the functions below return. Nothing in
//! this file is proved. Each function makes one call and states that its
//! result is the value that the call has for these arguments, under a name
//! that the contracts of the library then speak of.

use vstd::prelude::*;
use vstd::utf8::encode_utf8;

verus! {

/// `scraper::Html`: a parsed page.
#[verifier::external_type_specification]
#[verifier::external_body]
pub struct ExHtml(scraper::Html);

/// `scraper::Selector`: a compiled group of CSS selectors.
#[verifier::external_type_specification]
#[verifier::external_body]
pub struct ExSelector(scraper::Selector);

/// `scraper::ElementRef`: an element of a parsed page, with its place in it.
#[verifier::external_type_specification]
#[verifier::external_body]
pub struct ExElementRef<'a>(scraper::ElementRef<'a>);

/// The longest text, in bytes, that is handed to the parser.
///
/// The parser keeps text in buffers whose length is a 32-bit number and whose
/// capacity it rounds up to a power of two, and it stops the program where
/// one of them would pass 2^31 bytes. For a byte that it reads it writes at
/// most three into a buffer (a NUL becomes U+FFFD), so three times the length
/// of the text has to stay within 2^31.
pub const MAX_PAGE_BYTES: usize = 715_827_882;

/// Whether a text is short enough for the parser.
pub open spec fn fits(text: Seq<char>) -> bool {
    encode_utf8(text).len() <= MAX_PAGE_BYTES
}

/// The tree that `scraper::Html::parse_document` builds from a text.
pub uninterp spec fn parsed(text: Seq<char>) -> scraper::Html;

/// What `scraper::Selector::parse` makes of a text: the selector group it
/// compiles to, or nothing where it refuses the text.
pub uninterp spec fn compiled(css: Seq<char>) -> Option<scraper::Selector>;

/// The elements of a page that match a selector, in the order in which
/// `scraper::Html::select` yields them: that in which the tree holds its
/// nodes.
pub uninterp spec fn page_matches(page: scraper::Html, selector: scraper::Selector) -> Seq<
    scraper::ElementRef<'static>,
>;

/// The elements below `scope` that match a selector, in the order in which
/// `scraper::ElementRef::select` yields them: that of the page, an element
/// before those it holds. `scope` itself is not among them.
pub uninterp spec fn element_matches(
    scope: scraper::ElementRef,
    selector: scraper::Selector,
) -> Seq<scraper::ElementRef>;

/// The text nodes at any depth below an element, each as its own piece, in
/// the order of the page: what `scraper::ElementRef::text` yields.
pub uninterp spec fn element_pieces(element: scraper::ElementRef) -> Seq<Seq<char>>;

/// Calls `scraper::Html::parse_document`, which builds a tree from any text
/// whose buffers it can hold: markup that is broken is mended, not refused.
/// Texts of more than `MAX_PAGE_BYTES` bytes are left out, since a buffer of
/// the parser may overflow on them. The tree is a function of the text.
#[verifier::external_body]
pub(crate) fn parse_document(text: &str) -> (page: scraper::Html)
    requires
        fits(text@),
    ensures
        page == parsed(text@),
{
    scraper::Html::parse_document(text)
}

/// Calls `scraper::Selector::parse`. Where the text is refused the parser's
/// error is dropped, and the caller learns only that there is no selector.
/// Whether a text compiles, and to what, is a function of the text. The
/// parser counts the lines of the text in a 32-bit number, so texts of 2^32
/// bytes and more are left out.
#[verifier::external_body]
pub(crate) fn compile(css: &str) -> (selector: Option<scraper::Selector>)
    requires
        encode_utf8(css@).len() <= u32::MAX,
    ensures
        selector == compiled(css@),
{
    scraper::Selector::parse(css).ok()
}

/// Calls `scraper::Html::select` and collects every element it yields, in
/// the order in which it yields them.
#[verifier::external_body]
pub(crate) fn select_in_page<'a>(page: &'a scraper::Html, selector: &scraper::Selector) -> (found:
    Vec<scraper::ElementRef<'a>>)
    ensures
        found@ == page_matches(*page, *selector),
{
    page.select(selector).collect()
}

/// Calls `scraper::ElementRef::select` and collects every element it yields,
/// in the order in which it yields them.
#[verifier::external_body]
pub(crate) fn select_in_element<'a>(
    scope: scraper::ElementRef<'a>,
    selector: &scraper::Selector,
) -> (found: Vec<scraper::ElementRef<'a>>)
    ensures
        found@ == element_matches(scope, *selector),
{
    scope.select(selector).collect()
}

/// Calls `scraper::ElementRef::text` and collects every piece of text it
/// yields, each as a string of its own, in the order in which it yields them.
#[verifier::external_body]
pub(crate) fn text_pieces(element: scraper::ElementRef) -> (pieces: Vec<String>)
    ensures
        crate::text::views(pieces@) == element_pieces(element),
{
    element.text().map(String::from).collect()
}

} // verus!
