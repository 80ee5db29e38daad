//! The parsed document, as far as the page is read from it.
//!
//! Parsing and querying are the work of the `scraper` crate. Nothing in this
//! module is proved: each function here makes one call, and its contract
//! gives the answer a name. The names are functions of their arguments, which
//! is all that is known of them.

use vstd::prelude::*;

verus! {

/// The longest source, in bytes, that is handed to the parser.
///
/// The parser keeps each text that it builds in a buffer of its own, whose
/// size is a power of two: up to the thirtieth on a machine of 32 bits, and
/// up to the thirty-first on one of 64 bits. It builds no text that is more
/// than three times as long as its source; that long is a text of null
/// characters, each of which it replaces by a character of three bytes.
pub const MAX_SOURCE_BYTES: usize = 0x4000_0000 / 3;

/// A parsed HTML document, `scraper::Html`.
#[verifier::external_type_specification]
#[verifier::external_body]
pub struct ExHtml(scraper::Html);

/// A reference to an element of a parsed document, `scraper::ElementRef`.
#[verifier::external_type_specification]
#[verifier::external_body]
pub struct ExElementRef<'a>(scraper::ElementRef<'a>);

/// A compiled group of CSS selectors, `scraper::Selector`.
#[verifier::external_type_specification]
#[verifier::external_body]
pub struct ExSelector(scraper::Selector);

/// The document that `text` is parsed to.
pub uninterp spec fn parsed_document(text: Seq<char>) -> scraper::Html;

/// The selector that `pattern` is compiled to, if it is the text of one.
pub uninterp spec fn selector_of(pattern: Seq<char>) -> Option<scraper::Selector>;

/// The elements of `document` that match `selector`, in the order in which
/// the parser has made them.
pub uninterp spec fn document_matches(
    document: &scraper::Html,
    selector: scraper::Selector,
) -> Seq<scraper::ElementRef>;

/// The elements below `scope` that match `selector`, in document order.
pub uninterp spec fn element_matches(
    scope: scraper::ElementRef,
    selector: scraper::Selector,
) -> Seq<scraper::ElementRef>;

/// The value of the attribute `name` of `element`, if it has that attribute.
pub uninterp spec fn attribute_value(element: scraper::ElementRef, name: Seq<char>) -> Option<
    Seq<char>,
>;

/// The markup inside `element`.
pub uninterp spec fn inner_markup(element: scraper::ElementRef) -> Seq<char>;

/// Calls `scraper::Html::parse_document`, which parses any text and
/// returns no error. It panics where a buffer of the parser would outgrow
/// its limit, which no source within [`MAX_SOURCE_BYTES`] makes it do.
/// Claimed: the document is a function of the text.
#[verifier::external_body]
pub(crate) fn parse_document(text: &str) -> (document: scraper::Html)
    requires
        text.len() <= MAX_SOURCE_BYTES,
    ensures
        document == parsed_document(text@),
{
    scraper::Html::parse_document(text)
}

/// Calls `scraper::Selector::parse` and drops the error of a pattern that
/// is refused. Claimed: whether the pattern is accepted, and the selector
/// that it is compiled to, are a function of the pattern.
#[verifier::external_body]
pub(crate) fn compile(pattern: &str) -> (selector: Option<scraper::Selector>)
    ensures
        selector == selector_of(pattern@),
{
    scraper::Selector::parse(pattern).ok()
}

/// Calls `scraper::Html::select` and collects what the iterator yields.
/// Claimed: the elements, in the order in which they come, are a function of
/// the document and the selector.
#[verifier::external_body]
pub(crate) fn select_in_document<'a>(
    document: &'a scraper::Html,
    selector: &scraper::Selector,
) -> (found: Vec<scraper::ElementRef<'a>>)
    ensures
        found@ == document_matches(document, *selector),
{
    document.select(selector).collect()
}

/// Calls `scraper::ElementRef::select` and collects what the iterator
/// yields. Claimed: the elements, in the order in which they come, are a
/// function of the scope and the selector.
#[verifier::external_body]
pub(crate) fn select_in_element<'a>(
    scope: &scraper::ElementRef<'a>,
    selector: &scraper::Selector,
) -> (found: Vec<scraper::ElementRef<'a>>)
    ensures
        found@ == element_matches(*scope, *selector),
{
    scope.select(selector).collect()
}

/// Calls `scraper::ElementRef::attr`. Claimed: whether the element has the
/// attribute, and its value, are a function of the element and the name.
#[verifier::external_body]
pub(crate) fn attribute<'a>(element: &scraper::ElementRef<'a>, name: &str) -> (value: Option<
    &'a str,
>)
    ensures
        value.deep_view() == attribute_value(*element, name@),
{
    element.attr(name)
}

/// Calls `scraper::ElementRef::inner_html`. Claimed: the markup is a
/// function of the element.
#[verifier::external_body]
pub(crate) fn inner_html(element: &scraper::ElementRef) -> (markup: String)
    ensures
        markup@ == inner_markup(*element),
{
    element.inner_html()
}

} // verus!
