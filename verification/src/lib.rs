//! The data centers of a hosting provider, read from the page that lists
//! them.
//!
//! [`parse_html`] takes the source of the page and yields one
//! [`DataCenter`] for each location block on it, or the reason why the page
//! could not be read.

use vstd::prelude::*;

pub mod dom;
pub mod extraction;
pub mod html;
pub mod ipv4;
pub mod page;
pub mod reader;
pub mod record;
pub mod text;

pub use crate::dom::MAX_SOURCE_BYTES;
pub use crate::record::{AvailableService, DataCenter, ParseHtmlError};

use crate::extraction::{extract, records_of};
use crate::reader::{location_count, page_shown, read_page};
use crate::record::outcome_view;

verus! {

/// The address of the page that lists the data centers.
pub const HTML_URL: &'static str = "https://www.thghosting.com/network/data-centers/";

/// Reads the data centers from the source of the page: one record for each
/// location block, in the order in which the parser has made the blocks. The
/// first block that cannot be read fails the whole extraction. A page
/// without location blocks yields the empty list.
///
/// The source is to be no longer than [`MAX_SOURCE_BYTES`]: the parser does
/// not take every longer one.
pub fn parse_html(html: &str) -> (outcome: Result<Vec<DataCenter>, ParseHtmlError>)
    requires
        html.len() <= MAX_SOURCE_BYTES,
    ensures
        outcome_view(outcome) == records_of(page_shown(html@)),
        outcome matches Ok(records) ==> records.len() == location_count(html@),
        location_count(html@) == 0 ==> (outcome matches Ok(records) && records.len() == 0),
{
    let page = read_page(html);
    extract(&page)
}

/// Extraction is a function of the source: any two outcomes of reading one
/// source hold the same records, field by field, or the same failure.
pub proof fn lemma_same_source_same_outcome(
    html: Seq<char>,
    first: Result<Vec<DataCenter>, ParseHtmlError>,
    second: Result<Vec<DataCenter>, ParseHtmlError>,
)
    requires
        outcome_view(first) == records_of(page_shown(html)),
        outcome_view(second) == records_of(page_shown(html)),
    ensures
        outcome_view(first) == outcome_view(second),
        first matches Ok(a) ==> (second matches Ok(b) && a.deep_view() == b.deep_view()),
        first matches Err(a) ==> (second matches Err(b) && a@ == b@),
{
}

} // verus!
