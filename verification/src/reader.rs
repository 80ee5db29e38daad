//! Reading what the page shows from its parsed document.
//!
//! A location block is a `div` of class `location`. Its identifier is its
//! `id` attribute, its city the first element of class `dc-city`, its rows
//! the rows of its tables, and the links to the page on its data center the
//! links inside an element of class `popover-container`.
//!
//! The patterns are compiled once for each page. A pattern that is no
//! selector finds nothing.

use crate::dom::{
    attribute, attribute_value, compile, document_matches, element_matches, inner_html,
    inner_markup, parse_document, parsed_document, select_in_document, select_in_element,
    selector_of, MAX_SOURCE_BYTES,
};
use crate::page::{Cell, CellView, Link, LinkView, Location, LocationView, Row, RowView};
use scraper::{ElementRef, Html, Selector};
use vstd::prelude::*;

verus! {

/// The pattern of the location blocks.
pub const LOCATION_PATTERN: &'static str = "div.location";

/// The pattern of the city labels in a location block.
pub const CITY_PATTERN: &'static str = ".dc-city";

/// The pattern of the table rows in a location block.
pub const ROW_PATTERN: &'static str = "table tr";

/// The pattern of the cells in a row.
pub const CELL_PATTERN: &'static str = "td";

/// The pattern of the links in a cell.
pub const LINK_PATTERN: &'static str = "a";

/// The pattern of the links to the page on a data center.
pub const DETAIL_LINK_PATTERN: &'static str = ".popover-container a";

/// The attribute that identifies a location block.
pub const ID_ATTRIBUTE: &'static str = "id";

/// The attribute that titles a link.
pub const TITLE_ATTRIBUTE: &'static str = "title";

/// The attribute that says where a link leads.
pub const HREF_ATTRIBUTE: &'static str = "href";

/// The elements of `document` that match `pattern`, in the order in which
/// the parser has made them.
pub open spec fn found_in(document: &Html, pattern: Seq<char>) -> Seq<ElementRef> {
    match selector_of(pattern) {
        Some(selector) => document_matches(document, selector),
        None => Seq::empty(),
    }
}

/// The elements below `scope` that match `pattern`, in document order.
pub open spec fn found_below(scope: ElementRef, pattern: Seq<char>) -> Seq<ElementRef> {
    match selector_of(pattern) {
        Some(selector) => element_matches(scope, selector),
        None => Seq::empty(),
    }
}

/// The link that `element` is.
pub open spec fn link_of(element: ElementRef) -> LinkView {
    LinkView {
        title: attribute_value(element, TITLE_ATTRIBUTE@),
        href: attribute_value(element, HREF_ATTRIBUTE@),
    }
}

/// The links below `scope` that match `pattern`, in document order.
pub open spec fn links_below(scope: ElementRef, pattern: Seq<char>) -> Seq<LinkView> {
    found_below(scope, pattern).map_values(|element: ElementRef| link_of(element))
}

/// The cell that `element` is.
pub open spec fn cell_of(element: ElementRef) -> CellView {
    CellView { markup: inner_markup(element), links: links_below(element, LINK_PATTERN@) }
}

/// The row that `element` is.
pub open spec fn row_of(element: ElementRef) -> RowView {
    RowView {
        cells: found_below(element, CELL_PATTERN@).map_values(|cell: ElementRef| cell_of(cell)),
    }
}

/// The markup inside the first of `labels`, if there is one.
pub open spec fn first_markup(labels: Seq<ElementRef>) -> Option<Seq<char>> {
    if labels.len() == 0 {
        None
    } else {
        Some(inner_markup(labels[0]))
    }
}

/// The location block that `element` is.
pub open spec fn location_of(element: ElementRef) -> LocationView {
    LocationView {
        id: attribute_value(element, ID_ATTRIBUTE@),
        city: first_markup(found_below(element, CITY_PATTERN@)),
        rows: found_below(element, ROW_PATTERN@).map_values(|row: ElementRef| row_of(row)),
        detail_links: links_below(element, DETAIL_LINK_PATTERN@),
    }
}

/// What `document` shows: its location blocks, in the order in which the
/// parser has made them.
pub open spec fn page_of(document: &Html) -> Seq<LocationView> {
    found_in(document, LOCATION_PATTERN@).map_values(|block: ElementRef| location_of(block))
}

/// What the page with the source `text` shows.
pub open spec fn page_shown(text: Seq<char>) -> Seq<LocationView> {
    page_of(&parsed_document(text))
}

/// The number of location blocks on the page with the source `text`.
pub open spec fn location_count(text: Seq<char>) -> nat {
    found_in(&parsed_document(text), LOCATION_PATTERN@).len()
}

/// The patterns by which a page is read, compiled.
struct Patterns {
    location: Option<Selector>,
    city: Option<Selector>,
    row: Option<Selector>,
    cell: Option<Selector>,
    link: Option<Selector>,
    detail_link: Option<Selector>,
}

impl Patterns {
    /// Whether each selector is the one that its pattern is compiled to.
    spec fn compiled(&self) -> bool {
        &&& self.location == selector_of(LOCATION_PATTERN@)
        &&& self.city == selector_of(CITY_PATTERN@)
        &&& self.row == selector_of(ROW_PATTERN@)
        &&& self.cell == selector_of(CELL_PATTERN@)
        &&& self.link == selector_of(LINK_PATTERN@)
        &&& self.detail_link == selector_of(DETAIL_LINK_PATTERN@)
    }

    fn new() -> (patterns: Patterns)
        ensures
            patterns.compiled(),
    {
        Patterns {
            location: compile(LOCATION_PATTERN),
            city: compile(CITY_PATTERN),
            row: compile(ROW_PATTERN),
            cell: compile(CELL_PATTERN),
            link: compile(LINK_PATTERN),
            detail_link: compile(DETAIL_LINK_PATTERN),
        }
    }
}

/// The elements of `document` that match `selector`; none without a selector.
fn find_in<'a>(document: &'a Html, selector: &Option<Selector>) -> (found: Vec<ElementRef<'a>>)
    ensures
        found@ == match *selector {
            Some(compiled) => document_matches(document, compiled),
            None => Seq::empty(),
        },
{
    match selector {
        Some(compiled) => select_in_document(document, compiled),
        None => Vec::new(),
    }
}

/// The elements below `scope` that match `selector`; none without a selector.
fn find_below<'a>(scope: &ElementRef<'a>, selector: &Option<Selector>) -> (found: Vec<
    ElementRef<'a>,
>)
    ensures
        found@ == match *selector {
            Some(compiled) => element_matches(*scope, compiled),
            None => Seq::empty(),
        },
{
    match selector {
        Some(compiled) => select_in_element(scope, compiled),
        None => Vec::new(),
    }
}

/// An owned copy of the value of an attribute.
fn read_attribute(element: &ElementRef, name: &str) -> (value: Option<String>)
    ensures
        value.deep_view() == attribute_value(*element, name@),
{
    match attribute(element, name) {
        Some(value) => Some(value.to_owned()),
        None => None,
    }
}

fn read_link(element: &ElementRef) -> (link: Link)
    ensures
        link@ == link_of(*element),
{
    Link {
        title: read_attribute(element, TITLE_ATTRIBUTE),
        href: read_attribute(element, HREF_ATTRIBUTE),
    }
}

fn read_links(found: &Vec<ElementRef>) -> (links: Vec<Link>)
    ensures
        links.deep_view() == found@.map_values(|element: ElementRef| link_of(element)),
{
    let mut links: Vec<Link> = Vec::new();
    let mut i: usize = 0;
    while i < found.len()
        invariant
            i <= found.len(),
            links.len() == i,
            forall|j: int| 0 <= j < i ==> (#[trigger] links[j])@ == link_of(found[j]),
        decreases found.len() - i,
    {
        links.push(read_link(&found[i]));
        i += 1;
    }
    assert(links.deep_view() =~= found@.map_values(|element: ElementRef| link_of(element)));
    links
}

fn read_cell(element: &ElementRef, patterns: &Patterns) -> (cell: Cell)
    requires
        patterns.compiled(),
    ensures
        cell@ == cell_of(*element),
{
    let found = find_below(element, &patterns.link);
    Cell { markup: inner_html(element), links: read_links(&found) }
}

fn read_row(element: &ElementRef, patterns: &Patterns) -> (row: Row)
    requires
        patterns.compiled(),
    ensures
        row@ == row_of(*element),
{
    let found = find_below(element, &patterns.cell);
    let mut cells: Vec<Cell> = Vec::new();
    let mut i: usize = 0;
    while i < found.len()
        invariant
            i <= found.len(),
            patterns.compiled(),
            cells.len() == i,
            forall|j: int| 0 <= j < i ==> (#[trigger] cells[j])@ == cell_of(found[j]),
        decreases found.len() - i,
    {
        cells.push(read_cell(&found[i], patterns));
        i += 1;
    }
    assert(cells.deep_view() =~= row_of(*element).cells);
    Row { cells }
}

fn read_location(element: &ElementRef, patterns: &Patterns) -> (location: Location)
    requires
        patterns.compiled(),
    ensures
        location@ == location_of(*element),
{
    let id = read_attribute(element, ID_ATTRIBUTE);
    let labels = find_below(element, &patterns.city);
    let city = if labels.len() == 0 {
        None
    } else {
        Some(inner_html(&labels[0]))
    };
    let found = find_below(element, &patterns.row);
    let mut rows: Vec<Row> = Vec::new();
    let mut i: usize = 0;
    while i < found.len()
        invariant
            i <= found.len(),
            patterns.compiled(),
            rows.len() == i,
            forall|j: int| 0 <= j < i ==> (#[trigger] rows[j])@ == row_of(found[j]),
        decreases found.len() - i,
    {
        rows.push(read_row(&found[i], patterns));
        i += 1;
    }
    assert(rows.deep_view() =~= location_of(*element).rows);
    let detail = find_below(element, &patterns.detail_link);
    Location { id, city, rows, detail_links: read_links(&detail) }
}

/// Parses the source of a page and reads what the page shows. The source is
/// to be no longer than the parser takes.
pub fn read_page(html: &str) -> (page: Vec<Location>)
    requires
        html.len() <= MAX_SOURCE_BYTES,
    ensures
        page.deep_view() == page_shown(html@),
        page.len() == location_count(html@),
{
    let patterns = Patterns::new();
    let document = parse_document(html);
    let found = find_in(&document, &patterns.location);
    let mut page: Vec<Location> = Vec::new();
    let mut i: usize = 0;
    while i < found.len()
        invariant
            i <= found.len(),
            patterns.compiled(),
            page.len() == i,
            forall|j: int| 0 <= j < i ==> (#[trigger] page[j])@ == location_of(found[j]),
        decreases found.len() - i,
    {
        page.push(read_location(&found[i], &patterns));
        i += 1;
    }
    assert(page.deep_view() =~= page_shown(html@));
    page
}

} // verus!
