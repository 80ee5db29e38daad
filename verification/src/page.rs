//! What the page of data centers shows, as plain values.
//!
//! The page is a list of location blocks. Each block may carry an
//! identifier and name a city, holds the rows of its table, and links to the
//! page on its data center. A row holds its cells, a cell its markup and the
//! links in it.

use vstd::prelude::*;

verus! {

/// A link, with the two attributes that the page is read for.
#[derive(Debug, Clone, PartialEq, Eq)]
pub struct Link {
    pub title: Option<String>,
    pub href: Option<String>,
}

/// A table cell: the markup inside it and its links in document order.
#[derive(Debug, Clone, PartialEq, Eq)]
pub struct Cell {
    pub markup: String,
    pub links: Vec<Link>,
}

/// A table row: its cells in document order.
#[derive(Debug, Clone, PartialEq, Eq)]
pub struct Row {
    pub cells: Vec<Cell>,
}

/// A location block.
#[derive(Debug, Clone, PartialEq, Eq)]
pub struct Location {
    /// The identifier that the block carries, if any.
    pub id: Option<String>,
    /// The markup inside the first city label of the block, if it has one.
    pub city: Option<String>,
    /// The rows of the block's table, in document order.
    pub rows: Vec<Row>,
    /// The links to the page on this data center, in document order.
    pub detail_links: Vec<Link>,
}

/// What a [`Link`] holds, as mathematical values.
#[verifier::ext_equal]
pub struct LinkView {
    pub title: Option<Seq<char>>,
    pub href: Option<Seq<char>>,
}

/// What a [`Cell`] holds, as mathematical values.
#[verifier::ext_equal]
pub struct CellView {
    pub markup: Seq<char>,
    pub links: Seq<LinkView>,
}

/// What a [`Row`] holds, as mathematical values.
#[verifier::ext_equal]
pub struct RowView {
    pub cells: Seq<CellView>,
}

/// What a [`Location`] holds, as mathematical values.
#[verifier::ext_equal]
pub struct LocationView {
    pub id: Option<Seq<char>>,
    pub city: Option<Seq<char>>,
    pub rows: Seq<RowView>,
    pub detail_links: Seq<LinkView>,
}

impl DeepView for Link {
    type V = LinkView;

    open spec fn deep_view(&self) -> LinkView {
        LinkView { title: self.title.deep_view(), href: self.href.deep_view() }
    }
}

impl View for Link {
    type V = LinkView;

    open spec fn view(&self) -> LinkView {
        self.deep_view()
    }
}

impl DeepView for Cell {
    type V = CellView;

    open spec fn deep_view(&self) -> CellView {
        CellView { markup: self.markup@, links: self.links.deep_view() }
    }
}

impl View for Cell {
    type V = CellView;

    open spec fn view(&self) -> CellView {
        self.deep_view()
    }
}

impl DeepView for Row {
    type V = RowView;

    open spec fn deep_view(&self) -> RowView {
        RowView { cells: self.cells.deep_view() }
    }
}

impl View for Row {
    type V = RowView;

    open spec fn view(&self) -> RowView {
        self.deep_view()
    }
}

impl DeepView for Location {
    type V = LocationView;

    open spec fn deep_view(&self) -> LocationView {
        LocationView {
            id: self.id.deep_view(),
            city: self.city.deep_view(),
            rows: self.rows.deep_view(),
            detail_links: self.detail_links.deep_view(),
        }
    }
}

impl View for Location {
    type V = LocationView;

    open spec fn view(&self) -> LocationView {
        self.deep_view()
    }
}

} // verus!
