//! The records that an extraction yields, and the ways in which it fails.

use crate::ipv4::Ipv4Address;
use vstd::prelude::*;

verus! {

/// A hosting capability that a data center offers.
#[derive(Clone, Copy, Debug, PartialEq, Eq, Structural)]
pub enum AvailableService {
    BareMetalServers,
    VirtualServers,
    PrivateCloud,
}

/// One data center, as the page describes it.
#[derive(Debug, Clone, PartialEq, Eq)]
pub struct DataCenter {
    /// The identifier of the location block.
    pub id: String,
    /// The display name of the city.
    pub city: String,
    /// The services offered, in the order of the page.
    pub available_services: Vec<AvailableService>,
    /// The bandwidth tier, where the page names one.
    pub standard_bare_metal_bandwidth: Option<String>,
    /// The address to ping, where the page gives one.
    pub ping: Option<Ipv4Address>,
    /// The address of a file for a download test, where the page links one.
    pub test_download: Option<String>,
    /// The address of the page on this data center, where one is linked.
    pub url: Option<String>,
}

/// What a [`DataCenter`] holds, as mathematical values.
#[verifier::ext_equal]
pub struct DataCenterView {
    pub id: Seq<char>,
    pub city: Seq<char>,
    pub available_services: Seq<AvailableService>,
    pub standard_bare_metal_bandwidth: Option<Seq<char>>,
    pub ping: Option<Ipv4Address>,
    pub test_download: Option<Seq<char>>,
    pub url: Option<Seq<char>>,
}

impl DeepView for DataCenter {
    type V = DataCenterView;

    open spec fn deep_view(&self) -> DataCenterView {
        DataCenterView {
            id: self.id@,
            city: self.city@,
            available_services: self.available_services@,
            standard_bare_metal_bandwidth: self.standard_bare_metal_bandwidth.deep_view(),
            ping: self.ping,
            test_download: self.test_download.deep_view(),
            url: self.url.deep_view(),
        }
    }
}

impl View for DataCenter {
    type V = DataCenterView;

    open spec fn view(&self) -> DataCenterView {
        self.deep_view()
    }
}

/// Why a page could not be read as a list of data centers.
#[derive(Debug, Clone, PartialEq, Eq)]
pub enum ParseHtmlError {
    /// A location block carries no identifier.
    IdMissing,
    /// A location block names no city.
    CityMissing,
    /// A table row does not consist of exactly three cells.
    RowShapeInvalid,
    /// A service is listed under a title that is none of the known ones.
    UnknownService,
    /// The text shown as the ping address, which is no IPv4 address.
    InvalidPingAddress(String),
}

/// What a [`ParseHtmlError`] holds, as mathematical values.
#[verifier::ext_equal]
pub enum ParseHtmlErrorView {
    IdMissing,
    CityMissing,
    RowShapeInvalid,
    UnknownService,
    InvalidPingAddress(Seq<char>),
}

impl DeepView for ParseHtmlError {
    type V = ParseHtmlErrorView;

    open spec fn deep_view(&self) -> ParseHtmlErrorView {
        match self {
            ParseHtmlError::IdMissing => ParseHtmlErrorView::IdMissing,
            ParseHtmlError::CityMissing => ParseHtmlErrorView::CityMissing,
            ParseHtmlError::RowShapeInvalid => ParseHtmlErrorView::RowShapeInvalid,
            ParseHtmlError::UnknownService => ParseHtmlErrorView::UnknownService,
            ParseHtmlError::InvalidPingAddress(text) => ParseHtmlErrorView::InvalidPingAddress(
                text@,
            ),
        }
    }
}

impl View for ParseHtmlError {
    type V = ParseHtmlErrorView;

    open spec fn view(&self) -> ParseHtmlErrorView {
        self.deep_view()
    }
}

/// What the outcome of an extraction holds, as mathematical values.
pub open spec fn outcome_view(outcome: Result<Vec<DataCenter>, ParseHtmlError>) -> Result<
    Seq<DataCenterView>,
    ParseHtmlErrorView,
> {
    match outcome {
        Ok(records) => Ok(records.deep_view()),
        Err(error) => Err(error@),
    }
}

} // verus!
