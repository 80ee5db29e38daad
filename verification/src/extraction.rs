//! From what the page shows to the list of data centers.
//!
//! Each location block becomes one record. A block has to carry an
//! identifier and to name a city. Each row of its table has to consist of
//! exactly three cells: a label, a spacer and a value. The label decides what
//! the value is read as. The first block that cannot be read fails the whole
//! extraction.

use crate::ipv4::Ipv4Address;
use crate::page::{Link, LinkView, Location, LocationView, Row, RowView};
use crate::record::{
    outcome_view, AvailableService, DataCenter, DataCenterView, ParseHtmlError,
    ParseHtmlErrorView,
};
use crate::text::same_text;
use vstd::prelude::*;

verus! {

/// The title under which bare metal servers are listed.
pub const BARE_METAL_SERVERS_TITLE: &'static str = "Bare Metal Servers";

/// The title under which virtual servers are listed.
pub const VIRTUAL_SERVERS_TITLE: &'static str = "Virtual Servers";

/// The title under which the private cloud is listed.
pub const PRIVATE_CLOUD_TITLE: &'static str = "Private Cloud";

/// The label of the row that lists the services.
pub const AVAILABLE_SERVICES_LABEL: &'static str = "Available Services";

/// The label of the row on networks.
pub const AVAILABLE_NETWORKS_LABEL: &'static str = "Available Networks";

/// The label of the row that names the bandwidth tier.
pub const STANDARD_BARE_METAL_BANDWIDTH_LABEL: &'static str = "Standard Bare Metal Bandwidth";

/// The label of the row that shows the address to ping.
pub const PING_TRACE_ROUTE_LABEL: &'static str = "Ping/Trace Route";

/// The label of the row on certifications.
pub const CERTIFICATIONS_LABEL: &'static str = "Certifications";

/// The label of the row that links a file for a download test.
pub const TEST_DOWNLOAD_LABEL: &'static str = "Test Download";

/// What the page shows in place of an address to ping where there is none.
pub const NO_PING: &'static str = "-";

/// The number of cells in a row.
pub const ROW_CELLS: usize = 3;

impl AvailableService {
    /// The service listed under `title`, which has to match to the letter.
    pub open spec fn titled(title: Seq<char>) -> Option<AvailableService> {
        if title == BARE_METAL_SERVERS_TITLE@ {
            Some(AvailableService::BareMetalServers)
        } else if title == VIRTUAL_SERVERS_TITLE@ {
            Some(AvailableService::VirtualServers)
        } else if title == PRIVATE_CLOUD_TITLE@ {
            Some(AvailableService::PrivateCloud)
        } else {
            None
        }
    }

    /// The service listed under `title`, if it is one of the known titles.
    pub fn from_title(title: &str) -> (service: Option<AvailableService>)
        ensures
            service == AvailableService::titled(title@),
    {
        if same_text(title, BARE_METAL_SERVERS_TITLE) {
            Some(AvailableService::BareMetalServers)
        } else if same_text(title, VIRTUAL_SERVERS_TITLE) {
            Some(AvailableService::VirtualServers)
        } else if same_text(title, PRIVATE_CLOUD_TITLE) {
            Some(AvailableService::PrivateCloud)
        } else {
            None
        }
    }
}

/// What the label of a row announces.
#[derive(Clone, Copy, Debug, PartialEq, Eq, Structural)]
pub enum Label {
    AvailableServices,
    /// Known, and read for nothing.
    AvailableNetworks,
    StandardBareMetalBandwidth,
    PingTraceRoute,
    /// Known, and read for nothing.
    Certifications,
    TestDownload,
    /// Any other label: the row is passed over.
    Other,
}

impl Label {
    /// What the label `text` announces. The text has to match to the letter.
    pub open spec fn named(text: Seq<char>) -> Label {
        if text == AVAILABLE_SERVICES_LABEL@ {
            Label::AvailableServices
        } else if text == AVAILABLE_NETWORKS_LABEL@ {
            Label::AvailableNetworks
        } else if text == STANDARD_BARE_METAL_BANDWIDTH_LABEL@ {
            Label::StandardBareMetalBandwidth
        } else if text == PING_TRACE_ROUTE_LABEL@ {
            Label::PingTraceRoute
        } else if text == CERTIFICATIONS_LABEL@ {
            Label::Certifications
        } else if text == TEST_DOWNLOAD_LABEL@ {
            Label::TestDownload
        } else {
            Label::Other
        }
    }

    /// What the label `text` announces.
    pub fn from_text(text: &str) -> (label: Label)
        ensures
            label == Label::named(text@),
    {
        if same_text(text, AVAILABLE_SERVICES_LABEL) {
            Label::AvailableServices
        } else if same_text(text, AVAILABLE_NETWORKS_LABEL) {
            Label::AvailableNetworks
        } else if same_text(text, STANDARD_BARE_METAL_BANDWIDTH_LABEL) {
            Label::StandardBareMetalBandwidth
        } else if same_text(text, PING_TRACE_ROUTE_LABEL) {
            Label::PingTraceRoute
        } else if same_text(text, CERTIFICATIONS_LABEL) {
            Label::Certifications
        } else if same_text(text, TEST_DOWNLOAD_LABEL) {
            Label::TestDownload
        } else {
            Label::Other
        }
    }
}

/// The services that `links` list, in their order: one for each link that
/// has a title. A title that names no service fails the list.
pub open spec fn listed_services(links: Seq<LinkView>) -> Result<
    Seq<AvailableService>,
    ParseHtmlErrorView,
>
    decreases links.len(),
{
    if links.len() == 0 {
        Ok(Seq::empty())
    } else {
        match listed_services(links.drop_last()) {
            Err(error) => Err(error),
            Ok(services) => match links.last().title {
                None => Ok(services),
                Some(title) => match AvailableService::titled(title) {
                    Some(service) => Ok(services.push(service)),
                    None => Err(ParseHtmlErrorView::UnknownService),
                },
            },
        }
    }
}

/// The address that `text` shows: none where the text is empty or the dash
/// that stands for none, else the address that it is the dotted decimal text
/// of. Any other text fails, and the failure carries it.
pub open spec fn shown_ping(text: Seq<char>) -> Result<Option<Ipv4Address>, ParseHtmlErrorView> {
    if text == NO_PING@ || text.len() == 0 {
        Ok(None)
    } else {
        match Ipv4Address::from_dotted(text) {
            Some(address) => Ok(Some(address)),
            None => Err(ParseHtmlErrorView::InvalidPingAddress(text)),
        }
    }
}

/// The address that the first of `links` leads to, if it names one.
pub open spec fn first_href(links: Seq<LinkView>) -> Option<Seq<char>> {
    if links.len() == 0 {
        None
    } else {
        links[0].href
    }
}

/// The fields of a record that the rows of a table fill.
#[derive(Debug, Clone)]
pub struct Fields {
    pub available_services: Vec<AvailableService>,
    pub standard_bare_metal_bandwidth: Option<String>,
    pub ping: Option<Ipv4Address>,
    pub test_download: Option<String>,
}

/// What [`Fields`] hold, as mathematical values.
#[verifier::ext_equal]
pub struct FieldsView {
    pub available_services: Seq<AvailableService>,
    pub standard_bare_metal_bandwidth: Option<Seq<char>>,
    pub ping: Option<Ipv4Address>,
    pub test_download: Option<Seq<char>>,
}

impl DeepView for Fields {
    type V = FieldsView;

    open spec fn deep_view(&self) -> FieldsView {
        FieldsView {
            available_services: self.available_services@,
            standard_bare_metal_bandwidth: self.standard_bare_metal_bandwidth.deep_view(),
            ping: self.ping,
            test_download: self.test_download.deep_view(),
        }
    }
}

impl View for Fields {
    type V = FieldsView;

    open spec fn view(&self) -> FieldsView {
        self.deep_view()
    }
}

impl FieldsView {
    /// The fields before any row is read: no service, and nothing else.
    pub open spec fn blank() -> FieldsView {
        FieldsView {
            available_services: Seq::empty(),
            standard_bare_metal_bandwidth: None,
            ping: None,
            test_download: None,
        }
    }
}

/// The fields after one more row. A row of other than three cells fails.
/// Else the first cell's markup is the label and the third cell the value:
/// - services are added to those of earlier rows;
/// - a bandwidth tier is the value's markup, unless that is empty;
/// - an address to ping is what the value's markup shows;
/// - a download test is where the value's first link leads, unless the
///   value's markup is empty.
/// Where a row shows nothing, what an earlier row has set stays.
pub open spec fn row_applied(fields: FieldsView, row: RowView) -> Result<
    FieldsView,
    ParseHtmlErrorView,
> {
    if row.cells.len() != ROW_CELLS {
        Err(ParseHtmlErrorView::RowShapeInvalid)
    } else {
        let value = row.cells[2];
        match Label::named(row.cells[0].markup) {
            Label::AvailableServices => match listed_services(value.links) {
                Ok(services) => Ok(
                    FieldsView {
                        available_services: fields.available_services + services,
                        ..fields
                    },
                ),
                Err(error) => Err(error),
            },
            Label::StandardBareMetalBandwidth => if value.markup.len() == 0 {
                Ok(fields)
            } else {
                Ok(FieldsView { standard_bare_metal_bandwidth: Some(value.markup), ..fields })
            },
            Label::PingTraceRoute => match shown_ping(value.markup) {
                Ok(None) => Ok(fields),
                Ok(Some(address)) => Ok(FieldsView { ping: Some(address), ..fields }),
                Err(error) => Err(error),
            },
            Label::TestDownload => if value.markup.len() == 0 {
                Ok(fields)
            } else {
                match first_href(value.links) {
                    Some(href) => Ok(FieldsView { test_download: Some(href), ..fields }),
                    None => Ok(fields),
                }
            },
            Label::AvailableNetworks | Label::Certifications | Label::Other => Ok(fields),
        }
    }
}

/// The fields after the rows in their order, or the failure of the first
/// row that fails.
pub open spec fn rows_applied(fields: FieldsView, rows: Seq<RowView>) -> Result<
    FieldsView,
    ParseHtmlErrorView,
>
    decreases rows.len(),
{
    if rows.len() == 0 {
        Ok(fields)
    } else {
        match rows_applied(fields, rows.drop_last()) {
            Err(error) => Err(error),
            Ok(filled) => row_applied(filled, rows.last()),
        }
    }
}

/// The record of a location block. A block without an identifier fails, then
/// one without a city, then one with a row that fails.
pub open spec fn record_of(location: LocationView) -> Result<DataCenterView, ParseHtmlErrorView> {
    if location.id is None {
        Err(ParseHtmlErrorView::IdMissing)
    } else if location.city is None {
        Err(ParseHtmlErrorView::CityMissing)
    } else {
        match rows_applied(FieldsView::blank(), location.rows) {
            Err(error) => Err(error),
            Ok(fields) => Ok(
                DataCenterView {
                    id: location.id->0,
                    city: location.city->0,
                    available_services: fields.available_services,
                    standard_bare_metal_bandwidth: fields.standard_bare_metal_bandwidth,
                    ping: fields.ping,
                    test_download: fields.test_download,
                    url: first_href(location.detail_links),
                },
            ),
        }
    }
}

/// The records of the location blocks in their order, or the failure of the
/// first block that fails.
pub open spec fn records_of(page: Seq<LocationView>) -> Result<
    Seq<DataCenterView>,
    ParseHtmlErrorView,
>
    decreases page.len(),
{
    if page.len() == 0 {
        Ok(Seq::empty())
    } else {
        match records_of(page.drop_last()) {
            Err(error) => Err(error),
            Ok(records) => match record_of(page.last()) {
                Err(error) => Err(error),
                Ok(record) => Ok(records.push(record)),
            },
        }
    }
}

/// Adds to `services` those that `links` list.
pub fn list_services(links: &Vec<Link>, services: Vec<AvailableService>) -> (listed: Result<
    Vec<AvailableService>,
    ParseHtmlError,
>)
    ensures
        match listed_services(links.deep_view()) {
            Ok(more) => listed matches Ok(all) && all@ == services@ + more,
            Err(error) => listed matches Err(e) && e@ == error,
        },
{
    let mut all = services;
    let mut i: usize = 0;
    while i < links.len()
        invariant
            i <= links.len(),
            listed_services(links.deep_view().take(i as int)) matches Ok(more) && all@
                == services@ + more,
        decreases links.len() - i,
    {
        proof {
            let read = links.deep_view().take(i + 1);
            assert(read.drop_last() =~= links.deep_view().take(i as int));
            assert(read.last() == links[i as int].deep_view());
        }
        match &links[i].title {
            None => {},
            Some(title) => {
                match AvailableService::from_title(title.as_str()) {
                    Some(service) => {
                        all.push(service);
                    },
                    None => {
                        proof {
                            lemma_listed_services_fail_early(links.deep_view(), i + 1);
                        }
                        return Err(ParseHtmlError::UnknownService);
                    },
                }
            },
        }
        i += 1;
    }
    assert(links.deep_view().take(i as int) =~= links.deep_view());
    Ok(all)
}

/// Once the list of a prefix of the links fails, the list of all fails alike.
pub proof fn lemma_listed_services_fail_early(links: Seq<LinkView>, n: int)
    requires
        0 <= n <= links.len(),
        listed_services(links.take(n)) is Err,
    ensures
        listed_services(links) == listed_services(links.take(n)),
    decreases links.len(),
{
    if n == links.len() {
        assert(links.take(n) =~= links);
    } else {
        assert(links.drop_last().take(n) =~= links.take(n));
        lemma_listed_services_fail_early(links.drop_last(), n);
    }
}

/// Reads the address that `text` shows.
pub fn read_ping(text: &str) -> (read: Result<Option<Ipv4Address>, ParseHtmlError>)
    ensures
        match shown_ping(text@) {
            Ok(address) => read == Ok::<Option<Ipv4Address>, ParseHtmlError>(address),
            Err(error) => read matches Err(e) && e@ == error,
        },
{
    if same_text(text, NO_PING) || text.is_empty() {
        return Ok(None);
    }
    match Ipv4Address::parse(text) {
        Some(address) => Ok(Some(address)),
        None => Err(ParseHtmlError::InvalidPingAddress(text.to_owned())),
    }
}

/// The address that the first of `links` leads to, if it names one.
pub fn read_first_href(links: &Vec<Link>) -> (href: Option<String>)
    ensures
        href.deep_view() == first_href(links.deep_view()),
{
    if links.len() == 0 {
        None
    } else {
        links[0].href.clone()
    }
}

impl Fields {
    /// The fields before any row is read.
    pub fn new() -> (fields: Fields)
        ensures
            fields@ == FieldsView::blank(),
    {
        Fields {
            available_services: Vec::new(),
            standard_bare_metal_bandwidth: None,
            ping: None,
            test_download: None,
        }
    }

    /// Reads one more row into the fields.
    pub fn apply_row(self, row: &Row) -> (applied: Result<Fields, ParseHtmlError>)
        ensures
            match row_applied(self@, row@) {
                Ok(fields) => applied matches Ok(f) && f@ == fields,
                Err(error) => applied matches Err(e) && e@ == error,
            },
    {
        if row.cells.len() != ROW_CELLS {
            return Err(ParseHtmlError::RowShapeInvalid);
        }
        let label = Label::from_text(row.cells[0].markup.as_str());
        let value = &row.cells[2];
        assert(row@.cells[0] == row.cells[0]@);
        assert(row@.cells[2] == value@);
        let mut fields = self;
        match label {
            Label::AvailableServices => {
                match list_services(&value.links, fields.available_services) {
                    Ok(services) => {
                        fields.available_services = services;
                    },
                    Err(error) => {
                        return Err(error);
                    },
                }
            },
            Label::StandardBareMetalBandwidth => {
                if !value.markup.as_str().is_empty() {
                    fields.standard_bare_metal_bandwidth = Some(value.markup.clone());
                }
            },
            Label::PingTraceRoute => {
                match read_ping(value.markup.as_str()) {
                    Ok(None) => {},
                    Ok(Some(address)) => {
                        fields.ping = Some(address);
                    },
                    Err(error) => {
                        return Err(error);
                    },
                }
            },
            Label::TestDownload => {
                if !value.markup.as_str().is_empty() {
                    match read_first_href(&value.links) {
                        Some(href) => {
                            fields.test_download = Some(href);
                        },
                        None => {},
                    }
                }
            },
            Label::AvailableNetworks | Label::Certifications | Label::Other => {},
        }
        Ok(fields)
    }
}

/// Once a prefix of the rows fails, all the rows fail alike.
pub proof fn lemma_rows_fail_early(fields: FieldsView, rows: Seq<RowView>, n: int)
    requires
        0 <= n <= rows.len(),
        rows_applied(fields, rows.take(n)) is Err,
    ensures
        rows_applied(fields, rows) == rows_applied(fields, rows.take(n)),
    decreases rows.len(),
{
    if n == rows.len() {
        assert(rows.take(n) =~= rows);
    } else {
        assert(rows.drop_last().take(n) =~= rows.take(n));
        lemma_rows_fail_early(fields, rows.drop_last(), n);
    }
}

/// Reads the record of one location block.
pub fn extract_location(location: &Location) -> (extracted: Result<DataCenter, ParseHtmlError>)
    ensures
        match record_of(location@) {
            Ok(record) => extracted matches Ok(r) && r@ == record,
            Err(error) => extracted matches Err(e) && e@ == error,
        },
{
    let id = match &location.id {
        Some(id) => id.clone(),
        None => {
            return Err(ParseHtmlError::IdMissing);
        },
    };
    let city = match &location.city {
        Some(city) => city.clone(),
        None => {
            return Err(ParseHtmlError::CityMissing);
        },
    };
    let ghost rows = location@.rows;
    let mut fields = Fields::new();
    let mut i: usize = 0;
    while i < location.rows.len()
        invariant
            i <= location.rows.len(),
            location.id is Some,
            location.city is Some,
            rows == location.rows.deep_view(),
            rows_applied(FieldsView::blank(), rows.take(i as int)) == Ok::<
                FieldsView,
                ParseHtmlErrorView,
            >(fields@),
        decreases location.rows.len() - i,
    {
        proof {
            let read = rows.take(i + 1);
            assert(read.drop_last() =~= rows.take(i as int));
            assert(read.last() == location.rows[i as int]@);
        }
        match fields.apply_row(&location.rows[i]) {
            Ok(applied) => {
                fields = applied;
            },
            Err(error) => {
                proof {
                    lemma_rows_fail_early(FieldsView::blank(), rows, i + 1);
                }
                return Err(error);
            },
        }
        i += 1;
    }
    assert(rows.take(i as int) =~= rows);
    let url = read_first_href(&location.detail_links);
    Ok(
        DataCenter {
            id,
            city,
            available_services: fields.available_services,
            standard_bare_metal_bandwidth: fields.standard_bare_metal_bandwidth,
            ping: fields.ping,
            test_download: fields.test_download,
            url,
        },
    )
}

/// Once a prefix of the blocks fails, the whole page fails alike.
pub proof fn lemma_records_fail_early(page: Seq<LocationView>, n: int)
    requires
        0 <= n <= page.len(),
        records_of(page.take(n)) is Err,
    ensures
        records_of(page) == records_of(page.take(n)),
    decreases page.len(),
{
    if n == page.len() {
        assert(page.take(n) =~= page);
    } else {
        assert(page.drop_last().take(n) =~= page.take(n));
        lemma_records_fail_early(page.drop_last(), n);
    }
}

/// Reads the records of all the location blocks of a page, in their order.
/// The first block that fails fails the extraction, which then yields no
/// record at all. A page without blocks yields the empty list.
pub fn extract(page: &Vec<Location>) -> (outcome: Result<Vec<DataCenter>, ParseHtmlError>)
    ensures
        outcome_view(outcome) == records_of(page.deep_view()),
        outcome matches Ok(records) ==> records.len() == page.len(),
        page.len() == 0 ==> (outcome matches Ok(records) && records.len() == 0),
{
    let ghost blocks = page.deep_view();
    let mut records: Vec<DataCenter> = Vec::new();
    let mut i: usize = 0;
    assert(records.deep_view() =~= Seq::<DataCenterView>::empty());
    while i < page.len()
        invariant
            i <= page.len(),
            records.len() == i,
            blocks == page.deep_view(),
            records_of(blocks.take(i as int)) == Ok::<Seq<DataCenterView>, ParseHtmlErrorView>(
                records.deep_view(),
            ),
        decreases page.len() - i,
    {
        proof {
            let read = blocks.take(i + 1);
            assert(read.drop_last() =~= blocks.take(i as int));
            assert(read.last() == page[i as int]@);
        }
        match extract_location(&page[i]) {
            Ok(record) => {
                let ghost before = records.deep_view();
                records.push(record);
                assert(records.deep_view() =~= before.push(record@));
            },
            Err(error) => {
                proof {
                    lemma_records_fail_early(blocks, i + 1);
                }
                return Err(error);
            },
        }
        i += 1;
    }
    assert(blocks.take(i as int) =~= blocks);
    Ok(records)
}

/// Whether each of the first `n` blocks of `page` yields a record.
pub open spec fn all_read_before(page: Seq<LocationView>, n: int) -> bool {
    forall|j: int| 0 <= j < n && j < page.len() ==> (#[trigger] record_of(page[j])) is Ok
}

/// A page without location blocks yields the empty list of records.
pub proof fn lemma_empty_page(page: Seq<LocationView>)
    requires
        page.len() == 0,
    ensures
        records_of(page) == Ok::<Seq<DataCenterView>, ParseHtmlErrorView>(Seq::empty()),
{
}

/// An extraction yields either one record for each block, in the order of
/// the blocks, or the failure of the first block that fails.
pub proof fn lemma_records_in_order(page: Seq<LocationView>)
    ensures
        match records_of(page) {
            Ok(records) => {
                &&& records.len() == page.len()
                &&& forall|i: int|
                    0 <= i < page.len() ==> (#[trigger] record_of(page[i])) == Ok::<
                        DataCenterView,
                        ParseHtmlErrorView,
                    >(records[i])
            },
            Err(error) => exists|k: int|
                {
                    &&& 0 <= k < page.len()
                    &&& (#[trigger] record_of(page[k])) == Err::<
                        DataCenterView,
                        ParseHtmlErrorView,
                    >(error)
                    &&& all_read_before(page, k)
                },
        },
    decreases page.len(),
{
    if page.len() > 0 {
        let front = page.drop_last();
        lemma_records_in_order(front);
        assert forall|j: int| 0 <= j < front.len() implies front[j] == page[j] by {}
        match records_of(front) {
            Ok(records) => {
                match record_of(page.last()) {
                    Ok(record) => {
                        let all = records.push(record);
                        assert forall|i: int| 0 <= i < page.len() implies (#[trigger] record_of(
                            page[i],
                        )) == Ok::<DataCenterView, ParseHtmlErrorView>(all[i]) by {
                            if i < front.len() {
                                assert(record_of(front[i]) == Ok::<
                                    DataCenterView,
                                    ParseHtmlErrorView,
                                >(records[i]));
                            }
                        }
                    },
                    Err(error) => {
                        let k = page.len() - 1;
                        assert forall|j: int| 0 <= j < k && j < page.len() implies (
                        #[trigger] record_of(page[j])) is Ok by {
                            assert(record_of(front[j]) is Ok);
                        }
                        assert(record_of(page[k]) == Err::<DataCenterView, ParseHtmlErrorView>(
                            error,
                        ));
                    },
                }
            },
            Err(error) => {
                let k = choose|k: int|
                    {
                        &&& 0 <= k < front.len()
                        &&& (#[trigger] record_of(front[k])) == Err::<
                            DataCenterView,
                            ParseHtmlErrorView,
                        >(error)
                        &&& all_read_before(front, k)
                    };
                assert forall|j: int| 0 <= j < k && j < page.len() implies (#[trigger] record_of(
                    page[j],
                )) is Ok by {
                    assert(record_of(front[j]) is Ok);
                }
                assert(record_of(page[k]) == Err::<DataCenterView, ParseHtmlErrorView>(error));
            },
        }
    }
}

/// The first block that fails decides the outcome: the extraction fails as
/// that block does, whatever follows it.
pub proof fn lemma_first_failure(page: Seq<LocationView>, k: int)
    requires
        0 <= k < page.len(),
        all_read_before(page, k),
        record_of(page[k]) is Err,
    ensures
        records_of(page) == Err::<Seq<DataCenterView>, ParseHtmlErrorView>(
            record_of(page[k])->Err_0,
        ),
{
    lemma_records_in_order(page);
    match records_of(page) {
        Ok(records) => {
            assert(record_of(page[k]) is Ok);
        },
        Err(error) => {
            let first = choose|first: int|
                {
                    &&& 0 <= first < page.len()
                    &&& (#[trigger] record_of(page[first])) == Err::<
                        DataCenterView,
                        ParseHtmlErrorView,
                    >(error)
                    &&& all_read_before(page, first)
                };
            if first < k {
                assert(record_of(page[first]) is Ok);
            }
            if k < first {
                assert(record_of(page[k]) is Ok);
            }
        },
    }
}

/// A block that fails fails the extraction, wherever it stands: no record
/// is yielded then, not even of the blocks that could be read.
pub proof fn lemma_any_failure_fails_all(page: Seq<LocationView>, k: int)
    requires
        0 <= k < page.len(),
        record_of(page[k]) is Err,
    ensures
        records_of(page) is Err,
{
    lemma_records_in_order(page);
}

/// Where a block carries no identifier, and each block before it yields a
/// record, the extraction fails for the missing identifier.
pub proof fn lemma_missing_id(page: Seq<LocationView>, k: int)
    requires
        0 <= k < page.len(),
        all_read_before(page, k),
        page[k].id is None,
    ensures
        records_of(page) == Err::<Seq<DataCenterView>, ParseHtmlErrorView>(
            ParseHtmlErrorView::IdMissing,
        ),
{
    lemma_first_failure(page, k);
}

/// Where a block carries an identifier and names no city, and each block
/// before it yields a record, the extraction fails for the missing city.
pub proof fn lemma_missing_city(page: Seq<LocationView>, k: int)
    requires
        0 <= k < page.len(),
        all_read_before(page, k),
        page[k].id is Some,
        page[k].city is None,
    ensures
        records_of(page) == Err::<Seq<DataCenterView>, ParseHtmlErrorView>(
            ParseHtmlErrorView::CityMissing,
        ),
{
    lemma_first_failure(page, k);
}

} // verus!
