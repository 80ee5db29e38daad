use thghosting_data_centers::ipv4::Ipv4Address;
use thghosting_data_centers::{parse_html, AvailableService, DataCenter, ParseHtmlError};

/// A page in the layout of the provider's, with three location blocks.
fn page_source(detail_host: &str) -> String {
    format!(
        r#"<!DOCTYPE html>
<html>
<head><title>Data Centers</title></head>
<body>
<div class="container">
  <h1>Data Centers</h1>
  <div class="location" id="amsterdam">
    <h4 class="dc-city">Amsterdam</h4>
    <table class="table">
      <tbody>
        <tr><td>Available Services</td><td>:</td><td><a href="/bare-metal/" title="Bare Metal Servers"><i class="icon"></i></a><a href="/cloud/" title="Private Cloud"><i class="icon"></i></a></td></tr>
        <tr><td>Available Networks</td><td>:</td><td><span>Premium</span></td></tr>
        <tr><td>Standard Bare Metal Bandwidth</td><td>:</td><td>50TB</td></tr>
        <tr><td>Ping/Trace Route</td><td>:</td><td>-</td></tr>
        <tr><td>Certifications</td><td>:</td><td>ISO 27001</td></tr>
        <tr><td>Test Download</td><td>:</td><td></td></tr>
      </tbody>
    </table>
  </div>
  <div class="location" id="london">
    <h4 class="dc-city">London</h4>
    <span class="popover-container"><a href="https://{host}/us/data-center/london">More about London</a></span>
    <table class="table">
      <tbody>
        <tr><td>Available Services</td><td>:</td><td><a href="/bare-metal/" title="Bare Metal Servers"><i class="icon"></i></a><a href="/virtual/" title="Virtual Servers"><i class="icon"></i></a></td></tr>
        <tr><td>Available Networks</td><td>:</td><td><span>Premium</span>, <span>Volume</span></td></tr>
        <tr><td>Standard Bare Metal Bandwidth</td><td>:</td><td>100TB</td></tr>
        <tr><td>Ping/Trace Route</td><td>:</td><td>82.163.78.28</td></tr>
        <tr><td>Certifications</td><td>:</td><td>ISO 27001, PCI DSS</td></tr>
        <tr><td>Test Download</td><td>:</td><td><a href="http://82.163.78.28/speedtest.256mb">256MB</a></td></tr>
      </tbody>
    </table>
  </div>
  <div class="location" id="tokyo">
    <h4 class="dc-city">Tokyo</h4>
    <span class="popover-container"><a href="https://{host}/us/data-center/tokyo">More about Tokyo</a></span>
    <table class="table">
      <tbody>
        <tr><td>Available Services</td><td>:</td><td><a href="/virtual/" title="Virtual Servers"><i class="icon"></i></a></td></tr>
        <tr><td>Standard Bare Metal Bandwidth</td><td>:</td><td></td></tr>
        <tr><td>Ping/Trace Route</td><td>:</td><td></td></tr>
        <tr><td>Test Download</td><td>:</td><td><a href="http://103.13.120.4/speedtest.256mb">256MB</a></td></tr>
      </tbody>
    </table>
  </div>
</div>
</body>
</html>
"#,
        host = detail_host
    )
}

/// A page with one location block that holds the given rows.
fn page_with_rows(rows: &str) -> String {
    format!(
        "<html><body><div class=\"location\" id=\"london\"><span class=\"dc-city\">London</span>\
         <table>{}</table></div></body></html>",
        rows
    )
}

fn only_record(html: &str) -> DataCenter {
    let mut records = parse_html(html).unwrap();
    assert_eq!(records.len(), 1);
    records.remove(0)
}

#[test]
fn lib_test_parse_html() {
    let html = page_source("info.thghosting.com");

    let data_centers = parse_html(&html).unwrap();

    println!("{:?}", data_centers);

    let dc_london = data_centers.iter().find(|dc| dc.id == "london").unwrap();
    assert_eq!(dc_london.city, "London");
    assert_eq!(
        dc_london.available_services,
        vec![
            AvailableService::BareMetalServers,
            AvailableService::VirtualServers
        ]
    );
    assert_eq!(
        dc_london.standard_bare_metal_bandwidth,
        Some("100TB".to_owned())
    );
    assert_eq!(dc_london.ping, Some("82.163.78.28".parse().unwrap()));
    assert_eq!(
        dc_london.test_download,
        Some("http://82.163.78.28/speedtest.256mb".to_owned())
    );
    assert_eq!(
        dc_london.url,
        Some("https://info.thghosting.com/us/data-center/london".to_owned())
    );
}

#[test]
fn html_test_parse_html() {
    let html = page_source("info.ingenuitycloudservices.com");

    let data_centers = thghosting_data_centers::html::parse_html(&html).unwrap();

    println!("{:?}", data_centers);

    let dc_london = data_centers.iter().find(|dc| dc.id == "london").unwrap();
    assert_eq!(dc_london.city, "London");
    assert_eq!(
        dc_london.available_services,
        vec![
            AvailableService::BareMetalServers,
            AvailableService::VirtualServers
        ]
    );
    assert_eq!(
        dc_london.standard_bare_metal_bandwidth,
        Some("100TB".to_owned())
    );
    assert_eq!(dc_london.ping, Some("82.163.78.28".parse().unwrap()));
    assert_eq!(
        dc_london.test_download,
        Some("http://82.163.78.28/speedtest.256mb".to_owned())
    );
    assert_eq!(
        dc_london.url,
        Some("https://info.ingenuitycloudservices.com/us/data-center/london".to_owned())
    );
}

#[test]
fn records_come_in_the_order_of_the_blocks() {
    let records = parse_html(&page_source("info.thghosting.com")).unwrap();
    let ids: Vec<&str> = records.iter().map(|dc| dc.id.as_str()).collect();
    assert_eq!(ids, vec!["amsterdam", "london", "tokyo"]);
    assert_eq!(records[0].city, "Amsterdam");
    assert_eq!(
        records[0].available_services,
        vec![AvailableService::BareMetalServers, AvailableService::PrivateCloud]
    );
    assert_eq!(records[0].standard_bare_metal_bandwidth, Some("50TB".to_owned()));
    assert_eq!(records[0].ping, None);
    assert_eq!(records[0].test_download, None);
    assert_eq!(records[0].url, None);
    assert_eq!(records[2].available_services, vec![AvailableService::VirtualServers]);
    assert_eq!(records[2].standard_bare_metal_bandwidth, None);
    assert_eq!(records[2].ping, None);
    assert_eq!(
        records[2].test_download,
        Some("http://103.13.120.4/speedtest.256mb".to_owned())
    );
    assert_eq!(
        records[2].url,
        Some("https://info.thghosting.com/us/data-center/tokyo".to_owned())
    );
}

#[test]
fn page_without_location_blocks_yields_no_record() {
    assert_eq!(parse_html(""), Ok(vec![]));
    assert_eq!(parse_html("<html><body><p>Nothing here</p></body></html>"), Ok(vec![]));
    assert_eq!(
        parse_html("<html><body><div class=\"place\" id=\"london\"></div></body></html>"),
        Ok(vec![])
    );
    // The class alone does not make a block: it has to be a `div`.
    assert_eq!(
        parse_html("<html><body><span class=\"location\"></span></body></html>"),
        Ok(vec![])
    );
}

#[test]
fn block_without_identifier_fails() {
    let html = "<html><body><div class=\"location\"><span class=\"dc-city\">London</span>\
                </div></body></html>";
    assert_eq!(parse_html(html), Err(ParseHtmlError::IdMissing));
}

#[test]
fn block_without_identifier_fails_after_good_blocks() {
    let html = "<html><body>\
                <div class=\"location\" id=\"paris\"><span class=\"dc-city\">Paris</span></div>\
                <div class=\"location\"><span class=\"dc-city\">London</span></div>\
                </body></html>";
    assert_eq!(parse_html(html), Err(ParseHtmlError::IdMissing));
}

#[test]
fn block_without_city_fails() {
    let html = "<html><body><div class=\"location\" id=\"london\"><table></table></div>\
                </body></html>";
    assert_eq!(parse_html(html), Err(ParseHtmlError::CityMissing));
}

#[test]
fn missing_identifier_is_found_before_missing_city() {
    let html = "<html><body><div class=\"location\"></div></body></html>";
    assert_eq!(parse_html(html), Err(ParseHtmlError::IdMissing));
}

#[test]
fn first_failing_block_decides() {
    let html = "<html><body>\
                <div class=\"location\" id=\"paris\"></div>\
                <div class=\"location\"><span class=\"dc-city\">London</span></div>\
                </body></html>";
    assert_eq!(parse_html(html), Err(ParseHtmlError::CityMissing));
}

#[test]
fn block_with_identifier_and_city_alone_is_a_record() {
    let html = "<html><body><div class=\"location\" id=\"paris\">\
                <span class=\"dc-city\">Paris</span></div></body></html>";
    assert_eq!(
        parse_html(html),
        Ok(vec![DataCenter {
            id: "paris".to_owned(),
            city: "Paris".to_owned(),
            available_services: vec![],
            standard_bare_metal_bandwidth: None,
            ping: None,
            test_download: None,
            url: None,
        }])
    );
}

#[test]
fn city_is_the_first_label() {
    let html = "<html><body><div class=\"location\" id=\"paris\">\
                <span class=\"dc-city\">Paris</span><span class=\"dc-city\">Lyon</span>\
                </div></body></html>";
    assert_eq!(only_record(html).city, "Paris");
}

#[test]
fn services_are_listed_in_order() {
    let html = page_with_rows(
        "<tr><td>Available Services</td><td>:</td><td>\
         <a title=\"Bare Metal Servers\">b</a><a title=\"Virtual Servers\">v</a></td></tr>",
    );
    assert_eq!(
        only_record(&html).available_services,
        vec![AvailableService::BareMetalServers, AvailableService::VirtualServers]
    );
    let html = page_with_rows(
        "<tr><td>Available Services</td><td>:</td><td>\
         <a title=\"Virtual Servers\">v</a><a title=\"Private Cloud\">p</a>\
         <a title=\"Bare Metal Servers\">b</a><a title=\"Virtual Servers\">v</a></td></tr>",
    );
    assert_eq!(
        only_record(&html).available_services,
        vec![
            AvailableService::VirtualServers,
            AvailableService::PrivateCloud,
            AvailableService::BareMetalServers,
            AvailableService::VirtualServers
        ]
    );
}

#[test]
fn link_without_title_lists_no_service() {
    let html = page_with_rows(
        "<tr><td>Available Services</td><td>:</td><td>\
         <a href=\"/more\">more</a><a title=\"Private Cloud\">p</a></td></tr>",
    );
    assert_eq!(only_record(&html).available_services, vec![AvailableService::PrivateCloud]);
}

#[test]
fn unknown_service_fails() {
    let html = page_with_rows(
        "<tr><td>Available Services</td><td>:</td><td>\
         <a title=\"Bare Metal Servers\">b</a><a title=\"Colocation\">c</a></td></tr>",
    );
    assert_eq!(parse_html(&html), Err(ParseHtmlError::UnknownService));
    let html = page_with_rows(
        "<tr><td>Available Services</td><td>:</td><td><a title=\"virtual servers\">v</a></td></tr>",
    );
    assert_eq!(parse_html(&html), Err(ParseHtmlError::UnknownService));
}

#[test]
fn services_of_several_rows_add_up() {
    let html = page_with_rows(
        "<tr><td>Available Services</td><td>:</td><td><a title=\"Private Cloud\">p</a></td></tr>\
         <tr><td>Available Services</td><td>:</td><td><a title=\"Virtual Servers\">v</a></td></tr>",
    );
    assert_eq!(
        only_record(&html).available_services,
        vec![AvailableService::PrivateCloud, AvailableService::VirtualServers]
    );
}

#[test]
fn ping_placeholder_is_no_address() {
    let html = page_with_rows("<tr><td>Ping/Trace Route</td><td>:</td><td>-</td></tr>");
    assert_eq!(only_record(&html).ping, None);
    let html = page_with_rows("<tr><td>Ping/Trace Route</td><td>:</td><td></td></tr>");
    assert_eq!(only_record(&html).ping, None);
}

#[test]
fn ping_address_is_read() {
    let html = page_with_rows("<tr><td>Ping/Trace Route</td><td>:</td><td>82.163.78.28</td></tr>");
    assert_eq!(only_record(&html).ping, Some(Ipv4Address::new(82, 163, 78, 28)));
}

#[test]
fn invalid_ping_address_fails_with_its_text() {
    let html = page_with_rows("<tr><td>Ping/Trace Route</td><td>:</td><td>not-an-ip</td></tr>");
    assert_eq!(
        parse_html(&html),
        Err(ParseHtmlError::InvalidPingAddress("not-an-ip".to_owned()))
    );
    let html = page_with_rows("<tr><td>Ping/Trace Route</td><td>:</td><td> 82.163.78.28</td></tr>");
    assert_eq!(
        parse_html(&html),
        Err(ParseHtmlError::InvalidPingAddress(" 82.163.78.28".to_owned()))
    );
    let html =
        page_with_rows("<tr><td>Ping/Trace Route</td><td>:</td><td><b>82.163.78.28</b></td></tr>");
    assert_eq!(
        parse_html(&html),
        Err(ParseHtmlError::InvalidPingAddress("<b>82.163.78.28</b>".to_owned()))
    );
}

#[test]
fn bandwidth_is_read_verbatim() {
    let html =
        page_with_rows("<tr><td>Standard Bare Metal Bandwidth</td><td>:</td><td></td></tr>");
    assert_eq!(only_record(&html).standard_bare_metal_bandwidth, None);
    let html =
        page_with_rows("<tr><td>Standard Bare Metal Bandwidth</td><td>:</td><td>100TB</td></tr>");
    assert_eq!(only_record(&html).standard_bare_metal_bandwidth, Some("100TB".to_owned()));
    let html = page_with_rows(
        "<tr><td>Standard Bare Metal Bandwidth</td><td>:</td><td> 100 <b>TB</b> </td></tr>",
    );
    assert_eq!(
        only_record(&html).standard_bare_metal_bandwidth,
        Some(" 100 <b>TB</b> ".to_owned())
    );
}

#[test]
fn blank_row_keeps_what_an_earlier_row_has_set() {
    let html = page_with_rows(
        "<tr><td>Standard Bare Metal Bandwidth</td><td>:</td><td>100TB</td></tr>\
         <tr><td>Standard Bare Metal Bandwidth</td><td>:</td><td></td></tr>\
         <tr><td>Ping/Trace Route</td><td>:</td><td>10.0.0.1</td></tr>\
         <tr><td>Ping/Trace Route</td><td>:</td><td>-</td></tr>",
    );
    let record = only_record(&html);
    assert_eq!(record.standard_bare_metal_bandwidth, Some("100TB".to_owned()));
    assert_eq!(record.ping, Some(Ipv4Address::new(10, 0, 0, 1)));
}

#[test]
fn later_row_replaces_an_earlier_one() {
    let html = page_with_rows(
        "<tr><td>Standard Bare Metal Bandwidth</td><td>:</td><td>100TB</td></tr>\
         <tr><td>Standard Bare Metal Bandwidth</td><td>:</td><td>20TB</td></tr>",
    );
    assert_eq!(only_record(&html).standard_bare_metal_bandwidth, Some("20TB".to_owned()));
}

#[test]
fn test_download_is_the_first_link() {
    let html = page_with_rows(
        "<tr><td>Test Download</td><td>:</td><td>\
         <a href=\"http://82.163.78.28/speedtest.256mb\">256MB</a>\
         <a href=\"http://82.163.78.28/speedtest.1gb\">1GB</a></td></tr>",
    );
    assert_eq!(
        only_record(&html).test_download,
        Some("http://82.163.78.28/speedtest.256mb".to_owned())
    );
}

#[test]
fn test_download_without_link_is_absent() {
    let html = page_with_rows("<tr><td>Test Download</td><td>:</td><td></td></tr>");
    assert_eq!(only_record(&html).test_download, None);
    let html = page_with_rows("<tr><td>Test Download</td><td>:</td><td>soon</td></tr>");
    assert_eq!(only_record(&html).test_download, None);
    let html = page_with_rows("<tr><td>Test Download</td><td>:</td><td><a>256MB</a></td></tr>");
    assert_eq!(only_record(&html).test_download, None);
    let html = page_with_rows(
        "<tr><td>Test Download</td><td>:</td><td><a>256MB</a><a href=\"/second\">1GB</a></td></tr>",
    );
    assert_eq!(only_record(&html).test_download, None);
}

#[test]
fn row_of_other_than_three_cells_fails() {
    let html = page_with_rows("<tr><td>Ping/Trace Route</td><td>-</td></tr>");
    assert_eq!(parse_html(&html), Err(ParseHtmlError::RowShapeInvalid));
    let html = page_with_rows("<tr><td>Ping/Trace Route</td><td>:</td><td>-</td><td></td></tr>");
    assert_eq!(parse_html(&html), Err(ParseHtmlError::RowShapeInvalid));
    let html = page_with_rows("<tr></tr>");
    assert_eq!(parse_html(&html), Err(ParseHtmlError::RowShapeInvalid));
    let html = page_with_rows("<tr><th>Attribute</th><th></th><th>Value</th></tr>");
    assert_eq!(parse_html(&html), Err(ParseHtmlError::RowShapeInvalid));
}

#[test]
fn row_shape_is_checked_whatever_the_label() {
    let html = page_with_rows("<tr><td>Opening Hours</td><td>always</td></tr>");
    assert_eq!(parse_html(&html), Err(ParseHtmlError::RowShapeInvalid));
}

#[test]
fn first_failing_row_decides() {
    let html = page_with_rows(
        "<tr><td>Ping/Trace Route</td><td>:</td><td>nowhere</td></tr>\
         <tr><td>Ping/Trace Route</td><td>-</td></tr>",
    );
    assert_eq!(
        parse_html(&html),
        Err(ParseHtmlError::InvalidPingAddress("nowhere".to_owned()))
    );
    let html = page_with_rows(
        "<tr><td>Ping/Trace Route</td><td>-</td></tr>\
         <tr><td>Ping/Trace Route</td><td>:</td><td>nowhere</td></tr>",
    );
    assert_eq!(parse_html(&html), Err(ParseHtmlError::RowShapeInvalid));
}

#[test]
fn other_labels_are_passed_over() {
    let html = page_with_rows(
        "<tr><td>Available Networks</td><td>:</td><td><a title=\"Colocation\">c</a></td></tr>\
         <tr><td>Certifications</td><td>:</td><td>not-an-ip</td></tr>\
         <tr><td>Opening Hours</td><td>:</td><td>always</td></tr>\
         <tr><td>ping/trace route</td><td>:</td><td>not-an-ip</td></tr>\
         <tr><td> Ping/Trace Route</td><td>:</td><td>not-an-ip</td></tr>",
    );
    assert_eq!(
        only_record(&html),
        DataCenter {
            id: "london".to_owned(),
            city: "London".to_owned(),
            available_services: vec![],
            standard_bare_metal_bandwidth: None,
            ping: None,
            test_download: None,
            url: None,
        }
    );
}

#[test]
fn detail_link_is_the_first_in_its_container() {
    let html = "<html><body><div class=\"location\" id=\"london\">\
                <span class=\"dc-city\">London</span>\
                <a href=\"/elsewhere\">elsewhere</a>\
                <div class=\"popover-container\"><p><a href=\"/london\">London</a></p>\
                <a href=\"/again\">again</a></div></div></body></html>";
    assert_eq!(only_record(html).url, Some("/london".to_owned()));
    let html = "<html><body><div class=\"location\" id=\"london\">\
                <span class=\"dc-city\">London</span>\
                <div class=\"popover-container\"><a>London</a><a href=\"/again\">again</a></div>\
                </div></body></html>";
    assert_eq!(only_record(html).url, None);
}

#[test]
fn one_block_end_to_end() {
    let html = "<html><body><div class=\"location\" id=\"london\">\
                <span class=\"dc-city\">London</span>\
                <div class=\"popover-container\">\
                <a href=\"https://example.com/us/data-center/london\">London</a></div>\
                <table>\
                <tr><td>Available Services</td><td>:</td><td>\
                <a title=\"Bare Metal Servers\">b</a><a title=\"Virtual Servers\">v</a></td></tr>\
                <tr><td>Standard Bare Metal Bandwidth</td><td>:</td><td>100TB</td></tr>\
                <tr><td>Ping/Trace Route</td><td>:</td><td>82.163.78.28</td></tr>\
                <tr><td>Test Download</td><td>:</td><td>\
                <a href=\"http://82.163.78.28/speedtest.256mb\">256MB</a></td></tr>\
                </table></div></body></html>";
    assert_eq!(
        parse_html(html),
        Ok(vec![DataCenter {
            id: "london".to_owned(),
            city: "London".to_owned(),
            available_services: vec![
                AvailableService::BareMetalServers,
                AvailableService::VirtualServers
            ],
            standard_bare_metal_bandwidth: Some("100TB".to_owned()),
            ping: Some(Ipv4Address::new(82, 163, 78, 28)),
            test_download: Some("http://82.163.78.28/speedtest.256mb".to_owned()),
            url: Some("https://example.com/us/data-center/london".to_owned()),
        }])
    );
}

#[test]
fn reading_twice_yields_the_same() {
    let html = page_source("info.thghosting.com");
    assert_eq!(parse_html(&html), parse_html(&html));
    let bad = page_with_rows("<tr><td>Ping/Trace Route</td><td>:</td><td>nowhere</td></tr>");
    assert_eq!(parse_html(&bad), parse_html(&bad));
}

#[test]
fn null_character_in_a_text_area_becomes_three_bytes() {
    let html = "<html><body><div class=\"location\" id=\"london\">\
                <textarea class=\"dc-city\">\0\0</textarea></div></body></html>";
    let city = only_record(html).city;
    assert_eq!(city, "\u{fffd}\u{fffd}");
    assert_eq!(city.len(), 6);
}

#[test]
fn blocks_that_the_parser_moves_come_in_its_order() {
    // A block inside a table, but outside its cells, is moved before the table.
    let html = "<html><body><table><tr><td>\
                <div class=\"location\" id=\"inner\"><b class=\"dc-city\">Inner</b></div>\
                </td></tr>\
                <div class=\"location\" id=\"moved\"><b class=\"dc-city\">Moved</b></div>\
                </table></body></html>";
    let records = parse_html(html).unwrap();
    let ids: Vec<&str> = records.iter().map(|dc| dc.id.as_str()).collect();
    assert_eq!(ids, vec!["inner", "moved"]);
}
