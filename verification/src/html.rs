//! The page as an endpoint of an HTTP client: the request that asks for it,
//! and the reading of the response.
//!
//! The request and the response are values of the `http` crate, which the
//! `http_api_client_endpoint` crate hands on. What is said of them here is
//! claimed, not proved; what is made of them is proved.

use crate::dom::MAX_SOURCE_BYTES;
use crate::extraction::records_of;
use crate::reader::page_shown;
use crate::record::{DataCenter, DataCenterView, ParseHtmlErrorView};
use http_api_client_endpoint::http::{Error as HttpError, Method, Request, Response};
use vstd::prelude::*;
use vstd::utf8::{decode_utf8, decode_utf8_encode_utf8, valid_utf8};

pub use crate::parse_html;
pub use crate::record::ParseHtmlError;

verus! {

/// The address of the page that lists the data centers.
pub const URL: &'static str = "https://www.thghosting.com/network/data-centers/";

/// An HTTP request, `http::Request`.
#[verifier::external_type_specification]
#[verifier::external_body]
#[verifier::reject_recursive_types(T)]
pub struct ExRequest<T>(http_api_client_endpoint::http::Request<T>);

/// An HTTP response, `http::Response`.
#[verifier::external_type_specification]
#[verifier::external_body]
#[verifier::reject_recursive_types(T)]
pub struct ExResponse<T>(http_api_client_endpoint::http::Response<T>);

/// The error of the `http` crate, `http::Error`.
#[verifier::external_type_specification]
#[verifier::external_body]
pub struct ExHttpError(http_api_client_endpoint::http::Error);

/// The request that asks for `uri` with the method GET and carries `body`,
/// or the reason why there is no such request.
pub uninterp spec fn get_request(uri: Seq<char>, body: Seq<u8>) -> Result<
    Request<Vec<u8>>,
    HttpError,
>;

/// The bytes that `response` carries as its body.
pub uninterp spec fn response_body(response: &Response<Vec<u8>>) -> Seq<u8>;

/// Calls `http::Request::builder` and, on the builder, `method` with
/// `http::Method::GET`, `uri` and `body`. Claimed: the outcome is a function
/// of the address and the body.
#[verifier::external_body]
fn build_get_request(uri: &str, body: Vec<u8>) -> (built: Result<Request<Vec<u8>>, HttpError>)
    ensures
        built == get_request(uri@, body@),
{
    Request::builder().method(Method::GET).uri(uri).body(body)
}

/// Calls `http::Response::body`. Claimed: the bytes are a function of the
/// response.
#[verifier::external_body]
fn body_of(response: &Response<Vec<u8>>) -> (body: &Vec<u8>)
    ensures
        body@ == response_body(response),
{
    response.body()
}

/// Calls `core::str::from_utf8`. Claimed, as its documentation says: the
/// bytes are read as text exactly if they are valid UTF-8, and the text is
/// then the one that they encode.
#[verifier::external_body]
fn text_of(bytes: &[u8]) -> (text: Option<&str>)
    ensures
        text is Some <==> valid_utf8(bytes@),
        text matches Some(decoded) ==> decoded@ == decode_utf8(bytes@),
{
    core::str::from_utf8(bytes).ok()
}

/// The endpoint that serves the page of data centers.
#[derive(Debug, Clone)]
pub struct HtmlEndpoint;

/// Why the endpoint could not be asked, or its answer not be read.
#[derive(Debug)]
pub enum HtmlEndpointError {
    /// The request could not be made.
    MakeRequestFailed(HttpError),
    /// The body of the response is no UTF-8 text.
    ResponseBodyInvalid,
    /// The page could not be read as a list of data centers.
    ParseHtmlError(ParseHtmlError),
}

/// What an [`HtmlEndpointError`] holds, as mathematical values.
#[verifier::ext_equal]
pub enum HtmlEndpointErrorView {
    MakeRequestFailed(HttpError),
    ResponseBodyInvalid,
    ParseHtmlError(ParseHtmlErrorView),
}

impl View for HtmlEndpointError {
    type V = HtmlEndpointErrorView;

    open spec fn view(&self) -> HtmlEndpointErrorView {
        match self {
            HtmlEndpointError::MakeRequestFailed(error) => HtmlEndpointErrorView::MakeRequestFailed(
                *error,
            ),
            HtmlEndpointError::ResponseBodyInvalid => HtmlEndpointErrorView::ResponseBodyInvalid,
            HtmlEndpointError::ParseHtmlError(error) => HtmlEndpointErrorView::ParseHtmlError(
                error@,
            ),
        }
    }
}

/// What the outcome of reading a response holds, as mathematical values.
pub open spec fn response_outcome_view(
    outcome: Result<Vec<DataCenter>, HtmlEndpointError>,
) -> Result<Seq<DataCenterView>, HtmlEndpointErrorView> {
    match outcome {
        Ok(records) => Ok(records.deep_view()),
        Err(error) => Err(error@),
    }
}

/// The request that asks for the page, or the failure to make it.
pub open spec fn page_request() -> Result<Request<Vec<u8>>, HtmlEndpointErrorView> {
    match get_request(URL@, Seq::empty()) {
        Ok(request) => Ok(request),
        Err(error) => Err(HtmlEndpointErrorView::MakeRequestFailed(error)),
    }
}

/// What the body of a response is read as: the records of the page that it
/// is the source of. A body that is no UTF-8 text is invalid.
pub open spec fn body_read(body: Seq<u8>) -> Result<Seq<DataCenterView>, HtmlEndpointErrorView> {
    if !valid_utf8(body) {
        Err(HtmlEndpointErrorView::ResponseBodyInvalid)
    } else {
        match records_of(page_shown(decode_utf8(body))) {
            Ok(records) => Ok(records),
            Err(error) => Err(HtmlEndpointErrorView::ParseHtmlError(error)),
        }
    }
}

impl HtmlEndpoint {
    /// The request that asks for the page: a GET of [`URL`] with an empty
    /// body.
    pub fn render_request(&self) -> (rendered: Result<Request<Vec<u8>>, HtmlEndpointError>)
        ensures
            match page_request() {
                Ok(request) => rendered matches Ok(made) && made == request,
                Err(error) => rendered matches Err(found) && found@ == error,
            },
    {
        match build_get_request(URL, Vec::new()) {
            Ok(request) => Ok(request),
            Err(error) => Err(HtmlEndpointError::MakeRequestFailed(error)),
        }
    }

    /// Reads the data centers from the body of a response. The body is to be
    /// no longer than [`MAX_SOURCE_BYTES`].
    pub fn parse_body(&self, body: &[u8]) -> (parsed: Result<Vec<DataCenter>, HtmlEndpointError>)
        requires
            body@.len() <= MAX_SOURCE_BYTES,
        ensures
            response_outcome_view(parsed) == body_read(body@),
    {
        let html = match text_of(body) {
            Some(html) => html,
            None => {
                return Err(HtmlEndpointError::ResponseBodyInvalid);
            },
        };
        proof {
            // The text is as long as the bytes that encode it.
            decode_utf8_encode_utf8(body@);
        }
        match parse_html(html) {
            Ok(records) => Ok(records),
            Err(error) => Err(HtmlEndpointError::ParseHtmlError(error)),
        }
    }

    /// Reads the data centers from a response. Its body is to be no longer
    /// than [`MAX_SOURCE_BYTES`]; [`HtmlEndpoint::parse_response_within_limit`]
    /// takes any response.
    pub fn parse_response(&self, response: Response<Vec<u8>>) -> (parsed: Result<
        Vec<DataCenter>,
        HtmlEndpointError,
    >)
        requires
            response_body(&response).len() <= MAX_SOURCE_BYTES,
        ensures
            response_outcome_view(parsed) == body_read(response_body(&response)),
    {
        self.parse_body(body_of(&response).as_slice())
    }

    /// Reads the data centers from a response, unless its body is longer
    /// than [`MAX_SOURCE_BYTES`]: such a response is not read at all.
    pub fn parse_response_within_limit(&self, response: Response<Vec<u8>>) -> (parsed: Option<
        Result<Vec<DataCenter>, HtmlEndpointError>,
    >)
        ensures
            parsed is Some <==> response_body(&response).len() <= MAX_SOURCE_BYTES,
            parsed matches Some(read) ==> response_outcome_view(read) == body_read(
                response_body(&response),
            ),
    {
        if body_of(&response).len() <= MAX_SOURCE_BYTES {
            Some(self.parse_response(response))
        } else {
            None
        }
    }
}

} // verus!
