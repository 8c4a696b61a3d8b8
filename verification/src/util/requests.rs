//! The shape of a request: its address, its headers and its scheme.
//!
//! A request is described here as plain values. Whoever sends it hands them
//! to the transport.

use crate::client::ClientConfig;
use crate::util::urls::{build_url, url};
use vstd::prelude::*;

verus! {

/// Name of the header that says which answer the client takes.
pub const ACCEPT: &'static str = "Accept";

/// The only kind of answer the client takes.
pub const APPLICATION_JSON: &'static str = "application/json";

/// Name of the header that carries the API key.
pub const AUTHORIZATION: &'static str = "Authorization";

/// What stands before the API key in the value of its header.
pub const BEARER: &'static str = "Bearer ";

/// One header of a request.
#[derive(Debug)]
pub struct Header {
    pub name: String,
    pub value: String,
}

impl DeepView for Header {
    type V = (Seq<char>, Seq<char>);

    open spec fn deep_view(&self) -> (Seq<char>, Seq<char>) {
        (self.name@, self.value@)
    }
}

/// A request that is ready to be sent.
#[derive(Debug)]
pub struct RequestSpec {
    /// The address the request goes to.
    pub url: String,
    /// The headers of the request, in the order they were attached.
    pub headers: Vec<Header>,
    /// Whether the request goes over the secure scheme.
    pub https: bool,
}

/// The text of a [`RequestSpec`].
pub struct RequestSpecView {
    pub url: Seq<char>,
    pub headers: Seq<(Seq<char>, Seq<char>)>,
    pub https: bool,
}

impl View for RequestSpec {
    type V = RequestSpecView;

    open spec fn view(&self) -> RequestSpecView {
        RequestSpecView { url: self.url@, headers: self.headers.deep_view(), https: self.https }
    }
}

/// The headers of a request of a client without a key.
pub open spec fn http_header() -> Seq<(Seq<char>, Seq<char>)> {
    seq![(ACCEPT@, APPLICATION_JSON@)]
}

/// The headers of a request of a client with the key `api_key`.
pub open spec fn https_header(api_key: Seq<char>) -> Seq<(Seq<char>, Seq<char>)> {
    seq![(ACCEPT@, APPLICATION_JSON@), (AUTHORIZATION@, BEARER@ + api_key)]
}

/// The request by which a client with the key `api_key`, or without one, asks
/// for `fields` of `ip`: it goes over the secure scheme exactly if the client
/// has a key, and carries the key exactly then.
pub open spec fn request(api_key: Option<Seq<char>>, ip: Seq<char>, fields: Seq<Seq<char>>)
    -> RequestSpecView {
    RequestSpecView {
        url: url(api_key is Some, ip, Some(fields)),
        headers: match api_key {
            Some(api_key) => https_header(api_key),
            None => http_header(),
        },
        https: api_key is Some,
    }
}

/// Builds the headers of a request of a client without a key.
pub fn build_http_header() -> (headers: Vec<Header>)
    ensures
        headers.deep_view() == http_header(),
{
    let mut headers: Vec<Header> = Vec::new();
    headers.push(Header { name: ACCEPT.to_owned(), value: APPLICATION_JSON.to_owned() });
    assert(headers.deep_view() =~= http_header());
    headers
}

/// Builds the headers of a request of a client with the key `api_key`: those
/// of a client without a key, and after them the one that carries the key.
pub fn build_https_header(api_key: &String) -> (headers: Vec<Header>)
    ensures
        headers.deep_view() == https_header(api_key@),
{
    let mut headers = build_http_header();
    let ghost accept = headers@;
    assert(accept.len() == headers.deep_view().len());
    assert(headers.deep_view()[0] == accept[0].deep_view());
    let mut value = BEARER.to_owned();
    value.append(api_key.as_str());
    headers.push(Header { name: AUTHORIZATION.to_owned(), value });
    assert(headers@[0] == accept[0]);
    assert(headers.deep_view() =~= https_header(api_key@));
    headers
}

/// Builds a request of a client without a key to `url`.
pub fn build_http_get_request(url: &String) -> (request: RequestSpec)
    ensures
        request@ == (RequestSpecView { url: url@, headers: http_header(), https: false }),
{
    RequestSpec { url: url.clone(), headers: build_http_header(), https: false }
}

/// Builds a request of a client with the key `api_key` to `url`.
pub fn build_https_get_request(url: &String, api_key: &String) -> (request: RequestSpec)
    ensures
        request@ == (RequestSpecView { url: url@, headers: https_header(api_key@), https: true }),
{
    RequestSpec { url: url.clone(), headers: build_https_header(api_key), https: true }
}

/// Builds the address by which the client asks for `fields` of `query`.
pub fn get_url(query: &String, config: &ClientConfig, fields: &[&str]) -> (address: String)
    ensures
        address@ == url(config.api_key is Some, query@, Some(fields.deep_view())),
{
    match config.get_api_key() {
        Some(_) => build_url(true, query, Some(fields)),
        None => build_url(false, query, Some(fields)),
    }
}

/// Builds the request by which the client asks for `fields` of `ip`.
pub fn build_request(config: &ClientConfig, ip: &String, fields: &[&str]) -> (built: RequestSpec)
    ensures
        built@ == request(config.key_text(), ip@, fields.deep_view()),
{
    let url = get_url(ip, config, fields);
    match config.get_api_key() {
        Some(api_key) => build_https_get_request(&url, api_key),
        None => build_http_get_request(&url),
    }
}

} // verus!
