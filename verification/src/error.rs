//! The ways a query can fail.

use crate::model::ip_response::{ErrorResponse, ErrorResponseView};
use vstd::prelude::*;
use vstd::std_specs::convert::FromSpecImpl;

verus! {

/// The failure `serde_json` reports when a text does not decode; opaque here.
#[verifier::external_type_specification]
#[verifier::external_body]
pub struct ExJsonError(serde_json::Error);

/// The failure `reqwest` reports when a request cannot be carried out; opaque
/// here.
#[verifier::external_type_specification]
#[verifier::external_body]
pub struct ExTransportError(reqwest::Error);

/// Every way a query can fail.
#[derive(Debug)]
pub enum IpApiError {
    /// The upstream rejected the address because it lies in a reserved range.
    ReservedRange(ErrorResponse),
    /// The upstream could not interpret the query.
    InvalidQuery(ErrorResponse),
    /// The body did not decode into the shape that was expected of it.
    JsonParseError(serde_json::Error),
    /// The request could not be carried out.
    ReqwestError(reqwest::Error),
    /// The upstream reported a failure with a message this library does not
    /// know; holds the whole body.
    Unknown(String),
}

/// The text of an [`IpApiError`]. The failures of the decoder and of the
/// transport stand for themselves.
pub enum IpApiErrorView {
    ReservedRange(ErrorResponseView),
    InvalidQuery(ErrorResponseView),
    JsonParseError(serde_json::Error),
    ReqwestError(reqwest::Error),
    Unknown(Seq<char>),
}

impl View for IpApiError {
    type V = IpApiErrorView;

    open spec fn view(&self) -> IpApiErrorView {
        match *self {
            IpApiError::ReservedRange(response) => IpApiErrorView::ReservedRange(response@),
            IpApiError::InvalidQuery(response) => IpApiErrorView::InvalidQuery(response@),
            IpApiError::JsonParseError(error) => IpApiErrorView::JsonParseError(error),
            IpApiError::ReqwestError(error) => IpApiErrorView::ReqwestError(error),
            IpApiError::Unknown(body) => IpApiErrorView::Unknown(body@),
        }
    }
}

/// The text of the result of a query: the answer itself, or the text of the
/// error.
pub open spec fn result_view<T>(result: Result<T, IpApiError>) -> Result<T, IpApiErrorView> {
    match result {
        Ok(answer) => Ok(answer),
        Err(error) => Err(error@),
    }
}

impl From<serde_json::Error> for IpApiError {
    fn from(error: serde_json::Error) -> (wrapped: IpApiError) {
        IpApiError::JsonParseError(error)
    }
}

impl FromSpecImpl<serde_json::Error> for IpApiError {
    open spec fn obeys_from_spec() -> bool {
        true
    }

    open spec fn from_spec(error: serde_json::Error) -> IpApiError {
        IpApiError::JsonParseError(error)
    }
}

impl From<reqwest::Error> for IpApiError {
    fn from(error: reqwest::Error) -> (wrapped: IpApiError) {
        IpApiError::ReqwestError(error)
    }
}

impl FromSpecImpl<reqwest::Error> for IpApiError {
    open spec fn obeys_from_spec() -> bool {
        true
    }

    open spec fn from_spec(error: reqwest::Error) -> IpApiError {
        IpApiError::ReqwestError(error)
    }
}

} // verus!
