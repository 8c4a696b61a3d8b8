//! Builders for the address and the shape of a request.

pub mod endpoints;
pub mod requests;
pub mod urls;
