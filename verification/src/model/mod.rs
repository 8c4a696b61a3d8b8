//! Data carried in the upstream's responses.

pub mod ip_response;
