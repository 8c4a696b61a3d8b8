//! The address of a query over a fixed scheme, for a field list held as
//! owned strings.

use crate::util::urls::{build_url_with_fields, build_url_without_fields, url};
use vstd::prelude::*;

verus! {

/// The text of each field, in order.
pub open spec fn field_texts(fields: Option<&[String]>) -> Option<Seq<Seq<char>>> {
    match fields {
        Some(fields) => Some(fields.deep_view()),
        None => None,
    }
}

/// Builds the address of a query for `ip` over the plaintext scheme, with a
/// field list if `fields` is given.
pub fn build_http_endpoint(ip: &String, fields: Option<&[String]>) -> (address: String)
    ensures
        address@ == url(false, ip@, field_texts(fields)),
{
    match fields {
        Some(fields) => build_endpoint_with_fields(false, ip, fields),
        None => build_endpoint_without_fields(false, ip),
    }
}

/// Builds the address of a query for `ip` over the secure scheme, with a
/// field list if `fields` is given.
pub fn build_https_endpoint(ip: &String, fields: Option<&[String]>) -> (address: String)
    ensures
        address@ == url(true, ip@, field_texts(fields)),
{
    match fields {
        Some(fields) => build_endpoint_with_fields(true, ip, fields),
        None => build_endpoint_without_fields(true, ip),
    }
}

/// Builds the address of a query for `ip` that names no fields.
pub fn build_endpoint_without_fields(https: bool, ip: &String) -> (address: String)
    ensures
        address@ == url(https, ip@, None),
{
    build_url_without_fields(https, ip)
}

/// Builds the address of a query for `ip` that asks for `fields`, and for the
/// message field if `fields` does not name it.
pub fn build_endpoint_with_fields(https: bool, ip: &String, fields: &[String]) -> (address: String)
    ensures
        address@ == url(https, ip@, Some(fields.deep_view())),
{
    let mut borrowed: Vec<&str> = Vec::new();
    let mut i: usize = 0;
    while i < fields.len()
        invariant
            i <= fields@.len(),
            borrowed@.len() == i,
            forall|k: int| 0 <= k < i ==> borrowed@[k]@ == fields@[k]@,
        decreases fields@.len() - i,
    {
        borrowed.push(fields[i].as_str());
        i += 1;
    }
    let texts = borrowed.as_slice();
    assert(texts.deep_view() =~= fields.deep_view());
    build_url_with_fields(https, ip, texts)
}

} // verus!
