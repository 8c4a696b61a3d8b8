//! Fixed strings of the upstream service.

use vstd::prelude::*;

verus! {

/// Host prefix of the plaintext endpoint.
pub const HTTP_HOST: &'static str = "http://ip-api.com/json/";

/// Host prefix of the secure endpoint.
pub const HTTPS_HOST: &'static str = "https://ip-api.com/json/";

/// Failure message the upstream sends for an address in a reserved range.
pub const ERROR_RESERVED_RANGE: &'static str = "reserved range";

/// Failure message the upstream sends for a query it cannot interpret.
pub const ERROR_INVALID_QUERY: &'static str = "invalid query";

} // verus!
