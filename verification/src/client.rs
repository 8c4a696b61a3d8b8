//! What a client is configured with: an API key, or a quota.

use crate::limiter::{permits_per_minute, QuotaLimiter, PERMITS_PER_MINUTE};
use vstd::prelude::*;

verus! {

/// The configuration of one client. It is made once and read by every query.
///
/// A client with a key is authenticated: the upstream limits it by the key,
/// and it has no limiter of its own. A client without a key is held to the
/// quota of its limiter.
pub struct ClientConfig {
    /// The API key, if the client is authenticated.
    pub api_key: Option<String>,
    /// The limiter, if the client is not authenticated.
    pub limiter: Option<QuotaLimiter>,
}

impl ClientConfig {
    /// The text of the API key, if the client has one.
    pub open spec fn key_text(&self) -> Option<Seq<char>> {
        match self.api_key {
            Some(api_key) => Some(api_key@),
            None => None,
        }
    }

    /// A client has either a key or a limiter, never both and never neither.
    pub open spec fn wf(&self) -> bool {
        self.api_key is Some <==> self.limiter is None
    }

    /// Configures a client without a key, limited to
    /// [`PERMITS_PER_MINUTE`] requests per minute.
    pub fn new() -> (config: ClientConfig)
        ensures
            config.wf(),
            config.api_key is None,
            config.limiter is Some,
            permits_per_minute(config.limiter->0) == PERMITS_PER_MINUTE,
    {
        ClientConfig { api_key: None, limiter: Some(QuotaLimiter::per_minute(PERMITS_PER_MINUTE)) }
    }

    /// Configures an authenticated client, which has no limiter.
    pub fn new_with_api_key(api_key: String) -> (config: ClientConfig)
        ensures
            config.wf(),
            config.api_key == Some(api_key),
            config.limiter is None,
    {
        ClientConfig { api_key: Some(api_key), limiter: None }
    }

    /// The API key, if the client is authenticated.
    pub fn get_api_key(&self) -> (api_key: &Option<String>)
        ensures
            *api_key == self.api_key,
    {
        &self.api_key
    }

    /// The limiter, if the client is not authenticated.
    pub fn get_rate_limiter(&self) -> (limiter: &Option<QuotaLimiter>)
        ensures
            *limiter == self.limiter,
    {
        &self.limiter
    }
}

impl Default for ClientConfig {
    /// The configuration of a client without a key.
    fn default() -> (config: ClientConfig)
        ensures
            config.wf(),
            config.api_key is None,
            config.limiter is Some,
            permits_per_minute(config.limiter->0) == PERMITS_PER_MINUTE,
    {
        ClientConfig::new()
    }
}

} // verus!
