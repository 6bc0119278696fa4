//! Client configuration.

use vstd::prelude::*;
use crate::time::{Duration, NANOS_PER_MILLI};

verus! {

/// Configuration for the Olympus Cloud SDK client.
#[derive(Debug, Clone)]
pub struct OlympusConfig {
    /// Application identifier (e.g., "com.my-restaurant").
    pub app_id: String,
    /// API key for authentication (e.g., "oc_live_...").
    pub api_key: String,
    /// Base URL for the API. Defaults to `https://api.olympuscloud.ai`.
    pub base_url: String,
    /// Request timeout in milliseconds. Defaults to 30000 (30 seconds).
    pub timeout_ms: u64,
}

pub open spec fn default_base_url() -> Seq<char> {
    "https://api.olympuscloud.ai"@
}

impl OlympusConfig {
    /// A configuration with the given app id and API key, using production
    /// defaults for the base URL and the timeout.
    pub fn new(app_id: &str, api_key: &str) -> (c: OlympusConfig)
        ensures
            c.app_id@ == app_id@,
            c.api_key@ == api_key@,
            c.base_url@ == default_base_url(),
            c.timeout_ms == 30_000,
    {
        OlympusConfig {
            app_id: app_id.to_owned(),
            api_key: api_key.to_owned(),
            base_url: "https://api.olympuscloud.ai".to_owned(),
            timeout_ms: 30_000,
        }
    }

    /// Sets a custom base URL. Returns self for builder-style chaining.
    pub fn with_base_url(self, url: &str) -> (c: OlympusConfig)
        ensures
            c.base_url@ == url@,
            c.app_id == self.app_id,
            c.api_key == self.api_key,
            c.timeout_ms == self.timeout_ms,
    {
        OlympusConfig { base_url: url.to_owned(), ..self }
    }

    /// Sets the request timeout in milliseconds. Returns self for
    /// builder-style chaining.
    pub fn with_timeout_ms(self, ms: u64) -> (c: OlympusConfig)
        ensures
            c.timeout_ms == ms,
            c.app_id == self.app_id,
            c.api_key == self.api_key,
            c.base_url == self.base_url,
    {
        OlympusConfig { timeout_ms: ms, ..self }
    }

    /// The configured timeout as a span.
    pub fn timeout(&self) -> (d: Duration)
        ensures
            d@ == self.timeout_ms * NANOS_PER_MILLI,
    {
        Duration::from_millis(self.timeout_ms)
    }
}

} // verus!
