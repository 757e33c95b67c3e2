//! IPFS backend: configuration and statistics types.
//!
//! The HTTP calls against the IPFS API (add, cat, pin management) and the
//! parsing of their wire replies are caller-side adapters; the library owns
//! the configuration surface and the statistics record.

use vstd::prelude::*;

verus! {

/// IPFS client configuration.
#[derive(Clone, Debug)]
pub struct IPFSConfig {
    /// API endpoint URL.
    pub api_url: String,
    /// Gateway URL.
    pub gateway_url: String,
    /// Request timeout in seconds.
    pub timeout_seconds: u64,
    /// Number of retry attempts.
    pub retry_attempts: u32,
    /// Pin content on add.
    pub pin_on_add: bool,
}

impl Default for IPFSConfig {
    /// Local node endpoints, 60 s timeout, 3 retries, pinning on.
    fn default() -> (r: IPFSConfig)
        ensures
            r.api_url@ == "http://localhost:5001"@,
            r.gateway_url@ == "http://localhost:8080"@,
            r.timeout_seconds == 60,
            r.retry_attempts == 3,
            r.pin_on_add,
    {
        IPFSConfig {
            api_url: ("http://localhost:5001").to_owned(),
            gateway_url: ("http://localhost:8080").to_owned(),
            timeout_seconds: 60,
            retry_attempts: 3,
            pin_on_add: true,
        }
    }
}

/// Statistics of one stored IPFS object.
#[derive(Clone, Debug)]
pub struct IPFSStats {
    /// Content hash of the object.
    pub hash: String,
    /// Number of links.
    pub num_links: u32,
    /// Size of the object's own block.
    pub block_size: u32,
    /// Total size of the link section.
    pub links_size: u32,
    /// Size of the data section.
    pub data_size: u32,
    /// Cumulative size of the object and its references.
    pub cumulative_size: u32,
}

} // verus!
