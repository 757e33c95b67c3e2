//! Rust SDK: a thin client stub over the network API.
//!
//! The stub acknowledges submissions locally; the transport behind the
//! endpoint is a caller-side adapter.

use vstd::prelude::*;

use crate::contribution::Contribution;
use crate::error::Error;
use crate::timestamp::Timestamp;

verus! {

/// Rust SDK client.
pub struct RustSDK {
    config: RustSDKConfig,
}

/// Rust SDK configuration.
#[derive(Clone, Debug)]
pub struct RustSDKConfig {
    /// API endpoint.
    pub api_endpoint: String,
    /// Timeout in seconds.
    pub timeout_seconds: u64,
    /// API key.
    pub api_key: Option<String>,
    /// Enable logging.
    pub enable_logging: bool,
    /// Log level.
    pub log_level: String,
}

/// SDK response envelope.
#[derive(Clone, Debug)]
pub struct SDKResponse<T> {
    /// Whether the call succeeded.
    pub success: bool,
    /// The data of a successful call.
    pub data: Option<T>,
    /// The message of a failed one.
    pub error: Option<String>,
    /// When the response was built.
    pub timestamp: Timestamp,
}

impl Default for RustSDKConfig {
    /// Local endpoint, 30 s timeout, logging on at the info level.
    fn default() -> (r: RustSDKConfig)
        ensures
            r.api_endpoint@ == "http://localhost:8080"@,
            r.timeout_seconds == 30,
            r.api_key is None,
            r.enable_logging,
            r.log_level@ == "info"@,
    {
        RustSDKConfig {
            api_endpoint: ("http://localhost:8080").to_owned(),
            timeout_seconds: 30,
            api_key: None,
            enable_logging: true,
            log_level: ("info").to_owned(),
        }
    }
}

impl RustSDK {
    /// The configuration the client was built with.
    pub closed spec fn config(self) -> RustSDKConfig {
        self.config
    }

    /// Create a new Rust SDK client.
    pub fn new(config: RustSDKConfig) -> (r: Result<RustSDK, Error>)
        ensures
            r matches Ok(sdk) && sdk.config() == config,
    {
        Ok(RustSDK { config })
    }

    /// Acknowledge a sensor payload.
    pub fn send_sensor_data(&self, data: &[u8]) -> (r: Result<SDKResponse<String>, Error>)
        ensures
            r matches Ok(resp) && resp.success && (resp.data matches Some(d) && d@
                == "sensor_data_received"@) && resp.error is None && resp.timestamp.wf(),
    {
        Ok(
            SDKResponse {
                success: true,
                data: Some(("sensor_data_received").to_owned()),
                error: None,
                timestamp: Timestamp::now(),
            },
        )
    }

    /// Acknowledge a contribution submission.
    pub fn submit_contribution(&self, contribution: &Contribution) -> (r: Result<
        SDKResponse<String>,
        Error,
    >)
        ensures
            r matches Ok(resp) && resp.success && (resp.data matches Some(d) && d@
                == "contribution_submitted"@) && resp.error is None && resp.timestamp.wf(),
    {
        Ok(
            SDKResponse {
                success: true,
                data: Some(("contribution_submitted").to_owned()),
                error: None,
                timestamp: Timestamp::now(),
            },
        )
    }
}

} // verus!
