//! Error type shared by every component of the library.

use vstd::prelude::*;

verus! {

use vstd::string::StringExecFns;

/// Main error type of the library. Each variant carries a short message.
#[derive(Debug, Clone, PartialEq, Eq)]
pub enum Error {
    /// Sensor-related errors.
    Sensor(String),
    /// Blockchain-related errors.
    Blockchain(String),
    /// Validation errors.
    Validation(String),
    /// Network errors.
    Network(String),
    /// Configuration errors.
    Config(String),
    /// Storage errors.
    Storage(String),
    /// I/O errors reported by a caller-side adapter.
    Io(String),
    /// Serialization errors reported by a caller-side adapter.
    Serialization(String),
}

impl Error {
    /// Create a new sensor error.
    pub fn sensor(msg: &str) -> (r: Error)
        ensures
            r matches Error::Sensor(m) && m@ == msg@,
    {
        Error::Sensor(msg.to_owned())
    }

    /// Create a new blockchain error.
    pub fn blockchain(msg: &str) -> (r: Error)
        ensures
            r matches Error::Blockchain(m) && m@ == msg@,
    {
        Error::Blockchain(msg.to_owned())
    }

    /// Create a new validation error.
    pub fn validation(msg: &str) -> (r: Error)
        ensures
            r matches Error::Validation(m) && m@ == msg@,
    {
        Error::Validation(msg.to_owned())
    }

    /// Create a new network error.
    pub fn network(msg: &str) -> (r: Error)
        ensures
            r matches Error::Network(m) && m@ == msg@,
    {
        Error::Network(msg.to_owned())
    }

    /// Create a new configuration error.
    pub fn config(msg: &str) -> (r: Error)
        ensures
            r matches Error::Config(m) && m@ == msg@,
    {
        Error::Config(msg.to_owned())
    }

    /// Create a new storage error.
    pub fn storage(msg: &str) -> (r: Error)
        ensures
            r matches Error::Storage(m) && m@ == msg@,
    {
        Error::Storage(msg.to_owned())
    }

    /// The category of the error, as spoken of by contracts.
    pub open spec fn spec_message(self) -> Seq<char> {
        match self {
            Error::Sensor(m) => "Sensor error: "@ + m@,
            Error::Blockchain(m) => "Blockchain error: "@ + m@,
            Error::Validation(m) => "Validation error: "@ + m@,
            Error::Network(m) => "Network error: "@ + m@,
            Error::Config(m) => "Config error: "@ + m@,
            Error::Storage(m) => "Storage error: "@ + m@,
            Error::Io(m) => "IO error: "@ + m@,
            Error::Serialization(m) => "Serialization error: "@ + m@,
        }
    }

    /// A human-readable message naming the category and the detail.
    pub fn message(&self) -> (r: String)
        ensures
            r@ == self.spec_message(),
    {
        match self {
            Error::Sensor(m) => prefixed("Sensor error: ", m),
            Error::Blockchain(m) => prefixed("Blockchain error: ", m),
            Error::Validation(m) => prefixed("Validation error: ", m),
            Error::Network(m) => prefixed("Network error: ", m),
            Error::Config(m) => prefixed("Config error: ", m),
            Error::Storage(m) => prefixed("Storage error: ", m),
            Error::Io(m) => prefixed("IO error: ", m),
            Error::Serialization(m) => prefixed("Serialization error: ", m),
        }
    }
}

fn prefixed(prefix: &str, msg: &String) -> (r: String)
    ensures
        r@ == prefix@ + msg@,
{
    let mut r = prefix.to_owned();
    r.append(msg.as_str());
    r
}

} // verus!
