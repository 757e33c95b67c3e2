//! Core library for a decentralized robotics data network.
//!
//! The heart of the library is a pair of verified components: a stateless
//! quality-scoring engine that turns raw sensor bytes into an exact,
//! reproducible acceptance decision with a binding signature, and an ordered
//! storage-failover manager that tries registered backends strictly in
//! registration order until one succeeds. Around them sit the auditable
//! contribution record with its canonical serialization, and the plain data
//! types of the wider system: configuration, networking, rewards, robots,
//! sensors and the SDK code generators.

pub mod api;
pub mod arduino;
pub mod arweave;
pub mod blockchain;
pub mod config;
pub mod contribution;
pub mod digest;
pub mod error;
pub mod fraction;
pub mod ipfs;
pub mod metrics;
pub mod network;
pub mod protocol;
pub mod raspberry_pi;
pub mod rewards;
pub mod ros2;
pub mod sdk_javascript;
pub mod sdk_python;
pub mod sdk_rust;
pub mod sensors;
pub mod solana;
pub mod storage;
pub mod timestamp;
pub mod validation;

pub use blockchain::{BackendOutcome, BlockchainClient, BlockchainManager};
pub use config::Config;
pub use contribution::Contribution;
pub use error::Error;
pub use fraction::Frac;
pub use metrics::QualityMetrics;
pub use network::NetworkManager;
pub use protocol::ProtocolManager;
pub use rewards::RewardManager;
pub use storage::StorageManager;
pub use timestamp::Timestamp;
pub use validation::{DataValidator, ValidationConfig, ValidationResult};
