//! Configuration surface of the whole system.
//!
//! Plain data with documented defaults. Loading and saving configuration
//! files is a caller-side adapter; the library owns the shape and the
//! default values.

use vstd::prelude::*;

use crate::validation::ValidationConfig;

verus! {

/// Main configuration structure.
#[derive(Clone, Debug)]
pub struct Config {
    /// Sensor configuration.
    pub sensors: SensorConfig,
    /// Blockchain configuration.
    pub blockchain: BlockchainConfig,
    /// Network configuration.
    pub network: NetworkConfig,
    /// Validation configuration.
    pub validation: ValidationConfig,
    /// Storage configuration.
    pub storage: StorageConfig,
    /// ROS2 configuration.
    pub ros2: ROS2Config,
}

/// Sensor configuration.
#[derive(Clone, Copy, Debug, PartialEq, Eq, Structural)]
pub struct SensorConfig {
    /// Default sensor timeout in seconds.
    pub timeout_seconds: u64,
    /// Enable sensor data caching.
    pub enable_caching: bool,
    /// Cache size limit in MB.
    pub cache_size_mb: usize,
    /// Enable sensor calibration.
    pub enable_calibration: bool,
}

/// Blockchain configuration.
#[derive(Clone, Debug)]
pub struct BlockchainConfig {
    /// Solana configuration.
    pub solana: SolanaConfig,
    /// IPFS configuration.
    pub ipfs: IPFSConfig,
    /// Arweave configuration.
    pub arweave: ArweaveConfig,
}

/// Solana configuration.
#[derive(Clone, Debug)]
pub struct SolanaConfig {
    /// RPC endpoint URL.
    pub rpc_url: String,
    /// Commitment level.
    pub commitment: String,
    /// Request timeout in seconds.
    pub timeout_seconds: u64,
    /// Number of retry attempts.
    pub retry_attempts: u32,
}

/// IPFS configuration.
#[derive(Clone, Debug)]
pub struct IPFSConfig {
    /// API endpoint URL.
    pub api_url: String,
    /// Gateway URL.
    pub gateway_url: String,
    /// Pin content on add.
    pub pin_on_add: bool,
    /// Request timeout in seconds.
    pub timeout_seconds: u64,
}

/// Arweave configuration.
#[derive(Clone, Debug)]
pub struct ArweaveConfig {
    /// Gateway URL.
    pub gateway_url: String,
    /// Request timeout in seconds.
    pub timeout_seconds: u64,
    /// Number of retry attempts.
    pub retry_attempts: u32,
}

/// Network configuration.
#[derive(Clone, Copy, Debug, PartialEq, Eq, Structural)]
pub struct NetworkConfig {
    /// Maximum concurrent connections.
    pub max_connections: usize,
    /// Connection timeout in seconds.
    pub connection_timeout_seconds: u64,
    /// Enable connection pooling.
    pub enable_pooling: bool,
    /// Pool size.
    pub pool_size: usize,
}

/// Storage configuration.
#[derive(Clone, Debug)]
pub struct StorageConfig {
    /// Local storage path.
    pub local_path: String,
    /// Enable compression.
    pub enable_compression: bool,
    /// Compression level (1-9).
    pub compression_level: u32,
    /// Maximum file size in MB.
    pub max_file_size_mb: usize,
}

/// ROS2 configuration.
#[derive(Clone, Debug)]
pub struct ROS2Config {
    /// Node name.
    pub node_name: String,
    /// Namespace.
    pub namespace: String,
    /// QoS profile.
    pub qos_profile: String,
}

impl Default for Config {
    /// Every component at its default.
    fn default() -> (r: Config)
        ensures
            r.sensors == SensorConfig::spec_default(),
            r.validation == ValidationConfig::spec_default(),
            r.network == NetworkConfig::spec_default(),
    {
        Config {
            sensors: SensorConfig::default(),
            blockchain: BlockchainConfig::default(),
            network: NetworkConfig::default(),
            validation: ValidationConfig::default(),
            storage: StorageConfig::default(),
            ros2: ROS2Config::default(),
        }
    }
}

impl SensorConfig {
    /// The default sensor configuration values.
    pub open spec fn spec_default() -> SensorConfig {
        SensorConfig {
            timeout_seconds: 30u64,
            enable_caching: true,
            cache_size_mb: 100usize,
            enable_calibration: true,
        }
    }
}

impl Default for SensorConfig {
    /// 30 s timeout, caching and calibration on, 100 MB cache.
    fn default() -> (r: SensorConfig)
        ensures
            r == SensorConfig::spec_default(),
    {
        SensorConfig {
            timeout_seconds: 30,
            enable_caching: true,
            cache_size_mb: 100,
            enable_calibration: true,
        }
    }
}

impl Default for BlockchainConfig {
    /// Every chain at its default.
    fn default() -> (r: BlockchainConfig)
        ensures
            r.solana.timeout_seconds == 30,
            r.ipfs.timeout_seconds == 60,
            r.arweave.timeout_seconds == 30,
    {
        BlockchainConfig {
            solana: SolanaConfig::default(),
            ipfs: IPFSConfig::default(),
            arweave: ArweaveConfig::default(),
        }
    }
}

impl Default for SolanaConfig {
    /// Mainnet endpoint, confirmed commitment, 30 s timeout, 3 retries.
    fn default() -> (r: SolanaConfig)
        ensures
            r.rpc_url@ == "https://api.mainnet-beta.solana.com"@,
            r.commitment@ == "confirmed"@,
            r.timeout_seconds == 30,
            r.retry_attempts == 3,
    {
        SolanaConfig {
            rpc_url: ("https://api.mainnet-beta.solana.com").to_owned(),
            commitment: ("confirmed").to_owned(),
            timeout_seconds: 30,
            retry_attempts: 3,
        }
    }
}

impl Default for IPFSConfig {
    /// Local node endpoints, pinning on, 60 s timeout.
    fn default() -> (r: IPFSConfig)
        ensures
            r.api_url@ == "http://localhost:5001"@,
            r.gateway_url@ == "http://localhost:8080"@,
            r.pin_on_add,
            r.timeout_seconds == 60,
    {
        IPFSConfig {
            api_url: ("http://localhost:5001").to_owned(),
            gateway_url: ("http://localhost:8080").to_owned(),
            pin_on_add: true,
            timeout_seconds: 60,
        }
    }
}

impl Default for ArweaveConfig {
    /// The public gateway, 30 s timeout, 3 retries.
    fn default() -> (r: ArweaveConfig)
        ensures
            r.gateway_url@ == "https://arweave.net"@,
            r.timeout_seconds == 30,
            r.retry_attempts == 3,
    {
        ArweaveConfig {
            gateway_url: ("https://arweave.net").to_owned(),
            timeout_seconds: 30,
            retry_attempts: 3,
        }
    }
}

impl NetworkConfig {
    /// The default network configuration values.
    pub open spec fn spec_default() -> NetworkConfig {
        NetworkConfig {
            max_connections: 100usize,
            connection_timeout_seconds: 30u64,
            enable_pooling: true,
            pool_size: 10usize,
        }
    }
}

impl Default for NetworkConfig {
    /// 100 connections, 30 s timeout, pooling on with 10 slots.
    fn default() -> (r: NetworkConfig)
        ensures
            r == NetworkConfig::spec_default(),
    {
        NetworkConfig {
            max_connections: 100,
            connection_timeout_seconds: 30,
            enable_pooling: true,
            pool_size: 10,
        }
    }
}

impl Default for StorageConfig {
    /// Local data directory, compression level 6, 100 MB file cap.
    fn default() -> (r: StorageConfig)
        ensures
            r.local_path@ == "./data"@,
            r.enable_compression,
            r.compression_level == 6,
            r.max_file_size_mb == 100,
    {
        StorageConfig {
            local_path: ("./data").to_owned(),
            enable_compression: true,
            compression_level: 6,
            max_file_size_mb: 100,
        }
    }
}

impl Default for ROS2Config {
    /// The bridge node in its own namespace, default QoS.
    fn default() -> (r: ROS2Config)
        ensures
            r.node_name@ == "kova_bridge"@,
            r.namespace@ == "/kova"@,
            r.qos_profile@ == "default"@,
    {
        ROS2Config {
            node_name: ("kova_bridge").to_owned(),
            namespace: ("/kova").to_owned(),
            qos_profile: ("default").to_owned(),
        }
    }
}

} // verus!
