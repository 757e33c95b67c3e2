//! Tests of the surrounding data types: errors, configuration, networking,
//! rewards, robots and the SDK generators.

use kova_core::api::{ApiResponse, GraphQLServer, RestApiServer};
use kova_core::arweave::{calculate_reward, create_transaction, ArweaveConfig};
use kova_core::config::Config;
use kova_core::ipfs::IPFSConfig;
use kova_core::network::NetworkManager;
use kova_core::rewards::{Reward, RewardManager, RewardStatus};
use kova_core::raspberry_pi::{PinMode, RaspberryPiConfig};
use kova_core::ros2::{ROS2Bridge, ROS2Config, ROS2Manager};
use kova_core::sdk_javascript::{JavaScriptSDK, JavaScriptSDKConfig};
use kova_core::sdk_python::{PythonSDK, PythonSDKConfig};
use kova_core::sdk_rust::{RustSDK, RustSDKConfig};
use kova_core::solana::SolanaConfig;
use kova_core::storage::StorageManager;
use kova_core::{Error, Timestamp};

#[test]
fn error_messages_name_their_category() {
    assert_eq!(Error::sensor("s").message(), "Sensor error: s");
    assert_eq!(Error::blockchain("b").message(), "Blockchain error: b");
    assert_eq!(Error::validation("v").message(), "Validation error: v");
    assert_eq!(Error::network("n").message(), "Network error: n");
    assert_eq!(Error::config("c").message(), "Config error: c");
    assert_eq!(Error::storage("st").message(), "Storage error: st");
    assert_eq!(Error::Io("io".to_string()).message(), "IO error: io");
    assert_eq!(
        Error::Serialization("se".to_string()).message(),
        "Serialization error: se"
    );
}

#[test]
fn default_configuration_values() {
    let config = Config::default();
    assert_eq!(config.validation.min_quality_score, 700000);
    assert!(config.validation.enable_anomaly_detection);
    assert!(config.validation.enable_temporal_consistency);
    assert_eq!(config.validation.max_noise_threshold, 100000);
    assert_eq!(config.sensors.timeout_seconds, 30);
    assert_eq!(config.network.max_connections, 100);
    assert_eq!(config.storage.local_path, "./data");
    assert_eq!(config.blockchain.solana.rpc_url, "https://api.mainnet-beta.solana.com");
    assert_eq!(config.blockchain.ipfs.api_url, "http://localhost:5001");
    assert_eq!(config.blockchain.arweave.gateway_url, "https://arweave.net");
    assert_eq!(config.ros2.node_name, "kova_bridge");

    let solana = SolanaConfig::default();
    assert_eq!(solana.commitment, "confirmed");
    assert!(solana.private_key.is_none());
    let ipfs = IPFSConfig::default();
    assert!(ipfs.pin_on_add);
    let arweave = ArweaveConfig::default();
    assert_eq!(arweave.retry_attempts, 3);
}

#[test]
fn network_manager_enforces_capacity() {
    let mut manager = NetworkManager::new(2);
    assert!(manager.add_connection("a".to_string(), "ep-a".to_string()).is_ok());
    assert!(manager.add_connection("b".to_string(), "ep-b".to_string()).is_ok());
    let err = manager
        .add_connection("c".to_string(), "ep-c".to_string())
        .unwrap_err();
    assert_eq!(err.message(), "Network error: Maximum connections reached");
    assert_eq!(manager.get_active_connections().len(), 2);
}

#[test]
fn network_manager_replaces_and_removes_by_id() {
    let mut manager = NetworkManager::new(10);
    manager.add_connection("a".to_string(), "ep-1".to_string()).unwrap();
    manager.add_connection("a".to_string(), "ep-2".to_string()).unwrap();
    let active = manager.get_active_connections();
    assert_eq!(active.len(), 1);
    assert_eq!(active[0].endpoint, "ep-2");

    manager.remove_connection("a").unwrap();
    assert!(manager.get_active_connections().is_empty());
    // Removing an unknown identifier is not an error.
    assert!(manager.remove_connection("ghost").is_ok());
}

#[test]
fn reward_manager_filters_by_validator() {
    let mut manager = RewardManager::new();
    manager.add_reward(Reward {
        id: "r1".to_string(),
        validator_id: "alice".to_string(),
        amount: 50,
        currency: "KOVA".to_string(),
        timestamp: Timestamp::new(10, 0),
        status: RewardStatus::Pending,
    });
    manager.add_reward(Reward {
        id: "r2".to_string(),
        validator_id: "bob".to_string(),
        amount: 70,
        currency: "KOVA".to_string(),
        timestamp: Timestamp::new(11, 0),
        status: RewardStatus::Confirmed,
    });
    manager.add_reward(Reward {
        id: "r3".to_string(),
        validator_id: "alice".to_string(),
        amount: 90,
        currency: "KOVA".to_string(),
        timestamp: Timestamp::new(12, 0),
        status: RewardStatus::Failed,
    });

    let alice = manager.get_rewards_for_validator("alice");
    assert_eq!(alice.len(), 2);
    assert_eq!(alice[0].id, "r1");
    assert_eq!(alice[1].id, "r3");
    assert!(manager.get_rewards_for_validator("carol").is_empty());
}

#[test]
fn ros2_bridge_tracks_connection_state() {
    let mut bridge = ROS2Bridge::new(ROS2Config::default()).unwrap();
    assert!(!bridge.is_connected());
    bridge.connect().unwrap();
    assert!(bridge.is_connected());
    bridge.disconnect().unwrap();
    assert!(!bridge.is_connected());
}

#[test]
fn ros2_manager_finds_bridges_by_name() {
    let mut manager = ROS2Manager::new();
    manager.add_bridge("main".to_string(), ROS2Config::default()).unwrap();
    assert!(manager.get_bridge("main").is_some());
    assert!(manager.get_bridge("other").is_none());
}

#[test]
fn storage_manager_keeps_its_base_path() {
    let manager = StorageManager::new("/tmp/kova-data".to_string());
    assert_eq!(manager.base_path_str(), "/tmp/kova-data");
}

#[test]
fn api_servers_and_responses() {
    let _graphql = GraphQLServer::new("localhost".to_string(), 8081);
    let _rest = RestApiServer::new("localhost".to_string(), 8080);

    let ok: ApiResponse<u32> = ApiResponse::success(7);
    assert!(ok.success);
    assert_eq!(ok.data, Some(7));
    assert!(ok.error.is_none());

    let failed: ApiResponse<u32> = ApiResponse::error("boom".to_string());
    assert!(!failed.success);
    assert!(failed.data.is_none());
    assert_eq!(failed.error.as_deref(), Some("boom"));
}

#[test]
fn javascript_sdk_generates_known_kinds_only() {
    let sdk = JavaScriptSDK::new(JavaScriptSDKConfig::default()).unwrap();
    for kind in ["camera", "lidar", "imu", "gps", "thermal"] {
        let code = sdk.generate_sensor_code(kind).unwrap();
        assert!(!code.is_empty());
        assert!(code.contains("KovaClient"));
    }
    let camera = sdk.generate_sensor_code("camera").unwrap();
    assert!(camera.contains("CameraProcessor"));
    let err = sdk.generate_sensor_code("sonar").unwrap_err();
    assert_eq!(err.message(), "Sensor error: Unknown sensor type");

    let definitions = sdk.generate_typescript_definitions();
    assert!(definitions.contains("export class KovaClient"));
    let manifest = sdk.generate_package_json();
    assert!(manifest.contains("\"name\": \"kova-sdk\""));
}

#[test]
fn python_sdk_generates_known_kinds_only() {
    let sdk = PythonSDK::new(PythonSDKConfig::default()).unwrap();
    for kind in ["camera", "lidar", "imu", "gps", "thermal"] {
        let code = sdk.generate_sensor_code(kind).unwrap();
        assert!(!code.is_empty());
        assert!(code.contains("KovaClient"));
    }
    let err = sdk.generate_sensor_code("radar").unwrap_err();
    assert_eq!(err.message(), "Sensor error: Unknown sensor type");

    let wrapper = sdk.generate_sdk_wrapper();
    assert!(wrapper.contains("class KovaClient"));
}

#[test]
fn rust_sdk_acknowledges_submissions() {
    let sdk = RustSDK::new(RustSDKConfig::default()).unwrap();
    let sent = sdk.send_sensor_data(b"bytes").unwrap();
    assert!(sent.success);
    assert_eq!(sent.data.as_deref(), Some("sensor_data_received"));
}

#[test]
fn arweave_transaction_assembly() {
    assert_eq!(calculate_reward(0), 0);
    assert_eq!(calculate_reward(7), 7000);

    let tags = vec![
        ("Content-Type".to_string(), "application/octet-stream".to_string()),
        ("App-Name".to_string(), "Kova".to_string()),
    ];
    let tx = create_transaction(b"arweave data", &tags);
    assert_eq!(tx.format, 2);
    assert_eq!(tx.id, base64::encode(<sha2::Sha256 as sha2::Digest>::digest(b"arweave data")));
    assert_eq!(tx.last_tx, "");
    assert_eq!(tx.owner, "");
    assert_eq!(tx.target, "");
    assert_eq!(tx.quantity, "0");
    assert_eq!(tx.data, base64::encode(b"arweave data"));
    assert_eq!(tx.reward, "12000");
    assert_eq!(tx.tags.len(), 2);
    assert_eq!(tx.tags[0].name, "Content-Type");
    assert_eq!(tx.tags[1].value, "Kova");
}

#[test]
fn raspberry_pi_default_configuration() {
    let config = RaspberryPiConfig::default();
    assert_eq!(config.gpio_pins.len(), 2);
    assert_eq!(config.gpio_pins[&18].mode, PinMode::PWM);
    assert_eq!(config.gpio_pins[&19].mode, PinMode::I2C);
    assert!(config.i2c_config.enabled);
    assert_eq!(config.i2c_config.bus, 1);
    assert_eq!(config.i2c_config.clock_speed, 100000);
    assert!(config.i2c_config.devices.is_empty());
    assert!(config.spi_config.enabled);
    assert_eq!(config.spi_config.clock_speed, 1000000);
    assert!(config.camera_config.enabled);
    assert_eq!(config.camera_config.resolution, (640, 480));
    assert_eq!(config.camera_config.frame_rate, 30);
    assert_eq!(config.camera_config.format, "RGB");
    assert!(config.enable_hardware_pwm);
    assert!(config.enable_system_monitoring);
}
