//! Tests of signatures, digests and the canonical contribution encoding.

use kova_core::arweave::arweave_transaction_id;
use kova_core::blockchain::{BlockchainClient, BlockchainManager};
use kova_core::contribution::Contribution;
use kova_core::solana::{contribution_transaction, is_solana_id, solana_content_id,
    solana_retrieve_error};
use kova_core::validation::DataValidator;
use kova_core::{Error, Frac, Timestamp};
use sha2::Digest;
use std::cell::RefCell;
use std::rc::Rc;

fn sample_contribution() -> Contribution {
    Contribution {
        sensor_data_hash: "hash-123".to_string(),
        validator_signature: "sig-456".to_string(),
        timestamp: Timestamp::new(1700000000, 123456789),
        quality_score: Frac { num: 2, den: 5 },
        validator_id: "validator-1".to_string(),
        sensor_id: "sensor-9".to_string(),
    }
}

#[test]
fn canonical_encoding_has_fixed_field_order() {
    let bytes = sample_contribution().to_canonical_bytes();
    let text = String::from_utf8(bytes).unwrap();
    assert_eq!(
        text,
        "{\"sensor_data_hash\":\"hash-123\",\"validator_signature\":\"sig-456\",\
         \"timestamp_secs\":1700000000,\"timestamp_nanos\":123456789,\
         \"quality_num\":2,\"quality_den\":5,\
         \"validator_id\":\"validator-1\",\"sensor_id\":\"sensor-9\"}"
    );
}

#[test]
fn canonical_encoding_escapes_quotes_and_backslashes() {
    let mut c = sample_contribution();
    c.validator_id = "quote\" and back\\slash".to_string();
    let text = String::from_utf8(c.to_canonical_bytes()).unwrap();
    assert!(text.contains("\"validator_id\":\"quote\\\" and back\\\\slash\""));
    // The encoded text is still valid JSON with the expected value.
    let parsed: serde_json::Value = serde_json::from_str(&text).unwrap();
    assert_eq!(
        parsed["validator_id"].as_str().unwrap(),
        "quote\" and back\\slash"
    );
}

#[test]
fn canonical_encoding_is_deterministic() {
    let a = sample_contribution().to_canonical_bytes();
    let b = sample_contribution().to_canonical_bytes();
    assert_eq!(a, b);
}

#[test]
fn assembler_copies_the_validation_fields() {
    let validator = DataValidator::new();
    let result = validator.validate_at(b"assembled payload", Timestamp::new(1000, 1));
    let c = Contribution::assemble_at(
        &result,
        "stored-under".to_string(),
        "val-7".to_string(),
        "sen-3".to_string(),
        Timestamp::new(2000, 2),
    );
    assert_eq!(c.sensor_data_hash, "stored-under");
    assert_eq!(c.validator_signature, result.signature);
    assert_eq!(c.quality_score, result.quality_score);
    assert_eq!(c.validator_id, "val-7");
    assert_eq!(c.sensor_id, "sen-3");
    // The submission timestamp is the one supplied, not the validation one.
    assert_eq!(c.timestamp, Timestamp::new(2000, 2));
    assert_ne!(c.timestamp, result.timestamp);
}

/// The signature is the hex SHA-256 digest of the payload followed by the
/// RFC 3339 text of the timestamp, exactly as the outside crates compute it.
#[test]
fn signature_matches_reference_computation() {
    let validator = DataValidator::new();
    let data = b"signature payload";
    let ts = Timestamp::new(1431648000, 500000000);
    let result = validator.validate_at(data, ts);

    let rendered = chrono::DateTime::<chrono::Utc>::from_timestamp(1431648000, 500000000)
        .unwrap()
        .to_rfc3339();
    let mut input = data.to_vec();
    input.extend_from_slice(rendered.as_bytes());
    let expected = hex::encode(sha2::Sha256::digest(&input));
    assert_eq!(result.signature, expected);
}

/// The same payload and timestamp always reproduce the same signature.
#[test]
fn signature_is_deterministic_for_fixed_moment() {
    let validator = DataValidator::new();
    let ts = Timestamp::new(1700000000, 0);
    let a = validator.validate_at(b"same bytes", ts);
    let b = validator.validate_at(b"same bytes", ts);
    assert_eq!(a.signature, b.signature);
}

/// Two different timestamps over identical bytes yield two different
/// signatures: reproducing a signature needs the exact validation moment.
#[test]
fn signatures_differ_across_timestamps() {
    let validator = DataValidator::new();
    let a = validator.validate_at(b"identical bytes", Timestamp::new(1700000000, 0));
    let b = validator.validate_at(b"identical bytes", Timestamp::new(1700000001, 0));
    assert_ne!(a.signature, b.signature);
}

#[test]
fn solana_content_id_matches_reference_computation() {
    let data = b"solana payload";
    let id = solana_content_id(data);
    let expected = format!("solana:{}", hex::encode(sha2::Sha256::digest(data)));
    assert_eq!(id, expected);
    assert!(is_solana_id(&id));
    assert!(!is_solana_id("ipfs:abc"));
    assert!(!is_solana_id("sol"));
}

#[test]
fn solana_retrieve_errors_by_identifier_shape() {
    let of_scheme = solana_retrieve_error("solana:abcdef");
    assert_eq!(
        of_scheme.message(),
        "Blockchain error: Data retrieval not implemented"
    );
    let malformed = solana_retrieve_error("whatever");
    assert_eq!(
        malformed.message(),
        "Blockchain error: Invalid Solana hash format"
    );
}

#[test]
fn arweave_transaction_id_matches_reference_computation() {
    let data = b"arweave payload";
    let id = arweave_transaction_id(data);
    let expected = base64::encode(sha2::Sha256::digest(data));
    assert_eq!(id, expected);
}

#[test]
fn contribution_transaction_is_base64_of_canonical_bytes() {
    let c = sample_contribution();
    let tx = contribution_transaction(&c);
    let expected = base64::encode(c.to_canonical_bytes());
    assert_eq!(tx, expected);
}

/// A contribution submitted through the manager is stored as exactly its
/// canonical bytes.
struct CapturingBackend {
    captured: Rc<RefCell<Vec<Vec<u8>>>>,
}

impl BlockchainClient for CapturingBackend {
    fn name(&self) -> String {
        "capture".to_string()
    }

    fn is_available(&self) -> bool {
        true
    }

    fn store_data(&self, data: &[u8]) -> Result<String, Error> {
        self.captured.borrow_mut().push(data.to_vec());
        Ok("tx-1".to_string())
    }

    fn retrieve_data(&self, _hash: &str) -> Result<Vec<u8>, Error> {
        Err(Error::storage("not used"))
    }
}

#[test]
fn submit_contribution_stores_canonical_bytes() {
    let captured = Rc::new(RefCell::new(Vec::new()));
    let backend = CapturingBackend { captured: captured.clone() };
    let mut manager: BlockchainManager<CapturingBackend> = BlockchainManager::new();
    manager.add_client("capture".to_string(), backend);

    let c = sample_contribution();
    let tx = manager.submit_contribution(&c).unwrap();
    assert_eq!(tx, "tx-1");
    let stored = captured.borrow();
    assert_eq!(stored.len(), 1);
    assert_eq!(stored[0], c.to_canonical_bytes());
}
