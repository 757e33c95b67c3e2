//! Tests of the validation engine and the quality metrics.

use kova_core::validation::{DataValidator, ValidationConfig};
use kova_core::Timestamp;
use std::collections::HashMap;

#[test]
fn test_data_validator_creation() {
    let _validator = DataValidator::new();
    assert!(true);
}

#[test]
fn test_data_validator_with_config() {
    let config = ValidationConfig {
        min_quality_score: 800000,
        enable_anomaly_detection: true,
        enable_temporal_consistency: true,
        max_noise_threshold: 50000,
    };

    let _validator = DataValidator::with_config(config);
    assert!(true);
}

#[test]
fn test_data_validation() {
    let validator = DataValidator::new();
    let test_data = b"test data for validation";
    let metadata = HashMap::new();

    let result = validator.validate(test_data, &metadata).unwrap();

    assert!(result.quality_score.as_ppm() <= 1000000);
    assert!(result.is_valid || !result.is_valid);
    assert!(!result.signature.is_empty());
}

#[test]
fn test_validation_with_high_quality_data() {
    let config = ValidationConfig {
        min_quality_score: 500000,
        enable_anomaly_detection: true,
        enable_temporal_consistency: true,
        max_noise_threshold: 100000,
    };

    let validator = DataValidator::with_config(config);

    // High-quality test data (repeated pattern).
    let high_quality_data = b"AAAAAAAAAAAAAAAAAAAAAAAAAAAAAAAA";
    let metadata = HashMap::new();

    let result = validator.validate(high_quality_data, &metadata).unwrap();

    assert!(result.quality_score.as_ppm() > 500000);
}

#[test]
fn test_validation_with_low_quality_data() {
    let config = ValidationConfig {
        min_quality_score: 800000,
        enable_anomaly_detection: true,
        enable_temporal_consistency: true,
        max_noise_threshold: 50000,
    };

    let validator = DataValidator::with_config(config);

    // Low-quality test data (random noise).
    let low_quality_data = b"\x00\xFF\x55\xAA\x33\xCC\x77\x88\x11\x99\x44\xBB\x66\xDD\x22\xEE";
    let metadata = HashMap::new();

    let result = validator.validate(low_quality_data, &metadata).unwrap();

    assert!(result.quality_score.as_ppm() < 800000);
}

#[test]
fn test_quality_metrics_calculation() {
    let validator = DataValidator::new();
    let test_data = b"test data for quality metrics";
    let metadata = HashMap::new();

    let result = validator.validate(test_data, &metadata).unwrap();

    assert!(result.metrics.noise_level.as_ppm() <= 1000000);
    assert!(result.metrics.completeness.as_ppm() <= 1000000);
    assert!(result.metrics.consistency.as_ppm() <= 1000000);
    assert!(result.metrics.accuracy.as_ppm() <= 1000000);
    assert!(result.metrics.anomaly_score.as_ppm() <= 1000000);
}

#[test]
fn test_validation_with_empty_data() {
    let validator = DataValidator::new();
    let empty_data = b"";
    let metadata = HashMap::new();

    let result = validator.validate(empty_data, &metadata).unwrap();

    assert!(result.quality_score.as_ppm() < 500000);
}

#[test]
fn test_validation_with_metadata() {
    let validator = DataValidator::new();
    let test_data = b"test data with metadata";
    let mut metadata = HashMap::new();
    metadata.insert("sensor_type".to_string(), "camera".to_string());
    metadata.insert("resolution".to_string(), "1920x1080".to_string());

    let result = validator.validate(test_data, &metadata).unwrap();

    assert!(result.quality_score.as_ppm() <= 1000000);
}

/// An empty payload scores exactly the documented constants: worst noise,
/// zero completeness and accuracy, full consistency, no anomaly, an overall
/// score of 0.4, and rejection under the default threshold of 0.7.
#[test]
fn empty_payload_exact_metrics() {
    let validator = DataValidator::new();
    let result = validator.validate_at(b"", Timestamp::new(1700000000, 0));

    assert!(result.metrics.noise_level.is_one());
    assert!(result.metrics.completeness.is_zero());
    assert!(result.metrics.consistency.is_one());
    assert!(result.metrics.accuracy.is_zero());
    assert!(result.metrics.anomaly_score.is_zero());
    assert_eq!(result.quality_score.as_ppm(), 400000);
    assert!(!result.is_valid);
}

/// Thirty-two identical printable bytes: zero variance gives full
/// consistency, no zero bytes full completeness, a printable value full
/// accuracy, zero deviation no outliers; the noise level is the constant
/// deviation of 0x41 from the midpoint, and the payload is accepted under
/// the default threshold.
#[test]
fn constant_payload_exact_metrics() {
    let validator = DataValidator::new();
    let data = [0x41u8; 32];
    let result = validator.validate_at(&data, Timestamp::new(1700000000, 0));

    assert!(result.metrics.completeness.is_one());
    assert!(result.metrics.consistency.is_one());
    assert!(result.metrics.accuracy.is_one());
    assert!(result.metrics.anomaly_score.is_zero());
    // (65 - 127.5)^2 / 127.5^2 = 15625 / 65025, in parts per million.
    assert_eq!(result.metrics.noise_level.as_ppm(), 240292);
    assert_eq!(result.quality_score.as_ppm(), 951941);
    assert!(result.is_valid);
}

/// A two-byte payload at the extremes scores exactly 0.3: noise 1,
/// completeness 1/2, consistency 0, accuracy 0, anomaly 0.
#[test]
fn extreme_two_byte_payload_exact_score() {
    let validator = DataValidator::new();
    let result = validator.validate_at(&[0u8, 255u8], Timestamp::new(0, 0));

    assert!(result.metrics.noise_level.is_one());
    assert_eq!(result.metrics.completeness.as_ppm(), 500000);
    assert!(result.metrics.consistency.is_zero());
    assert!(result.metrics.accuracy.is_zero());
    assert!(result.metrics.anomaly_score.is_zero());
    assert_eq!(result.quality_score.as_ppm(), 300000);
    assert!(!result.is_valid);
}

/// One byte far from ten equal ones is an outlier; with anomaly detection
/// disabled the anomaly score stays zero and the overall score rises.
#[test]
fn anomaly_detection_counts_outliers() {
    let mut data = vec![100u8; 10];
    data.push(255);

    let enabled = DataValidator::new();
    let with_anomaly = enabled.validate_at(&data, Timestamp::new(1, 0));
    // One outlier among eleven bytes.
    assert_eq!(with_anomaly.metrics.anomaly_score.as_ppm(), 90909);
    assert_eq!(with_anomaly.quality_score.as_ppm(), 912568);

    let disabled = DataValidator::with_config(ValidationConfig {
        enable_anomaly_detection: false,
        ..ValidationConfig::default()
    });
    let without_anomaly = disabled.validate_at(&data, Timestamp::new(1, 0));
    assert!(without_anomaly.metrics.anomaly_score.is_zero());
    assert_eq!(without_anomaly.quality_score.as_ppm(), 930750);
}

/// Every metric and the score stay in the unit interval over assorted
/// payloads.
#[test]
fn metrics_stay_in_unit_interval() {
    let validator = DataValidator::new();
    let payloads: Vec<Vec<u8>> = vec![
        vec![],
        vec![0],
        vec![255; 100],
        (0u8..=255).collect(),
        b"mixed \x00 text \xFF with bytes".to_vec(),
        vec![0; 1000],
    ];
    for payload in payloads {
        let result = validator.validate_at(&payload, Timestamp::new(123456789, 42));
        assert!(result.quality_score.as_ppm() <= 1000000);
        assert!(result.metrics.noise_level.as_ppm() <= 1000000);
        assert!(result.metrics.completeness.as_ppm() <= 1000000);
        assert!(result.metrics.consistency.as_ppm() <= 1000000);
        assert!(result.metrics.accuracy.as_ppm() <= 1000000);
        assert!(result.metrics.anomaly_score.as_ppm() <= 1000000);
    }
}

/// `is_valid` is exactly the comparison of the score against the threshold.
#[test]
fn acceptance_matches_threshold() {
    let data = [0x41u8; 32];  // scores 951941 ppm
    let accepting = DataValidator::with_config(ValidationConfig {
        min_quality_score: 951941,
        ..ValidationConfig::default()
    });
    // The exact score is 316928000/332928000, slightly above 951941 ppm.
    assert!(accepting.validate_at(&data, Timestamp::new(5, 5)).is_valid);

    let rejecting = DataValidator::with_config(ValidationConfig {
        min_quality_score: 951942,
        ..ValidationConfig::default()
    });
    assert!(!rejecting.validate_at(&data, Timestamp::new(5, 5)).is_valid);
}
