//! Data validation and quality assessment.
//!
//! Validation never fails: an unacceptable payload is a normal result with
//! `is_valid` false, not an error. The decision is exact: the quality score
//! is the equal-weight combination of the five metrics, and `is_valid` holds
//! iff the score reaches the configured threshold. The signature binds the
//! payload to the moment of validation: the SHA-256 digest of the payload
//! followed by the RFC 3339 text of the timestamp, in lowercase hex.

use vstd::prelude::*;

use crate::digest::{hex_encode, hex_of_bytes, sha256, sha256_of};
use crate::error::Error;
use crate::fraction::Frac;
use crate::metrics::{
    compute_quality_metrics, calculate_quality_score, metrics_match, quality_den, quality_num,
    QualityMetrics, MAX_PAYLOAD_LEN,
};
use crate::timestamp::{rfc3339_of, to_rfc3339, Timestamp};

verus! {

use vstd::slice::slice_to_vec;
use vstd::string::StrSliceExecFns;
use vstd::utf8::encode_utf8;

/// Validation configuration. Thresholds are given in parts per million of
/// the unit interval: 700000 stands for a minimum quality score of 0.7.
///
/// `enable_temporal_consistency` and `max_noise_threshold` belong to the
/// configuration surface but are not consumed by the scoring formula.
#[derive(Clone, Copy, Debug, PartialEq, Eq, Structural)]
pub struct ValidationConfig {
    /// Minimum quality score threshold, in parts per million.
    pub min_quality_score: u32,
    /// Enable anomaly detection.
    pub enable_anomaly_detection: bool,
    /// Enable temporal consistency checks.
    pub enable_temporal_consistency: bool,
    /// Maximum noise threshold, in parts per million.
    pub max_noise_threshold: u32,
}

impl Default for ValidationConfig {
    /// The default configuration: threshold 0.7, anomaly detection on.
    fn default() -> (r: ValidationConfig)
        ensures
            r == ValidationConfig::spec_default(),
    {
        ValidationConfig {
            min_quality_score: 700000,
            enable_anomaly_detection: true,
            enable_temporal_consistency: true,
            max_noise_threshold: 100000,
        }
    }
}

impl ValidationConfig {
    /// The default configuration values.
    pub open spec fn spec_default() -> ValidationConfig {
        ValidationConfig {
            min_quality_score: 700000u32,
            enable_anomaly_detection: true,
            enable_temporal_consistency: true,
            max_noise_threshold: 100000u32,
        }
    }
}

/// The bytes the binding signature is computed over: the payload followed by
/// the RFC 3339 text of the timestamp.
pub open spec fn signature_input(data: Seq<u8>, t: Timestamp) -> Seq<u8> {
    data + encode_utf8(rfc3339_of(t.secs as int, t.nanos as int))
}

/// The binding signature of a payload at a moment: lowercase hex of the
/// SHA-256 digest of the signature input.
pub open spec fn signature_of(data: Seq<u8>, t: Timestamp) -> Seq<char> {
    hex_of_bytes(sha256_of(signature_input(data, t)))
}

/// The acceptance test: a quality score `num / den` reaches a threshold of
/// `t` parts per million.
pub open spec fn meets_threshold(num: int, den: int, t: u32) -> bool {
    num * 1000000 >= t * den
}

/// Validation result. Immutable once produced.
#[derive(Clone, Debug)]
pub struct ValidationResult {
    /// Overall quality score, in [0, 1].
    pub quality_score: Frac,
    /// Validation timestamp.
    pub timestamp: Timestamp,
    /// Quality metrics.
    pub metrics: QualityMetrics,
    /// Validation signature.
    pub signature: String,
    /// Whether the quality score reached the configured threshold.
    pub is_valid: bool,
}

/// `r` is exactly the validation result of `data` under `config` at the
/// moment `r.timestamp`.
pub open spec fn result_matches(r: ValidationResult, data: Seq<u8>, config: ValidationConfig) -> bool {
    &&& r.metrics.wf()
    &&& metrics_match(r.metrics, data, config.enable_anomaly_detection)
    &&& r.quality_score.wf()
    &&& r.quality_score.num as int == quality_num(data, config.enable_anomaly_detection)
    &&& r.quality_score.den as int == quality_den(data, config.enable_anomaly_detection)
    &&& r.is_valid == meets_threshold(
        quality_num(data, config.enable_anomaly_detection),
        quality_den(data, config.enable_anomaly_detection),
        config.min_quality_score,
    )
    &&& r.timestamp.wf()
    &&& r.signature@ == signature_of(data, r.timestamp)
    &&& r.signature@.len() == 64
}

/// Data validator for sensor payloads.
pub struct DataValidator {
    config: ValidationConfig,
}

impl DataValidator {
    /// Create a new data validator with the default configuration.
    pub fn new() -> (r: DataValidator)
        ensures
            r.config() == ValidationConfig::spec_default(),
    {
        DataValidator { config: ValidationConfig::default() }
    }

    /// Create a new data validator with the given configuration.
    pub fn with_config(config: ValidationConfig) -> (r: DataValidator)
        ensures
            r.config() == config,
    {
        DataValidator { config }
    }

    /// The configuration the validator was built with.
    pub closed spec fn config(self) -> ValidationConfig {
        self.config
    }

    /// Validate a payload at the moment the clock reports now. The metadata
    /// is accepted for interface compatibility and does not influence the
    /// result. Validation always succeeds; a low score only clears
    /// `is_valid`.
    pub fn validate(&self, data: &[u8], metadata: &std::collections::HashMap<String, String>) -> (
        r: Result<ValidationResult, Error>)
        requires
            data@.len() <= MAX_PAYLOAD_LEN,
        ensures
            r matches Ok(v) && result_matches(v, data@, self.config()),
    {
        let timestamp = Timestamp::now();
        Ok(self.validate_at(data, timestamp))
    }

    /// Validate a payload against an explicitly supplied configuration, at
    /// the moment the clock reports now.
    pub fn validate_with_config(&self, data: &[u8], config: &ValidationConfig) -> (r: Result<
        ValidationResult,
        Error,
    >)
        requires
            data@.len() <= MAX_PAYLOAD_LEN,
        ensures
            r matches Ok(v) && result_matches(v, data@, *config),
    {
        let timestamp = Timestamp::now();
        Ok(validate_payload_at(data, config, timestamp))
    }

    /// Validate a payload at an explicitly supplied moment. Deterministic:
    /// the same payload and timestamp always reproduce the same result,
    /// signature included.
    pub fn validate_at(&self, data: &[u8], timestamp: Timestamp) -> (r: ValidationResult)
        requires
            data@.len() <= MAX_PAYLOAD_LEN,
            timestamp.wf(),
        ensures
            result_matches(r, data@, self.config()),
            r.timestamp == timestamp,
    {
        let config = self.config;
        validate_payload_at(data, &config, timestamp)
    }
}

/// The signature is a deterministic function of the payload and the
/// timestamp alone: any two validation results over the same payload, at the
/// same moment, carry bit-for-bit the same signature, whatever their
/// configurations.
pub proof fn lemma_signature_deterministic(
    r1: ValidationResult,
    r2: ValidationResult,
    data: Seq<u8>,
    c1: ValidationConfig,
    c2: ValidationConfig,
)
    requires
        result_matches(r1, data, c1),
        result_matches(r2, data, c2),
        r1.timestamp == r2.timestamp,
    ensures
        r1.signature@ == r2.signature@,
{
}

/// Validate a payload under a configuration at a given moment: compute the
/// metrics, combine them into the quality score, decide acceptance, and bind
/// the payload to the moment with the signature.
pub fn validate_payload_at(data: &[u8], config: &ValidationConfig, timestamp: Timestamp) -> (
    r: ValidationResult)
    requires
        data@.len() <= MAX_PAYLOAD_LEN,
        timestamp.wf(),
    ensures
        result_matches(r, data@, *config),
        r.timestamp == timestamp,
{
    let metrics = compute_quality_metrics(data, config.enable_anomaly_detection);
    let quality_score = calculate_quality_score(data, config.enable_anomaly_detection);
    let is_valid = quality_score.ge_ppm(config.min_quality_score);
    let signature = generate_signature(data, &timestamp);
    ValidationResult { quality_score, timestamp, metrics, signature, is_valid }
}

/// The binding signature of a payload at a moment.
fn generate_signature(data: &[u8], timestamp: &Timestamp) -> (r: String)
    requires
        timestamp.wf(),
    ensures
        r@ == signature_of(data@, *timestamp),
        r@.len() == 64,
{
    let rendered = to_rfc3339(timestamp);
    let mut input: Vec<u8> = slice_to_vec(data);
    let mut tail: Vec<u8> = rendered.as_str().as_bytes_vec();
    input.append(&mut tail);
    let digest = sha256(input.as_slice());
    proof {
        crate::digest::lemma_hex_len(digest@);
    }
    hex_encode(digest.as_slice())
}

} // verus!
