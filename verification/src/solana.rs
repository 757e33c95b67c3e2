//! Solana backend: configuration and the pure parts of its protocol.
//!
//! The RPC calls themselves (balance queries, transaction submission) are
//! caller-side adapters; what the library owns is the deterministic content
//! identifier, the identifier syntax check, and the transaction payload
//! derived from a contribution.

use vstd::prelude::*;

use crate::contribution::{contribution_encoding, Contribution};
use crate::digest::{base64_encode, base64_of, hex_encode, hex_of_bytes, sha256, sha256_of};
use crate::error::Error;

verus! {

use vstd::string::StrSliceExecFns;
use vstd::string::StringExecFns;

/// Solana client configuration.
#[derive(Clone, Debug)]
pub struct SolanaConfig {
    /// RPC endpoint URL.
    pub rpc_url: String,
    /// Commitment level.
    pub commitment: String,
    /// Request timeout in seconds.
    pub timeout_seconds: u64,
    /// Number of retry attempts.
    pub retry_attempts: u32,
    /// Private key for signing transactions.
    pub private_key: Option<String>,
}

impl Default for SolanaConfig {
    /// Mainnet endpoint, confirmed commitment, 30 s timeout, 3 retries.
    fn default() -> (r: SolanaConfig)
        ensures
            r.rpc_url@ == "https://api.mainnet-beta.solana.com"@,
            r.commitment@ == "confirmed"@,
            r.timeout_seconds == 30,
            r.retry_attempts == 3,
            r.private_key is None,
    {
        SolanaConfig {
            rpc_url: ("https://api.mainnet-beta.solana.com").to_owned(),
            commitment: ("confirmed").to_owned(),
            timeout_seconds: 30,
            retry_attempts: 3,
            private_key: None,
        }
    }
}

/// The content identifier under which a payload is stored on Solana: the
/// scheme prefix followed by the lowercase hex SHA-256 digest of the payload.
pub open spec fn solana_content_id_of(data: Seq<u8>) -> Seq<char> {
    "solana:"@ + hex_of_bytes(sha256_of(data))
}

/// Compute the Solana content identifier of a payload.
pub fn solana_content_id(data: &[u8]) -> (r: String)
    ensures
        r@ == solana_content_id_of(data@),
{
    let digest = sha256(data);
    let mut r = ("solana:").to_owned();
    let tail = hex_encode(digest.as_slice());
    r.append(tail.as_str());
    r
}

/// Whether an identifier carries the Solana scheme prefix.
pub open spec fn has_solana_prefix(s: Seq<char>) -> bool {
    s.len() >= 7 && s.subrange(0, 7) == "solana:"@
}

/// Check an identifier for the Solana scheme prefix.
pub fn is_solana_id(hash: &str) -> (r: bool)
    ensures
        r == has_solana_prefix(hash@),
{
    proof {
        reveal_strlit("solana:");
    }
    let len = hash.unicode_len();
    if len < 7 {
        return false;
    }
    let head = hash.substring_char(0, 7).to_owned();
    let prefix = ("solana:").to_owned();
    proof {
        assert(head@ =~= hash@.subrange(0, 7));
        if head@ == ("solana:")@ {
            assert(has_solana_prefix(hash@));
        }
    }
    head.eq(&prefix)
}

/// The error a Solana retrieval reports: retrieval of stored payloads is not
/// implemented for identifiers in the Solana scheme, and any other
/// identifier is malformed.
pub fn solana_retrieve_error(hash: &str) -> (e: Error)
    ensures
        e matches Error::Blockchain(m) && m@ == if has_solana_prefix(hash@) {
            "Data retrieval not implemented"@
        } else {
            "Invalid Solana hash format"@
        },
{
    if is_solana_id(hash) {
        Error::blockchain("Data retrieval not implemented")
    } else {
        Error::blockchain("Invalid Solana hash format")
    }
}

/// The transaction payload that submits a contribution: the canonical bytes
/// of the record, in base64.
pub fn contribution_transaction(contribution: &Contribution) -> (r: String)
    requires
        contribution.wf(),
    ensures
        r@ == base64_of(contribution_encoding(*contribution)),
{
    let data = contribution.to_canonical_bytes();
    base64_encode(data.as_slice())
}

} // verus!
