//! Arweave backend: configuration, transaction types, and the pure parts of
//! transaction assembly.
//!
//! Submitting a transaction and fetching data over the gateway are
//! caller-side adapters; the library owns the deterministic transaction
//! identifier, the reward rule, and the assembly of a transaction record
//! from a payload and its tags.

use vstd::prelude::*;

use crate::digest::{base64_encode, base64_of, sha256, sha256_of};
use crate::contribution::dec_digits;

verus! {

/// Arweave client configuration.
#[derive(Clone, Debug)]
pub struct ArweaveConfig {
    /// Gateway URL.
    pub gateway_url: String,
    /// Request timeout in seconds.
    pub timeout_seconds: u64,
    /// Number of retry attempts.
    pub retry_attempts: u32,
    /// Private key for signing transactions.
    pub private_key: Option<String>,
}

impl Default for ArweaveConfig {
    /// The public gateway, 30 s timeout, 3 retries.
    fn default() -> (r: ArweaveConfig)
        ensures
            r.gateway_url@ == "https://arweave.net"@,
            r.timeout_seconds == 30,
            r.retry_attempts == 3,
            r.private_key is None,
    {
        ArweaveConfig {
            gateway_url: ("https://arweave.net").to_owned(),
            timeout_seconds: 30,
            retry_attempts: 3,
            private_key: None,
        }
    }
}

/// One name/value tag of an Arweave transaction.
#[derive(Clone, Debug)]
pub struct ArweaveTag {
    /// Tag name.
    pub name: String,
    /// Tag value.
    pub value: String,
}

/// An Arweave data transaction, ready for submission.
#[derive(Clone, Debug)]
pub struct ArweaveTransaction {
    /// Transaction format version.
    pub format: u32,
    /// Transaction identifier.
    pub id: String,
    /// Anchor: the submitter's previous transaction.
    pub last_tx: String,
    /// Owner key, filled in by the signing adapter.
    pub owner: String,
    /// Transaction tags.
    pub tags: Vec<ArweaveTag>,
    /// Transfer target (empty for pure data transactions).
    pub target: String,
    /// Transfer quantity in winston.
    pub quantity: String,
    /// The payload, in base64.
    pub data: String,
    /// Mining reward in winston.
    pub reward: String,
}

/// Status of a submitted transaction.
#[derive(Clone, Debug)]
pub struct ArweaveTransactionInfo {
    /// Block the transaction was included in.
    pub block_height: u64,
    /// Independent hash of that block.
    pub block_indep_hash: String,
    /// Number of confirmations so far.
    pub number_of_confirmations: u64,
}

/// The transaction identifier of a payload: its SHA-256 digest, in base64.
pub open spec fn arweave_transaction_id_of(data: Seq<u8>) -> Seq<char> {
    base64_of(sha256_of(data))
}

/// Compute the transaction identifier of a payload.
pub fn arweave_transaction_id(data: &[u8]) -> (r: String)
    ensures
        r@ == arweave_transaction_id_of(data@),
{
    let digest = sha256(data);
    base64_encode(digest.as_slice())
}

/// The winston reward asked for a payload: one thousand winston per byte.
pub fn calculate_reward(data_size: u64) -> (r: u64)
    requires
        data_size <= 0xFFFFFFFFFFFFF,
    ensures
        r == data_size * 1000,
{
    data_size * 1000
}

/// Assemble a data transaction for a payload under the given tags: format 2,
/// the deterministic identifier, the payload in base64, and the per-byte
/// reward. Anchor, owner and signature are left for the submitting adapter.
pub fn create_transaction(data: &[u8], tags: &Vec<(String, String)>) -> (r: ArweaveTransaction)
    requires
        data@.len() <= 0xFFFFFFFFFFFFF,
    ensures
        r.format == 2,
        r.id@ == arweave_transaction_id_of(data@),
        r.last_tx@ == Seq::<char>::empty(),
        r.owner@ == Seq::<char>::empty(),
        r.tags@.len() == tags@.len(),
        forall|i: int|
            0 <= i < tags@.len() ==> r.tags@[i].name == tags@[i].0 && r.tags@[i].value
                == tags@[i].1,
        r.target@ == Seq::<char>::empty(),
        r.quantity@ == "0"@,
        r.data@ == base64_of(data@),
        r.reward@ == dec_digits((data@.len() * 1000) as nat),
{
    let id = arweave_transaction_id(data);
    let reward = calculate_reward(data.len() as u64);
    let reward_text = crate::contribution::uint_to_decimal(reward as u128);
    let mut built_tags: Vec<ArweaveTag> = Vec::new();
    let mut i: usize = 0;
    while i < tags.len()
        invariant
            i <= tags@.len(),
            built_tags@.len() == i,
            forall|j: int|
                0 <= j < i ==> built_tags@[j].name == tags@[j].0 && built_tags@[j].value
                    == tags@[j].1,
        decreases tags@.len() - i,
    {
        let name = tags[i].0.clone();
        let value = tags[i].1.clone();
        built_tags.push(ArweaveTag { name, value });
        i = i + 1;
    }
    ArweaveTransaction {
        format: 2,
        id,
        last_tx: String::new(),
        owner: String::new(),
        tags: built_tags,
        target: String::new(),
        quantity: ("0").to_owned(),
        data: base64_encode(data),
        reward: reward_text,
    }
}

} // verus!
