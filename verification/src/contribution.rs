//! The auditable contribution record and its canonical serialization.
//!
//! A contribution binds a stored data hash to its quality assessment and the
//! submitting validator. It is created once per accepted datum, never
//! mutated, and persisted as an opaque serialized blob through the same
//! storage path as the raw data.
//!
//! The canonical byte form is a JSON object with a fixed field order, so that
//! repeated submissions of logically identical contributions produce
//! identical bytes. String fields are escaped minimally (quote and
//! backslash); the timestamp and the exact quality fraction are written as
//! plain integers.

use vstd::prelude::*;

use crate::fraction::Frac;
use crate::timestamp::Timestamp;
use crate::validation::ValidationResult;

verus! {

use vstd::string::StrSliceExecFns;
use vstd::string::StringExecFns;
use vstd::utf8::encode_utf8;

/// The auditable record of one accepted datum.
#[derive(Clone, Debug)]
pub struct Contribution {
    /// Storage identifier of the sensor data.
    pub sensor_data_hash: String,
    /// The validator's binding signature over the data.
    pub validator_signature: String,
    /// Submission timestamp: distinct from the validation timestamp that the
    /// signature binds.
    pub timestamp: Timestamp,
    /// Quality score of the validated data.
    pub quality_score: Frac,
    /// Identifier of the submitting validator.
    pub validator_id: String,
    /// Identifier of the originating sensor.
    pub sensor_id: String,
}

impl Contribution {
    /// A contribution carries a well-formed timestamp and score.
    pub open spec fn wf(self) -> bool {
        self.timestamp.wf() && self.quality_score.wf()
    }

    /// Assemble the record for a validated datum at an explicitly supplied
    /// submission moment: a pure constructor.
    pub fn assemble_at(
        validation: &ValidationResult,
        storage_hash: String,
        validator_id: String,
        sensor_id: String,
        timestamp: Timestamp,
    ) -> (r: Contribution)
        requires
            timestamp.wf(),
        ensures
            r.sensor_data_hash == storage_hash,
            r.validator_signature == validation.signature,
            r.timestamp == timestamp,
            r.quality_score == validation.quality_score,
            r.validator_id == validator_id,
            r.sensor_id == sensor_id,
            validation.quality_score.wf() ==> r.wf(),
    {
        Contribution {
            sensor_data_hash: storage_hash,
            validator_signature: validation.signature.clone(),
            timestamp,
            quality_score: validation.quality_score,
            validator_id,
            sensor_id,
        }
    }

    /// Assemble the record for a validated datum, stamped with its own
    /// submission timestamp read from the clock now.
    pub fn assemble(
        validation: &ValidationResult,
        storage_hash: String,
        validator_id: String,
        sensor_id: String,
    ) -> (r: Contribution)
        ensures
            r.sensor_data_hash == storage_hash,
            r.validator_signature == validation.signature,
            r.timestamp.wf(),
            r.quality_score == validation.quality_score,
            r.validator_id == validator_id,
            r.sensor_id == sensor_id,
    {
        let timestamp = Timestamp::now();
        Contribution::assemble_at(validation, storage_hash, validator_id, sensor_id, timestamp)
    }

    /// The canonical byte form of this contribution.
    pub fn to_canonical_bytes(&self) -> (r: Vec<u8>)
        requires
            self.wf(),
        ensures
            r@ == contribution_encoding(*self),
    {
        let text = contribution_string(self);
        text.as_str().as_bytes_vec()
    }
}

/// The decimal digit characters.
pub open spec fn digit_char(n: int) -> char {
    "0123456789"@[n]
}

/// Decimal rendering of a non-negative integer, most significant digit
/// first, with no leading zeros (a single `0` for zero).
pub open spec fn dec_digits(n: nat) -> Seq<char>
    decreases n,
{
    if n < 10 {
        seq![digit_char(n as int)]
    } else {
        dec_digits(n / 10).push(digit_char((n % 10) as int))
    }
}

/// One character of a string field after minimal JSON escaping: quote and
/// backslash gain a backslash, everything else stands as it is.
pub open spec fn escaped_char(c: char) -> Seq<char> {
    if c == '"' {
        seq!['\\', '"']
    } else if c == '\\' {
        seq!['\\', '\\']
    } else {
        seq![c]
    }
}

/// A string field after minimal JSON escaping.
pub open spec fn escaped(s: Seq<char>) -> Seq<char>
    decreases s.len(),
{
    if s.len() == 0 {
        Seq::empty()
    } else {
        escaped(s.drop_last()) + escaped_char(s.last())
    }
}

/// The canonical text of a contribution: a JSON object with this exact field
/// order.
pub open spec fn contribution_text(c: Contribution) -> Seq<char> {
    "{\"sensor_data_hash\":\""@ + escaped(c.sensor_data_hash@) + "\",\"validator_signature\":\""@
        + escaped(c.validator_signature@) + "\",\"timestamp_secs\":"@ + dec_digits(
        c.timestamp.secs as nat,
    ) + ",\"timestamp_nanos\":"@ + dec_digits(c.timestamp.nanos as nat) + ",\"quality_num\":"@
        + dec_digits(c.quality_score.num as nat) + ",\"quality_den\":"@ + dec_digits(
        c.quality_score.den as nat,
    ) + ",\"validator_id\":\""@ + escaped(c.validator_id@) + "\",\"sensor_id\":\""@ + escaped(
        c.sensor_id@,
    ) + "\"}"@
}

/// The canonical bytes of a contribution: the UTF-8 encoding of its text.
pub open spec fn contribution_encoding(c: Contribution) -> Seq<u8> {
    encode_utf8(contribution_text(c))
}

/// Relies on `String::push` of std: appends exactly one character.
#[verifier::external_body]
fn push_char(s: &mut String, c: char)
    ensures
        final(s)@ == old(s)@.push(c),
{
    s.push(c);
}

/// Decimal rendering of an unsigned integer.
pub fn uint_to_decimal(n: u128) -> (r: String)
    ensures
        r@ == dec_digits(n as nat),
    decreases n,
{
    if n < 10 {
        let d = digit_str(n);
        d.to_owned()
    } else {
        let mut r = uint_to_decimal(n / 10);
        let d = digit_str(n % 10);
        proof {
            assert(d@.len() == 1);
            assert(dec_digits(n as nat) =~= dec_digits(n as nat / 10).push(d@[0]));
            assert(dec_digits(n as nat / 10) + d@ =~= dec_digits(n as nat / 10).push(d@[0]));
        }
        r.append(d);
        r
    }
}

/// The single decimal digit for a value below ten.
fn digit_str(n: u128) -> (r: &'static str)
    requires
        n < 10,
    ensures
        r@ =~= seq![digit_char(n as int)],
        r@.len() == 1,
        r@[0] == digit_char(n as int),
{
    proof {
        reveal_strlit("0123456789");
        reveal_strlit("0");
        reveal_strlit("1");
        reveal_strlit("2");
        reveal_strlit("3");
        reveal_strlit("4");
        reveal_strlit("5");
        reveal_strlit("6");
        reveal_strlit("7");
        reveal_strlit("8");
        reveal_strlit("9");
    }
    if n == 0 {
        "0"
    } else if n == 1 {
        "1"
    } else if n == 2 {
        "2"
    } else if n == 3 {
        "3"
    } else if n == 4 {
        "4"
    } else if n == 5 {
        "5"
    } else if n == 6 {
        "6"
    } else if n == 7 {
        "7"
    } else if n == 8 {
        "8"
    } else {
        "9"
    }
}

/// A string field after minimal JSON escaping.
fn escape_string(s: &str) -> (r: String)
    ensures
        r@ == escaped(s@),
{
    let len = s.unicode_len();
    let mut r = String::new();
    let mut i: usize = 0;
    while i < len
        invariant
            i <= len == s@.len(),
            r@ == escaped(s@.take(i as int)),
        decreases len - i,
    {
        let c = s.get_char(i);
        proof {
            let pre = s@.take(i as int);
            let post = s@.take(i as int + 1);
            assert(post.drop_last() =~= pre);
            assert(post.last() == s@[i as int]);
            reveal_strlit("\\\"");
            reveal_strlit("\\\\");
        }
        if c == '"' {
            r.append("\\\"");
            proof {
                assert(("\\\"")@ =~= escaped_char('"'));
            }
        } else if c == '\\' {
            r.append("\\\\");
            proof {
                assert(("\\\\")@ =~= escaped_char('\\'));
            }
        } else {
            push_char(&mut r, c);
            proof {
                assert(r@ =~= escaped(s@.take(i as int)) + escaped_char(c));
            }
        }
        proof {
            assert(r@ =~= escaped(s@.take(i as int + 1)));
        }
        i = i + 1;
    }
    proof {
        assert(s@.take(s@.len() as int) =~= s@);
    }
    r
}

/// The canonical text of a contribution, with its fixed field order.
fn contribution_string(c: &Contribution) -> (r: String)
    requires
        c.wf(),
    ensures
        r@ == contribution_text(*c),
{
    let mut r = ("{\"sensor_data_hash\":\"").to_owned();
    let hash_esc = escape_string(c.sensor_data_hash.as_str());
    r.append(hash_esc.as_str());
    r.append("\",\"validator_signature\":\"");
    let sig_esc = escape_string(c.validator_signature.as_str());
    r.append(sig_esc.as_str());
    r.append("\",\"timestamp_secs\":");
    let secs_text = uint_to_decimal(c.timestamp.secs as u128);
    r.append(secs_text.as_str());
    r.append(",\"timestamp_nanos\":");
    let nanos_text = uint_to_decimal(c.timestamp.nanos as u128);
    r.append(nanos_text.as_str());
    r.append(",\"quality_num\":");
    let num_text = uint_to_decimal(c.quality_score.num);
    r.append(num_text.as_str());
    r.append(",\"quality_den\":");
    let den_text = uint_to_decimal(c.quality_score.den);
    r.append(den_text.as_str());
    r.append(",\"validator_id\":\"");
    let vid_esc = escape_string(c.validator_id.as_str());
    r.append(vid_esc.as_str());
    r.append("\",\"sensor_id\":\"");
    let sid_esc = escape_string(c.sensor_id.as_str());
    r.append(sid_esc.as_str());
    r.append("\"}");
    r
}

} // verus!
