//! The quality-scoring engine.
//!
//! Five normalized metrics are derived from a byte payload, each an exact
//! rational in [0, 1]:
//!
//! - `noise_level`: mean squared deviation of each byte from 127.5,
//!   normalized by 127.5^2 and clamped to at most 1. An empty payload is
//!   maximally noisy (1).
//! - `completeness`: 1 minus the share of zero-valued bytes. Empty: 0.
//! - `consistency`: 1 minus the variance of the bytes around their mean,
//!   normalized by 127.5^2 and floored at 0. Fewer than two bytes: 1.
//! - `accuracy`: the share of bytes in the printable-ASCII range [32, 126].
//!   Empty: 0.
//! - `anomaly_score`: the share of bytes whose absolute deviation from the
//!   mean exceeds twice the standard deviation; 0 when anomaly detection is
//!   disabled or the payload is shorter than ten bytes.
//!
//! All fractions are scaled to integers: deviations from 127.5 are doubled
//! (so 127.5^2 becomes 255^2 = 65025), and the outlier test is squared, which
//! makes every comparison exact integer arithmetic.

use vstd::prelude::*;

use crate::fraction::Frac;

verus! {

use vstd::math::{min, max};

/// Payloads are limited to `u32::MAX` bytes so that every intermediate
/// product of the exact arithmetic fits in 128 bits.
pub const MAX_PAYLOAD_LEN: usize = 4294967295;

/// Sum of the byte values of `s`.
pub open spec fn sum_bytes(s: Seq<u8>) -> int
    decreases s.len(),
{
    if s.len() == 0 {
        0
    } else {
        sum_bytes(s.drop_last()) + s.last()
    }
}

/// Sum of the squared byte values of `s`.
pub open spec fn sum_squares(s: Seq<u8>) -> int
    decreases s.len(),
{
    if s.len() == 0 {
        0
    } else {
        sum_squares(s.drop_last()) + s.last() * s.last()
    }
}

/// Sum over `s` of (2 b - 255)^2: four times the squared deviation of each
/// byte from the midpoint 127.5.
pub open spec fn sum_middev(s: Seq<u8>) -> int
    decreases s.len(),
{
    if s.len() == 0 {
        0
    } else {
        sum_middev(s.drop_last()) + (2 * s.last() - 255) * (2 * s.last() - 255)
    }
}

/// Number of zero-valued bytes in `s`.
pub open spec fn count_zero_bytes(s: Seq<u8>) -> int
    decreases s.len(),
{
    if s.len() == 0 {
        0
    } else {
        count_zero_bytes(s.drop_last()) + if s.last() == 0 {
            1int
        } else {
            0int
        }
    }
}

/// Number of bytes of `s` in the printable-ASCII range [32, 126].
pub open spec fn count_printable(s: Seq<u8>) -> int
    decreases s.len(),
{
    if s.len() == 0 {
        0
    } else {
        count_printable(s.drop_last()) + if 32 <= s.last() <= 126 {
            1int
        } else {
            0int
        }
    }
}

/// The outlier test, cleared of fractions: |b - mean| > 2 stddev, where mean
/// and variance come from a payload of length `n` with byte sum `total` and
/// squared sum `squares`, is equivalent to (n b - total)^2 > 4 (n squares -
/// total^2) after multiplying both sides by n^2.
pub open spec fn is_outlier(b: u8, n: int, total: int, squares: int) -> bool {
    (n * b - total) * (n * b - total) > 4 * (n * squares - total * total)
}

/// Number of outliers in `s` with respect to the statistics of the whole
/// payload.
pub open spec fn count_outliers(s: Seq<u8>, n: int, total: int, squares: int) -> int
    decreases s.len(),
{
    if s.len() == 0 {
        0
    } else {
        count_outliers(s.drop_last(), n, total, squares) + if is_outlier(
            s.last(),
            n,
            total,
            squares,
        ) {
            1int
        } else {
            0int
        }
    }
}

/// Numerator of the noise level of `s`.
pub open spec fn noise_num(s: Seq<u8>) -> int {
    if s.len() == 0 {
        1
    } else {
        min(sum_middev(s), 65025 * (s.len() as int))
    }
}

/// Denominator of the noise level of `s`.
pub open spec fn noise_den(s: Seq<u8>) -> int {
    if s.len() == 0 {
        1
    } else {
        65025 * (s.len() as int)
    }
}

/// Numerator of the completeness of `s`.
pub open spec fn completeness_num(s: Seq<u8>) -> int {
    if s.len() == 0 {
        0
    } else {
        s.len() as int - count_zero_bytes(s)
    }
}

/// Denominator of the completeness of `s`.
pub open spec fn completeness_den(s: Seq<u8>) -> int {
    if s.len() == 0 {
        1
    } else {
        s.len() as int
    }
}

/// Four times `n^2` times the variance of the bytes of `s` around their mean
/// (an integer, by construction).
pub open spec fn variance_scaled(s: Seq<u8>) -> int {
    4 * (s.len() * sum_squares(s) - sum_bytes(s) * sum_bytes(s))
}

/// Numerator of the consistency of `s`.
pub open spec fn consistency_num(s: Seq<u8>) -> int {
    if s.len() < 2 {
        1
    } else {
        max(0, 65025 * (s.len() as int) * (s.len() as int) - variance_scaled(s))
    }
}

/// Denominator of the consistency of `s`.
pub open spec fn consistency_den(s: Seq<u8>) -> int {
    if s.len() < 2 {
        1
    } else {
        65025 * (s.len() as int) * (s.len() as int)
    }
}

/// Numerator of the accuracy of `s`.
pub open spec fn accuracy_num(s: Seq<u8>) -> int {
    count_printable(s)
}

/// Denominator of the accuracy of `s`.
pub open spec fn accuracy_den(s: Seq<u8>) -> int {
    if s.len() == 0 {
        1
    } else {
        s.len() as int
    }
}

/// Number of outliers that the anomaly score counts: zero when detection is
/// disabled or the payload is shorter than ten bytes.
pub open spec fn anomaly_count(s: Seq<u8>, enabled: bool) -> int {
    if !enabled || s.len() < 10 {
        0
    } else {
        count_outliers(s, s.len() as int, sum_bytes(s), sum_squares(s))
    }
}

/// Numerator of the anomaly score of `s`.
pub open spec fn anomaly_num(s: Seq<u8>, enabled: bool) -> int {
    anomaly_count(s, enabled)
}

/// Denominator of the anomaly score of `s`.
pub open spec fn anomaly_den(s: Seq<u8>, enabled: bool) -> int {
    if !enabled || s.len() < 10 {
        1
    } else {
        s.len() as int
    }
}

/// Numerator of the overall quality score: the five metrics, each weighted
/// 0.2, brought to the common denominator 5 * 65025 * n^2.
pub open spec fn quality_num(s: Seq<u8>, enabled: bool) -> int {
    if s.len() == 0 {
        2
    } else {
        let n = s.len() as int;
        let unit = 65025 * n;
        n * (noise_den(s) - noise_num(s)) + unit * completeness_num(s) + (if s.len() < 2 {
            unit * n
        } else {
            consistency_num(s)
        }) + unit * accuracy_num(s) + unit * (n - anomaly_count(s, enabled))
    }
}

/// Denominator of the overall quality score.
pub open spec fn quality_den(s: Seq<u8>, enabled: bool) -> int {
    if s.len() == 0 {
        5
    } else {
        5 * 65025 * (s.len() as int) * (s.len() as int)
    }
}

/// Elementary bounds on the running sums: every statistic of a payload of
/// length n lies between 0 and its per-byte maximum times n.
pub proof fn lemma_stats_bounds(s: Seq<u8>)
    ensures
        0 <= sum_bytes(s) <= 255 * s.len(),
        0 <= sum_squares(s) <= 65025 * (s.len() as int),
        sum_squares(s) <= 255 * sum_bytes(s),
        0 <= sum_middev(s) <= 65025 * (s.len() as int),
        0 <= count_zero_bytes(s) <= s.len(),
        0 <= count_printable(s) <= s.len(),
    decreases s.len(),
{
    if s.len() > 0 {
        lemma_stats_bounds(s.drop_last());
        let b = s.last() as int;
        assert(0 <= b * b <= 65025 && b * b <= 255 * b && 0 <= (2 * b - 255) * (2 * b - 255)
            <= 65025) by (nonlinear_arith)
            requires
                0 <= b <= 255,
        ;
    }
}

/// The outlier count never exceeds the length of the scanned prefix.
pub proof fn lemma_outlier_count_bounds(s: Seq<u8>, n: int, total: int, squares: int)
    ensures
        0 <= count_outliers(s, n, total, squares) <= s.len(),
    decreases s.len(),
{
    if s.len() > 0 {
        lemma_outlier_count_bounds(s.drop_last(), n, total, squares);
    }
}

/// Sum over `s` of (b - x)^2.
spec fn sum_sq_dev(s: Seq<u8>, x: int) -> int
    decreases s.len(),
{
    if s.len() == 0 {
        0
    } else {
        sum_sq_dev(s.drop_last(), x) + (s.last() - x) * (s.last() - x)
    }
}

proof fn lemma_sum_sq_dev(s: Seq<u8>, x: int)
    ensures
        sum_sq_dev(s, x) == sum_squares(s) - 2 * x * sum_bytes(s) + (s.len() as int) * x * x,
        sum_sq_dev(s, x) >= 0,
    decreases s.len(),
{
    if s.len() == 0 {
    } else {
        let t = s.drop_last();
        let b = s.last() as int;
        let n = t.len() as int;
        let st = sum_bytes(t);
        let qt = sum_squares(t);
        let dvt = sum_sq_dev(t, x);
        lemma_sum_sq_dev(t, x);
        assert(dvt + (b - x) * (b - x) == (qt + b * b) - 2 * x * (st + b) + (n + 1) * x * x
            && (b - x) * (b - x) >= 0) by (nonlinear_arith)
            requires
                dvt == qt - 2 * x * st + n * x * x,
        ;
        assert(sum_sq_dev(s, x) == dvt + (b - x) * (b - x));
        assert(sum_squares(s) == qt + b * b);
        assert(sum_bytes(s) == st + b);
        assert(s.len() as int == n + 1);
    }
}

/// Cauchy-Schwarz for byte sums: the squared sum never exceeds the length
/// times the sum of squares, so the variance is never negative.
pub proof fn lemma_sum_sq_bound(s: Seq<u8>)
    ensures
        sum_bytes(s) * sum_bytes(s) <= s.len() * sum_squares(s),
    decreases s.len(),
{
    if s.len() == 0 {
    } else {
        let t = s.drop_last();
        let x = s.last() as int;
        let n = t.len() as int;
        let st = sum_bytes(t);
        let qt = sum_squares(t);
        lemma_sum_sq_bound(t);
        lemma_sum_sq_dev(t, x);
        // sum_sq_dev(t, x) >= 0 gives 2 x st <= qt + n x^2.
        assert((st + x) * (st + x) <= (n + 1) * (qt + x * x)) by (nonlinear_arith)
            requires
                st * st <= n * qt,
                qt - 2 * x * st + n * x * x >= 0,
                n >= 0,
        ;
    }
}

/// The scaled variance lies between 0 and 65025 n^2: bytes range over
/// [0, 255], so their variance is at most 127.5^2.
pub proof fn lemma_variance_in_range(s: Seq<u8>)
    ensures
        0 <= variance_scaled(s) <= 65025 * (s.len() as int) * (s.len() as int),
{
    let n = s.len() as int;
    let sb = sum_bytes(s);
    let sq = sum_squares(s);
    lemma_sum_sq_bound(s);
    lemma_stats_bounds(s);
    assert(4 * (n * sq - sb * sb) <= 65025 * n * n) by (nonlinear_arith)
        requires
            sq <= 255 * sb,
            0 <= sb,
            0 <= n,
    ;
}

/// Every metric and the quality score lie in the unit interval: for every
/// payload, numerators are at least 0 and at most their denominators, and
/// every denominator is positive.
pub proof fn lemma_metrics_in_unit_interval(s: Seq<u8>, enabled: bool)
    ensures
        0 < noise_den(s),
        0 <= noise_num(s) <= noise_den(s),
        0 < completeness_den(s),
        0 <= completeness_num(s) <= completeness_den(s),
        0 < consistency_den(s),
        0 <= consistency_num(s) <= consistency_den(s),
        0 < accuracy_den(s),
        0 <= accuracy_num(s) <= accuracy_den(s),
        0 < anomaly_den(s, enabled),
        0 <= anomaly_num(s, enabled) <= anomaly_den(s, enabled),
        0 < quality_den(s, enabled),
        0 <= quality_num(s, enabled) <= quality_den(s, enabled),
{
    lemma_stats_bounds(s);
    lemma_variance_in_range(s);
    lemma_outlier_count_bounds(s, s.len() as int, sum_bytes(s), sum_squares(s));
    let n = s.len() as int;
    if n > 0 {
        let unit = 65025 * n;
        let t_noise = n * (noise_den(s) - noise_num(s));
        let t_comp = unit * completeness_num(s);
        let t_cons: int = if s.len() < 2 {
            unit * n
        } else {
            consistency_num(s)
        };
        let t_acc = unit * accuracy_num(s);
        let t_anom = unit * (n - anomaly_count(s, enabled));
        assert(quality_num(s, enabled) == t_noise + t_comp + t_cons + t_acc + t_anom);
        assert(0 <= t_noise <= unit * n) by (nonlinear_arith)
            requires
                n > 0,
                unit == 65025 * n,
                0 <= noise_num(s) <= noise_den(s),
                noise_den(s) == 65025 * n,
                t_noise == n * (noise_den(s) - noise_num(s)),
        ;
        assert(0 <= t_comp <= unit * n) by (nonlinear_arith)
            requires
                n > 0,
                unit == 65025 * n,
                0 <= completeness_num(s) <= n,
                t_comp == unit * completeness_num(s),
        ;
        if s.len() >= 2 {
            assert(0 <= t_cons <= unit * n) by (nonlinear_arith)
                requires
                    n > 0,
                    unit == 65025 * n,
                    t_cons == consistency_num(s),
                    0 <= consistency_num(s) <= 65025 * n * n,
            ;
        } else {
            assert(0 <= t_cons <= unit * n) by (nonlinear_arith)
                requires
                    n > 0,
                    unit == 65025 * n,
                    t_cons == unit * n,
            ;
        }
        assert(0 <= t_acc <= unit * n) by (nonlinear_arith)
            requires
                n > 0,
                unit == 65025 * n,
                0 <= accuracy_num(s) <= n,
                t_acc == unit * accuracy_num(s),
        ;
        assert(0 <= t_anom <= unit * n) by (nonlinear_arith)
            requires
                n > 0,
                unit == 65025 * n,
                0 <= anomaly_count(s, enabled) <= n,
                t_anom == unit * (n - anomaly_count(s, enabled)),
        ;
        assert(quality_den(s, enabled) == 5 * (unit * n)) by (nonlinear_arith)
            requires
                unit == 65025 * n,
                quality_den(s, enabled) == 5 * 65025 * n * n,
        ;
        if s.len() >= 2 {
            assert(0 < consistency_den(s)) by (nonlinear_arith)
                requires
                    n >= 2,
                    consistency_den(s) == 65025 * n * n,
            ;
            assert(consistency_num(s) <= consistency_den(s));
        }
        assert(0 < quality_den(s, enabled));
        assert(0 < noise_den(s));
    }
}

/// The five quality metrics of a payload, each an exact rational in [0, 1].
#[derive(Clone, Copy, Debug, PartialEq, Eq, Structural)]
pub struct QualityMetrics {
    /// Noise level.
    pub noise_level: Frac,
    /// Completeness score.
    pub completeness: Frac,
    /// Consistency score.
    pub consistency: Frac,
    /// Accuracy score.
    pub accuracy: Frac,
    /// Anomaly score.
    pub anomaly_score: Frac,
}

impl QualityMetrics {
    /// Every metric is a well-formed fraction in [0, 1].
    pub open spec fn wf(self) -> bool {
        self.noise_level.wf() && self.completeness.wf() && self.consistency.wf()
            && self.accuracy.wf() && self.anomaly_score.wf()
    }
}

/// `m` holds exactly the metrics of the payload `s`.
pub open spec fn metrics_match(m: QualityMetrics, s: Seq<u8>, enabled: bool) -> bool {
    &&& m.noise_level.num as int == noise_num(s)
    &&& m.noise_level.den as int == noise_den(s)
    &&& m.completeness.num as int == completeness_num(s)
    &&& m.completeness.den as int == completeness_den(s)
    &&& m.consistency.num as int == consistency_num(s)
    &&& m.consistency.den as int == consistency_den(s)
    &&& m.accuracy.num as int == accuracy_num(s)
    &&& m.accuracy.den as int == accuracy_den(s)
    &&& m.anomaly_score.num as int == anomaly_num(s, enabled)
    &&& m.anomaly_score.den as int == anomaly_den(s, enabled)
}

struct ByteStats {
    total: u64,
    squares: u64,
    middev: u64,
    zeros: u64,
    printable: u64,
}

/// One pass over the payload collecting every running sum the metrics need.
fn byte_stats(data: &[u8]) -> (r: ByteStats)
    requires
        data@.len() <= MAX_PAYLOAD_LEN,
    ensures
        r.total as int == sum_bytes(data@),
        r.squares as int == sum_squares(data@),
        r.middev as int == sum_middev(data@),
        r.zeros as int == count_zero_bytes(data@),
        r.printable as int == count_printable(data@),
{
    let mut total: u64 = 0;
    let mut squares: u64 = 0;
    let mut middev: u64 = 0;
    let mut zeros: u64 = 0;
    let mut printable: u64 = 0;
    let mut i: usize = 0;
    while i < data.len()
        invariant
            i <= data@.len() <= MAX_PAYLOAD_LEN,
            total as int == sum_bytes(data@.take(i as int)),
            squares as int == sum_squares(data@.take(i as int)),
            middev as int == sum_middev(data@.take(i as int)),
            zeros as int == count_zero_bytes(data@.take(i as int)),
            printable as int == count_printable(data@.take(i as int)),
        decreases data@.len() - i,
    {
        let b = data[i];
        let bv = b as u64;
        proof {
            let pre = data@.take(i as int);
            let post = data@.take(i as int + 1);
            assert(post.drop_last() =~= pre);
            assert(post.last() == data@[i as int]);
            lemma_stats_bounds(pre);
            let bi = b as int;
            assert(bi * bi <= 65025 && (2 * bi - 255) * (2 * bi - 255) == (if 2 * bi >= 255 {
                2 * bi - 255
            } else {
                255 - 2 * bi
            }) * (if 2 * bi >= 255 {
                2 * bi - 255
            } else {
                255 - 2 * bi
            }) && 0 <= (2 * bi - 255) * (2 * bi - 255) <= 65025) by (nonlinear_arith)
                requires
                    0 <= bi <= 255,
            ;
        }
        total = total + bv;
        squares = squares + bv * bv;
        let dev: u64 = if 2 * bv >= 255 {
            2 * bv - 255
        } else {
            255 - 2 * bv
        };
        middev = middev + dev * dev;
        if b == 0 {
            zeros = zeros + 1;
        }
        if 32 <= b && b <= 126 {
            printable = printable + 1;
        }
        i = i + 1;
    }
    proof {
        assert(data@.take(data@.len() as int) =~= data@);
    }
    ByteStats { total, squares, middev, zeros, printable }
}

/// Second pass: count the bytes whose deviation from the mean exceeds twice
/// the standard deviation, using the exact squared form of the test.
fn count_outliers_exec(data: &[u8], total: u64, squares: u64) -> (r: u64)
    requires
        data@.len() <= MAX_PAYLOAD_LEN,
        total as int == sum_bytes(data@),
        squares as int == sum_squares(data@),
    ensures
        r as int == count_outliers(data@, data@.len() as int, sum_bytes(data@), sum_squares(data@)),
        r <= data@.len(),
{
    let ghost gs = data@;
    let n = data.len();
    let nw: u128 = n as u128;
    let tw: u128 = total as u128;
    let qw: u128 = squares as u128;
    proof {
        lemma_sum_sq_bound(gs);
        lemma_stats_bounds(gs);
        assert(nw * qw == gs.len() * sum_squares(gs) && tw * tw == sum_bytes(gs) * sum_bytes(gs)
            && nw * qw <= 0x10000000000000000000000000000000) by (nonlinear_arith)
            requires
                nw == gs.len(),
                tw == sum_bytes(gs),
                qw == sum_squares(gs),
                gs.len() <= 0x100000000,
                0 <= sum_squares(gs) <= 65025 * (gs.len() as int),
                sum_bytes(gs) * sum_bytes(gs) <= gs.len() * sum_squares(gs),
        ;
    }
    let rhs: u128 = 4 * (nw * qw - tw * tw);
    let mut count: u64 = 0;
    let mut i: usize = 0;
    while i < n
        invariant
            i <= n == data@.len() <= MAX_PAYLOAD_LEN,
            nw == n as u128,
            tw as int == sum_bytes(data@),
            qw as int == sum_squares(data@),
            rhs == 4 * (data@.len() * sum_squares(data@) - sum_bytes(data@) * sum_bytes(data@)),
            count as int == count_outliers(
                data@.take(i as int),
                data@.len() as int,
                sum_bytes(data@),
                sum_squares(data@),
            ),
            count <= i,
        decreases data@.len() - i,
    {
        let b = data[i];
        let bw: u128 = b as u128;
        proof {
            assert(nw * bw <= 0x100000000 * 255 && (nw * bw) as int == (data@.len() as int) * (
            b as int)) by (nonlinear_arith)
                requires
                    nw <= 0x100000000,
                    bw == b,
                    nw == data@.len(),
                    bw <= 255,
            ;
        }
        let nb: u128 = nw * bw;
        let lhs: u128 = if nb >= tw {
            nb - tw
        } else {
            tw - nb
        };
        proof {
            lemma_stats_bounds(data@);
            let nbi = (data@.len() as int) * (b as int);
            let ti = sum_bytes(data@);
            assert((lhs as int) * (lhs as int) == (nbi - ti) * (nbi - ti) && (lhs as int) * (
            lhs as int) <= 0x10000000000 * 0x10000000000) by (nonlinear_arith)
                requires
                    lhs == if nbi >= ti {
                        nbi - ti
                    } else {
                        ti - nbi
                    },
                    0 <= nbi <= 0xFF00000000,
                    0 <= ti <= 0xFF00000000,
            ;
            let pre = data@.take(i as int);
            let post = data@.take(i as int + 1);
            assert(post.drop_last() =~= pre);
            assert(post.last() == data@[i as int]);
        }
        if lhs * lhs > rhs {
            count = count + 1;
        }
        i = i + 1;
    }
    proof {
        assert(data@.take(data@.len() as int) =~= data@);
        lemma_outlier_count_bounds(data@, data@.len() as int, sum_bytes(data@), sum_squares(data@));
    }
    count
}

/// Compute the five quality metrics of a payload exactly.
pub fn compute_quality_metrics(data: &[u8], enable_anomaly_detection: bool) -> (m: QualityMetrics)
    requires
        data@.len() <= MAX_PAYLOAD_LEN,
    ensures
        m.wf(),
        metrics_match(m, data@, enable_anomaly_detection),
{
    proof {
        lemma_metrics_in_unit_interval(data@, enable_anomaly_detection);
    }
    if data.len() == 0 {
        return QualityMetrics {
            noise_level: Frac::one(),
            completeness: Frac::zero(),
            consistency: Frac::one(),
            accuracy: Frac::zero(),
            anomaly_score: Frac::zero(),
        };
    }
    let stats = byte_stats(data);
    let n = data.len();
    let nw: u128 = n as u128;
    let unit: u128 = 65025 * nw;
    let noise_level = Frac {
        num: if (stats.middev as u128) < unit {
            stats.middev as u128
        } else {
            unit
        },
        den: unit,
    };
    let completeness = Frac { num: (n as u64 - stats.zeros) as u128, den: nw };
    let consistency = if n < 2 {
        Frac::one()
    } else {
        proof {
            lemma_consistency_arith(data@, nw as int);
        }
        let den: u128 = unit * nw;
        let v4: u128 = 4 * (nw * (stats.squares as u128) - (stats.total as u128) * (
        stats.total as u128));
        Frac { num: den - v4, den }
    };
    let accuracy = Frac { num: stats.printable as u128, den: nw };
    let anomaly_score = if !enable_anomaly_detection || n < 10 {
        Frac::zero()
    } else {
        let outliers = count_outliers_exec(data, stats.total, stats.squares);
        Frac { num: outliers as u128, den: nw }
    };
    QualityMetrics { noise_level, completeness, consistency, accuracy, anomaly_score }
}

/// Arithmetic facts needed to compute the consistency fraction without
/// overflow: the scaled variance fits under the scaled denominator.
proof fn lemma_consistency_arith(s: Seq<u8>, n: int)
    requires
        n == s.len(),
        2 <= n <= 0x100000000,
    ensures
        0 <= n * sum_squares(s) <= 0x10000000000000000000000000000000,
        sum_bytes(s) * sum_bytes(s) <= n * sum_squares(s),
        4 * (n * sum_squares(s) - sum_bytes(s) * sum_bytes(s)) <= 65025 * n * n,
        (65025 * n) * n == 65025 * n * n,
        0 < 65025 * n * n <= crate::fraction::MAX_DEN,
        consistency_num(s) == 65025 * n * n - 4 * (n * sum_squares(s) - sum_bytes(s)
            * sum_bytes(s)),
{
    lemma_stats_bounds(s);
    lemma_sum_sq_bound(s);
    lemma_variance_in_range(s);
    assert(0 <= n * sum_squares(s) <= 0x10000000000000000000000000000000 && (65025 * n) * n
        == 65025 * n * n && 0 < 65025 * n * n <= crate::fraction::MAX_DEN) by (nonlinear_arith)
        requires
            2 <= n <= 0x100000000,
            0 <= sum_squares(s) <= 65025 * n,
    ;
}

/// Compute the overall quality score of a payload exactly: the five metrics
/// weighted 0.2 each, over the common denominator 5 * 65025 * n^2.
pub fn calculate_quality_score(data: &[u8], enable_anomaly_detection: bool) -> (q: Frac)
    requires
        data@.len() <= MAX_PAYLOAD_LEN,
    ensures
        q.wf(),
        q.num as int == quality_num(data@, enable_anomaly_detection),
        q.den as int == quality_den(data@, enable_anomaly_detection),
{
    proof {
        lemma_metrics_in_unit_interval(data@, enable_anomaly_detection);
    }
    if data.len() == 0 {
        return Frac { num: 2, den: 5 };
    }
    let stats = byte_stats(data);
    let n = data.len();
    let nw: u128 = n as u128;
    let unit: u128 = 65025 * nw;
    proof {
        lemma_quality_arith(data@, nw as int);
    }
    let f: u128 = unit * nw;
    let noise_n: u128 = if (stats.middev as u128) < unit {
        stats.middev as u128
    } else {
        unit
    };
    let t_noise: u128 = nw * (unit - noise_n);
    let t_comp: u128 = unit * (nw - stats.zeros as u128);
    let t_cons: u128 = if n < 2 {
        f
    } else {
        proof {
            lemma_consistency_arith(data@, nw as int);
        }
        f - 4 * (nw * (stats.squares as u128) - (stats.total as u128) * (stats.total as u128))
    };
    let t_acc: u128 = unit * (stats.printable as u128);
    let outliers: u64 = if !enable_anomaly_detection || n < 10 {
        0
    } else {
        count_outliers_exec(data, stats.total, stats.squares)
    };
    let t_anom: u128 = unit * (nw - outliers as u128);
    Frac { num: t_noise + t_comp + t_cons + t_acc + t_anom, den: 5 * f }
}

/// Arithmetic facts needed to assemble the quality score without overflow:
/// each weighted term is bounded by the common denominator.
proof fn lemma_quality_arith(s: Seq<u8>, n: int)
    requires
        n == s.len(),
        1 <= n <= 0x100000000,
    ensures
        (65025 * n) * n == 65025 * n * n,
        0 < 5 * (65025 * n * n) <= crate::fraction::MAX_DEN,
        5 * (65025 * n * n) == 5 * 65025 * n * n,
        n * (65025 * n - noise_num(s)) <= 65025 * n * n,
        (65025 * n) * (n - count_zero_bytes(s)) <= 65025 * n * n,
        (65025 * n) * count_printable(s) <= 65025 * n * n,
        (65025 * n) * (n - anomaly_count(s, s.len() >= 10)) <= 65025 * n * n,
        (65025 * n) * (n - anomaly_count(s, false)) <= 65025 * n * n,
{
    lemma_stats_bounds(s);
    lemma_metrics_in_unit_interval(s, true);
    lemma_metrics_in_unit_interval(s, false);
    lemma_outlier_count_bounds(s, n, sum_bytes(s), sum_squares(s));
    assert((65025 * n) * n == 65025 * n * n && 0 < 5 * (65025 * n * n)
        <= crate::fraction::MAX_DEN && 5 * (65025 * n * n) == 5 * 65025 * n * n)
        by (nonlinear_arith)
        requires
            1 <= n <= 0x100000000,
    ;
    assert(n * (65025 * n - noise_num(s)) <= 65025 * n * n) by (nonlinear_arith)
        requires
            1 <= n,
            0 <= noise_num(s),
    ;
    assert((65025 * n) * (n - count_zero_bytes(s)) <= 65025 * n * n && (65025 * n)
        * count_printable(s) <= 65025 * n * n) by (nonlinear_arith)
        requires
            1 <= n,
            0 <= count_zero_bytes(s) <= n,
            0 <= count_printable(s) <= n,
    ;
    assert((65025 * n) * (n - anomaly_count(s, s.len() >= 10)) <= 65025 * n * n && (65025 * n) * (
    n - anomaly_count(s, false)) <= 65025 * n * n) by (nonlinear_arith)
        requires
            1 <= n,
            0 <= anomaly_count(s, s.len() >= 10) <= n,
            0 <= anomaly_count(s, false) <= n,
    ;
}

} // verus!
