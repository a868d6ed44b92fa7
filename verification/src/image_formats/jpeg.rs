//! JPEG quality and progressive-mode heuristics over the leading bytes of a file.
use vstd::prelude::*;
use crate::bytes::{contains, contains_seq};

verus! {

broadcast use vstd::slice::group_slice_axioms;

/// Estimated quality for a first quantization value of 0..=2.
pub const JPEG_EST_Q_EXCELLENT: u8 = 98;
/// Estimated quality for 3..=5.
pub const JPEG_EST_Q_ULTRA: u8 = 95;
/// Estimated quality for 6..=10.
pub const JPEG_EST_Q_VERY_HIGH: u8 = 90;
/// Estimated quality for 11..=20.
pub const JPEG_EST_Q_HIGH: u8 = 85;
/// Estimated quality for 21..=40.
pub const JPEG_EST_Q_MEDIUM: u8 = 75;
/// Estimated quality for 41..=60.
pub const JPEG_EST_Q_LOW: u8 = 60;
/// Estimated quality above 60.
pub const JPEG_EST_Q_LOWEST: u8 = 40;
/// Quality assumed when no quantization table is found.
pub const FALLBACK_QUALITY_JPEG: u8 = 85;
/// Number of leading bytes the heuristics read.
pub const JPEG_PREFIX_LEN: usize = 4096;

/// Quality estimate for the first value of a quantization table.
pub open spec fn quality_for_q(q: u8) -> u8 {
    if q <= 2 {
        JPEG_EST_Q_EXCELLENT
    } else if q <= 5 {
        JPEG_EST_Q_ULTRA
    } else if q <= 10 {
        JPEG_EST_Q_VERY_HIGH
    } else if q <= 20 {
        JPEG_EST_Q_HIGH
    } else if q <= 40 {
        JPEG_EST_Q_MEDIUM
    } else if q <= 60 {
        JPEG_EST_Q_LOW
    } else {
        JPEG_EST_Q_LOWEST
    }
}

/// A DQT marker (FF DB) starts at `i`.
pub open spec fn dqt_at(d: Seq<u8>, i: int) -> bool {
    d[i] == 0xFF && d[i + 1] == 0xDB
}

/// Quality from the first DQT marker at a position in `[i, limit)`.
pub open spec fn quality_scan(d: Seq<u8>, i: int, limit: int) -> u8
    decreases limit - i,
{
    if i >= limit {
        FALLBACK_QUALITY_JPEG
    } else if dqt_at(d, i) {
        quality_for_q(d[i + 5])
    } else {
        quality_scan(d, i + 1, limit)
    }
}

/// Quality estimate from the leading bytes of a JPEG: the first value of the first
/// quantization table found before the last 70 bytes of the buffer, or the fallback.
pub open spec fn spec_estimate_quality(d: Seq<u8>) -> u8 {
    quality_scan(d, 0, d.len() - 70)
}

fn quality_from_q(q: u8) -> (r: u8)
    ensures
        r == quality_for_q(q),
{
    if q <= 2 {
        JPEG_EST_Q_EXCELLENT
    } else if q <= 5 {
        JPEG_EST_Q_ULTRA
    } else if q <= 10 {
        JPEG_EST_Q_VERY_HIGH
    } else if q <= 20 {
        JPEG_EST_Q_HIGH
    } else if q <= 40 {
        JPEG_EST_Q_MEDIUM
    } else if q <= 60 {
        JPEG_EST_Q_LOW
    } else {
        JPEG_EST_Q_LOWEST
    }
}

/// Estimate JPEG quality from the leading bytes of the file (see `spec_estimate_quality`).
pub fn estimate_quality_from_prefix(buffer: &[u8]) -> (r: u8)
    ensures
        r == spec_estimate_quality(buffer@),
{
    if buffer.len() <= 70 {
        return FALLBACK_QUALITY_JPEG;
    }
    let limit = buffer.len() - 70;
    let mut i: usize = 0;
    while i < limit
        invariant
            limit == buffer@.len() - 70,
            i <= limit,
            quality_scan(buffer@, i as int, limit as int) == spec_estimate_quality(buffer@),
        decreases limit - i,
    {
        if buffer[i] == 0xFF && buffer[i + 1] == 0xDB {
            return quality_from_q(buffer[i + 5]);
        }
        i = i + 1;
    }
    FALLBACK_QUALITY_JPEG
}

/// Whether the leading bytes hold a progressive-DCT frame marker (FF C2).
pub fn is_progressive_from_prefix(buffer: &[u8]) -> (r: bool)
    ensures
        r == contains_seq(buffer@, seq![0xFFu8, 0xC2]),
{
    let pat: [u8; 2] = [0xFF, 0xC2];
    assert(pat@ =~= seq![0xFFu8, 0xC2]);
    contains(buffer, &pat)
}

/// A coarser quantizer never raises the estimate: the quality estimate is
/// non-increasing in the first quantization value, and it stays within
/// `JPEG_EST_Q_LOWEST..=JPEG_EST_Q_EXCELLENT`.
pub proof fn law_quality_non_increasing_in_quantizer(q1: u8, q2: u8)
    requires
        q1 <= q2,
    ensures
        quality_for_q(q1) >= quality_for_q(q2),
        JPEG_EST_Q_LOWEST <= quality_for_q(q1) <= JPEG_EST_Q_EXCELLENT,
{
}

/// The estimate follows the quantizer bands: 0..=2 excellent, 3..=5 ultra,
/// 6..=10 very high, 11..=20 high, 21..=40 medium, 41..=60 low, above lowest;
/// each band's estimate is strictly below the one of the finer band before it.
pub proof fn law_quality_bands(q: u8)
    ensures
        q <= 2 ==> quality_for_q(q) == JPEG_EST_Q_EXCELLENT,
        3 <= q <= 5 ==> quality_for_q(q) == JPEG_EST_Q_ULTRA,
        6 <= q <= 10 ==> quality_for_q(q) == JPEG_EST_Q_VERY_HIGH,
        11 <= q <= 20 ==> quality_for_q(q) == JPEG_EST_Q_HIGH,
        21 <= q <= 40 ==> quality_for_q(q) == JPEG_EST_Q_MEDIUM,
        41 <= q <= 60 ==> quality_for_q(q) == JPEG_EST_Q_LOW,
        60 < q ==> quality_for_q(q) == JPEG_EST_Q_LOWEST,
        JPEG_EST_Q_LOWEST < JPEG_EST_Q_LOW < JPEG_EST_Q_MEDIUM < JPEG_EST_Q_HIGH
            < JPEG_EST_Q_VERY_HIGH < JPEG_EST_Q_ULTRA < JPEG_EST_Q_EXCELLENT,
{
}

/// The estimate of a buffer is the quality band of the first quantizer value of
/// its first DQT marker before the last 70 bytes: with a DQT marker at `i` and
/// none before it, a larger first value at `i + 5` never gives a higher estimate.
pub proof fn law_buffer_quality_non_increasing(d1: Seq<u8>, d2: Seq<u8>, i: int)
    requires
        d1.len() == d2.len(),
        0 <= i < d1.len() - 70,
        forall|k: int| 0 <= k < d1.len() && k != i + 5 ==> #[trigger] d1[k] == d2[k],
        d1[i] == 0xFF && d1[i + 1] == 0xDB,
        forall|k: int| 0 <= k < i ==> !#[trigger] dqt_at(d1, k),
        d1[i + 5] <= d2[i + 5],
    ensures
        spec_estimate_quality(d1) >= spec_estimate_quality(d2),
        spec_estimate_quality(d1) == quality_for_q(d1[i + 5]),
{
    assert forall|k: int| 0 <= k < i implies !#[trigger] dqt_at(d2, k) by {
        assert(d1[k] == d2[k]);
        assert(d1[k + 1] == d2[k + 1]);
        assert(!dqt_at(d1, k));
    }
    assert(d1[i] == d2[i] && d1[i + 1] == d2[i + 1]);
    lemma_scan_to_first_dqt(d1, 0, d1.len() - 70, i);
    lemma_scan_to_first_dqt(d2, 0, d2.len() - 70, i);
}

proof fn lemma_scan_to_first_dqt(d: Seq<u8>, j: int, limit: int, i: int)
    requires
        0 <= j <= i < limit <= d.len() - 70,
        d[i] == 0xFF && d[i + 1] == 0xDB,
        forall|k: int| j <= k < i ==> !#[trigger] dqt_at(d, k),
    ensures
        quality_scan(d, j, limit) == quality_for_q(d[i + 5]),
    decreases i - j,
{
    if j < i {
        assert(!dqt_at(d, j));
        lemma_scan_to_first_dqt(d, j + 1, limit, i);
    }
}

} // verus!
