//! Plain data carried across the session boundary: progress samples and
//! incoming transfer offers.

use vstd::prelude::*;
use vstd::arithmetic::div_mod::{lemma_div_is_ordered, lemma_div_multiples_vanish_fancy};

verus! {

/// The percentage reported for `transferred` bytes out of `total`: the
/// rounded value of `100 * transferred / total`, clamped to `0..=100`,
/// and `0` when there is no total to measure against.
pub open spec fn percent_of(transferred: int, total: int) -> int {
    if total <= 0 {
        0
    } else {
        let p = (100 * transferred + total / 2) / total;
        if p > 100 {
            100
        } else if p < 0 {
            0
        } else {
            p
        }
    }
}

/// Progress information for file transfers.
#[derive(Debug, Clone)]
pub struct ProgressEvent {
    /// Bytes transferred so far.
    pub transferred: i64,
    /// Total bytes to transfer.
    pub total: i64,
    /// Percentage complete (0-100).
    pub percent: u32,
}

impl ProgressEvent {
    /// Builds one progress sample from raw byte counters.
    pub fn new(transferred: u64, total: u64) -> (r: ProgressEvent)
        requires
            transferred <= i64::MAX,
            total <= i64::MAX,
        ensures
            r.transferred == transferred as i64,
            r.total == total as i64,
            r.percent == percent_of(transferred as int, total as int),
            r.percent <= 100,
    {
        let percent: u32 = if total > 0 {
            let p: u128 = (100u128 * (transferred as u128) + (total as u128) / 2) / (
            total as u128);
            if p > 100 {
                100
            } else {
                p as u32
            }
        } else {
            0
        };
        ProgressEvent { transferred: transferred as i64, total: total as i64, percent }
    }
}

/// Information about an incoming file transfer offer.
#[derive(Debug, Clone)]
pub struct ReceiveOffer {
    /// Name of the file being sent.
    pub filename: String,
    /// Size of the file in bytes.
    pub filesize: i64,
}

impl ReceiveOffer {
    /// Wraps the name and size negotiated for an incoming file. An offer
    /// always carries a non-empty file name.
    pub fn new(filename: String, filesize: u64) -> (r: ReceiveOffer)
        requires
            filename@.len() > 0,
            filesize <= i64::MAX,
        ensures
            r.filename == filename,
            r.filename@.len() > 0,
            r.filesize == filesize as i64,
    {
        ReceiveOffer { filename, filesize: filesize as i64 }
    }
}

/// The sample synthesized at successful completion, `transferred == total`,
/// reports exactly 100 percent whenever any bytes were owed at all.
pub proof fn lemma_final_sample_is_complete(total: int)
    requires
        total > 0,
    ensures
        percent_of(total, total) == 100,
{
    lemma_div_multiples_vanish_fancy(100, total / 2, total);
    assert(total * 100 == 100 * total) by (nonlinear_arith);
}

/// For a fixed total, the reported percentage never decreases as
/// `transferred` grows: a transfer whose byte counters are non-decreasing
/// reports non-decreasing percentages.
pub proof fn lemma_percent_monotone(t1: int, t2: int, total: int)
    requires
        0 <= t1 <= t2,
    ensures
        percent_of(t1, total) <= percent_of(t2, total),
{
    if total > 0 {
        assert(100 * t1 <= 100 * t2) by (nonlinear_arith)
            requires
                t1 <= t2,
        ;
        lemma_div_is_ordered(100 * t1 + total / 2, 100 * t2 + total / 2, total);
    }
}

} // verus!
