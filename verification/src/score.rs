//! Score normalizer: turns either explicit hit counts or a bare
//! accuracy value into one canonical [`ScoreStats`] record.
//!
//! Accuracy is the standard weighted hit-value ratio
//! `(300*n300 + 100*n100 + 50*n50) / (300*total)`, kept in basis
//! points. In accuracy mode the record is back-solved under the modeled
//! assumption of a full-combo, no-miss play, preferring hits worth 100
//! over hits worth 50 when distributing the accuracy deficit; the
//! resulting record is an approximation of the play the caller had in
//! mind, not a reconstruction of it.

use vstd::prelude::*;

use crate::error::Error;
use crate::fixed::lemma_mul_div_exact;
use crate::fixed::lemma_mul_div_le;
use crate::fixed::lemma_mul_div_monotone_left;

verus! {

/// The accuracy scale: basis points, ten thousand to the unit.
pub const ACC_SCALE_BP: u32 = 10000;

/// One canonical play summary: hit counts, combo and the accuracy the
/// counts denote.
#[derive(Clone, Copy, Debug, PartialEq, Eq, Structural)]
pub struct ScoreStats {
    pub count_300: u32,
    pub count_100: u32,
    pub count_50: u32,
    pub count_miss: u32,
    pub combo: u32,
    /// Accuracy in basis points; always the ratio the counts denote.
    pub acc_bp: u32,
}

/// The accuracy, in basis points, that a count distribution denotes.
/// An empty map counts as a perfect play.
pub open spec fn accuracy_bp_of(c300: int, c100: int, c50: int, total: int) -> int {
    if total <= 0 {
        ACC_SCALE_BP as int
    } else {
        (300 * c300 + 100 * c100 + 50 * c50) * ACC_SCALE_BP / (300 * total)
    }
}

impl ScoreStats {
    /// The record describes a play of a map with `total` objects and a
    /// largest combo of `max_combo`: the counts cover every object, the
    /// combo does not exceed the maximum, and the accuracy field is the
    /// ratio the counts denote.
    pub open spec fn wf(self, total: int, max_combo: int) -> bool {
        &&& self.count_300 + self.count_100 + self.count_50 + self.count_miss == total
        &&& self.combo <= max_combo
        &&& self.acc_bp == accuracy_bp_of(
            self.count_300 as int,
            self.count_100 as int,
            self.count_50 as int,
            total,
        )
        &&& self.acc_bp <= ACC_SCALE_BP
    }
}

/// The record counts mode produces: the perfect-hit count is what is
/// left of the object total, the combo is clamped to the maximum, and
/// the accuracy is recomputed from the counts.
pub open spec fn counts_stats_spec(
    total: u32,
    count_100: u32,
    count_50: u32,
    count_miss: u32,
    combo: u32,
    max_combo: u32,
) -> ScoreStats {
    let c300 = total - count_100 - count_50 - count_miss;
    ScoreStats {
        count_300: c300 as u32,
        count_100,
        count_50,
        count_miss,
        combo: if combo <= max_combo {
            combo
        } else {
            max_combo
        },
        acc_bp: accuracy_bp_of(c300, count_100 as int, count_50 as int, total as int) as u32,
    }
}

/// The hit value a play must be missing to land on the requested
/// accuracy: the gap between a perfect play's value and the target.
pub open spec fn acc_deficit(total: int, acc_bp: int) -> int {
    300 * total - acc_bp * (300 * total) / (ACC_SCALE_BP as int)
}

/// How many hits worth 100 the back-solving heuristic allocates.
pub open spec fn acc_count_100(total: int, acc_bp: int) -> int {
    let d = acc_deficit(total, acc_bp);
    if d / 200 <= total {
        d / 200
    } else {
        let conv = (d - 200 * total) / 50;
        if conv <= total {
            total - conv
        } else {
            0
        }
    }
}

/// How many hits worth 50 the back-solving heuristic allocates: none
/// until every object is already a hit worth 100.
pub open spec fn acc_count_50(total: int, acc_bp: int) -> int {
    let d = acc_deficit(total, acc_bp);
    if d / 200 <= total {
        0
    } else {
        let conv = (d - 200 * total) / 50;
        if conv <= total {
            conv
        } else {
            total
        }
    }
}

/// The record accuracy mode produces: a full-combo, no-miss play whose
/// deficit is distributed by the documented heuristic, with the
/// accuracy recomputed from the resulting counts.
pub open spec fn accuracy_stats_spec(total: u32, acc_bp: u32, max_combo: u32) -> ScoreStats {
    let c100 = acc_count_100(total as int, acc_bp as int);
    let c50 = acc_count_50(total as int, acc_bp as int);
    let c300 = total - c100 - c50;
    ScoreStats {
        count_300: c300 as u32,
        count_100: c100 as u32,
        count_50: c50 as u32,
        count_miss: 0,
        combo: max_combo,
        acc_bp: accuracy_bp_of(c300, c100, c50, total as int) as u32,
    }
}

/// Computes the accuracy a count distribution denotes, in basis points.
fn accuracy_exec(c300: u32, c100: u32, c50: u32, total: u32) -> (r: u32)
    requires
        c300 + c100 + c50 <= total,
    ensures
        r == accuracy_bp_of(c300 as int, c100 as int, c50 as int, total as int),
        r <= ACC_SCALE_BP,
{
    if total == 0 {
        return ACC_SCALE_BP;
    }
    let num: u64 = 300 * (c300 as u64) + 100 * (c100 as u64) + 50 * (c50 as u64);
    let den: u64 = 300 * (total as u64);
    proof {
        lemma_mul_div_le(num as int, ACC_SCALE_BP as int, den as int);
    }
    (num * (ACC_SCALE_BP as u64) / den) as u32
}

/// Normalizes counts-mode input: the caller supplies the imperfect-hit
/// counts and the combo; the perfect-hit count and the accuracy are
/// derived. Fails with `InvalidScoreStats` exactly when the supplied
/// counts exceed the object total; a combo beyond the maximum is
/// clamped, not rejected.
pub fn normalize_counts(
    total: u32,
    count_100: u32,
    count_50: u32,
    count_miss: u32,
    combo: u32,
    max_combo: u32,
) -> (r: Result<ScoreStats, Error>)
    ensures
        r is Ok <==> count_100 + count_50 + count_miss <= total,
        r matches Ok(s) ==> s == counts_stats_spec(
            total,
            count_100,
            count_50,
            count_miss,
            combo,
            max_combo,
        ),
        r matches Ok(s) ==> s.wf(total as int, max_combo as int),
        r matches Err(e) ==> e == Error::InvalidScoreStats,
{
    let sum: u64 = count_100 as u64 + count_50 as u64 + count_miss as u64;
    if sum > total as u64 {
        return Err(Error::InvalidScoreStats);
    }
    let c300: u32 = total - count_100 - count_50 - count_miss;
    let acc = accuracy_exec(c300, count_100, count_50, total);
    Ok(
        ScoreStats {
            count_300: c300,
            count_100,
            count_50,
            count_miss,
            combo: if combo <= max_combo {
                combo
            } else {
                max_combo
            },
            acc_bp: acc,
        },
    )
}

/// Normalizes accuracy-mode input under the full-combo, no-miss
/// assumption. Fails with `InvalidScoreStats` exactly when the accuracy
/// lies outside the unit interval.
pub fn normalize_accuracy(total: u32, acc_bp: u32, max_combo: u32) -> (r: Result<
    ScoreStats,
    Error,
>)
    ensures
        r is Ok <==> acc_bp <= ACC_SCALE_BP,
        r matches Ok(s) ==> s == accuracy_stats_spec(total, acc_bp, max_combo),
        r matches Ok(s) ==> s.wf(total as int, max_combo as int),
        r matches Err(e) ==> e == Error::InvalidScoreStats,
{
    if acc_bp > ACC_SCALE_BP {
        return Err(Error::InvalidScoreStats);
    }
    let t: u64 = total as u64;
    let perfect: u64 = 300 * t;
    proof {
        assert((acc_bp as int) * (perfect as int) <= 10000 * (perfect as int))
            by (nonlinear_arith)
            requires
                acc_bp <= 10000 && perfect >= 0,
        ;
        lemma_mul_div_le(acc_bp as int, perfect as int, ACC_SCALE_BP as int);
    }
    let target: u64 = (acc_bp as u64) * perfect / (ACC_SCALE_BP as u64);
    let d: u64 = perfect - target;
    let c100_raw: u64 = d / 200;
    let (c100, c50): (u32, u32) = if c100_raw <= t {
        (c100_raw as u32, 0)
    } else {
        let conv: u64 = (d - 200 * t) / 50;
        if conv <= t {
            ((t - conv) as u32, conv as u32)
        } else {
            (0, total)
        }
    };
    let c300: u32 = total - c100 - c50;
    let acc = accuracy_exec(c300, c100, c50, total);
    Ok(
        ScoreStats {
            count_300: c300,
            count_100: c100,
            count_50: c50,
            count_miss: 0,
            combo: max_combo,
            acc_bp: acc,
        },
    )
}

/// The accuracy a valid count distribution denotes never leaves the
/// unit scale.
pub proof fn lemma_accuracy_bounds(c300: int, c100: int, c50: int, total: int)
    requires
        0 <= c300,
        0 <= c100,
        0 <= c50,
        c300 + c100 + c50 <= total,
    ensures
        0 <= accuracy_bp_of(c300, c100, c50, total) <= ACC_SCALE_BP,
{
    if total > 0 {
        let num = 300 * c300 + 100 * c100 + 50 * c50;
        lemma_mul_div_le(num, ACC_SCALE_BP as int, 300 * total);
    }
}

/// Trading perfect hits away never raises the accuracy.
pub proof fn lemma_accuracy_monotone(c300a: int, c300b: int, c100: int, c50: int, total: int)
    requires
        c300a <= c300b,
    ensures
        accuracy_bp_of(c300a, c100, c50, total) <= accuracy_bp_of(c300b, c100, c50, total),
{
    if total > 0 {
        lemma_mul_div_monotone_left(
            300 * c300a + 100 * c100 + 50 * c50,
            300 * c300b + 100 * c100 + 50 * c50,
            ACC_SCALE_BP as int,
            300 * total,
        );
    }
}

/// A perfect count distribution denotes an accuracy of exactly one.
pub proof fn lemma_perfect_accuracy(total: int)
    requires
        total >= 0,
    ensures
        accuracy_bp_of(total, 0, 0, total) == ACC_SCALE_BP,
{
    if total > 0 {
        lemma_mul_div_exact(ACC_SCALE_BP as int, 300 * total);
    }
}

/// Full-combo, no-miss equivalence of the two normalizer modes: a
/// counts-mode play with no imperfect hit and the maximum combo is the
/// very record accuracy mode produces for an accuracy of one.
pub proof fn lemma_full_combo_equivalence(total: u32, max_combo: u32)
    ensures
        counts_stats_spec(total, 0, 0, 0, max_combo, max_combo) == accuracy_stats_spec(
            total,
            ACC_SCALE_BP,
            max_combo,
        ),
{
    lemma_mul_div_exact(300 * total as int, ACC_SCALE_BP as int);
    assert(acc_deficit(total as int, ACC_SCALE_BP as int) == 0);
}

} // verus!
