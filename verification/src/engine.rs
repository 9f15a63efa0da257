//! PP formula engine: combines difficulty attributes and a normalized
//! score into a performance value with per-skill contributions.
//!
//! The model, with every constant a documented tuning choice:
//! - each skill's base value follows a cubic curve in its rating,
//!   `rating^3 / 500` in thousandths of a point; the accuracy skill uses
//!   a quarter of the total star rating's curve;
//! - every skill is penalized multiplicatively by the combo ratio, by a
//!   geometric factor of 0.97 per miss, and by the accuracy itself;
//! - Hidden and Flashlight apply flat multipliers of 1.06 and 1.12;
//! - the total is the sum of the three skill contributions.
//!
//! All factors are basis points, all performance values thousandths.

use vstd::prelude::*;

use crate::beatmap::DifficultyAttributes;
use crate::beatmap::STARS_MAX_CD;
use crate::error::Error;
use crate::fixed::lemma_div_nonneg;
use crate::fixed::lemma_div_ordered;
use crate::fixed::lemma_mul_div_le;
use crate::fixed::lemma_mul_div_monotone_left;
use crate::fixed::lemma_mul_div_monotone_right;
use crate::fixed::lemma_mul_le;
use crate::mods::Mods;
use crate::score::ACC_SCALE_BP;
use crate::score::ScoreStats;

verus! {

/// Basis-point scale of all multiplicative factors.
pub const FACTOR_SCALE_BP: u64 = 10000;

/// Divisor of the cubic skill curve.
pub const SKILL_CURVE_DIV: u64 = 500;

/// Numerator of the geometric per-miss penalty (0.97 per miss).
pub const MISS_PENALTY_NUM: u32 = 97;

/// Denominator of the geometric per-miss penalty.
pub const MISS_PENALTY_DEN: u32 = 100;

/// Flat Hidden multiplier, in basis points (1.06).
pub const HIDDEN_MULT_BP: u32 = 10600;

/// Flat Flashlight multiplier, in basis points (1.12).
pub const FLASHLIGHT_MULT_BP: u32 = 11200;

/// Largest value a skill's base curve can take, in thousandths.
pub const SKILL_RAW_MAX: u64 = 2000000000;

/// Largest value one skill contribution can take, in thousandths.
pub const SKILL_PP_MAX: u64 = 2374400000;

/// A computed performance value, in thousandths of a point, with the
/// per-skill contributions it is the sum of.
#[derive(Clone, Copy, Debug, PartialEq, Eq, Structural)]
pub struct PPResult {
    pub pp_millis: u64,
    pub aim_millis: u64,
    pub speed_millis: u64,
    pub acc_millis: u64,
}

/// The cubic skill curve: a rating in hundredths to a base performance
/// value in thousandths.
pub open spec fn cube_curve(x_cd: int) -> int {
    x_cd * x_cd * x_cd / (SKILL_CURVE_DIV as int)
}

/// The combo ratio in basis points: the combo, clamped to the maximum,
/// over the maximum. Full when no maximum exists.
pub open spec fn combo_factor_bp(combo: int, max_combo: int) -> int {
    if max_combo <= 0 {
        FACTOR_SCALE_BP as int
    } else {
        (if combo <= max_combo {
            combo
        } else {
            max_combo
        }) * FACTOR_SCALE_BP / max_combo
    }
}

/// The geometric miss penalty in basis points: 0.97 per miss,
/// truncating at each step.
pub open spec fn miss_factor_bp(m: nat) -> int
    decreases m,
{
    if m == 0 {
        FACTOR_SCALE_BP as int
    } else {
        miss_factor_bp((m - 1) as nat) * MISS_PENALTY_NUM / (MISS_PENALTY_DEN as int)
    }
}

/// The flat mod multiplier in basis points: Hidden and Flashlight
/// stack multiplicatively.
pub open spec fn mod_mult_bp(mods: Mods) -> int {
    let h: int = if mods.hidden {
        HIDDEN_MULT_BP as int
    } else {
        FACTOR_SCALE_BP as int
    };
    if mods.flashlight {
        h * FLASHLIGHT_MULT_BP / (FACTOR_SCALE_BP as int)
    } else {
        h
    }
}

/// One skill's contribution: its base value scaled by the combo, miss,
/// accuracy and mod factors, truncating after each factor.
pub open spec fn skill_pp_millis(raw: int, cf: int, mf: int, af: int, mult: int) -> int {
    raw * cf / (FACTOR_SCALE_BP as int) * mf / (FACTOR_SCALE_BP as int) * af / (
    FACTOR_SCALE_BP as int) * mult / (FACTOR_SCALE_BP as int)
}

/// The accuracy skill's base value: a quarter of the star curve.
pub open spec fn acc_skill_raw(stars_cd: int) -> int {
    cube_curve(stars_cd) / 4
}

/// The aim contribution of a standard-mode play.
pub open spec fn aim_pp_millis(attrs: DifficultyAttributes, stats: ScoreStats, mods: Mods) -> int
    recommends
        attrs is Osu,
{
    skill_pp_millis(
        cube_curve(attrs->aim_cd as int),
        combo_factor_bp(stats.combo as int, attrs->Osu_max_combo as int),
        miss_factor_bp(stats.count_miss as nat),
        stats.acc_bp as int,
        mod_mult_bp(mods),
    )
}

/// The speed contribution of a standard-mode play.
pub open spec fn speed_pp_millis(attrs: DifficultyAttributes, stats: ScoreStats, mods: Mods) -> int
    recommends
        attrs is Osu,
{
    skill_pp_millis(
        cube_curve(attrs->speed_cd as int),
        combo_factor_bp(stats.combo as int, attrs->Osu_max_combo as int),
        miss_factor_bp(stats.count_miss as nat),
        stats.acc_bp as int,
        mod_mult_bp(mods),
    )
}

/// The accuracy contribution of a standard-mode play.
pub open spec fn acc_pp_millis(attrs: DifficultyAttributes, stats: ScoreStats, mods: Mods) -> int
    recommends
        attrs is Osu,
{
    skill_pp_millis(
        acc_skill_raw(attrs->Osu_stars_cd as int),
        combo_factor_bp(stats.combo as int, attrs->Osu_max_combo as int),
        miss_factor_bp(stats.count_miss as nat),
        stats.acc_bp as int,
        mod_mult_bp(mods),
    )
}

/// The total performance value of a standard-mode play, in thousandths:
/// the sum of the three skill contributions.
pub open spec fn pp_total_millis(attrs: DifficultyAttributes, stats: ScoreStats, mods: Mods) -> int
    recommends
        attrs is Osu,
{
    aim_pp_millis(attrs, stats, mods) + speed_pp_millis(attrs, stats, mods) + acc_pp_millis(
        attrs,
        stats,
        mods,
    )
}

/// The full result of a standard-mode play.
pub open spec fn score_spec(attrs: DifficultyAttributes, stats: ScoreStats, mods: Mods) -> PPResult
    recommends
        attrs is Osu,
{
    PPResult {
        pp_millis: pp_total_millis(attrs, stats, mods) as u64,
        aim_millis: aim_pp_millis(attrs, stats, mods) as u64,
        speed_millis: speed_pp_millis(attrs, stats, mods) as u64,
        acc_millis: acc_pp_millis(attrs, stats, mods) as u64,
    }
}

/// Computes the cubic skill curve.
fn cube_curve_exec(x_cd: u32) -> (r: u64)
    requires
        x_cd <= STARS_MAX_CD,
    ensures
        r == cube_curve(x_cd as int),
        r <= SKILL_RAW_MAX,
{
    let x: u64 = x_cd as u64;
    proof {
        lemma_mul_le(x as int, 10000, x as int, 10000);
        lemma_mul_le((x * x) as int, 100000000, x as int, 10000);
        lemma_div_ordered((x * x * x) as int, 1000000000000, SKILL_CURVE_DIV as int);
    }
    x * x * x / SKILL_CURVE_DIV
}

/// Computes the combo ratio in basis points.
fn combo_factor_exec(combo: u32, max_combo: u32) -> (r: u32)
    ensures
        r == combo_factor_bp(combo as int, max_combo as int),
        r <= FACTOR_SCALE_BP,
{
    if max_combo == 0 {
        return FACTOR_SCALE_BP as u32;
    }
    let c: u64 = if combo <= max_combo {
        combo as u64
    } else {
        max_combo as u64
    };
    proof {
        lemma_mul_div_le(c as int, 10000, max_combo as int);
    }
    (c * FACTOR_SCALE_BP / (max_combo as u64)) as u32
}

/// The miss penalty never leaves the unit scale.
pub proof fn lemma_miss_factor_bounds(m: nat)
    ensures
        0 <= miss_factor_bp(m) <= FACTOR_SCALE_BP,
    decreases m,
{
    if m > 0 {
        lemma_miss_factor_bounds((m - 1) as nat);
        lemma_mul_div_le(MISS_PENALTY_NUM as int, miss_factor_bp((m - 1) as nat), 100);
        assert(miss_factor_bp((m - 1) as nat) * MISS_PENALTY_NUM == MISS_PENALTY_NUM as int
            * miss_factor_bp((m - 1) as nat)) by (nonlinear_arith);
    }
}

/// One more miss never raises the miss penalty.
pub proof fn lemma_miss_factor_step(m: nat)
    ensures
        miss_factor_bp(m + 1) <= miss_factor_bp(m),
{
    lemma_miss_factor_bounds(m);
    lemma_mul_div_le(MISS_PENALTY_NUM as int, miss_factor_bp(m), 100);
    assert(miss_factor_bp(m) * MISS_PENALTY_NUM == MISS_PENALTY_NUM as int * miss_factor_bp(m))
        by (nonlinear_arith);
    assert(miss_factor_bp(m + 1) == miss_factor_bp(m) * MISS_PENALTY_NUM / 100);
}

/// The miss penalty is non-increasing in the miss count.
pub proof fn lemma_miss_factor_antitone(m1: nat, m2: nat)
    requires
        m1 <= m2,
    ensures
        miss_factor_bp(m2) <= miss_factor_bp(m1),
    decreases m2 - m1,
{
    if m1 < m2 {
        lemma_miss_factor_antitone(m1, (m2 - 1) as nat);
        lemma_miss_factor_step((m2 - 1) as nat);
    }
}

/// Computes the geometric miss penalty in basis points.
fn miss_factor_exec(count_miss: u32) -> (r: u32)
    ensures
        r == miss_factor_bp(count_miss as nat),
        r <= FACTOR_SCALE_BP,
{
    let mut f: u32 = FACTOR_SCALE_BP as u32;
    let mut i: u32 = 0;
    while i < count_miss
        invariant
            i <= count_miss,
            f == miss_factor_bp(i as nat),
            f <= FACTOR_SCALE_BP,
        decreases count_miss - i,
    {
        f = f * MISS_PENALTY_NUM / MISS_PENALTY_DEN;
        i = i + 1;
        proof {
            lemma_miss_factor_bounds(i as nat);
        }
    }
    f
}

/// The mod multiplier lies between one and the stacked maximum.
pub proof fn lemma_mod_mult_bounds(mods: Mods)
    ensures
        FACTOR_SCALE_BP <= mod_mult_bp(mods) <= 11872,
{
}

/// Computes the flat mod multiplier in basis points.
fn mod_mult_exec(mods: &Mods) -> (r: u32)
    ensures
        r == mod_mult_bp(*mods),
        r <= 11872,
{
    let h: u32 = if mods.hidden {
        HIDDEN_MULT_BP
    } else {
        FACTOR_SCALE_BP as u32
    };
    if mods.flashlight {
        h * FLASHLIGHT_MULT_BP / (FACTOR_SCALE_BP as u32)
    } else {
        h
    }
}

/// Computes one skill's contribution from its base value and the four
/// factors.
fn skill_pp_exec(raw: u64, cf: u32, mf: u32, af: u32, mult: u32) -> (r: u64)
    requires
        raw <= SKILL_RAW_MAX,
        cf <= FACTOR_SCALE_BP,
        mf <= FACTOR_SCALE_BP,
        af <= FACTOR_SCALE_BP,
        mult <= 11872,
    ensures
        r == skill_pp_millis(raw as int, cf as int, mf as int, af as int, mult as int),
        r <= SKILL_PP_MAX,
{
    proof {
        lemma_mul_le(raw as int, SKILL_RAW_MAX as int, cf as int, 10000);
        lemma_div_ordered((raw * cf as u64) as int, 20000000000000, 10000);
    }
    let x1: u64 = raw * (cf as u64) / FACTOR_SCALE_BP;
    proof {
        lemma_mul_le(x1 as int, SKILL_RAW_MAX as int, mf as int, 10000);
        lemma_div_ordered((x1 * mf as u64) as int, 20000000000000, 10000);
    }
    let x2: u64 = x1 * (mf as u64) / FACTOR_SCALE_BP;
    proof {
        lemma_mul_le(x2 as int, SKILL_RAW_MAX as int, af as int, 10000);
        lemma_div_ordered((x2 * af as u64) as int, 20000000000000, 10000);
    }
    let x3: u64 = x2 * (af as u64) / FACTOR_SCALE_BP;
    proof {
        lemma_mul_le(x3 as int, SKILL_RAW_MAX as int, mult as int, 11872);
        lemma_div_ordered((x3 * mult as u64) as int, 23744000000000, 10000);
    }
    x3 * (mult as u64) / FACTOR_SCALE_BP
}

/// The cubic curve of a non-negative rating is non-negative.
pub proof fn lemma_cube_nonneg(x: int)
    requires
        x >= 0,
    ensures
        cube_curve(x) >= 0,
        acc_skill_raw(x) >= 0,
{
    assert(x * x * x >= 0) by (nonlinear_arith)
        requires
            x >= 0,
    ;
    lemma_div_nonneg(x * x * x, SKILL_CURVE_DIV as int);
    lemma_div_nonneg(cube_curve(x), 4);
}

/// The combo factor never leaves the unit scale.
pub proof fn lemma_combo_factor_bounds(c: int, mc: int)
    requires
        c >= 0,
    ensures
        0 <= combo_factor_bp(c, mc) <= FACTOR_SCALE_BP,
{
    if mc > 0 {
        let clamped: int = if c <= mc {
            c
        } else {
            mc
        };
        lemma_mul_div_le(clamped, 10000, mc);
    }
}

/// The combo factor is non-decreasing in the combo.
pub proof fn lemma_combo_factor_monotone(c1: int, c2: int, mc: int)
    requires
        0 <= c1 <= c2,
    ensures
        combo_factor_bp(c1, mc) <= combo_factor_bp(c2, mc),
{
    if mc > 0 {
        let k1: int = if c1 <= mc {
            c1
        } else {
            mc
        };
        let k2: int = if c2 <= mc {
            c2
        } else {
            mc
        };
        lemma_mul_div_monotone_left(k1, k2, FACTOR_SCALE_BP as int, mc);
    }
}

/// One skill's contribution is non-decreasing in the combo factor.
proof fn lemma_skill_monotone_cf(raw: int, cf1: int, cf2: int, mf: int, af: int, mult: int)
    requires
        raw >= 0,
        cf1 <= cf2,
        mf >= 0,
        af >= 0,
        mult >= 0,
    ensures
        skill_pp_millis(raw, cf1, mf, af, mult) <= skill_pp_millis(raw, cf2, mf, af, mult),
{
    let s: int = FACTOR_SCALE_BP as int;
    lemma_mul_div_monotone_right(raw, cf1, cf2, s);
    lemma_mul_div_monotone_left(raw * cf1 / s, raw * cf2 / s, mf, s);
    lemma_mul_div_monotone_left(raw * cf1 / s * mf / s, raw * cf2 / s * mf / s, af, s);
    lemma_mul_div_monotone_left(
        raw * cf1 / s * mf / s * af / s,
        raw * cf2 / s * mf / s * af / s,
        mult,
        s,
    );
}

/// One skill's contribution is non-decreasing in the miss factor.
proof fn lemma_skill_monotone_mf(raw: int, cf: int, mf1: int, mf2: int, af: int, mult: int)
    requires
        raw >= 0,
        cf >= 0,
        mf1 <= mf2,
        af >= 0,
        mult >= 0,
    ensures
        skill_pp_millis(raw, cf, mf1, af, mult) <= skill_pp_millis(raw, cf, mf2, af, mult),
{
    let s: int = FACTOR_SCALE_BP as int;
    assert(raw * cf >= 0) by (nonlinear_arith)
        requires
            raw >= 0 && cf >= 0,
    ;
    lemma_div_nonneg(raw * cf, s);
    lemma_mul_div_monotone_right(raw * cf / s, mf1, mf2, s);
    lemma_mul_div_monotone_left(raw * cf / s * mf1 / s, raw * cf / s * mf2 / s, af, s);
    lemma_mul_div_monotone_left(
        raw * cf / s * mf1 / s * af / s,
        raw * cf / s * mf2 / s * af / s,
        mult,
        s,
    );
}

/// One skill's contribution is non-decreasing in the accuracy factor.
proof fn lemma_skill_monotone_af(raw: int, cf: int, mf: int, af1: int, af2: int, mult: int)
    requires
        raw >= 0,
        cf >= 0,
        mf >= 0,
        af1 <= af2,
        mult >= 0,
    ensures
        skill_pp_millis(raw, cf, mf, af1, mult) <= skill_pp_millis(raw, cf, mf, af2, mult),
{
    let s: int = FACTOR_SCALE_BP as int;
    assert(raw * cf >= 0) by (nonlinear_arith)
        requires
            raw >= 0 && cf >= 0,
    ;
    lemma_div_nonneg(raw * cf, s);
    assert(raw * cf / s * mf >= 0) by (nonlinear_arith)
        requires
            raw * cf / s >= 0 && mf >= 0,
    ;
    lemma_div_nonneg(raw * cf / s * mf, s);
    lemma_mul_div_monotone_right(raw * cf / s * mf / s, af1, af2, s);
    lemma_mul_div_monotone_left(
        raw * cf / s * mf / s * af1 / s,
        raw * cf / s * mf / s * af2 / s,
        mult,
        s,
    );
}

/// The total is non-increasing when the miss factor falls and the
/// accuracy factor falls at once.
pub proof fn lemma_pp_miss_acc_antitone(
    attrs: DifficultyAttributes,
    s1: ScoreStats,
    s2: ScoreStats,
    mods: Mods,
)
    requires
        attrs is Osu,
        s1.count_miss <= s2.count_miss,
        s2.acc_bp <= s1.acc_bp,
        s1.combo == s2.combo,
    ensures
        pp_total_millis(attrs, s2, mods) <= pp_total_millis(attrs, s1, mods),
{
    let mid = ScoreStats {
        count_300: s1.count_300,
        count_100: s1.count_100,
        count_50: s1.count_50,
        count_miss: s1.count_miss,
        combo: s1.combo,
        acc_bp: s2.acc_bp,
    };
    lemma_combo_factor_bounds(s1.combo as int, attrs->Osu_max_combo as int);
    lemma_miss_factor_bounds(s1.count_miss as nat);
    lemma_mod_mult_bounds(mods);
    lemma_cube_nonneg(attrs->aim_cd as int);
    lemma_cube_nonneg(attrs->speed_cd as int);
    lemma_cube_nonneg(attrs->Osu_stars_cd as int);
    let cf = combo_factor_bp(s1.combo as int, attrs->Osu_max_combo as int);
    let mf1 = miss_factor_bp(s1.count_miss as nat);
    let mult = mod_mult_bp(mods);
    lemma_skill_monotone_af(
        cube_curve(attrs->aim_cd as int),
        cf,
        mf1,
        s2.acc_bp as int,
        s1.acc_bp as int,
        mult,
    );
    lemma_skill_monotone_af(
        cube_curve(attrs->speed_cd as int),
        cf,
        mf1,
        s2.acc_bp as int,
        s1.acc_bp as int,
        mult,
    );
    lemma_skill_monotone_af(
        acc_skill_raw(attrs->Osu_stars_cd as int),
        cf,
        mf1,
        s2.acc_bp as int,
        s1.acc_bp as int,
        mult,
    );
    lemma_pp_miss_antitone(attrs, mid, s2, mods);
}

/// One skill's contribution is never negative when no factor is.
proof fn lemma_skill_nonneg(raw: int, cf: int, mf: int, af: int, mult: int)
    requires
        raw >= 0,
        cf >= 0,
        mf >= 0,
        af >= 0,
        mult >= 0,
    ensures
        skill_pp_millis(raw, cf, mf, af, mult) >= 0,
{
    let s: int = FACTOR_SCALE_BP as int;
    assert(raw * cf >= 0) by (nonlinear_arith)
        requires
            raw >= 0 && cf >= 0,
    ;
    lemma_div_nonneg(raw * cf, s);
    assert(raw * cf / s * mf >= 0) by (nonlinear_arith)
        requires
            raw * cf / s >= 0 && mf >= 0,
    ;
    lemma_div_nonneg(raw * cf / s * mf, s);
    assert(raw * cf / s * mf / s * af >= 0) by (nonlinear_arith)
        requires
            raw * cf / s * mf / s >= 0 && af >= 0,
    ;
    lemma_div_nonneg(raw * cf / s * mf / s * af, s);
    assert(raw * cf / s * mf / s * af / s * mult >= 0) by (nonlinear_arith)
        requires
            raw * cf / s * mf / s * af / s >= 0 && mult >= 0,
    ;
    lemma_div_nonneg(raw * cf / s * mf / s * af / s * mult, s);
}

/// The total performance value is never negative, whatever the play.
pub proof fn lemma_pp_nonneg(attrs: DifficultyAttributes, stats: ScoreStats, mods: Mods)
    requires
        attrs is Osu,
    ensures
        pp_total_millis(attrs, stats, mods) >= 0,
{
    let mc = attrs->Osu_max_combo as int;
    let cf = combo_factor_bp(stats.combo as int, mc);
    let mf = miss_factor_bp(stats.count_miss as nat);
    let mult = mod_mult_bp(mods);
    lemma_combo_factor_bounds(stats.combo as int, mc);
    lemma_miss_factor_bounds(stats.count_miss as nat);
    lemma_mod_mult_bounds(mods);
    lemma_cube_nonneg(attrs->aim_cd as int);
    lemma_cube_nonneg(attrs->speed_cd as int);
    lemma_cube_nonneg(attrs->Osu_stars_cd as int);
    lemma_skill_nonneg(cube_curve(attrs->aim_cd as int), cf, mf, stats.acc_bp as int, mult);
    lemma_skill_nonneg(cube_curve(attrs->speed_cd as int), cf, mf, stats.acc_bp as int, mult);
    lemma_skill_nonneg(acc_skill_raw(attrs->Osu_stars_cd as int), cf, mf, stats.acc_bp as int, mult);
}

/// Determinism of the formula: identical inputs give the identical
/// result, bit for bit.
pub proof fn lemma_score_deterministic(
    a1: DifficultyAttributes,
    s1: ScoreStats,
    m1: Mods,
    a2: DifficultyAttributes,
    s2: ScoreStats,
    m2: Mods,
)
    requires
        a1 == a2,
        s1 == s2,
        m1 == m2,
    ensures
        score_spec(a1, s1, m1) == score_spec(a2, s2, m2),
{
}

/// Combo monotonicity: holding every other statistic fixed, the total
/// performance value is non-decreasing in the combo.
pub proof fn lemma_pp_combo_monotone(
    attrs: DifficultyAttributes,
    s1: ScoreStats,
    s2: ScoreStats,
    mods: Mods,
)
    requires
        attrs is Osu,
        s1.combo <= s2.combo,
        s1.count_miss == s2.count_miss,
        s1.acc_bp == s2.acc_bp,
    ensures
        pp_total_millis(attrs, s1, mods) <= pp_total_millis(attrs, s2, mods),
{
    let mc = attrs->Osu_max_combo as int;
    let cf1 = combo_factor_bp(s1.combo as int, mc);
    let cf2 = combo_factor_bp(s2.combo as int, mc);
    let mf = miss_factor_bp(s1.count_miss as nat);
    let mult = mod_mult_bp(mods);
    lemma_combo_factor_monotone(s1.combo as int, s2.combo as int, mc);
    lemma_miss_factor_bounds(s1.count_miss as nat);
    lemma_mod_mult_bounds(mods);
    lemma_cube_nonneg(attrs->aim_cd as int);
    lemma_cube_nonneg(attrs->speed_cd as int);
    lemma_cube_nonneg(attrs->Osu_stars_cd as int);
    lemma_skill_monotone_cf(cube_curve(attrs->aim_cd as int), cf1, cf2, mf, s1.acc_bp as int, mult);
    lemma_skill_monotone_cf(
        cube_curve(attrs->speed_cd as int),
        cf1,
        cf2,
        mf,
        s1.acc_bp as int,
        mult,
    );
    lemma_skill_monotone_cf(
        acc_skill_raw(attrs->Osu_stars_cd as int),
        cf1,
        cf2,
        mf,
        s1.acc_bp as int,
        mult,
    );
}

/// Miss monotonicity: holding combo and accuracy fixed, the total
/// performance value is non-increasing in the miss count.
pub proof fn lemma_pp_miss_antitone(
    attrs: DifficultyAttributes,
    s1: ScoreStats,
    s2: ScoreStats,
    mods: Mods,
)
    requires
        attrs is Osu,
        s1.count_miss <= s2.count_miss,
        s1.combo == s2.combo,
        s1.acc_bp == s2.acc_bp,
    ensures
        pp_total_millis(attrs, s2, mods) <= pp_total_millis(attrs, s1, mods),
{
    let mc = attrs->Osu_max_combo as int;
    let cf = combo_factor_bp(s1.combo as int, mc);
    let mf1 = miss_factor_bp(s1.count_miss as nat);
    let mf2 = miss_factor_bp(s2.count_miss as nat);
    let mult = mod_mult_bp(mods);
    lemma_miss_factor_antitone(s1.count_miss as nat, s2.count_miss as nat);
    lemma_combo_factor_bounds(s1.combo as int, mc);
    lemma_mod_mult_bounds(mods);
    lemma_cube_nonneg(attrs->aim_cd as int);
    lemma_cube_nonneg(attrs->speed_cd as int);
    lemma_cube_nonneg(attrs->Osu_stars_cd as int);
    lemma_skill_monotone_mf(cube_curve(attrs->aim_cd as int), cf, mf2, mf1, s1.acc_bp as int, mult);
    lemma_skill_monotone_mf(
        cube_curve(attrs->speed_cd as int),
        cf,
        mf2,
        mf1,
        s1.acc_bp as int,
        mult,
    );
    lemma_skill_monotone_mf(
        acc_skill_raw(attrs->Osu_stars_cd as int),
        cf,
        mf2,
        mf1,
        s1.acc_bp as int,
        mult,
    );
}

/// Scores a normalized play against standard-mode difficulty
/// attributes. Fails with `UnsupportedMode` exactly when the attributes
/// belong to another mode.
pub fn score(attrs: &DifficultyAttributes, stats: &ScoreStats, mods: &Mods) -> (r: Result<
    PPResult,
    Error,
>)
    requires
        attrs.wf(),
        stats.acc_bp <= ACC_SCALE_BP,
    ensures
        r is Ok <==> attrs is Osu,
        r matches Ok(p) ==> p == score_spec(*attrs, *stats, *mods),
        r matches Ok(p) ==> p.pp_millis == pp_total_millis(*attrs, *stats, *mods) && p.pp_millis
            == p.aim_millis + p.speed_millis + p.acc_millis,
        r matches Err(e) ==> e == Error::UnsupportedMode,
{
    match attrs {
        DifficultyAttributes::Osu { aim_cd, speed_cd, stars_cd, max_combo } => {
            let cf = combo_factor_exec(stats.combo, *max_combo);
            let mf = miss_factor_exec(stats.count_miss);
            let mult = mod_mult_exec(mods);
            let aim_raw = cube_curve_exec(*aim_cd);
            let speed_raw = cube_curve_exec(*speed_cd);
            let acc_raw = cube_curve_exec(*stars_cd) / 4;
            let aim = skill_pp_exec(aim_raw, cf, mf, stats.acc_bp, mult);
            let speed = skill_pp_exec(speed_raw, cf, mf, stats.acc_bp, mult);
            let acc = skill_pp_exec(acc_raw, cf, mf, stats.acc_bp, mult);
            Ok(PPResult { pp_millis: aim + speed + acc, aim_millis: aim, speed_millis: speed, acc_millis: acc })
        },
        _ => Err(Error::UnsupportedMode),
    }
}

} // verus!
