//! Beatmap attribute adjuster: applies mod effects to the base
//! attributes and derives the clock rate the play runs at.
//!
//! Fixed, documented effects:
//! - HardRock multiplies CS by 1.3 and AR/OD/HP by 1.4, each capped at
//!   the attribute maximum of 10.
//! - Easy halves CS, AR, OD and HP.
//! - DoubleTime and Nightcore set the clock rate to 1.5, HalfTime to
//!   0.75; AR and OD are then recomputed from their underlying
//!   millisecond windows at the new rate (a piecewise-linear table, not
//!   a scalar multiplication).
//! - Without mods the adjustment is the identity.

use vstd::prelude::*;

use crate::beatmap::ATTR_MAX_CD;
use crate::beatmap::Beatmap;
use crate::mods::CLOCK_RATE_NORMAL_CP;
use crate::mods::Mods;

verus! {

/// Base attributes after mod adjustment, in hundredths, together with
/// the clock rate of the play, also in hundredths.
#[derive(Clone, Copy, Debug, PartialEq, Eq, Structural)]
pub struct AdjustedAttributes {
    pub ar_cd: u32,
    pub cs_cd: u32,
    pub hp_cd: u32,
    pub od_cd: u32,
    pub clock_rate_cp: u32,
}

/// Caps a scaled attribute at the attribute maximum.
pub open spec fn cap_attr(x: int) -> int {
    if x >= ATTR_MAX_CD { ATTR_MAX_CD as int } else { x }
}

/// An attribute before rate adjustment: raised by 1.4 under HardRock
/// (capped), halved under Easy, untouched otherwise.
pub open spec fn pre_rate_scaled(x: int, mods: Mods) -> int {
    if mods.hard_rock {
        cap_attr(x * 14 / 10)
    } else if mods.easy {
        x / 2
    } else {
        x
    }
}

/// The approach-rate preempt window, in tenths of a millisecond: AR 0
/// is 1800 ms, AR 5 is 1200 ms, AR 10 is 450 ms, linear in between.
pub open spec fn ar_window_tenths(ar_cd: int) -> int {
    if ar_cd <= 500 {
        18000 - 12 * ar_cd
    } else {
        12000 - 15 * (ar_cd - 500)
    }
}

/// The approach rate a preempt window denotes, in hundredths: the
/// inverse of the window table, clamped to zero for very long windows.
pub open spec fn ar_of_window_tenths(w: int) -> int {
    if w >= 18000 {
        0
    } else if w >= 12000 {
        (18000 - w) / 12
    } else {
        500 + (12000 - w) / 15
    }
}

/// The approach rate after the clock-rate change: its window is divided
/// by the rate and mapped back to an attribute value.
pub open spec fn rated_ar_cd(ar_cd: int, rate_cp: int) -> int {
    if rate_cp == CLOCK_RATE_NORMAL_CP {
        ar_cd
    } else {
        ar_of_window_tenths(ar_window_tenths(ar_cd) * 100 / rate_cp)
    }
}

/// The perfect-hit window, in hundredths of a millisecond: OD 0 is
/// 80 ms, OD 10 is 20 ms, linear in between.
pub open spec fn od_window_cents(od_cd: int) -> int {
    8000 - 6 * od_cd
}

/// The overall difficulty a perfect-hit window denotes, in hundredths,
/// clamped to zero for very long windows.
pub open spec fn od_of_window_cents(w: int) -> int {
    if w >= 8000 {
        0
    } else {
        (8000 - w) / 6
    }
}

/// The overall difficulty after the clock-rate change.
pub open spec fn rated_od_cd(od_cd: int, rate_cp: int) -> int {
    if rate_cp == CLOCK_RATE_NORMAL_CP {
        od_cd
    } else {
        od_of_window_cents(od_window_cents(od_cd) * 100 / rate_cp)
    }
}

/// The adjusted circle size: raised by 1.3 under HardRock (capped),
/// halved under Easy; the clock rate does not touch it.
pub open spec fn adjusted_cs_cd(map: Beatmap, mods: Mods) -> int {
    if mods.hard_rock {
        cap_attr(map.cs_cd * 13 / 10)
    } else if mods.easy {
        map.cs_cd as int / 2
    } else {
        map.cs_cd as int
    }
}

/// The adjusted health drain; the clock rate does not touch it.
pub open spec fn adjusted_hp_cd(map: Beatmap, mods: Mods) -> int {
    pre_rate_scaled(map.hp_cd as int, mods)
}

/// The adjusted approach rate, after scaling and rate recomputation.
pub open spec fn adjusted_ar_cd(map: Beatmap, mods: Mods) -> int {
    rated_ar_cd(pre_rate_scaled(map.ar_cd as int, mods), mods.clock_rate_cp_spec() as int)
}

/// The adjusted overall difficulty, after scaling and rate
/// recomputation.
pub open spec fn adjusted_od_cd(map: Beatmap, mods: Mods) -> int {
    rated_od_cd(pre_rate_scaled(map.od_cd as int, mods), mods.clock_rate_cp_spec() as int)
}

/// Scales one attribute by the HardRock or Easy factor.
fn pre_rate_scale_exec(x: u32, mods: &Mods) -> (r: u32)
    requires
        x <= ATTR_MAX_CD,
    ensures
        r == pre_rate_scaled(x as int, *mods),
        r <= ATTR_MAX_CD,
{
    if mods.hard_rock {
        let y = x * 14 / 10;
        if y >= ATTR_MAX_CD {
            ATTR_MAX_CD
        } else {
            y
        }
    } else if mods.easy {
        x / 2
    } else {
        x
    }
}

/// Recomputes the approach rate at the given clock rate through the
/// preempt-window table.
fn rated_ar_exec(ar_cd: u32, rate_cp: u32) -> (r: u32)
    requires
        ar_cd <= ATTR_MAX_CD,
        rate_cp == 75 || rate_cp == 100 || rate_cp == 150,
    ensures
        r == rated_ar_cd(ar_cd as int, rate_cp as int),
        r <= 1300,
{
    if rate_cp == CLOCK_RATE_NORMAL_CP {
        ar_cd
    } else {
        let w = if ar_cd <= 500 {
            18000 - 12 * ar_cd
        } else {
            12000 - 15 * (ar_cd - 500)
        };
        let w2 = w * 100 / rate_cp;
        if w2 >= 18000 {
            0
        } else if w2 >= 12000 {
            (18000 - w2) / 12
        } else {
            500 + (12000 - w2) / 15
        }
    }
}

/// Recomputes the overall difficulty at the given clock rate through
/// the hit-window table.
fn rated_od_exec(od_cd: u32, rate_cp: u32) -> (r: u32)
    requires
        od_cd <= ATTR_MAX_CD,
        rate_cp == 75 || rate_cp == 100 || rate_cp == 150,
    ensures
        r == rated_od_cd(od_cd as int, rate_cp as int),
        r <= 1300,
{
    if rate_cp == CLOCK_RATE_NORMAL_CP {
        od_cd
    } else {
        let w = 8000 - 6 * od_cd;
        let w2 = w * 100 / rate_cp;
        if w2 >= 8000 {
            0
        } else {
            (8000 - w2) / 6
        }
    }
}

/// Applies the mods' documented effects to the beatmap's base
/// attributes and reports the resulting clock rate.
pub fn adjust(map: &Beatmap, mods: &Mods) -> (r: AdjustedAttributes)
    requires
        map.wf(),
    ensures
        r.ar_cd == adjusted_ar_cd(*map, *mods),
        r.cs_cd == adjusted_cs_cd(*map, *mods),
        r.hp_cd == adjusted_hp_cd(*map, *mods),
        r.od_cd == adjusted_od_cd(*map, *mods),
        r.clock_rate_cp == mods.clock_rate_cp_spec(),
{
    let rate = mods.clock_rate_cp();
    let cs = if mods.hard_rock {
        let y = map.cs_cd * 13 / 10;
        if y >= ATTR_MAX_CD {
            ATTR_MAX_CD
        } else {
            y
        }
    } else if mods.easy {
        map.cs_cd / 2
    } else {
        map.cs_cd
    };
    let hp = pre_rate_scale_exec(map.hp_cd, mods);
    let ar1 = pre_rate_scale_exec(map.ar_cd, mods);
    let od1 = pre_rate_scale_exec(map.od_cd, mods);
    AdjustedAttributes {
        ar_cd: rated_ar_exec(ar1, rate),
        cs_cd: cs,
        hp_cd: hp,
        od_cd: rated_od_exec(od1, rate),
        clock_rate_cp: rate,
    }
}

/// Without an attribute-changing mod the adjustment is the identity:
/// every reported attribute equals the beatmap's base value and the
/// clock rate is the normal one.
pub proof fn lemma_no_mod_identity(map: Beatmap, mods: Mods)
    requires
        map.wf(),
        !mods.easy,
        !mods.hard_rock,
        !mods.changes_rate(),
    ensures
        adjusted_ar_cd(map, mods) == map.ar_cd,
        adjusted_cs_cd(map, mods) == map.cs_cd,
        adjusted_hp_cd(map, mods) == map.hp_cd,
        adjusted_od_cd(map, mods) == map.od_cd,
        mods.clock_rate_cp_spec() == CLOCK_RATE_NORMAL_CP,
{
}

/// Under HardRock alone, every adjusted attribute is at least its base
/// value and at most the attribute maximum.
pub proof fn lemma_hard_rock_monotone(map: Beatmap, mods: Mods)
    requires
        map.wf(),
        mods.hard_rock,
        !mods.changes_rate(),
    ensures
        map.ar_cd <= adjusted_ar_cd(map, mods) <= ATTR_MAX_CD,
        map.cs_cd <= adjusted_cs_cd(map, mods) <= ATTR_MAX_CD,
        map.hp_cd <= adjusted_hp_cd(map, mods) <= ATTR_MAX_CD,
        map.od_cd <= adjusted_od_cd(map, mods) <= ATTR_MAX_CD,
{
    lemma_scale_up_raises(map.ar_cd as int, 14);
    lemma_scale_up_raises(map.cs_cd as int, 13);
    lemma_scale_up_raises(map.hp_cd as int, 14);
    lemma_scale_up_raises(map.od_cd as int, 14);
}

/// Scaling an on-scale attribute up by a factor above one and capping
/// it never lowers it, and keeps it on scale.
proof fn lemma_scale_up_raises(x: int, num: int)
    requires
        0 <= x <= ATTR_MAX_CD,
        num >= 10,
    ensures
        x <= cap_attr(x * num / 10) <= ATTR_MAX_CD,
{
    assert(x * num >= x * 10) by (nonlinear_arith)
        requires
            x >= 0 && num >= 10,
    ;
    assert(x * num / 10 >= x * 10 / 10) by (nonlinear_arith)
        requires
            x * num >= x * 10,
    ;
    assert(x * 10 / 10 == x) by (nonlinear_arith);
}

} // verus!
