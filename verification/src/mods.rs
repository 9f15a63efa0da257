//! Mods model: decoding a mod bitmask into a set of named modifiers.
//!
//! Each bit of the mask corresponds to one named modifier. Unrecognized
//! bits are ignored, so decoding never fails. Mutually exclusive mods
//! (Easy vs. HardRock; DoubleTime vs. HalfTime vs. Nightcore) are
//! resolved by a fixed precedence rule: the mod with the lowest bit
//! value wins and the conflicting higher bits are dropped.

use vstd::prelude::*;

verus! {

/// Bit value of the Easy mod.
pub const MOD_EASY: u32 = 2;

/// Bit value of the Hidden mod.
pub const MOD_HIDDEN: u32 = 8;

/// Bit value of the HardRock mod.
pub const MOD_HARD_ROCK: u32 = 16;

/// Bit value of the DoubleTime mod.
pub const MOD_DOUBLE_TIME: u32 = 64;

/// Bit value of the HalfTime mod.
pub const MOD_HALF_TIME: u32 = 256;

/// Bit value of the Nightcore mod.
pub const MOD_NIGHTCORE: u32 = 512;

/// Bit value of the Flashlight mod.
pub const MOD_FLASHLIGHT: u32 = 1024;

/// Clock rate in hundredths when no rate-changing mod is active.
pub const CLOCK_RATE_NORMAL_CP: u32 = 100;

/// Clock rate in hundredths under DoubleTime or Nightcore.
pub const CLOCK_RATE_DOUBLE_TIME_CP: u32 = 150;

/// Clock rate in hundredths under HalfTime.
pub const CLOCK_RATE_HALF_TIME_CP: u32 = 75;

/// A decoded, conflict-free set of gameplay modifiers.
#[derive(Clone, Copy, Debug, PartialEq, Eq, Structural)]
pub struct Mods {
    pub easy: bool,
    pub hidden: bool,
    pub hard_rock: bool,
    pub double_time: bool,
    pub half_time: bool,
    pub nightcore: bool,
    pub flashlight: bool,
}

impl Mods {
    /// No conflicting pair is present: at most one of Easy/HardRock and
    /// at most one rate-changing mod.
    pub open spec fn wf(self) -> bool {
        &&& !(self.easy && self.hard_rock)
        &&& !(self.double_time && self.half_time)
        &&& !(self.double_time && self.nightcore)
        &&& !(self.half_time && self.nightcore)
    }

    /// True when some mod changes the clock rate.
    pub open spec fn changes_rate(self) -> bool {
        self.double_time || self.half_time || self.nightcore
    }

    /// The clock rate, in hundredths, implied by the rate-changing mods.
    pub open spec fn clock_rate_cp_spec(self) -> u32 {
        if self.double_time || self.nightcore {
            CLOCK_RATE_DOUBLE_TIME_CP
        } else if self.half_time {
            CLOCK_RATE_HALF_TIME_CP
        } else {
            CLOCK_RATE_NORMAL_CP
        }
    }

    /// Returns the clock rate, in hundredths, implied by this mod set.
    pub fn clock_rate_cp(&self) -> (r: u32)
        ensures
            r == self.clock_rate_cp_spec(),
    {
        if self.double_time || self.nightcore {
            CLOCK_RATE_DOUBLE_TIME_CP
        } else if self.half_time {
            CLOCK_RATE_HALF_TIME_CP
        } else {
            CLOCK_RATE_NORMAL_CP
        }
    }

}

/// The mod set denoted by a bitmask, after conflict resolution:
/// Easy suppresses HardRock, and DoubleTime suppresses HalfTime and
/// Nightcore, HalfTime suppresses Nightcore (lowest bit value wins).
pub open spec fn decode_spec(bits: u32) -> Mods {
    Mods {
        easy: bits & MOD_EASY != 0,
        hidden: bits & MOD_HIDDEN != 0,
        hard_rock: bits & MOD_HARD_ROCK != 0 && bits & MOD_EASY == 0,
        double_time: bits & MOD_DOUBLE_TIME != 0,
        half_time: bits & MOD_HALF_TIME != 0 && bits & MOD_DOUBLE_TIME == 0,
        nightcore: bits & MOD_NIGHTCORE != 0 && bits & MOD_DOUBLE_TIME == 0 && bits
            & MOD_HALF_TIME == 0,
        flashlight: bits & MOD_FLASHLIGHT != 0,
    }
}

/// Decodes a mod bitmask into a conflict-free set of named modifiers.
/// Unknown bits are ignored; decoding never fails.
pub fn decode(bits: u32) -> (r: Mods)
    ensures
        r == decode_spec(bits),
        r.wf(),
{
    let easy = bits & MOD_EASY != 0;
    let double_time = bits & MOD_DOUBLE_TIME != 0;
    let half_time = bits & MOD_HALF_TIME != 0 && !double_time;
    Mods {
        easy,
        hidden: bits & MOD_HIDDEN != 0,
        hard_rock: bits & MOD_HARD_ROCK != 0 && !easy,
        double_time,
        half_time,
        nightcore: bits & MOD_NIGHTCORE != 0 && !double_time && !half_time,
        flashlight: bits & MOD_FLASHLIGHT != 0,
    }
}

/// Conflict resolution on the rate-changing mods: a mask holding both
/// the DoubleTime and the HalfTime bit decodes to DoubleTime alone, so
/// exactly one clock rate results and the HalfTime effect is never
/// applied alongside it.
pub proof fn lemma_rate_conflict_resolution(bits: u32)
    requires
        bits & MOD_DOUBLE_TIME != 0,
        bits & MOD_HALF_TIME != 0,
    ensures
        decode_spec(bits).double_time,
        !decode_spec(bits).half_time,
        !decode_spec(bits).nightcore,
        decode_spec(bits).clock_rate_cp_spec() == CLOCK_RATE_DOUBLE_TIME_CP,
{
}

/// Decoding always yields a conflict-free mod set, whatever the mask.
pub proof fn lemma_decode_wf(bits: u32)
    ensures
        decode_spec(bits).wf(),
{
}

} // verus!
