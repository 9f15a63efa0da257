//! Data model: the parsed beatmap's base attributes and the difficulty
//! attributes handed over by the external difficulty-attribute provider.
//!
//! Attribute values (AR, CS, HP, OD, star ratings) are fixed-point
//! integers in hundredths; `1000` means `10.00`, the documented maximum
//! of the base attribute scale.

use vstd::prelude::*;

verus! {

/// Largest base attribute value, in hundredths: `10.00`.
pub const ATTR_MAX_CD: u32 = 1000;

/// Largest star or skill rating accepted, in hundredths: `100.00`.
pub const STARS_MAX_CD: u32 = 10000;

/// The game mode a beatmap or its difficulty attributes belong to.
#[derive(Clone, Copy, Debug, PartialEq, Eq, Structural)]
pub enum GameMode {
    Osu,
    Taiko,
    Catch,
    Mania,
}

/// Base data of a parsed beatmap, as the external map parser reports it.
///
/// The record is immutable: it is created once per file and only read
/// afterwards. The note and timing data that only the difficulty-attribute
/// provider consumes is not part of this record.
#[derive(Clone, Copy, Debug, PartialEq, Eq, Structural)]
pub struct Beatmap {
    pub mode: GameMode,
    /// Approach rate, in hundredths.
    pub ar_cd: u32,
    /// Circle size, in hundredths.
    pub cs_cd: u32,
    /// Health drain, in hundredths.
    pub hp_cd: u32,
    /// Overall difficulty, in hundredths.
    pub od_cd: u32,
    /// Largest achievable combo of the unmodified map; positive.
    pub max_combo: u32,
    /// Number of hit objects in the map.
    pub n_objects: u32,
}

impl Beatmap {
    /// Every base attribute lies on the documented scale and the
    /// maximum combo is positive.
    pub open spec fn wf(self) -> bool {
        &&& self.ar_cd <= ATTR_MAX_CD
        &&& self.cs_cd <= ATTR_MAX_CD
        &&& self.hp_cd <= ATTR_MAX_CD
        &&& self.od_cd <= ATTR_MAX_CD
        &&& self.max_combo >= 1
    }

    /// Builds a well-formed beatmap record: attributes are clamped to
    /// the documented maximum and the maximum combo is raised to at
    /// least one.
    pub fn new(
        mode: GameMode,
        ar_cd: u32,
        cs_cd: u32,
        hp_cd: u32,
        od_cd: u32,
        max_combo: u32,
        n_objects: u32,
    ) -> (m: Beatmap)
        ensures
            m.wf(),
            m.mode == mode,
            m.ar_cd == if ar_cd <= ATTR_MAX_CD { ar_cd } else { ATTR_MAX_CD },
            m.cs_cd == if cs_cd <= ATTR_MAX_CD { cs_cd } else { ATTR_MAX_CD },
            m.hp_cd == if hp_cd <= ATTR_MAX_CD { hp_cd } else { ATTR_MAX_CD },
            m.od_cd == if od_cd <= ATTR_MAX_CD { od_cd } else { ATTR_MAX_CD },
            m.max_combo == if max_combo >= 1 { max_combo } else { 1u32 },
            m.n_objects == n_objects,
    {
        Beatmap {
            mode,
            ar_cd: if ar_cd <= ATTR_MAX_CD { ar_cd } else { ATTR_MAX_CD },
            cs_cd: if cs_cd <= ATTR_MAX_CD { cs_cd } else { ATTR_MAX_CD },
            hp_cd: if hp_cd <= ATTR_MAX_CD { hp_cd } else { ATTR_MAX_CD },
            od_cd: if od_cd <= ATTR_MAX_CD { od_cd } else { ATTR_MAX_CD },
            max_combo: if max_combo >= 1 { max_combo } else { 1 },
            n_objects,
        }
    }
}

/// Difficulty attributes produced by the external provider for one
/// (beatmap, mods) pair, tagged by game mode. Only the standard mode
/// carries the fields the performance model consumes; for the other
/// modes only the star rating is kept.
#[derive(Clone, Copy, Debug, PartialEq, Eq, Structural)]
pub enum DifficultyAttributes {
    Osu {
        /// Aim skill rating, in hundredths.
        aim_cd: u32,
        /// Speed skill rating, in hundredths.
        speed_cd: u32,
        /// Total star rating, in hundredths.
        stars_cd: u32,
        /// Largest achievable combo under the mods the provider saw.
        max_combo: u32,
    },
    Taiko { stars_cd: u32 },
    Catch { stars_cd: u32 },
    Mania { stars_cd: u32 },
}

impl DifficultyAttributes {
    /// Every rating lies on the accepted scale.
    pub open spec fn wf(self) -> bool {
        match self {
            DifficultyAttributes::Osu { aim_cd, speed_cd, stars_cd, max_combo: _ } => {
                aim_cd <= STARS_MAX_CD && speed_cd <= STARS_MAX_CD && stars_cd <= STARS_MAX_CD
            },
            DifficultyAttributes::Taiko { stars_cd } => stars_cd <= STARS_MAX_CD,
            DifficultyAttributes::Catch { stars_cd } => stars_cd <= STARS_MAX_CD,
            DifficultyAttributes::Mania { stars_cd } => stars_cd <= STARS_MAX_CD,
        }
    }

    /// The star rating, whatever the mode.
    pub open spec fn stars_cd_spec(self) -> u32 {
        match self {
            DifficultyAttributes::Osu { stars_cd, .. } => stars_cd,
            DifficultyAttributes::Taiko { stars_cd } => stars_cd,
            DifficultyAttributes::Catch { stars_cd } => stars_cd,
            DifficultyAttributes::Mania { stars_cd } => stars_cd,
        }
    }

    /// Returns the star rating, in hundredths, whatever the mode.
    pub fn stars_cd(&self) -> (r: u32)
        ensures
            r == self.stars_cd_spec(),
    {
        match self {
            DifficultyAttributes::Osu { stars_cd, .. } => *stars_cd,
            DifficultyAttributes::Taiko { stars_cd } => *stars_cd,
            DifficultyAttributes::Catch { stars_cd } => *stars_cd,
            DifficultyAttributes::Mania { stars_cd } => *stars_cd,
        }
    }

    /// Builds well-formed standard-mode attributes: ratings are clamped
    /// to the accepted scale.
    pub fn new_osu(aim_cd: u32, speed_cd: u32, stars_cd: u32, max_combo: u32) -> (a:
        DifficultyAttributes)
        ensures
            a.wf(),
            a == (DifficultyAttributes::Osu {
                aim_cd: if aim_cd <= STARS_MAX_CD { aim_cd } else { STARS_MAX_CD },
                speed_cd: if speed_cd <= STARS_MAX_CD { speed_cd } else { STARS_MAX_CD },
                stars_cd: if stars_cd <= STARS_MAX_CD { stars_cd } else { STARS_MAX_CD },
                max_combo,
            }),
    {
        DifficultyAttributes::Osu {
            aim_cd: if aim_cd <= STARS_MAX_CD { aim_cd } else { STARS_MAX_CD },
            speed_cd: if speed_cd <= STARS_MAX_CD { speed_cd } else { STARS_MAX_CD },
            stars_cd: if stars_cd <= STARS_MAX_CD { stars_cd } else { STARS_MAX_CD },
            max_combo,
        }
    }
}

} // verus!
