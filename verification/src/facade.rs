//! Query facade: the three public operations, composed from the mods
//! model, the attribute adjuster, the score normalizer and the formula
//! engine. The external map parser and difficulty-attribute provider
//! hand in their results as plain records; every call is a linear
//! pipeline over immutable inputs.

use vstd::prelude::*;

use crate::adjust::adjust;
use crate::adjust::adjusted_ar_cd;
use crate::adjust::adjusted_cs_cd;
use crate::adjust::adjusted_hp_cd;
use crate::adjust::adjusted_od_cd;
use crate::adjust::lemma_hard_rock_monotone;
use crate::adjust::lemma_no_mod_identity;
use crate::beatmap::ATTR_MAX_CD;
use crate::beatmap::Beatmap;
use crate::beatmap::DifficultyAttributes;
use crate::engine::PPResult;
use crate::engine::lemma_pp_combo_monotone;
use crate::engine::lemma_pp_miss_acc_antitone;
use crate::engine::pp_total_millis;
use crate::engine::score;
use crate::engine::score_spec;
use crate::error::Error;
use crate::mods::decode;
use crate::mods::decode_spec;
use crate::score::ACC_SCALE_BP;
use crate::score::accuracy_stats_spec;
use crate::score::counts_stats_spec;
use crate::score::lemma_accuracy_bounds;
use crate::score::lemma_accuracy_monotone;
use crate::score::lemma_full_combo_equivalence;
use crate::score::normalize_accuracy;
use crate::score::normalize_counts;

verus! {

/// The attribute summary `get_beatmap_info` reports: the star rating,
/// the mod-adjusted base attributes, and the maximum combo where the
/// mode supports one.
#[derive(Clone, Copy, Debug, PartialEq, Eq)]
pub struct BeatmapInfo {
    pub stars_cd: u32,
    pub ar_cd: u32,
    pub cs_cd: u32,
    pub hp_cd: u32,
    pub od_cd: u32,
    pub max_combo: Option<u32>,
}

/// The provider's attributes fit the beatmap: where a maximum combo is
/// reported it is positive and covers every object.
pub open spec fn attrs_consistent(map: Beatmap, attrs: DifficultyAttributes) -> bool {
    attrs matches DifficultyAttributes::Osu { max_combo, .. } ==> max_combo >= 1 && max_combo
        >= map.n_objects
}

/// What the counts-mode pipeline returns: the mode gate, the provider
/// consistency check, the normalizer's rejection, then the formula on
/// the normalized record under the decoded mods.
pub open spec fn counts_pp_spec(
    map: Beatmap,
    attrs: DifficultyAttributes,
    count_100: u32,
    count_50: u32,
    count_miss: u32,
    combo: u32,
    mods_bits: u32,
) -> Result<PPResult, Error> {
    if !(attrs is Osu) {
        Err(Error::UnsupportedMode)
    } else if !attrs_consistent(map, attrs) {
        Err(Error::InvalidAttributes)
    } else if count_100 + count_50 + count_miss > map.n_objects {
        Err(Error::InvalidScoreStats)
    } else {
        Ok(
            score_spec(
                attrs,
                counts_stats_spec(
                    map.n_objects,
                    count_100,
                    count_50,
                    count_miss,
                    combo,
                    attrs->Osu_max_combo,
                ),
                decode_spec(mods_bits),
            ),
        )
    }
}

/// What the accuracy-mode pipeline returns.
pub open spec fn accuracy_pp_spec(
    map: Beatmap,
    attrs: DifficultyAttributes,
    acc_bp: u32,
    mods_bits: u32,
) -> Result<PPResult, Error> {
    if !(attrs is Osu) {
        Err(Error::UnsupportedMode)
    } else if !attrs_consistent(map, attrs) {
        Err(Error::InvalidAttributes)
    } else if acc_bp > ACC_SCALE_BP {
        Err(Error::InvalidScoreStats)
    } else {
        Ok(
            score_spec(
                attrs,
                accuracy_stats_spec(map.n_objects, acc_bp, attrs->Osu_max_combo),
                decode_spec(mods_bits),
            ),
        )
    }
}

/// Calculates the performance value of a play given as hit counts and
/// combo. The perfect-hit count is derived from the object total;
/// counts exceeding it are rejected with `InvalidScoreStats`, a combo
/// beyond the provider's maximum is clamped.
pub fn calculate_pp_with_counts(
    map: &Beatmap,
    attrs: &DifficultyAttributes,
    count_100: u32,
    count_50: u32,
    count_miss: u32,
    combo: u32,
    mods_bits: u32,
) -> (r: Result<PPResult, Error>)
    requires
        map.wf(),
        attrs.wf(),
    ensures
        r == counts_pp_spec(*map, *attrs, count_100, count_50, count_miss, combo, mods_bits),
        r is Ok <==> attrs is Osu && attrs_consistent(*map, *attrs) && count_100 + count_50
            + count_miss <= map.n_objects,
{
    let mods = decode(mods_bits);
    match attrs {
        DifficultyAttributes::Osu { max_combo, .. } => {
            if !(*max_combo >= 1 && *max_combo >= map.n_objects) {
                return Err(Error::InvalidAttributes);
            }
            match normalize_counts(
                map.n_objects,
                count_100,
                count_50,
                count_miss,
                combo,
                *max_combo,
            ) {
                Ok(stats) => score(attrs, &stats, &mods),
                Err(e) => Err(e),
            }
        },
        _ => Err(Error::UnsupportedMode),
    }
}

/// Calculates the performance value of a play given as a bare accuracy
/// in basis points, under the modeled full-combo, no-miss assumption.
/// An accuracy above the unit is rejected with `InvalidScoreStats`.
pub fn calculate_pp_with_accuracy(
    map: &Beatmap,
    attrs: &DifficultyAttributes,
    acc_bp: u32,
    mods_bits: u32,
) -> (r: Result<PPResult, Error>)
    requires
        map.wf(),
        attrs.wf(),
    ensures
        r == accuracy_pp_spec(*map, *attrs, acc_bp, mods_bits),
        r is Ok <==> attrs is Osu && attrs_consistent(*map, *attrs) && acc_bp <= ACC_SCALE_BP,
{
    let mods = decode(mods_bits);
    match attrs {
        DifficultyAttributes::Osu { max_combo, .. } => {
            if !(*max_combo >= 1 && *max_combo >= map.n_objects) {
                return Err(Error::InvalidAttributes);
            }
            match normalize_accuracy(map.n_objects, acc_bp, *max_combo) {
                Ok(stats) => score(attrs, &stats, &mods),
                Err(e) => Err(e),
            }
        },
        _ => Err(Error::UnsupportedMode),
    }
}

/// Reports the star rating, the mod-adjusted base attributes and, for
/// the standard mode only, the provider's maximum combo.
pub fn get_beatmap_info(map: &Beatmap, attrs: &DifficultyAttributes, mods_bits: u32) -> (r:
    BeatmapInfo)
    requires
        map.wf(),
        attrs.wf(),
    ensures
        r.stars_cd == attrs.stars_cd_spec(),
        r.ar_cd == adjusted_ar_cd(*map, decode_spec(mods_bits)),
        r.cs_cd == adjusted_cs_cd(*map, decode_spec(mods_bits)),
        r.hp_cd == adjusted_hp_cd(*map, decode_spec(mods_bits)),
        r.od_cd == adjusted_od_cd(*map, decode_spec(mods_bits)),
        r.max_combo is Some <==> attrs is Osu,
        attrs is Osu ==> r.max_combo == Some(attrs->Osu_max_combo),
{
    let mods = decode(mods_bits);
    let adj = adjust(map, &mods);
    let max_combo = match attrs {
        DifficultyAttributes::Osu { max_combo, .. } => Some(*max_combo),
        _ => None,
    };
    BeatmapInfo {
        stars_cd: attrs.stars_cd(),
        ar_cd: adj.ar_cd,
        cs_cd: adj.cs_cd,
        hp_cd: adj.hp_cd,
        od_cd: adj.od_cd,
        max_combo,
    }
}

/// Accuracy boundary: the counts-mode pipeline on a play with no
/// imperfect hit and the full combo returns the very result of the
/// accuracy-mode pipeline at an accuracy of one — errors included.
pub proof fn lemma_accuracy_boundary(map: Beatmap, attrs: DifficultyAttributes, mods_bits: u32)
    requires
        attrs is Osu,
    ensures
        counts_pp_spec(map, attrs, 0, 0, 0, attrs->Osu_max_combo, mods_bits) == accuracy_pp_spec(
            map,
            attrs,
            ACC_SCALE_BP,
            mods_bits,
        ),
{
    lemma_full_combo_equivalence(map.n_objects, attrs->Osu_max_combo);
}

/// Miss monotonicity through the counts pipeline: raising the miss
/// count while everything else is held fixed never raises the total
/// performance value — both through the miss penalty and through the
/// lower accuracy the extra miss implies.
pub proof fn lemma_counts_miss_antitone(
    map: Beatmap,
    attrs: DifficultyAttributes,
    count_100: u32,
    count_50: u32,
    miss1: u32,
    miss2: u32,
    combo: u32,
    mods_bits: u32,
)
    requires
        attrs is Osu,
        miss1 <= miss2,
        count_100 + count_50 + miss2 <= map.n_objects,
    ensures
        pp_total_millis(
            attrs,
            counts_stats_spec(
                map.n_objects,
                count_100,
                count_50,
                miss2,
                combo,
                attrs->Osu_max_combo,
            ),
            decode_spec(mods_bits),
        ) <= pp_total_millis(
            attrs,
            counts_stats_spec(
                map.n_objects,
                count_100,
                count_50,
                miss1,
                combo,
                attrs->Osu_max_combo,
            ),
            decode_spec(mods_bits),
        ),
{
    let n = map.n_objects as int;
    let c300_1 = n - count_100 - count_50 - miss1;
    let c300_2 = n - count_100 - count_50 - miss2;
    lemma_accuracy_bounds(c300_1, count_100 as int, count_50 as int, n);
    lemma_accuracy_bounds(c300_2, count_100 as int, count_50 as int, n);
    lemma_accuracy_monotone(c300_2, c300_1, count_100 as int, count_50 as int, n);
    let s1 = counts_stats_spec(
        map.n_objects,
        count_100,
        count_50,
        miss1,
        combo,
        attrs->Osu_max_combo,
    );
    let s2 = counts_stats_spec(
        map.n_objects,
        count_100,
        count_50,
        miss2,
        combo,
        attrs->Osu_max_combo,
    );
    lemma_pp_miss_acc_antitone(attrs, s1, s2, decode_spec(mods_bits));
}

/// Combo monotonicity through the counts pipeline: a higher combo,
/// everything else held fixed, never lowers the total performance
/// value.
pub proof fn lemma_counts_combo_monotone(
    map: Beatmap,
    attrs: DifficultyAttributes,
    count_100: u32,
    count_50: u32,
    count_miss: u32,
    combo1: u32,
    combo2: u32,
    mods_bits: u32,
)
    requires
        attrs is Osu,
        combo1 <= combo2,
    ensures
        pp_total_millis(
            attrs,
            counts_stats_spec(
                map.n_objects,
                count_100,
                count_50,
                count_miss,
                combo1,
                attrs->Osu_max_combo,
            ),
            decode_spec(mods_bits),
        ) <= pp_total_millis(
            attrs,
            counts_stats_spec(
                map.n_objects,
                count_100,
                count_50,
                count_miss,
                combo2,
                attrs->Osu_max_combo,
            ),
            decode_spec(mods_bits),
        ),
{
    let s1 = counts_stats_spec(
        map.n_objects,
        count_100,
        count_50,
        count_miss,
        combo1,
        attrs->Osu_max_combo,
    );
    let s2 = counts_stats_spec(
        map.n_objects,
        count_100,
        count_50,
        count_miss,
        combo2,
        attrs->Osu_max_combo,
    );
    lemma_pp_combo_monotone(attrs, s1, s2, decode_spec(mods_bits));
}

/// A zero mod bitmask reports the beatmap's base attributes unchanged.
pub proof fn lemma_info_no_mods_raw(map: Beatmap)
    requires
        map.wf(),
    ensures
        adjusted_ar_cd(map, decode_spec(0)) == map.ar_cd,
        adjusted_cs_cd(map, decode_spec(0)) == map.cs_cd,
        adjusted_hp_cd(map, decode_spec(0)) == map.hp_cd,
        adjusted_od_cd(map, decode_spec(0)) == map.od_cd,
{
    assert(0u32 & 2u32 == 0) by (bit_vector);
    assert(0u32 & 16u32 == 0) by (bit_vector);
    assert(0u32 & 64u32 == 0) by (bit_vector);
    assert(0u32 & 256u32 == 0) by (bit_vector);
    assert(0u32 & 512u32 == 0) by (bit_vector);
    lemma_no_mod_identity(map, decode_spec(0));
}

/// The HardRock bitmask alone reports attributes at least as high as
/// the base values, each still on the attribute scale.
pub proof fn lemma_info_hard_rock_monotone(map: Beatmap)
    requires
        map.wf(),
    ensures
        map.ar_cd <= adjusted_ar_cd(map, decode_spec(16)) <= ATTR_MAX_CD,
        map.cs_cd <= adjusted_cs_cd(map, decode_spec(16)) <= ATTR_MAX_CD,
        map.hp_cd <= adjusted_hp_cd(map, decode_spec(16)) <= ATTR_MAX_CD,
        map.od_cd <= adjusted_od_cd(map, decode_spec(16)) <= ATTR_MAX_CD,
{
    assert(16u32 & 2u32 == 0) by (bit_vector);
    assert(16u32 & 16u32 != 0) by (bit_vector);
    assert(16u32 & 64u32 == 0) by (bit_vector);
    assert(16u32 & 256u32 == 0) by (bit_vector);
    assert(16u32 & 512u32 == 0) by (bit_vector);
    lemma_hard_rock_monotone(map, decode_spec(16));
}

} // verus!
