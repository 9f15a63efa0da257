use pp_calc::adjust::adjust;
use pp_calc::adjust::AdjustedAttributes;
use pp_calc::beatmap::Beatmap;
use pp_calc::beatmap::DifficultyAttributes;
use pp_calc::beatmap::GameMode;
use pp_calc::error::Error;
use pp_calc::mods::decode;
use pp_calc::mods::MOD_DOUBLE_TIME;
use pp_calc::mods::MOD_EASY;
use pp_calc::mods::MOD_FLASHLIGHT;
use pp_calc::mods::MOD_HALF_TIME;
use pp_calc::mods::MOD_HARD_ROCK;
use pp_calc::mods::MOD_HIDDEN;
use pp_calc::mods::MOD_NIGHTCORE;
use pp_calc::score::normalize_accuracy;
use pp_calc::score::normalize_counts;

fn sample_map() -> Beatmap {
    Beatmap::new(GameMode::Osu, 900, 400, 500, 800, 500, 500)
}

#[test]
fn decode_zero_is_empty() {
    let m = decode(0);
    assert!(!m.easy);
    assert!(!m.hidden);
    assert!(!m.hard_rock);
    assert!(!m.double_time);
    assert!(!m.half_time);
    assert!(!m.nightcore);
    assert!(!m.flashlight);
    assert_eq!(m.clock_rate_cp(), 100);
}

#[test]
fn decode_single_bits() {
    assert!(decode(MOD_EASY).easy);
    assert!(decode(MOD_HIDDEN).hidden);
    assert!(decode(MOD_HARD_ROCK).hard_rock);
    assert!(decode(MOD_DOUBLE_TIME).double_time);
    assert!(decode(MOD_HALF_TIME).half_time);
    assert!(decode(MOD_NIGHTCORE).nightcore);
    assert!(decode(MOD_FLASHLIGHT).flashlight);
}

#[test]
fn decode_ignores_unknown_bits() {
    // A mask of only unrecognized bits decodes to the empty mod set.
    let m = decode(1 | 4 | 32 | 2048 | 0x8000_0000);
    assert_eq!(m, decode(0));
}

#[test]
fn decode_easy_suppresses_hard_rock() {
    let m = decode(MOD_EASY | MOD_HARD_ROCK);
    assert!(m.easy);
    assert!(!m.hard_rock);
}

#[test]
fn decode_rate_conflict_double_time_wins() {
    // Both rate mods present: exactly one survives, per the
    // lowest-bit-wins rule, and a single clock rate results.
    let m = decode(MOD_DOUBLE_TIME | MOD_HALF_TIME);
    assert!(m.double_time);
    assert!(!m.half_time);
    assert!(!m.nightcore);
    assert_eq!(m.clock_rate_cp(), 150);
}

#[test]
fn decode_half_time_suppresses_nightcore() {
    let m = decode(MOD_HALF_TIME | MOD_NIGHTCORE);
    assert!(m.half_time);
    assert!(!m.nightcore);
    assert_eq!(m.clock_rate_cp(), 75);
}

#[test]
fn nightcore_acts_as_double_time() {
    let m = decode(MOD_NIGHTCORE);
    assert_eq!(m.clock_rate_cp(), 150);
}

#[test]
fn adjust_no_mods_is_identity() {
    let map = sample_map();
    let adj = adjust(&map, &decode(0));
    assert_eq!(
        adj,
        AdjustedAttributes { ar_cd: 900, cs_cd: 400, hp_cd: 500, od_cd: 800, clock_rate_cp: 100 }
    );
}

#[test]
fn adjust_hard_rock_raises_and_caps() {
    let map = sample_map();
    let adj = adjust(&map, &decode(MOD_HARD_ROCK));
    // CS 4.00 * 1.3 = 5.20; AR 9.00 * 1.4 caps at 10.00;
    // HP 5.00 * 1.4 = 7.00; OD 8.00 * 1.4 caps at 10.00.
    assert_eq!(
        adj,
        AdjustedAttributes { ar_cd: 1000, cs_cd: 520, hp_cd: 700, od_cd: 1000, clock_rate_cp: 100 }
    );
}

#[test]
fn adjust_easy_halves() {
    let map = sample_map();
    let adj = adjust(&map, &decode(MOD_EASY));
    assert_eq!(
        adj,
        AdjustedAttributes { ar_cd: 450, cs_cd: 200, hp_cd: 250, od_cd: 400, clock_rate_cp: 100 }
    );
}

#[test]
fn adjust_double_time_recomputes_windows() {
    let map = sample_map();
    let adj = adjust(&map, &decode(MOD_DOUBLE_TIME));
    // AR 9.00: preempt 600 ms, at rate 1.5 it is 400 ms, which reads
    // back as AR 10.33; OD 8.00: window 32 ms becomes 21.33 ms, OD 9.77.
    assert_eq!(
        adj,
        AdjustedAttributes { ar_cd: 1033, cs_cd: 400, hp_cd: 500, od_cd: 977, clock_rate_cp: 150 }
    );
}

#[test]
fn adjust_half_time_low_ar_clamps_to_zero() {
    let map = Beatmap::new(GameMode::Osu, 300, 400, 500, 0, 500, 500);
    let adj = adjust(&map, &decode(MOD_HALF_TIME));
    // AR 3.00: preempt 1440 ms, at rate 0.75 it is 1920 ms, beyond the
    // AR 0 window of 1800 ms, so the value clamps to zero; OD 0 stays 0.
    assert_eq!(adj.ar_cd, 0);
    assert_eq!(adj.od_cd, 0);
    assert_eq!(adj.clock_rate_cp, 75);
}

#[test]
fn beatmap_new_clamps() {
    let map = Beatmap::new(GameMode::Osu, 1200, 99999, 1000, 0, 0, 7);
    assert_eq!(map.ar_cd, 1000);
    assert_eq!(map.cs_cd, 1000);
    assert_eq!(map.hp_cd, 1000);
    assert_eq!(map.od_cd, 0);
    assert_eq!(map.max_combo, 1);
    assert_eq!(map.n_objects, 7);
}

#[test]
fn difficulty_attributes_new_osu_clamps() {
    let a = DifficultyAttributes::new_osu(20000, 500, 10001, 500);
    assert_eq!(
        a,
        DifficultyAttributes::Osu { aim_cd: 10000, speed_cd: 500, stars_cd: 10000, max_combo: 500 }
    );
}

#[test]
fn normalize_counts_derives_accuracy() {
    let s = normalize_counts(500, 10, 0, 0, 500, 500).unwrap();
    assert_eq!(s.count_300, 490);
    assert_eq!(s.count_100, 10);
    assert_eq!(s.count_50, 0);
    assert_eq!(s.count_miss, 0);
    assert_eq!(s.combo, 500);
    assert_eq!(s.acc_bp, 9866);
}

#[test]
fn normalize_counts_clamps_combo() {
    let s = normalize_counts(500, 0, 0, 0, 9999, 500).unwrap();
    assert_eq!(s.combo, 500);
}

#[test]
fn normalize_counts_rejects_excess_counts() {
    // 5 + 4 + 2 hits exceed the 10 objects of the map.
    let r = normalize_counts(10, 5, 4, 2, 10, 10);
    assert_eq!(r, Err(Error::InvalidScoreStats));
}

#[test]
fn normalize_counts_accepts_exact_total() {
    let s = normalize_counts(10, 5, 4, 1, 10, 10).unwrap();
    assert_eq!(s.count_300, 0);
}

#[test]
fn normalize_accuracy_prefers_hundreds() {
    // 90% over 100 objects: a deficit of 3000 hit value, fifteen
    // hits worth 100, and the recomputed accuracy is exact.
    let s = normalize_accuracy(100, 9000, 100).unwrap();
    assert_eq!(s.count_300, 85);
    assert_eq!(s.count_100, 15);
    assert_eq!(s.count_50, 0);
    assert_eq!(s.count_miss, 0);
    assert_eq!(s.combo, 100);
    assert_eq!(s.acc_bp, 9000);
}

#[test]
fn normalize_accuracy_overflows_into_fifties() {
    // 20% over 10 objects cannot be reached with hits worth 100 alone.
    let s = normalize_accuracy(10, 2000, 10).unwrap();
    assert_eq!(s.count_300, 0);
    assert_eq!(s.count_100, 2);
    assert_eq!(s.count_50, 8);
    assert_eq!(s.acc_bp, 2000);
}

#[test]
fn normalize_accuracy_floors_at_all_fifties() {
    // 10% is below what a no-miss play can reach; the heuristic lands
    // on all hits worth 50.
    let s = normalize_accuracy(10, 1000, 10).unwrap();
    assert_eq!(s.count_300, 0);
    assert_eq!(s.count_100, 0);
    assert_eq!(s.count_50, 10);
    assert_eq!(s.acc_bp, 1666);
}

#[test]
fn normalize_accuracy_rejects_above_one() {
    let r = normalize_accuracy(100, 10001, 100);
    assert_eq!(r, Err(Error::InvalidScoreStats));
}

#[test]
fn normalize_empty_map_is_perfect() {
    let s = normalize_counts(0, 0, 0, 0, 0, 1).unwrap();
    assert_eq!(s.count_300, 0);
    assert_eq!(s.acc_bp, 10000);
}
