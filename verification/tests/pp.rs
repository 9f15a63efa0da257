use pp_calc::beatmap::Beatmap;
use pp_calc::beatmap::DifficultyAttributes;
use pp_calc::beatmap::GameMode;
use pp_calc::calculate_pp_with_accuracy;
use pp_calc::calculate_pp_with_counts;
use pp_calc::error::Error;
use pp_calc::get_beatmap_info;
use pp_calc::mods::MOD_DOUBLE_TIME;
use pp_calc::mods::MOD_FLASHLIGHT;
use pp_calc::mods::MOD_HALF_TIME;
use pp_calc::mods::MOD_HARD_ROCK;
use pp_calc::mods::MOD_HIDDEN;

fn sample_map() -> Beatmap {
    Beatmap::new(GameMode::Osu, 900, 400, 500, 800, 500, 500)
}

fn sample_attrs() -> DifficultyAttributes {
    // A mocked provider result: 5.00 stars, aim and speed at 5.00,
    // maximum combo 500.
    DifficultyAttributes::new_osu(500, 500, 500, 500)
}

#[test]
fn end_to_end_reference_value() {
    // Reference scenario pinned against the formula constants: 500
    // objects, ten hits worth 100, full combo, no mods.
    let map = sample_map();
    let attrs = sample_attrs();
    let r = calculate_pp_with_counts(&map, &attrs, 10, 0, 0, 500, 0).unwrap();
    assert_eq!(r.aim_millis, 246650);
    assert_eq!(r.speed_millis, 246650);
    assert_eq!(r.acc_millis, 61662);
    assert_eq!(r.pp_millis, 554962);
    assert_eq!(r.pp_millis, r.aim_millis + r.speed_millis + r.acc_millis);
}

#[test]
fn determinism_bit_identical() {
    let map = sample_map();
    let attrs = sample_attrs();
    let a = calculate_pp_with_counts(&map, &attrs, 10, 3, 1, 420, MOD_HIDDEN);
    let b = calculate_pp_with_counts(&map, &attrs, 10, 3, 1, 420, MOD_HIDDEN);
    assert_eq!(a, b);
    let c = calculate_pp_with_accuracy(&map, &attrs, 9523, MOD_HARD_ROCK);
    let d = calculate_pp_with_accuracy(&map, &attrs, 9523, MOD_HARD_ROCK);
    assert_eq!(c, d);
    let e = get_beatmap_info(&map, &attrs, MOD_DOUBLE_TIME);
    let f = get_beatmap_info(&map, &attrs, MOD_DOUBLE_TIME);
    assert_eq!(e, f);
}

#[test]
fn miss_count_never_raises_pp() {
    let map = sample_map();
    let attrs = sample_attrs();
    let mut last = u64::MAX;
    for miss in 0..6 {
        let r = calculate_pp_with_counts(&map, &attrs, 10, 0, miss, 400, 0).unwrap();
        assert!(r.pp_millis <= last);
        last = r.pp_millis;
    }
}

#[test]
fn combo_never_lowers_pp() {
    let map = sample_map();
    let attrs = sample_attrs();
    let mut last = 0u64;
    for combo in [0, 1, 100, 250, 499, 500] {
        let r = calculate_pp_with_counts(&map, &attrs, 10, 0, 0, combo, 0).unwrap();
        assert!(r.pp_millis >= last);
        last = r.pp_millis;
    }
}

#[test]
fn accuracy_boundary_full_combo() {
    // A counts-mode play with no imperfect hit and the full combo is
    // exactly the accuracy-mode play at accuracy one.
    let map = sample_map();
    let attrs = sample_attrs();
    let counts = calculate_pp_with_counts(&map, &attrs, 0, 0, 0, 500, 0).unwrap();
    let acc = calculate_pp_with_accuracy(&map, &attrs, 10000, 0).unwrap();
    assert_eq!(counts, acc);
    assert_eq!(counts.pp_millis, 562500);
}

#[test]
fn hidden_flashlight_multipliers() {
    let map = sample_map();
    let attrs = sample_attrs();
    let plain = calculate_pp_with_counts(&map, &attrs, 0, 0, 0, 500, 0).unwrap();
    let boosted =
        calculate_pp_with_counts(&map, &attrs, 0, 0, 0, 500, MOD_HIDDEN | MOD_FLASHLIGHT).unwrap();
    assert_eq!(boosted.pp_millis, 667800);
    assert!(boosted.pp_millis > plain.pp_millis);
}

#[test]
fn zero_combo_gives_zero_pp() {
    let map = sample_map();
    let attrs = sample_attrs();
    let r = calculate_pp_with_counts(&map, &attrs, 0, 0, 0, 0, 0).unwrap();
    assert_eq!(r.pp_millis, 0);
}

#[test]
fn extreme_values_stay_in_range() {
    // The ceiling of the model: the largest ratings, the largest map,
    // a perfect full-combo play and both flat multipliers.
    let map = Beatmap::new(GameMode::Osu, 1000, 1000, 1000, 1000, u32::MAX, u32::MAX);
    let attrs = DifficultyAttributes::new_osu(10000, 10000, 10000, u32::MAX);
    let r = calculate_pp_with_counts(
        &map,
        &attrs,
        0,
        0,
        0,
        u32::MAX,
        MOD_HIDDEN | MOD_FLASHLIGHT,
    )
    .unwrap();
    assert_eq!(r.aim_millis, 2374400000);
    assert_eq!(r.speed_millis, 2374400000);
    assert_eq!(r.acc_millis, 593600000);
    assert_eq!(r.pp_millis, 5342400000);
}

#[test]
fn counts_beyond_objects_rejected() {
    let map = Beatmap::new(GameMode::Osu, 900, 400, 500, 800, 10, 10);
    let attrs = DifficultyAttributes::new_osu(500, 500, 500, 10);
    let r = calculate_pp_with_counts(&map, &attrs, 5, 4, 2, 10, 0);
    assert_eq!(r, Err(Error::InvalidScoreStats));
}

#[test]
fn accuracy_above_one_rejected() {
    let map = sample_map();
    let attrs = sample_attrs();
    let r = calculate_pp_with_accuracy(&map, &attrs, 10001, 0);
    assert_eq!(r, Err(Error::InvalidScoreStats));
}

#[test]
fn unsupported_mode_rejected() {
    let map = Beatmap::new(GameMode::Taiko, 500, 500, 500, 500, 100, 100);
    let attrs = DifficultyAttributes::Taiko { stars_cd: 450 };
    let counts = calculate_pp_with_counts(&map, &attrs, 0, 0, 0, 100, 0);
    assert_eq!(counts, Err(Error::UnsupportedMode));
    let acc = calculate_pp_with_accuracy(&map, &attrs, 10000, 0);
    assert_eq!(acc, Err(Error::UnsupportedMode));
}

#[test]
fn inconsistent_attributes_rejected() {
    let map = sample_map();
    // The provider reports a maximum combo below the object count.
    let attrs = DifficultyAttributes::new_osu(500, 500, 500, 499);
    let r = calculate_pp_with_counts(&map, &attrs, 0, 0, 0, 499, 0);
    assert_eq!(r, Err(Error::InvalidAttributes));
}

#[test]
fn info_no_mods_reports_raw_attributes() {
    let map = sample_map();
    let attrs = sample_attrs();
    let info = get_beatmap_info(&map, &attrs, 0);
    assert_eq!(info.stars_cd, 500);
    assert_eq!(info.ar_cd, 900);
    assert_eq!(info.cs_cd, 400);
    assert_eq!(info.hp_cd, 500);
    assert_eq!(info.od_cd, 800);
    assert_eq!(info.max_combo, Some(500));
}

#[test]
fn info_hard_rock_raises_attributes() {
    let map = sample_map();
    let attrs = sample_attrs();
    let base = get_beatmap_info(&map, &attrs, 0);
    let hr = get_beatmap_info(&map, &attrs, MOD_HARD_ROCK);
    assert!(hr.ar_cd >= base.ar_cd && hr.ar_cd <= 1000);
    assert!(hr.cs_cd >= base.cs_cd && hr.cs_cd <= 1000);
    assert!(hr.hp_cd >= base.hp_cd && hr.hp_cd <= 1000);
    assert!(hr.od_cd >= base.od_cd && hr.od_cd <= 1000);
    assert_eq!(hr.ar_cd, 1000);
    assert_eq!(hr.cs_cd, 520);
    assert_eq!(hr.hp_cd, 700);
    assert_eq!(hr.od_cd, 1000);
}

#[test]
fn info_double_time_recomputes_windows() {
    let map = sample_map();
    let attrs = sample_attrs();
    let info = get_beatmap_info(&map, &attrs, MOD_DOUBLE_TIME);
    assert_eq!(info.ar_cd, 1033);
    assert_eq!(info.od_cd, 977);
    assert_eq!(info.cs_cd, 400);
    assert_eq!(info.hp_cd, 500);
}

#[test]
fn info_other_mode_has_no_max_combo() {
    let map = Beatmap::new(GameMode::Mania, 500, 500, 500, 500, 100, 100);
    let attrs = DifficultyAttributes::Mania { stars_cd: 620 };
    let info = get_beatmap_info(&map, &attrs, 0);
    assert_eq!(info.stars_cd, 620);
    assert_eq!(info.max_combo, None);
}

#[test]
fn conflicting_rate_mods_single_effect() {
    // Both DoubleTime and HalfTime in the mask: the info call applies
    // the DoubleTime effect once, never both.
    let map = sample_map();
    let attrs = sample_attrs();
    let both = get_beatmap_info(&map, &attrs, MOD_DOUBLE_TIME | MOD_HALF_TIME);
    let dt = get_beatmap_info(&map, &attrs, MOD_DOUBLE_TIME);
    assert_eq!(both, dt);
}
