use maimai_search::rating::{base_ra, compute_ra, get_ra_pic, ACHIEVEMENT_CAP};

#[test]
fn rating_of_a_capped_play() {
    assert_eq!(compute_ra(145, 1_005_000), 326);
}

#[test]
fn rating_of_an_eighty_percent_play() {
    assert_eq!(compute_ra(130, 800_000), 141);
}

#[test]
fn rating_ignores_what_lies_above_the_cap() {
    for ds in [0u16, 1, 10, 128, 145, 150, 65_535] {
        assert_eq!(compute_ra(ds, 1_005_000), compute_ra(ds, 9_990_000));
        assert_eq!(compute_ra(ds, ACHIEVEMENT_CAP), compute_ra(ds, u32::MAX));
    }
}

#[test]
fn rating_never_falls_with_the_achievement() {
    let steps = [
        0u32, 1, 499_999, 500_000, 599_999, 600_000, 699_999, 700_000, 749_999, 750_000, 799_999,
        800_000, 899_999, 900_000, 939_999, 940_000, 969_999, 970_000, 979_999, 980_000, 989_999,
        990_000, 994_999, 995_000, 999_999, 1_000_000, 1_004_999, 1_005_000, 1_010_000,
    ];
    for ds in [1u16, 75, 130, 145, 150] {
        for pair in steps.windows(2) {
            assert!(compute_ra(ds, pair[0]) <= compute_ra(ds, pair[1]));
        }
    }
}

#[test]
fn rating_never_falls_with_the_difficulty() {
    for achievement in [0u32, 800_000, 970_000, 1_000_000, 1_005_000] {
        for ds in 0..200u16 {
            assert!(compute_ra(ds, achievement) <= compute_ra(ds + 1, achievement));
        }
    }
}

#[test]
fn base_multiplier_steps_are_exclusive_above() {
    assert_eq!(base_ra(0), 70);
    assert_eq!(base_ra(499_999), 70);
    assert_eq!(base_ra(500_000), 80);
    assert_eq!(base_ra(600_000), 96);
    assert_eq!(base_ra(700_000), 112);
    assert_eq!(base_ra(750_000), 120);
    assert_eq!(base_ra(799_999), 120);
    assert_eq!(base_ra(800_000), 136);
    assert_eq!(base_ra(900_000), 152);
    assert_eq!(base_ra(940_000), 168);
    assert_eq!(base_ra(970_000), 200);
    assert_eq!(base_ra(980_000), 203);
    assert_eq!(base_ra(990_000), 208);
    assert_eq!(base_ra(995_000), 211);
    assert_eq!(base_ra(1_000_000), 216);
    assert_eq!(base_ra(1_004_999), 216);
    assert_eq!(base_ra(1_005_000), 224);
}

#[test]
fn rating_at_the_edges() {
    assert_eq!(compute_ra(0, 1_005_000), 0);
    assert_eq!(compute_ra(150, 0), 0);
    assert_eq!(compute_ra(150, 1_000_000), 324);
    assert_eq!(compute_ra(150, 1_004_999), 325);
    assert_eq!(compute_ra(150, 1_005_000), 337);
    assert_eq!(compute_ra(65_535, u32::MAX), 147_532);
}

#[test]
fn badge_names_follow_the_rating() {
    assert_eq!(get_ra_pic(0), "UI_CMN_DXRating_S_01.png");
    assert_eq!(get_ra_pic(999), "UI_CMN_DXRating_S_01.png");
    assert_eq!(get_ra_pic(1000), "UI_CMN_DXRating_S_02.png");
    assert_eq!(get_ra_pic(2000), "UI_CMN_DXRating_S_03.png");
    assert_eq!(get_ra_pic(4000), "UI_CMN_DXRating_S_04.png");
    assert_eq!(get_ra_pic(7000), "UI_CMN_DXRating_S_05.png");
    assert_eq!(get_ra_pic(10000), "UI_CMN_DXRating_S_06.png");
    assert_eq!(get_ra_pic(12000), "UI_CMN_DXRating_S_07.png");
    assert_eq!(get_ra_pic(13000), "UI_CMN_DXRating_S_08.png");
    assert_eq!(get_ra_pic(14500), "UI_CMN_DXRating_S_09.png");
    assert_eq!(get_ra_pic(14999), "UI_CMN_DXRating_S_09.png");
    assert_eq!(get_ra_pic(15000), "UI_CMN_DXRating_S_10.png");
    assert_eq!(get_ra_pic(u32::MAX), "UI_CMN_DXRating_S_10.png");
}
