//! The rating formula.
//!
//! Ratings are computed in exact decimal arithmetic. A difficulty constant is
//! held in tenths (14.5 is `145`), an achievement in ten-thousandths of a
//! percent (100.5 % is `1_005_000`) and a base multiplier in tenths (22.4 is
//! `224`), so the product of the three is the rating scaled by `10^8`.

use vstd::prelude::*;
use vstd::string::*;

verus! {

/// The achievement above which a better score earns no more rating: 100.5 %.
pub const ACHIEVEMENT_CAP: u32 = 1_005_000;

/// The factor by which the product of the three scaled quantities exceeds the rating.
pub const RATING_SCALE: u64 = 100_000_000;

/// The base multiplier of an achievement, in tenths. Each bound is exclusive:
/// an achievement of exactly 80 % already earns the multiplier of the "below 90 %" step.
pub open spec fn base_multiplier(achievement: int) -> int {
    if achievement < 500_000 {
        70
    } else if achievement < 600_000 {
        80
    } else if achievement < 700_000 {
        96
    } else if achievement < 750_000 {
        112
    } else if achievement < 800_000 {
        120
    } else if achievement < 900_000 {
        136
    } else if achievement < 940_000 {
        152
    } else if achievement < 970_000 {
        168
    } else if achievement < 980_000 {
        200
    } else if achievement < 990_000 {
        203
    } else if achievement < 995_000 {
        208
    } else if achievement < 1_000_000 {
        211
    } else if achievement < 1_005_000 {
        216
    } else {
        224
    }
}

/// The achievement that enters the product: the achievement itself, at most the cap.
pub open spec fn effective_achievement(achievement: int) -> int {
    if achievement < ACHIEVEMENT_CAP as int {
        achievement
    } else {
        ACHIEVEMENT_CAP as int
    }
}

/// The rating of a chart of difficulty `ds` played with `achievement`: the
/// difficulty times the effective achievement as a fraction of 100 % times the
/// base multiplier, rounded down.
pub open spec fn rating(ds: int, achievement: int) -> int {
    ds * effective_achievement(achievement) * base_multiplier(achievement) / (RATING_SCALE as int)
}

/// The base multiplier of `achievement`, in tenths.
pub fn base_ra(achievement: u32) -> (base: u64)
    ensures
        base == base_multiplier(achievement as int),
        70 <= base <= 224,
{
    if achievement < 500_000 {
        70
    } else if achievement < 600_000 {
        80
    } else if achievement < 700_000 {
        96
    } else if achievement < 750_000 {
        112
    } else if achievement < 800_000 {
        120
    } else if achievement < 900_000 {
        136
    } else if achievement < 940_000 {
        152
    } else if achievement < 970_000 {
        168
    } else if achievement < 980_000 {
        200
    } else if achievement < 990_000 {
        203
    } else if achievement < 995_000 {
        208
    } else if achievement < 1_000_000 {
        211
    } else if achievement < 1_005_000 {
        216
    } else {
        224
    }
}

/// Computes the rating of one play.
///
/// `ds` is the chart's difficulty constant in tenths and `achievement` the
/// achievement in ten-thousandths of a percent. The function is total: every
/// pair of arguments has a rating, and it fits the result type.
pub fn compute_ra(ds: u16, achievement: u32) -> (ra: i32)
    ensures
        ra == rating(ds as int, achievement as int),
        0 <= ra <= 147_532,
{
    let base: u64 = base_ra(achievement);
    let effective: u64 = if achievement < ACHIEVEMENT_CAP {
        achievement as u64
    } else {
        ACHIEVEMENT_CAP as u64
    };
    assert(ds as int * effective as int <= 65_535 * 1_005_000) by (nonlinear_arith)
        requires
            0 <= ds as int <= 65_535,
            0 <= effective as int <= 1_005_000,
    ;
    let scaled: u64 = ds as u64 * effective;
    assert(scaled as int * base as int <= 65_535 * 1_005_000 * 224) by (nonlinear_arith)
        requires
            0 <= scaled as int <= 65_535 * 1_005_000,
            0 <= base as int <= 224,
    ;
    let product: u64 = scaled * base;
    let quotient: u64 = product / RATING_SCALE;
    quotient as i32
}

/// The two digits that name the badge of a player rating: the ratings are cut
/// into ten ranges, and a bound belongs to the range above it.
pub open spec fn badge_tier(rating: u32) -> Seq<char> {
    if rating < 1000 {
        "01"@
    } else if rating < 2000 {
        "02"@
    } else if rating < 4000 {
        "03"@
    } else if rating < 7000 {
        "04"@
    } else if rating < 10000 {
        "05"@
    } else if rating < 12000 {
        "06"@
    } else if rating < 13000 {
        "07"@
    } else if rating < 14500 {
        "08"@
    } else if rating < 15000 {
        "09"@
    } else {
        "10"@
    }
}

/// The name of the picture that shows the badge of a player rating.
pub open spec fn badge_file_name(rating: u32) -> Seq<char> {
    "UI_CMN_DXRating_S_"@ + badge_tier(rating) + ".png"@
}

/// The two digits that name the badge of `rating`.
fn badge_tier_text(rating: u32) -> (tier: &'static str)
    ensures
        tier@ == badge_tier(rating),
{
    if rating < 1000 {
        "01"
    } else if rating < 2000 {
        "02"
    } else if rating < 4000 {
        "03"
    } else if rating < 7000 {
        "04"
    } else if rating < 10000 {
        "05"
    } else if rating < 12000 {
        "06"
    } else if rating < 13000 {
        "07"
    } else if rating < 14500 {
        "08"
    } else if rating < 15000 {
        "09"
    } else {
        "10"
    }
}

/// The name of the picture that shows the badge of the player rating `rating`.
pub fn get_ra_pic(rating: u32) -> (name: String)
    ensures
        name@ == badge_file_name(rating),
{
    String::from_str("UI_CMN_DXRating_S_").concat(badge_tier_text(rating)).concat(".png")
}

/// With the difficulty fixed, a better achievement never earns a lower rating.
pub proof fn lemma_rating_monotonic_in_achievement(ds: int, lower: int, higher: int)
    requires
        0 <= ds,
        0 <= lower <= higher,
    ensures
        rating(ds, lower) <= rating(ds, higher),
{
    let e1 = effective_achievement(lower);
    let e2 = effective_achievement(higher);
    let m1 = base_multiplier(lower);
    let m2 = base_multiplier(higher);
    assert(0 <= e1 <= e2);
    assert(0 < m1 <= m2);
    assert(ds * e1 <= ds * e2) by (nonlinear_arith)
        requires
            0 <= ds,
            0 <= e1 <= e2,
    ;
    assert(ds * e1 * m1 <= ds * e2 * m2) by (nonlinear_arith)
        requires
            0 <= ds * e1 <= ds * e2,
            0 < m1 <= m2,
    ;
    lemma_scaled_down_monotonic(ds * e1 * m1, ds * e2 * m2);
}

/// With the achievement fixed, a harder chart never earns a lower rating.
pub proof fn lemma_rating_monotonic_in_difficulty(easier: int, harder: int, achievement: int)
    requires
        0 <= easier <= harder,
        0 <= achievement,
    ensures
        rating(easier, achievement) <= rating(harder, achievement),
{
    let e = effective_achievement(achievement);
    let m = base_multiplier(achievement);
    assert(easier * e <= harder * e) by (nonlinear_arith)
        requires
            0 <= easier <= harder,
            0 <= e,
    ;
    assert(easier * e * m <= harder * e * m) by (nonlinear_arith)
        requires
            easier * e <= harder * e,
            0 < m,
    ;
    lemma_scaled_down_monotonic(easier * e * m, harder * e * m);
}

/// From the cap upwards the rating depends on the difficulty alone.
pub proof fn lemma_rating_clamped(ds: int, first: int, second: int)
    requires
        ACHIEVEMENT_CAP as int <= first,
        ACHIEVEMENT_CAP as int <= second,
    ensures
        rating(ds, first) == rating(ds, second),
        rating(ds, first) == ds * 1_005_000 * 224 / 100_000_000,
{
}

/// Rounding down after dividing by the rating scale keeps the order of the products.
proof fn lemma_scaled_down_monotonic(small: int, large: int)
    requires
        small <= large,
    ensures
        small / (RATING_SCALE as int) <= large / (RATING_SCALE as int),
{
    assert(small / 100_000_000 <= large / 100_000_000) by (nonlinear_arith)
        requires
            small <= large,
    ;
}

} // verus!
