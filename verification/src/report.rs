//! What a card of a player's best plays shows, and where it shows it.

use vstd::prelude::*;
use crate::best_list::{after_pushes, BestList};
use crate::rating::{compute_ra, lemma_rating_monotonic_in_difficulty, rating};
use crate::record::{ChartInfoView, Charts};
use crate::text::{half_width, string_to_half_width};

verus! {

/// The number of plays on standard charts that count towards the rating.
pub const STANDARD_PLACES: usize = 35;

/// The number of plays on deluxe charts that count towards the rating.
pub const DELUXE_PLACES: usize = 15;

/// The width of the picture of one play.
pub const ITEM_WIDTH: i64 = 131;

/// The height of the picture of one play.
pub const ITEM_HEIGHT: i64 = 88;

/// The gap between two rows of plays.
pub const VERTICAL_SPACING: i64 = 8;

/// The gap between two plays of a row.
pub const HORIZONTAL_SPACING: i64 = 7;

/// The columns at which the digits of the player rating stand, from the left.
pub const COLUMNS_RATING: [i64; 5] = [84, 98, 113, 128, 143];

/// The sum of the ratings of `records`, each computed from the difficulty and
/// the achievement of the play.
pub open spec fn rating_sum(records: Seq<ChartInfoView>) -> int
    decreases records.len(),
{
    if records.len() == 0 {
        0
    } else {
        rating_sum(records.drop_last()) + rating(
            records.last().ds as int,
            records.last().achievements as int,
        )
    }
}

/// The place of the play at rank `num` among the plays on standard charts,
/// which stand seven to a row: the column and the row of its upper left corner.
pub open spec fn standard_slot(num: int) -> (int, int) {
    (
        6 + ITEM_WIDTH * (num % 7) + HORIZONTAL_SPACING * (num % 7),
        120 + ITEM_HEIGHT * (num / 7) + VERTICAL_SPACING * (num / 7),
    )
}

/// The place of the play at rank `num` among the plays on deluxe charts,
/// which stand three to a row, to the right of the seven standard columns.
pub open spec fn deluxe_slot(num: int) -> (int, int) {
    (
        75 + ITEM_WIDTH * (num % 3 + 7) + HORIZONTAL_SPACING * (num % 3),
        120 + ITEM_HEIGHT * (num / 3) + VERTICAL_SPACING * (num / 3),
    )
}

/// The digit of `rating` that stands `place` places from the right.
pub open spec fn digit_at(rating: nat, place: nat) -> nat
    decreases place,
{
    if place == 0 {
        rating % 10
    } else {
        digit_at(rating / 10, (place - 1) as nat)
    }
}

/// The number of decimal digits of `rating`; 1 for zero.
pub open spec fn digit_count(rating: nat) -> nat
    decreases rating,
{
    if rating < 10 {
        1
    } else {
        1 + digit_count(rating / 10)
    }
}

/// A partial sum of ratings is not negative and not above the whole sum.
proof fn lemma_rating_sum_grows(records: Seq<ChartInfoView>, shorter: int)
    requires
        0 <= shorter <= records.len(),
    ensures
        0 <= rating_sum(records.take(shorter)) <= rating_sum(records),
    decreases records.len(),
{
    if records.len() == 0 {
        assert(records.take(shorter) =~= records);
    } else {
        let last = records.last();
        lemma_rating_monotonic_in_difficulty(0, last.ds as int, last.achievements as int);
        assert(rating(0, last.achievements as int) == 0);
        if shorter == records.len() {
            assert(records.take(shorter) =~= records);
            lemma_rating_sum_grows(records.drop_last(), shorter - 1);
        } else {
            lemma_rating_sum_grows(records.drop_last(), shorter);
            assert(records.drop_last().take(shorter) =~= records.take(shorter));
        }
    }
}

/// The sum of the ratings of the plays of `list`, each computed anew from
/// difficulty and achievement; nothing if the sum is above `i32::MAX`.
pub fn rating_total(list: &BestList) -> (total: Option<i32>)
    ensures
        match total {
            Some(sum) => sum == rating_sum(list@),
            None => rating_sum(list@) > i32::MAX,
        },
{
    let len = list.len();
    let mut total: i32 = 0;
    let mut i: usize = 0;
    assert(list@.take(0) =~= Seq::<ChartInfoView>::empty());
    while i < len
        invariant
            i <= len,
            len == list@.len(),
            total == rating_sum(list@.take(i as int)),
            0 <= total,
        decreases len - i,
    {
        let record = &list[i];
        let ra = compute_ra(record.ds, record.achievements);
        proof {
            assert(list@.take(i + 1).drop_last() =~= list@.take(i as int));
            assert(list@.take(i + 1).last() == record@);
            lemma_rating_sum_grows(list@, i + 1);
        }
        if total > i32::MAX - ra {
            return None;
        }
        total = total + ra;
        i += 1;
    }
    assert(list@.take(len as int) =~= list@);
    Some(total)
}

/// The best plays among `charts`: the 35 strongest on standard charts and
/// the 15 strongest on deluxe charts, in this order.
pub fn best_lists(charts: Charts) -> (best: (BestList, BestList))
    ensures
        best.0.capacity() == STANDARD_PLACES,
        best.0@ == after_pushes(STANDARD_PLACES as nat, charts.sd.deep_view()),
        best.1.capacity() == DELUXE_PLACES,
        best.1@ == after_pushes(DELUXE_PLACES as nat, charts.dx.deep_view()),
{
    let sd_best = BestList::of_charts(STANDARD_PLACES, charts.sd);
    let dx_best = BestList::of_charts(DELUXE_PLACES, charts.dx);
    (sd_best, dx_best)
}

/// The upper left corner of the play at rank `num` among the standard plays.
pub fn standard_slot_origin(num: u32) -> (origin: (i64, i64))
    ensures
        origin.0 == standard_slot(num as int).0,
        origin.1 == standard_slot(num as int).1,
{
    let column: i64 = (num % 7) as i64;
    let row: i64 = (num / 7) as i64;
    (
        6 + ITEM_WIDTH * column + HORIZONTAL_SPACING * column,
        120 + ITEM_HEIGHT * row + VERTICAL_SPACING * row,
    )
}

/// The upper left corner of the play at rank `num` among the deluxe plays.
pub fn deluxe_slot_origin(num: u32) -> (origin: (i64, i64))
    ensures
        origin.0 == deluxe_slot(num as int).0,
        origin.1 == deluxe_slot(num as int).1,
{
    let column: i64 = (num % 3) as i64;
    let row: i64 = (num / 3) as i64;
    (
        75 + ITEM_WIDTH * (column + 7) + HORIZONTAL_SPACING * column,
        120 + ITEM_HEIGHT * row + VERTICAL_SPACING * row,
    )
}

/// The digits of `rating` with the columns at which they are drawn, from the
/// last digit leftwards. The last digit stands at the last column; digits for
/// which no column is left are not drawn.
pub fn rating_digits(rating: u32) -> (digits: Vec<(u8, i64)>)
    ensures
        digits@.len() == if digit_count(rating as nat) < 5 {
            digit_count(rating as nat)
        } else {
            5
        },
        forall|place: int|
            0 <= place < digits@.len() ==> (#[trigger] digits@[place]).0 == digit_at(
                rating as nat,
                place as nat,
            ) && digits@[place].1 == COLUMNS_RATING@[4 - place],
{
    let mut digits: Vec<(u8, i64)> = Vec::new();
    let mut rest: u32 = rating;
    let mut place: usize = 0;
    loop
        invariant
            place < 5,
            digits@.len() == place,
            COLUMNS_RATING@.len() == 5,
            digit_count(rating as nat) == place + digit_count(rest as nat),
            forall|p: nat| digit_at(rating as nat, place as nat + p) == #[trigger] digit_at(rest as nat, p),
            forall|k: int|
                0 <= k < place ==> (#[trigger] digits@[k]).0 == digit_at(rating as nat, k as nat)
                    && digits@[k].1 == COLUMNS_RATING@[4 - k],
        decreases 5 - place,
    {
        let digit: u8 = (rest % 10) as u8;
        let column: i64 = COLUMNS_RATING[4 - place];
        proof {
            assert(digit_at(rating as nat, place as nat + 0) == digit_at(rest as nat, 0));
        }
        digits.push((digit, column));
        if rest < 10 || place == 4 {
            return digits;
        }
        proof {
            assert forall|p: nat| digit_at(rating as nat, (place + 1) as nat + p) == #[trigger] digit_at(
                (rest / 10) as nat,
                p,
            ) by {
                assert(digit_at(rating as nat, place as nat + (p + 1)) == digit_at(rest as nat, p + 1));
            }
        }
        rest = rest / 10;
        place += 1;
    }
}

/// What a card of best plays shows besides the plays: the name of the
/// player and the three sums of ratings.
pub struct DrawBest {
    sd_best: BestList,
    dx_best: BestList,
    username: String,
    sd_rating: i32,
    dx_rating: i32,
    player_rating: i32,
}

impl DrawBest {
    /// The best plays on standard charts.
    pub closed spec fn standard(&self) -> Seq<ChartInfoView> {
        self.sd_best@
    }

    /// The best plays on deluxe charts.
    pub closed spec fn deluxe(&self) -> Seq<ChartInfoView> {
        self.dx_best@
    }

    /// The name of the player as it is drawn.
    pub closed spec fn name(&self) -> Seq<char> {
        self.username@
    }

    /// The three sums of ratings: standard, deluxe, and both together.
    pub closed spec fn ratings(&self) -> (int, int, int) {
        (self.sd_rating as int, self.dx_rating as int, self.player_rating as int)
    }

    /// Makes the card of the plays in `sd_best` and `dx_best` for the player
    /// `username`.
    ///
    /// The name is drawn in half-width characters. Each rating is computed
    /// anew from the difficulty and the achievement of the play. There is no
    /// card if the sum of all ratings is above `i32::MAX`.
    pub fn new(sd_best: BestList, dx_best: BestList, username: &str) -> (card: Option<DrawBest>)
        ensures
            card is Some <==> rating_sum(sd_best@) + rating_sum(dx_best@) <= i32::MAX,
            card matches Some(drawn) ==> {
                &&& drawn.standard() == sd_best@
                &&& drawn.deluxe() == dx_best@
                &&& drawn.name() == username@.map_values(|c: char| half_width(c))
                &&& drawn.ratings() == (
                    rating_sum(sd_best@),
                    rating_sum(dx_best@),
                    rating_sum(sd_best@) + rating_sum(dx_best@),
                )
            },
    {
        proof {
            lemma_rating_sum_grows(sd_best@, 0);
            lemma_rating_sum_grows(dx_best@, 0);
        }
        let sd_rating = match rating_total(&sd_best) {
            Some(sum) => sum,
            None => {
                return None;
            },
        };
        let dx_rating = match rating_total(&dx_best) {
            Some(sum) => sum,
            None => {
                return None;
            },
        };
        if sd_rating > i32::MAX - dx_rating {
            return None;
        }
        Some(
            DrawBest {
                sd_best,
                dx_best,
                username: string_to_half_width(username),
                sd_rating,
                dx_rating,
                player_rating: sd_rating + dx_rating,
            },
        )
    }

    /// The best plays on standard charts.
    pub fn sd_best(&self) -> (list: &BestList)
        ensures
            list@ == self.standard(),
    {
        &self.sd_best
    }

    /// The best plays on deluxe charts.
    pub fn dx_best(&self) -> (list: &BestList)
        ensures
            list@ == self.deluxe(),
    {
        &self.dx_best
    }

    /// The name of the player as it is drawn.
    pub fn username(&self) -> (name: &String)
        ensures
            name@ == self.name(),
    {
        &self.username
    }

    /// The sum of the ratings of the standard plays.
    pub fn sd_rating(&self) -> (sum: i32)
        ensures
            sum == self.ratings().0,
    {
        self.sd_rating
    }

    /// The sum of the ratings of the deluxe plays.
    pub fn dx_rating(&self) -> (sum: i32)
        ensures
            sum == self.ratings().1,
    {
        self.dx_rating
    }

    /// The rating of the player: the sum of the ratings of all plays.
    pub fn player_rating(&self) -> (sum: i32)
        ensures
            sum == self.ratings().2,
    {
        self.player_rating
    }
}

} // verus!
