//! Performance records: one played chart with its score, and the order by
//! which records are ranked.

use vstd::prelude::*;
use vstd::string::*;
use crate::text::{
    chars_before, chars_of, lemma_text_before_total, lemma_text_before_transitive, text_before,
};

verus! {

/// The difficulty tier of a chart.
#[derive(Clone, Copy, Debug, PartialEq, Eq, Structural)]
pub enum LevelLabel {
    Basic,
    Advanced,
    Expert,
    Master,
    ReMaster,
}

impl LevelLabel {
    /// The height of the tier: 0 for the lowest, 4 for the highest.
    pub open spec fn tier(self) -> int {
        match self {
            LevelLabel::Basic => 0,
            LevelLabel::Advanced => 1,
            LevelLabel::Expert => 2,
            LevelLabel::Master => 3,
            LevelLabel::ReMaster => 4,
        }
    }

    /// The tier of the height `tier`; the highest tier for any height above it.
    pub open spec fn of_tier(tier: int) -> LevelLabel {
        if tier <= 0 {
            LevelLabel::Basic
        } else if tier == 1 {
            LevelLabel::Advanced
        } else if tier == 2 {
            LevelLabel::Expert
        } else if tier == 3 {
            LevelLabel::Master
        } else {
            LevelLabel::ReMaster
        }
    }

    /// The colour of the tier as red, green, blue and opacity.
    pub open spec fn color(self) -> Seq<u8> {
        match self {
            LevelLabel::Basic => seq![69u8, 193u8, 36u8, 255u8],
            LevelLabel::Advanced => seq![255u8, 186u8, 1u8, 255u8],
            LevelLabel::Expert => seq![255u8, 90u8, 102u8, 255u8],
            LevelLabel::Master => seq![134u8, 49u8, 200u8, 255u8],
            LevelLabel::ReMaster => seq![217u8, 197u8, 233u8, 255u8],
        }
    }

    /// The name under which the tier is shown.
    pub open spec fn display_name(self) -> Seq<char> {
        match self {
            LevelLabel::Basic => "BASIC"@,
            LevelLabel::Advanced => "ADVANCED"@,
            LevelLabel::Expert => "EXPERT"@,
            LevelLabel::Master => "MASTER"@,
            LevelLabel::ReMaster => "Re:MASTER"@,
        }
    }

    /// The height of the tier, which is also the index of its chart in a song.
    pub fn index(&self) -> (tier: usize)
        ensures
            tier == self.tier(),
    {
        match self {
            LevelLabel::Basic => 0,
            LevelLabel::Advanced => 1,
            LevelLabel::Expert => 2,
            LevelLabel::Master => 3,
            LevelLabel::ReMaster => 4,
        }
    }

    /// The tier of the height `index`, if there is one.
    pub fn from_index(index: usize) -> (label: Option<LevelLabel>)
        ensures
            index < 5 ==> label == Some(LevelLabel::of_tier(index as int)),
            index >= 5 ==> label is None,
            label matches Some(found) ==> found.tier() == index,
    {
        match index {
            0 => Some(LevelLabel::Basic),
            1 => Some(LevelLabel::Advanced),
            2 => Some(LevelLabel::Expert),
            3 => Some(LevelLabel::Master),
            4 => Some(LevelLabel::ReMaster),
            _ => None,
        }
    }

    /// The colour in which the tier is drawn.
    pub fn label_color(&self) -> (rgba: [u8; 4])
        ensures
            rgba@ == self.color(),
    {
        let rgba: [u8; 4] = match self {
            LevelLabel::Basic => [69, 193, 36, 255],
            LevelLabel::Advanced => [255, 186, 1, 255],
            LevelLabel::Expert => [255, 90, 102, 255],
            LevelLabel::Master => [134, 49, 200, 255],
            LevelLabel::ReMaster => [217, 197, 233, 255],
        };
        assert(rgba@ =~= self.color());
        rgba
    }

    /// The name under which the tier is shown.
    pub fn name(&self) -> (name: &'static str)
        ensures
            name@ == self.display_name(),
    {
        match self {
            LevelLabel::Basic => "BASIC",
            LevelLabel::Advanced => "ADVANCED",
            LevelLabel::Expert => "EXPERT",
            LevelLabel::Master => "MASTER",
            LevelLabel::ReMaster => "Re:MASTER",
        }
    }
}

/// The grade of a play, from the lowest to the highest.
#[derive(Clone, Copy, Debug, PartialEq, Eq, Structural)]
pub enum ChartRate {
    D,
    C,
    B,
    BB,
    BBB,
    A,
    AA,
    AAA,
    S,
    SP,
    SS,
    SSP,
    SSS,
    SSSP,
}

impl ChartRate {
    /// The grade as it is written in the name of its picture.
    pub open spec fn code(self) -> Seq<char> {
        match self {
            ChartRate::D => "D"@,
            ChartRate::C => "C"@,
            ChartRate::B => "B"@,
            ChartRate::BB => "BB"@,
            ChartRate::BBB => "BBB"@,
            ChartRate::A => "A"@,
            ChartRate::AA => "AA"@,
            ChartRate::AAA => "AAA"@,
            ChartRate::S => "S"@,
            ChartRate::SP => "Sp"@,
            ChartRate::SS => "SS"@,
            ChartRate::SSP => "SSp"@,
            ChartRate::SSS => "SSS"@,
            ChartRate::SSSP => "SSSp"@,
        }
    }

    /// The name of the picture that shows the grade.
    pub open spec fn file_name(self) -> Seq<char> {
        "UI_GAM_Rank_"@ + self.code() + ".png"@
    }

    /// The grade as it is written in the name of its picture.
    fn code_text(&self) -> (code: &'static str)
        ensures
            code@ == self.code(),
    {
        match self {
            ChartRate::D => "D",
            ChartRate::C => "C",
            ChartRate::B => "B",
            ChartRate::BB => "BB",
            ChartRate::BBB => "BBB",
            ChartRate::A => "A",
            ChartRate::AA => "AA",
            ChartRate::AAA => "AAA",
            ChartRate::S => "S",
            ChartRate::SP => "Sp",
            ChartRate::SS => "SS",
            ChartRate::SSP => "SSp",
            ChartRate::SSS => "SSS",
            ChartRate::SSSP => "SSSp",
        }
    }

    /// The name of the picture that shows the grade.
    pub fn get_file_name(&self) -> (name: String)
        ensures
            name@ == self.file_name(),
    {
        String::from_str("UI_GAM_Rank_").concat(self.code_text()).concat(".png")
    }
}

/// One played chart with its score.
///
/// `achievements` is held in ten-thousandths of a percent and `ds` in tenths.
#[derive(Debug)]
pub struct ChartInfoResponse {
    /// The achievement, in ten-thousandths of a percent.
    pub achievements: u32,
    /// The chart's difficulty constant, in tenths.
    pub ds: u16,
    /// The deluxe score.
    pub dx_score: i32,
    /// The full-combo mark; empty if there is none.
    pub fc: String,
    /// The full-sync mark; empty if there is none.
    pub fs: String,
    /// The level as shown to the player.
    pub level: String,
    /// The difficulty tier.
    pub level_label: LevelLabel,
    /// The rating of the play.
    pub ra: i32,
    /// The grade of the play.
    pub rate: ChartRate,
    /// The identifier of the song in the catalog.
    pub song_id: i32,
    /// The title of the song.
    pub title: String,
    /// The kind of chart.
    pub song_type: String,
}

/// What a performance record holds.
pub struct ChartInfoView {
    pub achievements: u32,
    pub ds: u16,
    pub dx_score: i32,
    pub fc: Seq<char>,
    pub fs: Seq<char>,
    pub level: Seq<char>,
    pub level_label: LevelLabel,
    pub ra: i32,
    pub rate: ChartRate,
    pub song_id: i32,
    pub title: Seq<char>,
    pub song_type: Seq<char>,
}

impl View for ChartInfoResponse {
    type V = ChartInfoView;

    open spec fn view(&self) -> ChartInfoView {
        ChartInfoView {
            achievements: self.achievements,
            ds: self.ds,
            dx_score: self.dx_score,
            fc: self.fc@,
            fs: self.fs@,
            level: self.level@,
            level_label: self.level_label,
            ra: self.ra,
            rate: self.rate,
            song_id: self.song_id,
            title: self.title@,
            song_type: self.song_type@,
        }
    }
}

impl DeepView for ChartInfoResponse {
    type V = ChartInfoView;

    open spec fn deep_view(&self) -> ChartInfoView {
        self@
    }
}

impl Clone for ChartInfoResponse {
    fn clone(&self) -> (copy: Self)
        ensures
            copy@ == self@,
    {
        ChartInfoResponse {
            achievements: self.achievements,
            ds: self.ds,
            dx_score: self.dx_score,
            fc: self.fc.clone(),
            fs: self.fs.clone(),
            level: self.level.clone(),
            level_label: self.level_label,
            ra: self.ra,
            rate: self.rate,
            song_id: self.song_id,
            title: self.title.clone(),
            song_type: self.song_type.clone(),
        }
    }
}

/// The four values by which a record is ranked.
pub struct RankKey {
    pub ra: int,
    pub tier: int,
    pub achievements: int,
    pub title: Seq<char>,
}

/// The values by which `record` is ranked.
pub open spec fn rank_key(record: ChartInfoView) -> RankKey {
    RankKey {
        ra: record.ra as int,
        tier: record.level_label.tier(),
        achievements: record.achievements as int,
        title: record.title,
    }
}

/// Whether a record with the key `a` is strictly stronger than one with the
/// key `b`.
///
/// The higher rating wins; between equal ratings the higher tier; between
/// equal tiers the higher achievement; and between equal achievements the
/// title that comes later in dictionary order.
pub open spec fn key_outranks(a: RankKey, b: RankKey) -> bool {
    if a.ra != b.ra {
        a.ra > b.ra
    } else if a.tier != b.tier {
        a.tier > b.tier
    } else if a.achievements != b.achievements {
        a.achievements > b.achievements
    } else {
        text_before(b.title, a.title)
    }
}

/// Whether record `a` is strictly stronger than record `b`. Two records that
/// agree in rating, tier, achievement and title are equally strong, whatever
/// else they hold.
pub open spec fn outranks(a: ChartInfoView, b: ChartInfoView) -> bool {
    key_outranks(rank_key(a), rank_key(b))
}

/// Whether two records are equally strong.
pub open spec fn ties_with(a: ChartInfoView, b: ChartInfoView) -> bool {
    !outranks(a, b) && !outranks(b, a)
}

/// The order of records as a relation.
pub open spec fn record_order() -> spec_fn(ChartInfoView, ChartInfoView) -> bool {
    |a: ChartInfoView, b: ChartInfoView| outranks(a, b)
}

/// No record is stronger than itself.
pub proof fn lemma_outranks_irreflexive(a: ChartInfoView)
    ensures
        !outranks(a, a),
{
    lemma_text_before_total(a.title, a.title);
}

/// Stronger than a record that is stronger than a third is stronger than the third.
pub proof fn lemma_outranks_transitive(a: ChartInfoView, b: ChartInfoView, c: ChartInfoView)
    requires
        outranks(a, b),
        outranks(b, c),
    ensures
        outranks(a, c),
{
    lemma_text_before_total(a.title, b.title);
    lemma_text_before_total(b.title, c.title);
    lemma_text_before_total(a.title, c.title);
    if text_before(c.title, b.title) && text_before(b.title, a.title) {
        lemma_text_before_transitive(c.title, b.title, a.title);
    }
}

/// A record that is not stronger than a second, which is not stronger than a
/// third, is not stronger than the third.
pub proof fn lemma_outranks_never_skips(a: ChartInfoView, b: ChartInfoView, c: ChartInfoView)
    requires
        !outranks(a, b),
        !outranks(b, c),
    ensures
        !outranks(a, c),
{
    lemma_text_before_total(a.title, b.title);
    lemma_text_before_total(b.title, c.title);
    lemma_text_before_total(a.title, c.title);
    if text_before(a.title, b.title) && text_before(b.title, c.title) {
        lemma_text_before_transitive(a.title, b.title, c.title);
    }
}

/// The order of records can rank them.
pub proof fn lemma_record_order_ranks()
    ensures
        crate::ranking::ranks(record_order()),
{
    let beats = record_order();
    assert forall|a: ChartInfoView| !#[trigger] beats(a, a) by {
        lemma_outranks_irreflexive(a);
    }
    assert forall|a: ChartInfoView, b: ChartInfoView, c: ChartInfoView| #[trigger]
        beats(a, b) && #[trigger] beats(b, c) implies beats(a, c) by {
        lemma_outranks_transitive(a, b, c);
    }
}

impl ChartInfoResponse {
    /// Whether this record is strictly stronger than `other`.
    pub fn beats(&self, other: &ChartInfoResponse) -> (stronger: bool)
        ensures
            stronger == outranks(self@, other@),
    {
        if self.ra != other.ra {
            self.ra > other.ra
        } else if self.level_label.index() != other.level_label.index() {
            self.level_label.index() > other.level_label.index()
        } else if self.achievements != other.achievements {
            self.achievements > other.achievements
        } else {
            let mine = chars_of(self.title.as_str());
            let theirs = chars_of(other.title.as_str());
            chars_before(&theirs, &mine)
        }
    }

    /// Whether this record and `other` are equally strong.
    pub fn ties(&self, other: &ChartInfoResponse) -> (equal: bool)
        ensures
            equal == ties_with(self@, other@),
    {
        !self.beats(other) && !other.beats(self)
    }
}

/// The plays of a player, by kind of chart.
#[derive(Debug)]
pub struct Charts {
    /// The plays on deluxe charts.
    pub dx: Vec<ChartInfoResponse>,
    /// The plays on standard charts.
    pub sd: Vec<ChartInfoResponse>,
}

/// What the score service knows of a player.
#[derive(Debug)]
pub struct B50Response {
    /// The name under which the player is registered with the service.
    pub username: String,
    /// The plays of the player.
    pub charts: Charts,
    /// The name that the player has in the game.
    pub nickname: String,
    /// The rating of the player.
    pub rating: i32,
    /// The grade that the player has set.
    pub additional_rating: i32,
    /// The name plate of the player.
    pub plate: String,
    /// Further data, if the service gives any.
    pub user_general_data: Option<String>,
}

} // verus!
