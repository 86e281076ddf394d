//! Songs of the catalog and the charts that belong to them.

use vstd::prelude::*;

verus! {

/// One chart of a song.
#[derive(Debug)]
pub struct Chart {
    /// How many notes of each kind the chart holds.
    pub notes: Vec<u32>,
    /// Who wrote the chart.
    pub charter: String,
}

/// What a chart holds.
pub struct ChartView {
    pub notes: Seq<u32>,
    pub charter: Seq<char>,
}

impl View for Chart {
    type V = ChartView;

    open spec fn view(&self) -> ChartView {
        ChartView { notes: self.notes@, charter: self.charter@ }
    }
}

impl DeepView for Chart {
    type V = ChartView;

    open spec fn deep_view(&self) -> ChartView {
        self@
    }
}

impl Clone for Chart {
    fn clone(&self) -> (copy: Self)
        ensures
            copy@ == self@,
    {
        Chart { notes: copy_numbers(&self.notes), charter: self.charter.clone() }
    }
}

/// What is known of a song besides its charts.
#[derive(Debug)]
pub struct BasicInfo {
    /// The title of the song.
    pub title: String,
    /// Who performs or wrote the song.
    pub artist: String,
    /// The category under which the song is filed.
    pub genre: String,
    /// The tempo in beats per minute.
    pub bpm: u32,
    /// When the song came out.
    pub release_date: String,
    /// The version of the game that brought the song.
    pub from: String,
    /// Whether the song counts as new.
    pub is_new: bool,
}

/// What the basic information of a song holds.
pub struct BasicInfoView {
    pub title: Seq<char>,
    pub artist: Seq<char>,
    pub genre: Seq<char>,
    pub bpm: u32,
    pub release_date: Seq<char>,
    pub from: Seq<char>,
    pub is_new: bool,
}

impl View for BasicInfo {
    type V = BasicInfoView;

    open spec fn view(&self) -> BasicInfoView {
        BasicInfoView {
            title: self.title@,
            artist: self.artist@,
            genre: self.genre@,
            bpm: self.bpm,
            release_date: self.release_date@,
            from: self.from@,
            is_new: self.is_new,
        }
    }
}

impl Clone for BasicInfo {
    fn clone(&self) -> (copy: Self)
        ensures
            copy@ == self@,
    {
        BasicInfo {
            title: self.title.clone(),
            artist: self.artist.clone(),
            genre: self.genre.clone(),
            bpm: self.bpm,
            release_date: self.release_date.clone(),
            from: self.from.clone(),
            is_new: self.is_new,
        }
    }
}

/// A song of the catalog.
///
/// The difficulty constants in `ds` are held in tenths. The chart at index
/// `i` has the difficulty `ds[i]` and the level `level[i]`.
#[derive(Debug)]
pub struct Song {
    /// The identifier of the song.
    pub id: usize,
    /// The title under which the song is shown.
    pub title: String,
    /// The kind of charts that the song has.
    pub song_type: String,
    /// The difficulty constant of each chart, in tenths.
    pub ds: Vec<u16>,
    /// The level of each chart as shown to the player.
    pub level: Vec<String>,
    /// The identifier of each chart.
    pub cids: Vec<u32>,
    /// The charts.
    pub charts: Vec<Chart>,
    /// The basic information.
    pub basic_info: BasicInfo,
}

/// What a song holds.
pub struct SongView {
    pub id: usize,
    pub title: Seq<char>,
    pub song_type: Seq<char>,
    pub ds: Seq<u16>,
    pub level: Seq<Seq<char>>,
    pub cids: Seq<u32>,
    pub charts: Seq<ChartView>,
    pub basic_info: BasicInfoView,
}

impl SongView {
    /// Whether the song can stand in a catalog: its identifier is positive,
    /// and it has as many levels and as many charts as difficulty constants.
    pub open spec fn well_formed(self) -> bool {
        &&& self.id > 0
        &&& self.level.len() == self.ds.len()
        &&& self.charts.len() == self.ds.len()
    }
}

impl View for Song {
    type V = SongView;

    open spec fn view(&self) -> SongView {
        SongView {
            id: self.id,
            title: self.title@,
            song_type: self.song_type@,
            ds: self.ds@,
            level: self.level.deep_view(),
            cids: self.cids@,
            charts: self.charts.deep_view(),
            basic_info: self.basic_info@,
        }
    }
}

impl DeepView for Song {
    type V = SongView;

    open spec fn deep_view(&self) -> SongView {
        self@
    }
}

impl Clone for Song {
    fn clone(&self) -> (copy: Self)
        ensures
            copy@ == self@,
    {
        Song {
            id: self.id,
            title: self.title.clone(),
            song_type: self.song_type.clone(),
            ds: copy_constants(&self.ds),
            level: copy_texts(&self.level),
            cids: copy_numbers(&self.cids),
            charts: copy_charts(&self.charts),
            basic_info: self.basic_info.clone(),
        }
    }
}

impl Song {
    /// Whether the song can stand in a catalog.
    pub fn is_well_formed(&self) -> (valid: bool)
        ensures
            valid == self@.well_formed(),
    {
        self.id > 0 && self.level.len() == self.ds.len() && self.charts.len() == self.ds.len()
    }
}

/// A copy of a list of counts.
fn copy_numbers(numbers: &Vec<u32>) -> (copy: Vec<u32>)
    ensures
        copy@ == numbers@,
{
    let mut copy: Vec<u32> = Vec::new();
    let mut i: usize = 0;
    while i < numbers.len()
        invariant
            i <= numbers.len(),
            copy@ == numbers@.take(i as int),
        decreases numbers.len() - i,
    {
        copy.push(numbers[i]);
        assert(numbers@.take(i + 1) =~= numbers@.take(i as int).push(numbers@[i as int]));
        i += 1;
    }
    assert(numbers@.take(numbers.len() as int) =~= numbers@);
    copy
}

/// A copy of a list of difficulty constants.
fn copy_constants(constants: &Vec<u16>) -> (copy: Vec<u16>)
    ensures
        copy@ == constants@,
{
    let mut copy: Vec<u16> = Vec::new();
    let mut i: usize = 0;
    while i < constants.len()
        invariant
            i <= constants.len(),
            copy@ == constants@.take(i as int),
        decreases constants.len() - i,
    {
        copy.push(constants[i]);
        assert(constants@.take(i + 1) =~= constants@.take(i as int).push(constants@[i as int]));
        i += 1;
    }
    assert(constants@.take(constants.len() as int) =~= constants@);
    copy
}

/// A copy of a list of texts.
fn copy_texts(texts: &Vec<String>) -> (copy: Vec<String>)
    ensures
        copy.deep_view() == texts.deep_view(),
{
    let mut copy: Vec<String> = Vec::new();
    let mut i: usize = 0;
    while i < texts.len()
        invariant
            i <= texts.len(),
            copy.len() == i,
            forall|k: int| 0 <= k < i ==> copy[k]@ == texts[k]@,
        decreases texts.len() - i,
    {
        copy.push(texts[i].clone());
        i += 1;
    }
    assert(copy.deep_view() =~= texts.deep_view());
    copy
}

/// A copy of a list of charts.
fn copy_charts(charts: &Vec<Chart>) -> (copy: Vec<Chart>)
    ensures
        copy.deep_view() == charts.deep_view(),
{
    let mut copy: Vec<Chart> = Vec::new();
    let mut i: usize = 0;
    while i < charts.len()
        invariant
            i <= charts.len(),
            copy.len() == i,
            forall|k: int| 0 <= k < i ==> copy[k]@ == charts[k]@,
        decreases charts.len() - i,
    {
        copy.push(charts[i].clone());
        i += 1;
    }
    assert(copy.deep_view() =~= charts.deep_view());
    copy
}

/// The fields under which a song is stored.
#[derive(Clone, Copy, Debug, PartialEq, Eq, Structural)]
pub enum SongField {
    Id,
    Keyword,
    Title,
    SongType,
    Ds,
    Level,
    Cids,
    Charts,
    BasicInfo,
}

impl SongField {
    /// The name under which the field is stored.
    pub open spec fn name(self) -> Seq<char> {
        match self {
            SongField::Id => "id"@,
            SongField::Keyword => "keyword"@,
            SongField::Title => "title"@,
            SongField::SongType => "song_type"@,
            SongField::Ds => "ds"@,
            SongField::Level => "level"@,
            SongField::Cids => "cids"@,
            SongField::Charts => "charts"@,
            SongField::BasicInfo => "basic_info"@,
        }
    }

    /// The name under which the field is stored.
    pub fn to_string(&self) -> (name: &'static str)
        ensures
            name@ == self.name(),
    {
        match self {
            SongField::Id => "id",
            SongField::Keyword => "keyword",
            SongField::Title => "title",
            SongField::SongType => "song_type",
            SongField::Ds => "ds",
            SongField::Level => "level",
            SongField::Cids => "cids",
            SongField::Charts => "charts",
            SongField::BasicInfo => "basic_info",
        }
    }
}

} // verus!
