//! Tables of songs and of their charts, as rows of cells.

use vstd::prelude::*;
use vstd::string::*;
use crate::markdown::{marked_title, row_title, MarkdownFormat};
use crate::numbers::{
    constant_text, decimal, ds_text, get_level_str, left_padded, level_text, number_text,
    padded_number,
};
use crate::record::LevelLabel;
use crate::song::{Song, SongView};

verus! {

/// The kind of charts that a song has.
#[derive(Clone, Copy, Debug, PartialEq, Eq, Structural)]
pub enum ChartKind {
    /// Deluxe charts, which also hold touch notes.
    Deluxe,
    /// Standard charts.
    Standard,
}

/// The kind of charts that the type mark `song_type` stands for, if it is one
/// of the two marks `DX` and `SD`.
pub open spec fn kind_of(song_type: Seq<char>) -> Option<ChartKind> {
    if song_type == "DX"@ {
        Some(ChartKind::Deluxe)
    } else if song_type == "SD"@ {
        Some(ChartKind::Standard)
    } else {
        None
    }
}

/// Tells the kind of charts that the type mark `song_type` stands for.
pub fn chart_kind(song_type: &str) -> (kind: Option<ChartKind>)
    ensures
        kind == kind_of(song_type@),
{
    let mark = String::from_str(song_type);
    if mark == String::from_str("DX") {
        Some(ChartKind::Deluxe)
    } else if mark == String::from_str("SD") {
        Some(ChartKind::Standard)
    } else {
        None
    }
}

/// The number of chart columns that a table of `songs` needs: the greatest
/// number of difficulty constants or of levels that one of the songs has.
pub open spec fn chart_columns(songs: Seq<SongView>) -> nat
    decreases songs.len(),
{
    if songs.len() == 0 {
        0
    } else {
        let before = chart_columns(songs.drop_last());
        let here = if songs.last().ds.len() >= songs.last().level.len() {
            songs.last().ds.len()
        } else {
            songs.last().level.len()
        };
        if before >= here {
            before
        } else {
            here
        }
    }
}

/// Counts the chart columns that a table of `songs` needs.
pub fn chart_count(songs: &Vec<Song>) -> (columns: usize)
    ensures
        columns == chart_columns(songs.deep_view()),
{
    let mut columns: usize = 0;
    let mut i: usize = 0;
    assert(songs.deep_view().take(0) =~= Seq::<SongView>::empty());
    while i < songs.len()
        invariant
            i <= songs.len(),
            columns == chart_columns(songs.deep_view().take(i as int)),
        decreases songs.len() - i,
    {
        let song = &songs[i];
        proof {
            assert(songs.deep_view().take(i + 1).drop_last() =~= songs.deep_view().take(i as int));
            assert(songs.deep_view().take(i + 1).last() == song@);
        }
        let here = if song.ds.len() >= song.level.len() {
            song.ds.len()
        } else {
            song.level.len()
        };
        if here > columns {
            columns = here;
        }
        i += 1;
    }
    assert(songs.deep_view().take(songs.len() as int) =~= songs.deep_view());
    columns
}

/// The index of the first group of `groups` whose songs have the title
/// `title`, or the number of groups if there is none.
pub open spec fn group_of(groups: Seq<Seq<SongView>>, title: Seq<char>) -> int
    decreases groups.len(),
{
    if groups.len() == 0 {
        0
    } else if groups[0].len() > 0 && groups[0][0].title == title {
        0
    } else {
        1 + group_of(groups.drop_first(), title)
    }
}

/// The songs of `songs` in groups of equal title: the groups in the order in
/// which their titles first occur, the songs of a group in the order in
/// which they occur.
pub open spec fn grouped(songs: Seq<SongView>) -> Seq<Seq<SongView>>
    decreases songs.len(),
{
    if songs.len() == 0 {
        Seq::empty()
    } else {
        let before = grouped(songs.drop_last());
        let at = group_of(before, songs.last().title);
        if 0 <= at < before.len() {
            before.update(at, before[at].push(songs.last()))
        } else {
            before.push(seq![songs.last()])
        }
    }
}

/// What `groups` holds.
pub open spec fn groups_view(groups: Seq<Vec<Song>>) -> Seq<
    Seq<SongView>,
> {
    groups.map_values(|group: Vec<Song>| group.deep_view())
}

/// Where the group with a title is: the first place at which a group with
/// that title stands.
proof fn lemma_group_of(groups: Seq<Seq<SongView>>, title: Seq<char>, at: int)
    requires
        0 <= at <= groups.len(),
        forall|k: int| 0 <= k < at ==> !((#[trigger] groups[k]).len() > 0 && groups[k][0].title == title),
        at < groups.len() ==> groups[at].len() > 0 && groups[at][0].title == title,
    ensures
        group_of(groups, title) == at,
    decreases groups.len(),
{
    if groups.len() > 0 {
        if at == 0 {
        } else {
            assert(!(groups[0].len() > 0 && groups[0][0].title == title));
            let rest = groups.drop_first();
            assert forall|k: int| 0 <= k < at - 1 implies !((#[trigger] rest[k]).len() > 0
                && rest[k][0].title == title) by {
                assert(rest[k] == groups[k + 1]);
            }
            if at < groups.len() {
                assert(rest[at - 1] == groups[at]);
            }
            lemma_group_of(rest, title, at - 1);
        }
    }
}

/// Puts the songs of `songs` into groups of equal title.
pub fn group_by_title(songs: &Vec<Song>) -> (groups: Vec<Vec<Song>>)
    ensures
        groups_view(groups@) == grouped(songs.deep_view()),
{
    let mut groups: Vec<Vec<Song>> = Vec::new();
    let mut i: usize = 0;
    assert(songs.deep_view().take(0) =~= Seq::<SongView>::empty());
    assert(groups_view(groups@) =~= Seq::<Seq<SongView>>::empty());
    while i < songs.len()
        invariant
            i <= songs.len(),
            groups_view(groups@) == grouped(songs.deep_view().take(i as int)),
        decreases songs.len() - i,
    {
        let song = &songs[i];
        let ghost before = groups_view(groups@);
        proof {
            assert(songs.deep_view().take(i + 1).drop_last() =~= songs.deep_view().take(i as int));
            assert(songs.deep_view().take(i + 1).last() == song@);
        }
        let mut at: usize = 0;
        while at < groups.len() && !(groups[at].len() > 0 && groups[at][0].title == song.title)
            invariant
                at <= groups.len(),
                before == groups_view(groups@),
                forall|k: int|
                    0 <= k < at ==> !((#[trigger] before[k]).len() > 0 && before[k][0].title
                        == song@.title),
            decreases groups.len() - at,
        {
            assert(before[at as int] == groups@[at as int].deep_view());
            at += 1;
        }
        proof {
            if at < groups.len() {
                assert(before[at as int] == groups@[at as int].deep_view());
            }
            lemma_group_of(before, song@.title, at as int);
        }
        if at < groups.len() {
            let mut group = groups.remove(at);
            let ghost members = group.deep_view();
            group.push(song.clone());
            assert(group.deep_view() =~= members.push(song@));
            groups.insert(at, group);
            assert(groups_view(groups@) =~= before.update(at as int, before[at as int].push(song@)));
        } else {
            let mut group: Vec<Song> = Vec::new();
            group.push(song.clone());
            assert(group.deep_view() =~= seq![song@]);
            groups.push(group);
            assert(groups_view(groups@) =~= before.push(seq![song@]));
        }
        i += 1;
    }
    assert(songs.deep_view().take(songs.len() as int) =~= songs.deep_view());
    groups
}

/// A cell of a table.
#[derive(Debug)]
pub struct TableCell {
    /// What the cell shows.
    pub text: String,
    /// The tier in whose colour the cell is shown, if it names a tier.
    pub tier: Option<LevelLabel>,
}

/// What a cell holds.
pub struct CellView {
    pub text: Seq<char>,
    pub tier: Option<LevelLabel>,
}

impl View for TableCell {
    type V = CellView;

    open spec fn view(&self) -> CellView {
        CellView { text: self.text@, tier: self.tier }
    }
}

impl DeepView for TableCell {
    type V = CellView;

    open spec fn deep_view(&self) -> CellView {
        self@
    }
}

/// A table with the heading under which it is shown.
#[derive(Debug)]
pub struct SongTable {
    /// The heading.
    pub info: String,
    /// The titles of the columns.
    pub titles: Vec<TableCell>,
    /// The rows.
    pub rows: Vec<Vec<TableCell>>,
    /// The depth of the heading in a Markdown file.
    pub head: MarkdownFormat,
}

/// What a table holds.
pub struct SongTableView {
    pub info: Seq<char>,
    pub titles: Seq<CellView>,
    pub rows: Seq<Seq<CellView>>,
    pub head: MarkdownFormat,
}

/// What `rows` holds.
pub open spec fn rows_view(rows: Seq<Vec<TableCell>>) -> Seq<Seq<CellView>> {
    rows.map_values(|row: Vec<TableCell>| row.deep_view())
}

impl View for SongTable {
    type V = SongTableView;

    open spec fn view(&self) -> SongTableView {
        SongTableView {
            info: self.info@,
            titles: self.titles.deep_view(),
            rows: rows_view(self.rows@),
            head: self.head,
        }
    }
}

/// A cell that shows `text`.
pub open spec fn cell(text: Seq<char>) -> CellView {
    CellView { text, tier: None }
}

/// The cell that names the tier `label`, in the colour of the tier.
pub open spec fn tier_cell(label: LevelLabel) -> CellView {
    CellView { text: label.display_name(), tier: Some(label) }
}

/// The smaller of two lengths.
pub open spec fn shorter(a: nat, b: nat) -> nat {
    if a <= b {
        a
    } else {
        b
    }
}

/// The link of the picture of the song at `i`, if the table has pictures.
pub open spec fn picture_of(pictures: Option<Seq<Seq<char>>>, i: int) -> Option<Seq<char>> {
    match pictures {
        Some(links) => Some(links[i]),
        None => None,
    }
}

/// The titles of the columns of a list of songs: the picture, if there is
/// one; identifier, title, category and tempo; and the tier `level`, or, if
/// none is asked for, the first `columns` tiers.
pub open spec fn list_titles(pictures: bool, level: Option<LevelLabel>, columns: nat) -> Seq<
    CellView,
> {
    let front = if pictures {
        seq![cell("谱面图片"@)]
    } else {
        Seq::empty()
    };
    let fixed = seq![cell("ID"@), cell("乐曲标题"@), cell("分区"@), cell("BPM"@)];
    match level {
        Some(label) => front + fixed + seq![tier_cell(label)],
        None => front + fixed + Seq::new(columns, |i: int| tier_cell(LevelLabel::of_tier(i))),
    }
}

/// The cells that show the levels of `song`: that of the tier `level`, or,
/// if none is asked for, one for each chart that has both a difficulty
/// constant and a level.
pub open spec fn level_cells(song: SongView, level: Option<LevelLabel>) -> Seq<CellView> {
    match level {
        Some(label) => seq![
            cell(level_text(song.ds[label.tier()], song.level[label.tier()])),
        ],
        None => Seq::new(
            shorter(song.ds.len(), song.level.len()),
            |i: int| cell(level_text(song.ds[i], song.level[i])),
        ),
    }
}

/// The row of `song` in a list of songs.
pub open spec fn list_row(song: SongView, picture: Option<Seq<char>>, level: Option<LevelLabel>) -> Seq<
    CellView,
> {
    let front = match picture {
        Some(link) => seq![cell(link)],
        None => Seq::empty(),
    };
    front + seq![
        cell(decimal(song.id as nat)),
        cell(marked_title(song.song_type, song.title, picture is Some)),
        cell(song.basic_info.genre),
        cell(decimal(song.basic_info.bpm as nat)),
    ] + level_cells(song, level)
}

/// Whether `songs` can be shown in one list: if a tier is asked for, every
/// song has a difficulty constant and a level for it; if none is asked for,
/// no song has more charts than there are tiers.
pub open spec fn listable(songs: Seq<SongView>, level: Option<LevelLabel>) -> bool {
    match level {
        Some(label) => forall|i: int|
            0 <= i < songs.len() ==> label.tier() < (#[trigger] songs[i]).ds.len() && label.tier()
                < songs[i].level.len(),
        None => chart_columns(songs) <= 5,
    }
}

/// The list of `songs`.
pub open spec fn list_table(
    songs: Seq<SongView>,
    pictures: Option<Seq<Seq<char>>>,
    level: Option<LevelLabel>,
) -> SongTableView {
    SongTableView {
        info: "歌曲列表"@,
        titles: list_titles(pictures is Some, level, chart_columns(songs)),
        rows: Seq::new(songs.len(), |i: int| list_row(songs[i], picture_of(pictures, i), level)),
        head: MarkdownFormat::H2,
    }
}

/// What `pictures` holds.
pub open spec fn links_view(pictures: Option<&Vec<String>>) -> Option<Seq<Seq<char>>> {
    match pictures {
        Some(links) => Some(links.deep_view()),
        None => None,
    }
}

/// A cell that shows `text`.
pub fn plain_cell(text: String) -> (made: TableCell)
    ensures
        made@ == cell(text@),
{
    TableCell { text, tier: None }
}

/// The cell that names the tier `label`.
pub fn label_cell(label: LevelLabel) -> (made: TableCell)
    ensures
        made@ == tier_cell(label),
{
    TableCell { text: String::from_str(label.name()), tier: Some(label) }
}

/// The titles of the columns of a list of songs.
fn list_header(pictures: bool, level: Option<LevelLabel>, columns: usize) -> (titles: Vec<TableCell>)
    requires
        columns <= 5,
    ensures
        titles.deep_view() == list_titles(pictures, level, columns as nat),
{
    let mut titles: Vec<TableCell> = Vec::new();
    if pictures {
        titles.push(plain_cell(String::from_str("谱面图片")));
    }
    titles.push(plain_cell(String::from_str("ID")));
    titles.push(plain_cell(String::from_str("乐曲标题")));
    titles.push(plain_cell(String::from_str("分区")));
    titles.push(plain_cell(String::from_str("BPM")));
    let ghost front = if pictures {
        seq![cell("谱面图片"@)]
    } else {
        Seq::<CellView>::empty()
    };
    let ghost fixed = seq![cell("ID"@), cell("乐曲标题"@), cell("分区"@), cell("BPM"@)];
    assert(titles.deep_view() =~= front + fixed);
    match level {
        Some(label) => {
            titles.push(label_cell(label));
            assert(titles.deep_view() =~= front + fixed + seq![tier_cell(label)]);
        },
        None => {
            let mut i: usize = 0;
            while i < columns
                invariant
                    i <= columns,
                    columns <= 5,
                    titles.deep_view() == front + fixed + Seq::new(
                        i as nat,
                        |k: int| tier_cell(LevelLabel::of_tier(k)),
                    ),
                decreases columns - i,
            {
                let ghost before = titles.deep_view();
                match LevelLabel::from_index(i) {
                    Some(label) => {
                        titles.push(label_cell(label));
                    },
                    None => {},
                }
                assert(titles.deep_view() =~= before.push(tier_cell(LevelLabel::of_tier(i as int))));
                assert(titles.deep_view() =~= front + fixed + Seq::new(
                    (i + 1) as nat,
                    |k: int| tier_cell(LevelLabel::of_tier(k)),
                ));
                i += 1;
            }
        },
    }
    titles
}

/// The cells that show the levels of `song`, if it has the levels that are asked for.
fn level_row(song: &Song, level: Option<LevelLabel>) -> (cells: Option<Vec<TableCell>>)
    ensures
        match level {
            Some(label) => cells is Some <==> label.tier() < song@.ds.len() && label.tier()
                < song@.level.len(),
            None => cells is Some,
        },
        cells matches Some(made) ==> made.deep_view() == level_cells(song@, level),
{
    let mut cells: Vec<TableCell> = Vec::new();
    match level {
        Some(label) => {
            let index = label.index();
            if index >= song.ds.len() || index >= song.level.len() {
                return None;
            }
            cells.push(plain_cell(get_level_str(song.ds[index], song.level[index].as_str())));
            assert(cells.deep_view() =~= level_cells(song@, level));
        },
        None => {
            let count: usize = if song.ds.len() <= song.level.len() {
                song.ds.len()
            } else {
                song.level.len()
            };
            let mut i: usize = 0;
            assert(cells.deep_view() =~= Seq::new(
                0,
                |k: int| cell(level_text(song@.ds[k], song@.level[k])),
            ));
            while i < count
                invariant
                    i <= count,
                    count == shorter(song@.ds.len(), song@.level.len()),
                    cells.deep_view() == Seq::new(
                        i as nat,
                        |k: int| cell(level_text(song@.ds[k], song@.level[k])),
                    ),
                decreases count - i,
            {
                let ghost before = cells.deep_view();
                cells.push(plain_cell(get_level_str(song.ds[i], song.level[i].as_str())));
                assert(cells.deep_view() =~= before.push(
                    cell(level_text(song@.ds[i as int], song@.level[i as int])),
                ));
                assert(cells.deep_view() =~= Seq::new(
                    (i + 1) as nat,
                    |k: int| cell(level_text(song@.ds[k], song@.level[k])),
                ));
                i += 1;
            }
        },
    }
    Some(cells)
}

/// The row of `song` in a list of songs, if the song has the levels that are asked for.
pub fn song_row(song: &Song, picture: Option<&str>, level: Option<LevelLabel>) -> (row: Option<
    Vec<TableCell>,
>)
    ensures
        match level {
            Some(label) => row is Some <==> label.tier() < song@.ds.len() && label.tier()
                < song@.level.len(),
            None => row is Some,
        },
        row matches Some(made) ==> made.deep_view() == list_row(
            song@,
            match picture {
                Some(link) => Some(link@),
                None => None,
            },
            level,
        ),
{
    let levels = match level_row(song, level) {
        Some(levels) => levels,
        None => {
            return None;
        },
    };
    let mut row: Vec<TableCell> = Vec::new();
    let ghost front = match picture {
        Some(link) => seq![cell(link@)],
        None => Seq::<CellView>::empty(),
    };
    match picture {
        Some(link) => {
            row.push(plain_cell(String::from_str(link)));
        },
        None => {},
    }
    row.push(plain_cell(number_text(song.id)));
    row.push(
        plain_cell(row_title(song.song_type.as_str(), song.title.as_str(), picture.is_some())),
    );
    row.push(plain_cell(song.basic_info.genre.clone()));
    row.push(plain_cell(number_text(song.basic_info.bpm as usize)));
    let ghost fixed = seq![
        cell(decimal(song@.id as nat)),
        cell(marked_title(song@.song_type, song@.title, picture is Some)),
        cell(song@.basic_info.genre),
        cell(decimal(song@.basic_info.bpm as nat)),
    ];
    assert(row.deep_view() =~= front + fixed);
    let mut i: usize = 0;
    while i < levels.len()
        invariant
            i <= levels.len(),
            row.deep_view() == front + fixed + levels.deep_view().take(i as int),
        decreases levels.len() - i,
    {
        let ghost before = row.deep_view();
        let made = TableCell { text: levels[i].text.clone(), tier: levels[i].tier };
        assert(made@ == levels.deep_view()[i as int]);
        row.push(made);
        assert(row.deep_view() =~= before.push(levels.deep_view()[i as int]));
        assert(levels.deep_view().take(i + 1) =~= levels.deep_view().take(i as int).push(
            levels.deep_view()[i as int],
        ));
        assert(row.deep_view() =~= front + fixed + levels.deep_view().take(i + 1));
        i += 1;
    }
    assert(levels.deep_view().take(levels.len() as int) =~= levels.deep_view());
    Some(row)
}

/// The list of `songs`: one row for each song.
///
/// `pictures` holds the link of the picture of each song, if the table has
/// pictures. There is no table if there are not as many links as songs, or
/// if the songs cannot be shown in one list.
pub fn get_songs(songs: &Vec<Song>, pictures: Option<&Vec<String>>, level: Option<LevelLabel>) -> (table:
    Option<SongTable>)
    ensures
        table is Some <==> listable(songs.deep_view(), level) && (pictures matches Some(links)
            ==> links.len() == songs.len()),
        table matches Some(made) ==> made@ == list_table(
            songs.deep_view(),
            links_view(pictures),
            level,
        ),
{
    match pictures {
        Some(links) => {
            if links.len() != songs.len() {
                return None;
            }
        },
        None => {},
    }
    let columns = chart_count(songs);
    if level.is_none() && columns > 5 {
        return None;
    }
    let titles = list_header(pictures.is_some(), level, if level.is_none() {
        columns
    } else {
        0
    });
    assert(titles.deep_view() == list_titles(
        pictures is Some,
        level,
        chart_columns(songs.deep_view()),
    ));
    let mut rows: Vec<Vec<TableCell>> = Vec::new();
    let mut i: usize = 0;
    while i < songs.len()
        invariant
            i <= songs.len(),
            pictures matches Some(links) ==> links.len() == songs.len(),
            level is None ==> chart_columns(songs.deep_view()) <= 5,
            titles.deep_view() == list_titles(
                pictures is Some,
                level,
                chart_columns(songs.deep_view()),
            ),
            rows.len() == i,
            forall|k: int|
                0 <= k < i ==> (#[trigger] rows[k]).deep_view() == list_row(
                    songs.deep_view()[k],
                    picture_of(links_view(pictures), k),
                    level,
                ),
            level matches Some(label) ==> forall|k: int|
                0 <= k < i ==> label.tier() < (#[trigger] songs.deep_view()[k]).ds.len()
                    && label.tier() < songs.deep_view()[k].level.len(),
        decreases songs.len() - i,
    {
        let picture: Option<&str> = match pictures {
            Some(links) => Some(links[i].as_str()),
            None => None,
        };
        assert(songs.deep_view()[i as int] == songs[i as int]@);
        match song_row(&songs[i], picture, level) {
            Some(row) => {
                rows.push(row);
            },
            None => {
                return None;
            },
        }
        i += 1;
    }
    let table = SongTable {
        info: String::from_str("歌曲列表"),
        titles,
        rows,
        head: MarkdownFormat::H2,
    };
    assert(table@.rows =~= list_table(songs.deep_view(), links_view(pictures), level).rows);
    Some(table)
}

/// The titles of the columns of a table of the songs of one title.
pub open spec fn detail_titles(pictures: bool) -> Seq<CellView> {
    let front = if pictures {
        seq![cell("谱面图片"@)]
    } else {
        Seq::empty()
    };
    front + seq![
        cell("ID"@),
        cell("乐曲标题"@),
        cell("类型"@),
        cell("分区"@),
        cell("BPM"@),
        cell("演唱/作曲"@),
    ]
}

/// The row of `song` in a table of the songs of one title. The identifier
/// is filled up with spaces in front to five characters.
pub open spec fn detail_row(song: SongView, picture: Option<Seq<char>>) -> Seq<CellView> {
    let front = match picture {
        Some(link) => seq![cell(link)],
        None => Seq::empty(),
    };
    front + seq![
        cell(left_padded(decimal(song.id as nat), 5, ' ')),
        cell(song.title),
        cell(song.song_type),
        cell(song.basic_info.genre),
        cell(decimal(song.basic_info.bpm as nat)),
        cell(song.basic_info.artist),
    ]
}

/// The table of the songs of the title `title`.
pub open spec fn detail_view(
    title: Seq<char>,
    songs: Seq<SongView>,
    pictures: Option<Seq<Seq<char>>>,
) -> SongTableView {
    SongTableView {
        info: "乐曲情报 : "@ + title,
        titles: detail_titles(pictures is Some),
        rows: Seq::new(songs.len(), |i: int| detail_row(songs[i], picture_of(pictures, i))),
        head: MarkdownFormat::H2,
    }
}

/// The titles of the columns of a table of the songs of one title.
fn detail_header(pictures: bool) -> (titles: Vec<TableCell>)
    ensures
        titles.deep_view() == detail_titles(pictures),
{
    let mut titles: Vec<TableCell> = Vec::new();
    if pictures {
        titles.push(plain_cell(String::from_str("谱面图片")));
    }
    titles.push(plain_cell(String::from_str("ID")));
    titles.push(plain_cell(String::from_str("乐曲标题")));
    titles.push(plain_cell(String::from_str("类型")));
    titles.push(plain_cell(String::from_str("分区")));
    titles.push(plain_cell(String::from_str("BPM")));
    titles.push(plain_cell(String::from_str("演唱/作曲")));
    assert(titles.deep_view() =~= detail_titles(pictures));
    titles
}

/// The row of `song` in a table of the songs of one title.
fn detail_cells(song: &Song, picture: Option<&str>) -> (row: Vec<TableCell>)
    ensures
        row.deep_view() == detail_row(
            song@,
            match picture {
                Some(link) => Some(link@),
                None => None,
            },
        ),
{
    let mut row: Vec<TableCell> = Vec::new();
    match picture {
        Some(link) => {
            row.push(plain_cell(String::from_str(link)));
        },
        None => {},
    }
    row.push(plain_cell(padded_number(song.id, 5, ' ')));
    row.push(plain_cell(song.title.clone()));
    row.push(plain_cell(song.song_type.clone()));
    row.push(plain_cell(song.basic_info.genre.clone()));
    row.push(plain_cell(number_text(song.basic_info.bpm as usize)));
    row.push(plain_cell(song.basic_info.artist.clone()));
    assert(row.deep_view() =~= detail_row(
        song@,
        match picture {
            Some(link) => Some(link@),
            None => None,
        },
    ));
    row
}

/// The table of `songs`, which are the songs of the title `title`.
///
/// `pictures` holds the link of the picture of each song, if the table has
/// pictures. There is no table if there are not as many links as songs.
pub fn detail_table(title: &str, songs: &Vec<Song>, pictures: Option<&Vec<String>>) -> (table:
    Option<SongTable>)
    ensures
        table is Some <==> (pictures matches Some(links) ==> links.len() == songs.len()),
        table matches Some(made) ==> made@ == detail_view(
            title@,
            songs.deep_view(),
            links_view(pictures),
        ),
{
    match pictures {
        Some(links) => {
            if links.len() != songs.len() {
                return None;
            }
        },
        None => {},
    }
    let mut rows: Vec<Vec<TableCell>> = Vec::new();
    let mut i: usize = 0;
    while i < songs.len()
        invariant
            i <= songs.len(),
            pictures matches Some(links) ==> links.len() == songs.len(),
            rows.len() == i,
            forall|k: int|
                0 <= k < i ==> (#[trigger] rows[k]).deep_view() == detail_row(
                    songs.deep_view()[k],
                    picture_of(links_view(pictures), k),
                ),
        decreases songs.len() - i,
    {
        let picture: Option<&str> = match pictures {
            Some(links) => Some(links[i].as_str()),
            None => None,
        };
        assert(songs.deep_view()[i as int] == songs[i as int]@);
        rows.push(detail_cells(&songs[i], picture));
        i += 1;
    }
    let table = SongTable {
        info: String::from_str("乐曲情报 : ").concat(title),
        titles: detail_header(pictures.is_some()),
        rows,
        head: MarkdownFormat::H2,
    };
    assert(table@.rows =~= detail_view(title@, songs.deep_view(), links_view(pictures)).rows);
    Some(table)
}

/// The number of notes of a chart: the sum of the numbers of notes of each kind.
pub open spec fn note_sum(notes: Seq<u32>) -> nat
    decreases notes.len(),
{
    if notes.len() == 0 {
        0
    } else {
        note_sum(notes.drop_last()) + notes.last() as nat
    }
}

/// The heading of a table of charts.
pub open spec fn chart_heading(kind: ChartKind) -> Seq<char> {
    match kind {
        ChartKind::Deluxe => "DX谱面情报"@,
        ChartKind::Standard => "标准谱面情报"@,
    }
}

/// The titles of the columns of a table of charts. Deluxe charts have a
/// column of touch notes before the column of break notes.
pub open spec fn chart_titles(kind: ChartKind) -> Seq<CellView> {
    let front = seq![
        cell("难度"@),
        cell("定数"@),
        cell("COMBO"@),
        cell("TAP"@),
        cell("HOLD"@),
        cell("SLIDE"@),
    ];
    let back = seq![cell("BREAK"@), cell("谱面作者"@)];
    match kind {
        ChartKind::Deluxe => front + seq![cell("TOUCH"@)] + back,
        ChartKind::Standard => front + back,
    }
}

/// The number of rows of the table of the charts of `song`: one for each
/// chart that has a difficulty constant, and no more than there are tiers.
pub open spec fn chart_rows(song: SongView) -> nat {
    shorter(shorter(song.charts.len(), song.ds.len()), 5)
}

/// The row of the chart at `i` of `song`: its tier, its difficulty constant,
/// the number of its notes, the number of notes of each kind, and who wrote it.
pub open spec fn chart_row(song: SongView, i: int) -> Seq<CellView> {
    seq![
        tier_cell(LevelLabel::of_tier(i)),
        cell(constant_text(song.ds[i])),
        cell(decimal(note_sum(song.charts[i].notes))),
    ] + song.charts[i].notes.map_values(|count: u32| cell(decimal(count as nat))) + seq![
        cell(song.charts[i].charter),
    ]
}

/// Whether the charts of `song` can be shown in a table: the type of the
/// song names a kind of charts, and no chart has more notes than `u32::MAX`.
pub open spec fn chartable(song: SongView) -> bool {
    &&& kind_of(song.song_type) is Some
    &&& forall|i: int| 0 <= i < chart_rows(song) ==> note_sum(#[trigger] song.charts[i].notes) <= u32::MAX
}

/// The table of the charts of `song`.
pub open spec fn chart_view(song: SongView) -> SongTableView {
    SongTableView {
        info: chart_heading(kind_of(song.song_type).unwrap()),
        titles: chart_titles(kind_of(song.song_type).unwrap()),
        rows: Seq::new(chart_rows(song), |i: int| chart_row(song, i)),
        head: MarkdownFormat::H3,
    }
}

/// The sum of some of the counts is not above the sum of all.
proof fn lemma_note_sum_grows(notes: Seq<u32>, fewer: int)
    requires
        0 <= fewer <= notes.len(),
    ensures
        note_sum(notes.take(fewer)) <= note_sum(notes),
    decreases notes.len(),
{
    if notes.len() == 0 || fewer == notes.len() {
        assert(notes.take(fewer) =~= notes);
    } else {
        lemma_note_sum_grows(notes.drop_last(), fewer);
        assert(notes.drop_last().take(fewer) =~= notes.take(fewer));
    }
}

/// The number of notes of a chart, unless it is above `u32::MAX`.
pub fn combo(notes: &Vec<u32>) -> (total: Option<u32>)
    ensures
        match total {
            Some(sum) => sum == note_sum(notes@),
            None => note_sum(notes@) > u32::MAX,
        },
{
    let mut total: u32 = 0;
    let mut i: usize = 0;
    assert(notes@.take(0) =~= Seq::<u32>::empty());
    while i < notes.len()
        invariant
            i <= notes.len(),
            total == note_sum(notes@.take(i as int)),
        decreases notes.len() - i,
    {
        proof {
            assert(notes@.take(i + 1).drop_last() =~= notes@.take(i as int));
            assert(notes@.take(i + 1).last() == notes@[i as int]);
            lemma_note_sum_grows(notes@, i + 1);
        }
        if total > u32::MAX - notes[i] {
            return None;
        }
        total = total + notes[i];
        i += 1;
    }
    assert(notes@.take(notes.len() as int) =~= notes@);
    Some(total)
}

/// The titles of the columns of a table of charts.
fn chart_header(kind: ChartKind) -> (titles: Vec<TableCell>)
    ensures
        titles.deep_view() == chart_titles(kind),
{
    let mut titles: Vec<TableCell> = Vec::new();
    titles.push(plain_cell(String::from_str("难度")));
    titles.push(plain_cell(String::from_str("定数")));
    titles.push(plain_cell(String::from_str("COMBO")));
    titles.push(plain_cell(String::from_str("TAP")));
    titles.push(plain_cell(String::from_str("HOLD")));
    titles.push(plain_cell(String::from_str("SLIDE")));
    match kind {
        ChartKind::Deluxe => {
            titles.push(plain_cell(String::from_str("TOUCH")));
        },
        ChartKind::Standard => {},
    }
    titles.push(plain_cell(String::from_str("BREAK")));
    titles.push(plain_cell(String::from_str("谱面作者")));
    assert(titles.deep_view() =~= chart_titles(kind));
    titles
}

/// The row of the chart at `at` of `song`, unless the chart has too many notes.
fn chart_cells(song: &Song, at: usize) -> (row: Option<Vec<TableCell>>)
    requires
        at < chart_rows(song@),
    ensures
        row is Some <==> note_sum(song@.charts[at as int].notes) <= u32::MAX,
        row matches Some(made) ==> made.deep_view() == chart_row(song@, at as int),
{
    let chart = &song.charts[at];
    assert(song@.charts[at as int] == chart@);
    let total = match combo(&chart.notes) {
        Some(total) => total,
        None => {
            return None;
        },
    };
    let label = match LevelLabel::from_index(at) {
        Some(label) => label,
        None => {
            return None;
        },
    };
    let mut row: Vec<TableCell> = Vec::new();
    row.push(label_cell(label));
    row.push(plain_cell(ds_text(song.ds[at])));
    row.push(plain_cell(number_text(total as usize)));
    let ghost front = seq![
        tier_cell(LevelLabel::of_tier(at as int)),
        cell(constant_text(song@.ds[at as int])),
        cell(decimal(note_sum(chart@.notes))),
    ];
    let ghost counts = chart@.notes.map_values(|count: u32| cell(decimal(count as nat)));
    assert(row.deep_view() =~= front);
    let mut i: usize = 0;
    while i < chart.notes.len()
        invariant
            i <= chart.notes.len(),
            counts == chart@.notes.map_values(|count: u32| cell(decimal(count as nat))),
            row.deep_view() == front + counts.take(i as int),
        decreases chart.notes.len() - i,
    {
        let ghost before = row.deep_view();
        row.push(plain_cell(number_text(chart.notes[i] as usize)));
        assert(row.deep_view() =~= before.push(counts[i as int]));
        assert(counts.take(i + 1) =~= counts.take(i as int).push(counts[i as int]));
        assert(row.deep_view() =~= front + counts.take(i + 1));
        i += 1;
    }
    assert(counts.take(chart.notes.len() as int) =~= counts);
    let ghost before = row.deep_view();
    row.push(plain_cell(chart.charter.clone()));
    assert(row.deep_view() =~= before.push(cell(chart@.charter)));
    assert(row.deep_view() =~= chart_row(song@, at as int));
    Some(row)
}

/// The table of the charts of `song`, if they can be shown in a table.
pub fn get_chart_table(song: &Song) -> (table: Option<SongTable>)
    ensures
        table is Some <==> chartable(song@),
        table matches Some(made) ==> made@ == chart_view(song@),
{
    let kind = match chart_kind(song.song_type.as_str()) {
        Some(kind) => kind,
        None => {
            return None;
        },
    };
    let with_constant: usize = if song.charts.len() <= song.ds.len() {
        song.charts.len()
    } else {
        song.ds.len()
    };
    let count: usize = if with_constant <= 5 {
        with_constant
    } else {
        5
    };
    let mut rows: Vec<Vec<TableCell>> = Vec::new();
    let mut i: usize = 0;
    while i < count
        invariant
            i <= count,
            count == chart_rows(song@),
            rows.len() == i,
            forall|k: int| 0 <= k < i ==> (#[trigger] rows[k]).deep_view() == chart_row(song@, k),
            forall|k: int| 0 <= k < i ==> note_sum(#[trigger] song@.charts[k].notes) <= u32::MAX,
        decreases count - i,
    {
        match chart_cells(song, i) {
            Some(row) => {
                rows.push(row);
            },
            None => {
                return None;
            },
        }
        i += 1;
    }
    let info = match kind {
        ChartKind::Deluxe => String::from_str("DX谱面情报"),
        ChartKind::Standard => String::from_str("标准谱面情报"),
    };
    let table = SongTable { info, titles: chart_header(kind), rows, head: MarkdownFormat::H3 };
    assert(table@.rows =~= chart_view(song@).rows);
    Some(table)
}

} // verus!
