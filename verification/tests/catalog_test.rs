use maimai_search::catalog::MaimaiDB;
use maimai_search::resolver::DXProberClient;
use maimai_search::song::{BasicInfo, Chart, Song, SongField};

fn entry(id: usize, title: &str, charts: usize) -> Song {
    Song {
        id,
        title: title.to_string(),
        song_type: "SD".to_string(),
        ds: (0..charts).map(|i| 100 + i as u16).collect(),
        level: (0..charts).map(|i| format!("{}", 10 + i)).collect(),
        cids: (0..charts).map(|i| i as u32).collect(),
        charts: (0..charts)
            .map(|_| Chart { notes: vec![1, 2, 3, 4], charter: "-".to_string() })
            .collect(),
        basic_info: BasicInfo {
            title: title.to_string(),
            artist: "artist".to_string(),
            genre: "genre".to_string(),
            bpm: 120,
            release_date: "".to_string(),
            from: "maimai".to_string(),
            is_new: false,
        },
    }
}

#[test]
fn a_refresh_replaces_the_whole_catalog() {
    let mut db = MaimaiDB::new();
    assert_eq!(db.len(), 0);
    assert_eq!(db.update_database(&vec![entry(1, "one", 4), entry(2, "two", 5)]), 0);
    assert_eq!(db.len(), 2);
    assert_eq!(db.update_database(&vec![entry(3, "three", 4)]), 0);
    assert_eq!(db.len(), 1);
    assert!(db.search_song_by_id(1).is_none());
    assert_eq!(db.search_song_by_id(3).map(|s| s.title), Some("three".to_string()));
    assert_eq!(db.update_database(&Vec::new()), 0);
    assert_eq!(db.len(), 0);
}

#[test]
fn a_malformed_song_is_skipped_and_the_others_go_in() {
    let mut short_levels = entry(2, "short levels", 4);
    short_levels.level.pop();
    let mut extra_chart = entry(3, "extra chart", 4);
    extra_chart.charts.push(Chart { notes: vec![], charter: "-".to_string() });
    let songs = vec![
        entry(1, "first", 4),
        short_levels,
        extra_chart,
        entry(0, "no identifier", 4),
        entry(4, "last", 0),
    ];
    let mut db = MaimaiDB::new();
    assert_eq!(db.update_database(&songs), 3);
    assert_eq!(db.len(), 2);
    assert!(db.search_song_by_id(1).is_some());
    assert!(db.search_song_by_id(2).is_none());
    assert!(db.search_song_by_id(3).is_none());
    assert!(db.search_song_by_id(0).is_none());
    assert!(db.search_song_by_id(4).is_some());
}

#[test]
fn of_two_songs_with_one_identifier_the_first_stays() {
    let mut db = MaimaiDB::new();
    let songs = vec![entry(5, "first", 4), entry(6, "other", 4), entry(5, "second", 4)];
    assert_eq!(db.update_database(&songs), 1);
    assert_eq!(db.len(), 2);
    assert_eq!(db.search_song_by_id(5).map(|s| s.title), Some("first".to_string()));
}

#[test]
fn a_found_song_is_the_song_that_went_in() {
    let mut db = MaimaiDB::new();
    let offered = entry(834, "PANDORA PARADOXXX", 5);
    db.update_database(&vec![offered.clone()]);
    let found = db.search_song_by_id(834).expect("the song");
    assert_eq!(found.id, offered.id);
    assert_eq!(found.title, offered.title);
    assert_eq!(found.song_type, offered.song_type);
    assert_eq!(found.ds, offered.ds);
    assert_eq!(found.level, offered.level);
    assert_eq!(found.cids, offered.cids);
    assert_eq!(found.charts.len(), 5);
    assert_eq!(found.charts[4].notes, vec![1, 2, 3, 4]);
    assert_eq!(found.charts[4].charter, "-");
    assert_eq!(found.basic_info.bpm, 120);
    assert_eq!(found.basic_info.artist, "artist");
    assert!(found.is_well_formed());
}

#[test]
fn the_searcher_refreshes_its_catalog() {
    let mut client = DXProberClient::new(MaimaiDB::new());
    assert_eq!(client.update_data(&vec![entry(1, "one", 4), entry(1, "again", 4)]), 1);
    assert_eq!(client.catalog().len(), 1);
    assert!(client.search_songs_by_id(1).is_some());
}

#[test]
fn fields_are_stored_under_their_names() {
    assert_eq!(SongField::Id.to_string(), "id");
    assert_eq!(SongField::Keyword.to_string(), "keyword");
    assert_eq!(SongField::Title.to_string(), "title");
    assert_eq!(SongField::SongType.to_string(), "song_type");
    assert_eq!(SongField::Ds.to_string(), "ds");
    assert_eq!(SongField::Level.to_string(), "level");
    assert_eq!(SongField::Cids.to_string(), "cids");
    assert_eq!(SongField::Charts.to_string(), "charts");
    assert_eq!(SongField::BasicInfo.to_string(), "basic_info");
}
