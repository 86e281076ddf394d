use maimai_search::best_list::BestList;
use maimai_search::catalog::MaimaiDB;
use maimai_search::rating::{compute_ra, get_ra_pic};
use maimai_search::record::{ChartInfoResponse, ChartRate, Charts, LevelLabel};
use maimai_search::report::{best_lists, rating_total, DrawBest};
use maimai_search::resolver::{search_songs_by_id, DXProberClient};
use maimai_search::song::{BasicInfo, Chart, Song};
use maimai_search::text::string_to_half_width;

fn five_chart_song(id: usize) -> Song {
    let mut charts = Vec::new();
    let mut level = Vec::new();
    let mut ds = Vec::new();
    for step in 0..5u16 {
        charts.push(Chart { notes: vec![100, 20, 30, 5], charter: "-".to_string() });
        level.push(format!("{}", 10 + step));
        ds.push(100 + step * 10 + (id % 10) as u16);
    }
    Song {
        id,
        title: format!("song {}", id),
        song_type: "SD".to_string(),
        ds,
        level,
        cids: vec![1, 2, 3, 4, 5],
        charts,
        basic_info: BasicInfo {
            title: format!("song {}", id),
            artist: "artist".to_string(),
            genre: "genre".to_string(),
            bpm: 180,
            release_date: "".to_string(),
            from: "maimai".to_string(),
            is_new: false,
        },
    }
}

fn client_with(ids: &[(usize, LevelLabel)]) -> DXProberClient {
    let mut songs = Vec::new();
    for (id, _) in ids {
        songs.push(five_chart_song(*id));
    }
    let mut db = MaimaiDB::new();
    db.update_database(&songs);
    DXProberClient::new(db)
}

fn best_of(client: &DXProberClient, song_ids: &[(usize, LevelLabel)], size: usize) -> BestList {
    let mut list = BestList::new(size);
    for (song_id, level_label) in song_ids {
        if let Some(song) = search_songs_by_id(client, *song_id) {
            let ds = match level_label {
                LevelLabel::Basic => song.ds[0],
                LevelLabel::Advanced => song.ds[1],
                LevelLabel::Expert => song.ds[2],
                LevelLabel::Master => song.ds[3],
                LevelLabel::ReMaster => song.ds[4],
            };
            list.push(ChartInfoResponse {
                achievements: 1_010_000,
                ds,
                dx_score: 0,
                fc: "APp".to_string(),
                fs: "FSDp".to_string(),
                level: song.level.last().unwrap().clone(),
                level_label: *level_label,
                ra: compute_ra(ds, 1_010_000),
                rate: ChartRate::SSSP,
                song_id: song.id as i32,
                title: song.title.clone(),
                song_type: song.song_type.clone(),
            });
        }
    }
    list
}

const SD_SONGS: [(usize, LevelLabel); 35] = [
    (834, LevelLabel::ReMaster),
    (799, LevelLabel::ReMaster),
    (803, LevelLabel::ReMaster),
    (833, LevelLabel::ReMaster),
    (834, LevelLabel::Master),
    (11311, LevelLabel::Master),
    (22, LevelLabel::ReMaster),
    (227, LevelLabel::ReMaster),
    (456, LevelLabel::Master),
    (571, LevelLabel::Master),
    (643, LevelLabel::Master),
    (746, LevelLabel::Master),
    (773, LevelLabel::Master),
    (779, LevelLabel::Master),
    (799, LevelLabel::Master),
    (812, LevelLabel::ReMaster),
    (825, LevelLabel::ReMaster),
    (833, LevelLabel::Master),
    (11102, LevelLabel::Master),
    (11223, LevelLabel::Master),
    (365, LevelLabel::ReMaster),
    (496, LevelLabel::Master),
    (11026, LevelLabel::Master),
    (11106, LevelLabel::Master),
    (11165, LevelLabel::Master),
    (11222, LevelLabel::Master),
    (11235, LevelLabel::Master),
    (11364, LevelLabel::Master),
    (11374, LevelLabel::Master),
    (365, LevelLabel::Master),
    (825, LevelLabel::Master),
    (844, LevelLabel::Master),
    (852, LevelLabel::Master),
    (11029, LevelLabel::Master),
    (11103, LevelLabel::Master),
];

const DX_SONGS: [(usize, LevelLabel); 15] = [
    (11379, LevelLabel::Master),
    (11394, LevelLabel::Master),
    (11389, LevelLabel::Master),
    (11391, LevelLabel::Master),
    (11388, LevelLabel::Master),
    (11392, LevelLabel::Master),
    (11378, LevelLabel::Master),
    (11446, LevelLabel::Master),
    (1085, LevelLabel::Master),
    (11385, LevelLabel::Master),
    (11386, LevelLabel::Master),
    (11576, LevelLabel::Master),
    (11405, LevelLabel::Master),
    (11426, LevelLabel::Master),
    (11398, LevelLabel::Master),
];

fn check_descending(list: &BestList) {
    for i in 1..list.len() {
        assert!(!list[i].beats(&list[i - 1]));
    }
}

#[test]
fn test_compute_ra() {
    let achievement = 1_008_692;
    let ds = 128;
    let ra = compute_ra(ds, achievement);
    println!("{}", ra);
    assert_eq!(ra, 288);
}

#[test]
fn test_string_to_half_width() {
    let input_string = "Ｒｕｓｔ　语言";
    let output_string = string_to_half_width(input_string);
    println!("{}", output_string);
    assert_eq!(output_string, "Rust 语言")
}

#[test]
fn test_create_draw_best() {
    let mut dx_best_list = BestList::new(15);
    let mut sd_best_list = BestList::new(35);
    let pandora = ChartInfoResponse {
        achievements: 1_010_000,
        ds: 150,
        dx_score: 1791,
        fc: "APp".to_string(),
        fs: "FSDp".to_string(),
        level: "15".to_string(),
        level_label: LevelLabel::ReMaster,
        ra: 288,
        rate: ChartRate::SSSP,
        song_id: 834,
        title: "PANDORA PARADOXXX".to_string(),
        song_type: "SD".to_string(),
    };
    for _ in 0..35 {
        sd_best_list.push(pandora.clone());
        dx_best_list.push(pandora.clone());
    }
    assert_eq!(sd_best_list.len(), 35);
    assert_eq!(dx_best_list.len(), 15);
    let draw_best =
        DrawBest::new(sd_best_list, dx_best_list, "无声的安木").expect("the ratings add up");
    assert_eq!(draw_best.username(), "无声的安木");
    assert_eq!(draw_best.sd_rating(), 35 * 337);
    assert_eq!(draw_best.dx_rating(), 15 * 337);
    assert_eq!(draw_best.player_rating(), 50 * 337);
}

#[test]
fn lib_create_top_b50() {
    let mut all = SD_SONGS.to_vec();
    all.extend_from_slice(&DX_SONGS);
    let client = client_with(&all);
    let sd_best_list = best_of(&client, &SD_SONGS, 35);
    let dx_best_list = best_of(&client, &DX_SONGS, 15);
    assert_eq!(sd_best_list.len(), 35);
    assert_eq!(dx_best_list.len(), 15);
    check_descending(&sd_best_list);
    check_descending(&dx_best_list);
    let draw_best =
        DrawBest::new(sd_best_list, dx_best_list, "无声的安木").expect("the ratings add up");
    assert_eq!(draw_best.player_rating(), draw_best.sd_rating() + draw_best.dx_rating());
}

#[test]
fn b50_test_create_top_b50() {
    let mut all = SD_SONGS.to_vec();
    all.extend_from_slice(&DX_SONGS[..7]);
    let client = client_with(&all);
    let sd_best_list = best_of(&client, &SD_SONGS, 35);
    let dx_best_list = best_of(&client, &DX_SONGS, 15);
    assert_eq!(sd_best_list.len(), 35);
    assert_eq!(dx_best_list.len(), 7);
    check_descending(&sd_best_list);
    check_descending(&dx_best_list);
    let draw_best =
        DrawBest::new(sd_best_list, dx_best_list, "无声的安木").expect("the ratings add up");
    assert_eq!(draw_best.sd_best().len(), 35);
    assert_eq!(draw_best.dx_best().len(), 7);
}

#[test]
fn the_best_plays_of_an_answer_fill_both_lists() {
    let pandora = ChartInfoResponse {
        achievements: 1_005_000,
        ds: 150,
        dx_score: 0,
        fc: String::new(),
        fs: String::new(),
        level: "15".to_string(),
        level_label: LevelLabel::Master,
        ra: 337,
        rate: ChartRate::SSSP,
        song_id: 834,
        title: "PANDORA PARADOXXX".to_string(),
        song_type: "SD".to_string(),
    };
    let mut sd = Vec::new();
    let mut dx = Vec::new();
    for i in 0..40 {
        let mut play = pandora.clone();
        play.ra = 300 + i;
        play.song_id = i;
        sd.push(play.clone());
        if i < 10 {
            dx.push(play);
        }
    }
    let (sd_best, dx_best) = best_lists(Charts { dx, sd });
    assert_eq!(sd_best.size(), 35);
    assert_eq!(dx_best.size(), 15);
    assert_eq!(sd_best.len(), 35);
    assert_eq!(dx_best.len(), 10);
    assert_eq!(sd_best[0].ra, 339);
    assert_eq!(sd_best[34].ra, 305);
    assert_eq!(rating_total(&dx_best), Some(10 * 337));
    let card = DrawBest::new(sd_best, dx_best, "ＡｎｓｅｌＹｕｋｉ").expect("the ratings add up");
    assert_eq!(card.username(), "AnselYuki");
    assert_eq!(card.sd_rating(), 35 * 337);
    assert_eq!(card.player_rating(), 45 * 337);
}

#[test]
fn a_card_needs_a_rating_that_can_be_written() {
    let mut list = BestList::new(20_000);
    let top = ChartInfoResponse {
        achievements: u32::MAX,
        ds: u16::MAX,
        dx_score: 0,
        fc: String::new(),
        fs: String::new(),
        level: "15".to_string(),
        level_label: LevelLabel::Master,
        ra: 1,
        rate: ChartRate::SSSP,
        song_id: 1,
        title: "t".to_string(),
        song_type: "SD".to_string(),
    };
    for i in 0..14_557 {
        let mut play = top.clone();
        play.ra = i;
        list.push(play);
    }
    assert_eq!(rating_total(&list), None);
    assert!(DrawBest::new(list, BestList::new(15), "name").is_none());
    let mut shorter = BestList::new(20_000);
    for i in 0..14_556 {
        let mut play = top.clone();
        play.ra = i;
        shorter.push(play);
    }
    assert_eq!(rating_total(&shorter), Some(14_556 * 147_532));
}

#[test]
fn test_rating_pic_url() {
    let pic_name = get_ra_pic(14961);
    assert_eq!(pic_name, "UI_CMN_DXRating_S_09.png");
}
