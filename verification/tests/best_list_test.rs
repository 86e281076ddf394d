use maimai_search::best_list::BestList;
use maimai_search::record::{ChartInfoResponse, ChartRate, LevelLabel};

fn play(ra: i32, label: LevelLabel, achievements: u32, title: &str, song_id: i32) -> ChartInfoResponse {
    ChartInfoResponse {
        achievements,
        ds: 130,
        dx_score: 0,
        fc: String::new(),
        fs: String::new(),
        level: "13".to_string(),
        level_label: label,
        ra,
        rate: ChartRate::SSS,
        song_id,
        title: title.to_string(),
        song_type: "DX".to_string(),
    }
}

fn plain(ra: i32, song_id: i32) -> ChartInfoResponse {
    play(ra, LevelLabel::Master, 1_000_000, "title", song_id)
}

fn ids(list: &BestList) -> Vec<i32> {
    (0..list.len()).map(|i| list[i].song_id).collect()
}

fn ratings(list: &BestList) -> Vec<i32> {
    (0..list.len()).map(|i| list[i].ra).collect()
}

#[test]
fn new_list_is_empty() {
    let mut list = BestList::new(15);
    assert_eq!(list.len(), 0);
    assert_eq!(list.size(), 15);
    assert!(list.get(0).is_none());
    assert!(list.pop().is_none());
}

#[test]
fn pushes_come_out_strongest_first() {
    let mut list = BestList::new(5);
    for (ra, id) in [(200, 1), (300, 2), (100, 3), (250, 4)] {
        list.push(plain(ra, id));
    }
    assert_eq!(ratings(&list), vec![300, 250, 200, 100]);
    assert_eq!(ids(&list), vec![2, 4, 1, 3]);
}

#[test]
fn a_weaker_record_leaves_a_full_list_unchanged() {
    let mut list = BestList::new(3);
    for (ra, id) in [(200, 1), (300, 2), (250, 3)] {
        list.push(plain(ra, id));
    }
    let before = ids(&list);
    list.push(plain(150, 4));
    assert_eq!(list.len(), 3);
    assert_eq!(ids(&list), before);
}

#[test]
fn an_equally_strong_record_leaves_a_full_list_unchanged() {
    let mut list = BestList::new(3);
    for (ra, id) in [(200, 1), (300, 2), (250, 3)] {
        list.push(plain(ra, id));
    }
    list.push(plain(200, 9));
    assert_eq!(ids(&list), vec![2, 3, 1]);
}

#[test]
fn a_stronger_record_evicts_exactly_the_weakest() {
    let mut list = BestList::new(3);
    for (ra, id) in [(200, 1), (300, 2), (250, 3)] {
        list.push(plain(ra, id));
    }
    list.push(plain(260, 4));
    assert_eq!(list.len(), 3);
    assert_eq!(ids(&list), vec![2, 4, 3]);
    list.push(plain(999, 5));
    assert_eq!(ids(&list), vec![5, 2, 4]);
}

#[test]
fn the_length_never_exceeds_the_capacity() {
    let mut list = BestList::new(4);
    for i in 0..100 {
        list.push(plain((i * 37) % 101, i));
        assert!(list.len() <= 4);
    }
    assert_eq!(ratings(&list), vec![100, 99, 98, 97]);
}

#[test]
fn the_order_of_pushes_does_not_change_what_stays() {
    let values = [310, 120, 455, 287, 301, 99, 455, 12, 400, 287];
    let mut forward = BestList::new(4);
    let mut backward = BestList::new(4);
    let mut shuffled = BestList::new(4);
    for (i, ra) in values.iter().enumerate() {
        forward.push(plain(*ra, i as i32));
    }
    for (i, ra) in values.iter().enumerate().rev() {
        backward.push(plain(*ra, i as i32));
    }
    for k in 0..values.len() {
        let i = (k * 7) % values.len();
        shuffled.push(plain(values[i], i as i32));
    }
    assert_eq!(ratings(&forward), vec![455, 455, 400, 310]);
    assert_eq!(ratings(&backward), ratings(&forward));
    assert_eq!(ratings(&shuffled), ratings(&forward));
}

#[test]
fn equally_strong_records_keep_their_order_of_arrival() {
    let mut list = BestList::new(3);
    list.push(plain(200, 1));
    list.push(plain(200, 2));
    list.push(plain(300, 3));
    list.push(plain(200, 4));
    assert_eq!(ids(&list), vec![3, 1, 2]);
}

#[test]
fn a_list_of_all_plays_is_the_list_of_single_pushes() {
    let plays: Vec<ChartInfoResponse> =
        [310, 120, 455, 287, 301, 99, 455, 12].iter().enumerate().map(|(i, ra)| plain(*ra, i as i32)).collect();
    let mut pushed = BestList::new(3);
    for record in plays.iter() {
        pushed.push(record.clone());
    }
    let whole = BestList::of_charts(3, plays);
    assert_eq!(ids(&whole), ids(&pushed));
    assert_eq!(ids(&whole), vec![2, 6, 0]);
    assert_eq!(whole.size(), 3);
}

#[test]
fn a_list_without_places_stays_empty() {
    let mut list = BestList::new(0);
    list.push(plain(200, 1));
    assert_eq!(list.len(), 0);
    assert!(list.pop().is_none());
}

#[test]
fn pop_takes_the_weakest() {
    let mut list = BestList::new(3);
    for (ra, id) in [(200, 1), (300, 2), (250, 3)] {
        list.push(plain(ra, id));
    }
    assert_eq!(list.pop().map(|r| r.song_id), Some(1));
    assert_eq!(list.pop().map(|r| r.song_id), Some(3));
    assert_eq!(list.len(), 1);
    assert_eq!(list[0].song_id, 2);
    assert_eq!(list.get(0).map(|r| r.ra), Some(300));
    assert!(list.get(1).is_none());
    assert_eq!(list.pop().map(|r| r.song_id), Some(2));
    assert!(list.pop().is_none());
}

#[test]
fn ties_in_rating_go_to_the_higher_tier() {
    let mut list = BestList::new(5);
    list.push(play(200, LevelLabel::Expert, 1_000_000, "a", 1));
    list.push(play(200, LevelLabel::ReMaster, 900_000, "a", 2));
    list.push(play(200, LevelLabel::Basic, 1_010_000, "a", 3));
    list.push(play(200, LevelLabel::Master, 1_000_000, "a", 4));
    list.push(play(200, LevelLabel::Advanced, 1_000_000, "a", 5));
    assert_eq!(ids(&list), vec![2, 4, 1, 5, 3]);
}

#[test]
fn ties_in_tier_go_to_the_higher_achievement() {
    let mut list = BestList::new(3);
    list.push(play(200, LevelLabel::Master, 990_000, "z", 1));
    list.push(play(200, LevelLabel::Master, 1_005_000, "a", 2));
    list.push(play(200, LevelLabel::Master, 1_000_000, "m", 3));
    assert_eq!(ids(&list), vec![2, 3, 1]);
}

#[test]
fn ties_in_achievement_go_to_the_later_title() {
    let mut list = BestList::new(4);
    list.push(play(200, LevelLabel::Master, 1_000_000, "Oshama Scramble!", 1));
    list.push(play(200, LevelLabel::Master, 1_000_000, "PANDORA PARADOXXX", 2));
    list.push(play(200, LevelLabel::Master, 1_000_000, "Oshama", 3));
    list.push(play(200, LevelLabel::Master, 1_000_000, "\u{30df}\u{30af}", 4));
    assert_eq!(ids(&list), vec![4, 2, 1, 3]);
}

#[test]
fn beats_and_ties_agree_with_the_order() {
    let strong = play(300, LevelLabel::Basic, 0, "a", 1);
    let weak = play(299, LevelLabel::ReMaster, 1_010_000, "z", 2);
    assert!(strong.beats(&weak));
    assert!(!weak.beats(&strong));
    assert!(!strong.ties(&weak));
    let twin = play(300, LevelLabel::Basic, 0, "a", 77);
    assert!(strong.ties(&twin));
    assert!(!strong.beats(&twin));
    assert!(!twin.beats(&strong));
}
