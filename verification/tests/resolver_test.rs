use maimai_search::catalog::MaimaiDB;
use maimai_search::normalizer::{keywords, stop_word, strip_stopwords};
use maimai_search::resolver::{
    search_songs_by_id, search_songs_by_title, similar_list_top, DXProberClient, NextStep,
    PhaseOutcome, ScriptPhase, DISTANCE_CEILING,
};
use maimai_search::song::{BasicInfo, Chart, Song};

fn song(id: usize, title: &str) -> Song {
    Song {
        id,
        title: title.to_string(),
        song_type: "DX".to_string(),
        ds: vec![50, 80, 110, 135],
        level: vec!["5".to_string(), "8".to_string(), "11".to_string(), "13+".to_string()],
        cids: vec![1, 2, 3, 4],
        charts: vec![
            Chart { notes: vec![100, 10, 5, 2, 1], charter: "-".to_string() },
            Chart { notes: vec![200, 20, 10, 4, 2], charter: "-".to_string() },
            Chart { notes: vec![300, 30, 15, 6, 3], charter: "someone".to_string() },
            Chart { notes: vec![500, 53, 137, 94, 9], charter: "someone else".to_string() },
        ],
        basic_info: BasicInfo {
            title: title.to_string(),
            artist: "artist".to_string(),
            genre: "genre".to_string(),
            bpm: 150,
            release_date: "".to_string(),
            from: "maimai".to_string(),
            is_new: true,
        },
    }
}

fn client_of(songs: Vec<Song>) -> DXProberClient {
    let mut db = MaimaiDB::new();
    assert_eq!(db.update_database(&songs), 0);
    DXProberClient::new(db)
}

fn ids(songs: &[Song]) -> Vec<usize> {
    songs.iter().map(|s| s.id).collect()
}

fn texts(words: &[&str]) -> Vec<String> {
    words.iter().map(|w| w.to_string()).collect()
}

#[test]
fn a_word_of_the_title_finds_the_song() {
    let client = client_of(vec![song(1, "ミクの消失"), song(2, "ヒビカセ"), song(3, "PANDORA PARADOXXX")]);
    let found = client.search_songs_by_title("消失", 5);
    assert_eq!(ids(&found), vec![1]);
    assert_eq!(found[0].title, "ミクの消失");
}

#[test]
fn id_console() {
    let client = client_of(vec![song(665, "Oshama Scramble!"), song(666, "デスパレイト")]);
    let found = search_songs_by_id(&client, 666).expect("a song with this identifier");
    assert_eq!(found.title, "デスパレイト");
    assert_eq!(found.id, 666);
}

#[test]
fn name_console() {
    let client = client_of(vec![
        song(1, "初音ミクの消失"),
        song(2, "初音ミクの激唱"),
        song(3, "ヒビカセ"),
    ]);
    let found = search_songs_by_title(&client, "初音 消失", 5).expect("a match");
    assert_eq!(found[0].title, "初音ミクの消失");
    assert_eq!(ids(&found), vec![1, 2]);
}

#[test]
fn a_query_without_a_match_has_the_empty_answer() {
    let client = client_of(vec![song(1, "ミクの消失"), song(2, "ヒビカセ")]);
    assert!(client.search_songs_by_title("qwertyuiop", 5).is_empty());
    assert!(search_songs_by_title(&client, "qwertyuiop", 5).is_none());
    let empty = client_of(Vec::new());
    assert!(empty.search_songs_by_title("消失", 5).is_empty());
}

#[test]
fn an_unknown_identifier_finds_nothing() {
    let client = client_of(vec![song(1, "ミクの消失"), song(2, "ヒビカセ")]);
    assert!(client.search_songs_by_id(3).is_none());
    assert!(client.search_songs_by_id(0).is_none());
    assert!(search_songs_by_id(&client, usize::MAX).is_none());
    assert_eq!(client.search_songs_by_id(2).map(|s| s.title), Some("ヒビカセ".to_string()));
}

#[test]
fn the_alternate_script_is_tried_when_nothing_is_found() {
    let client = client_of(vec![song(7, "體驗"), song(8, "ヒビカセ")]);
    let found = client.search_songs_by_title("体验", 5);
    assert_eq!(ids(&found), vec![7]);
}

#[test]
fn matches_come_closest_first() {
    let client = client_of(vec![
        song(30, "magic number one two three"),
        song(10, "magic"),
        song(20, "magic number"),
        song(40, "unrelated"),
    ]);
    let found = client.search_songs_by_title("magic", 5);
    assert_eq!(ids(&found), vec![10, 20, 30]);
    let two = client.search_songs_by_title("magic", 2);
    assert_eq!(ids(&two), vec![10, 20]);
    assert!(client.search_songs_by_title("magic", 0).is_empty());
}

#[test]
fn upper_and_lower_case_are_not_told_apart() {
    let client = client_of(vec![song(834, "PANDORA PARADOXXX"), song(2, "ヒビカセ")]);
    assert_eq!(ids(&client.catalog().lookup_by_token("pandora")), vec![834]);
    assert_eq!(ids(&client.catalog().lookup_by_token("Pandora")), vec![834]);
    assert_eq!(ids(&client.catalog().lookup_by_token("paradoxxx")), vec![834]);
    assert!(client.catalog().lookup_by_token("pandoras").is_empty());
    assert_eq!(ids(&client.search_songs_by_title("pandora", 5)), vec![834]);
}

#[test]
fn a_song_that_holds_several_words_is_found_once() {
    let client = client_of(vec![song(2, "beta gamma"), song(1, "alpha beta"), song(3, "delta")]);
    let found = client.catalog().lookup_by_tokens(&texts(&["alpha", "beta", "gamma"]));
    assert_eq!(ids(&found), vec![2, 1]);
    assert!(client.catalog().lookup_by_tokens(&Vec::new()).is_empty());
    assert_eq!(client.catalog().lookup_by_token("").len(), 3);
}

#[test]
fn equal_distances_are_ordered_by_identifier() {
    let candidates = vec![song(9, "abcx"), song(3, "abcy"), song(5, "abc"), song(1, "abcz")];
    let ranked = similar_list_top(&candidates, "abc", 10);
    assert_eq!(ids(&ranked), vec![5, 1, 3, 9]);
}

#[test]
fn distances_are_counted_in_characters() {
    let candidates = vec![song(1, "ミクの消失"), song(2, "消失点"), song(3, "消")];
    let ranked = similar_list_top(&candidates, "消失", 10);
    assert_eq!(ids(&ranked), vec![2, 3, 1]);
}

#[test]
fn titles_at_the_ceiling_are_no_match() {
    let near = "a".repeat(DISTANCE_CEILING - 1);
    let far = "a".repeat(DISTANCE_CEILING);
    let candidates = vec![song(1, &far), song(2, &near)];
    let ranked = similar_list_top(&candidates, "", 10);
    assert_eq!(ids(&ranked), vec![2]);
    let client = client_of(vec![song(1, &format!("{}needle", far)), song(2, "needle")]);
    assert_eq!(ids(&client.search_songs_by_title("needle", 5)), vec![2]);
}

#[test]
fn stop_words_are_dropped() {
    assert!(stop_word("的"));
    assert!(stop_word(" "));
    assert!(stop_word("?"));
    assert!(stop_word("\u{201C}"));
    assert!(!stop_word("的的"));
    assert!(!stop_word(""));
    assert!(!stop_word("消失"));
    assert!(!stop_word("a"));
    let kept = strip_stopwords(&texts(&["初音", " ", "的", "消失", "!", "!!"]));
    assert_eq!(kept, texts(&["初音", "消失", "!!"]));
}

#[test]
fn a_query_is_cut_into_words() {
    assert_eq!(keywords("初音 消失"), texts(&["初音", "消失"]));
    assert_eq!(keywords("我们中出了一个叛徒"), texts(&["我们", "中出", "了", "一个", "叛徒"]));
    assert!(keywords("").is_empty());
    assert!(keywords(" ").is_empty());
}

#[test]
fn the_catalog_answers_queries_itself() {
    let mut db = MaimaiDB::new();
    db.update_database(&vec![song(1, "ミクの消失"), song(2, "ヒビカセ")]);
    assert_eq!(ids(&db.search_songs_by_title("消失", 5)), vec![1]);
    assert!(db.search_songs_by_title("qwertyuiop", 5).is_empty());
}

#[test]
fn only_an_empty_first_lookup_is_retried() {
    assert_eq!(ScriptPhase::Primary.after_lookup(0), NextStep::Retry);
    assert_eq!(ScriptPhase::Primary.after_lookup(1), NextStep::Rank);
    assert_eq!(ScriptPhase::Alternate.after_lookup(0), NextStep::Rank);
    assert_eq!(ScriptPhase::Alternate.after_lookup(3), NextStep::Rank);
}

#[test]
fn a_phase_ranks_or_asks_for_the_alternate_script() {
    let client = client_of(vec![song(1, "alpha"), song(2, "alphabet")]);
    let none = texts(&["omega"]);
    assert!(matches!(
        client.catalog().search_phase(ScriptPhase::Primary, "omega", &none, 5),
        PhaseOutcome::TryAlternate
    ));
    match client.catalog().search_phase(ScriptPhase::Alternate, "omega", &none, 5) {
        PhaseOutcome::Matches(songs) => assert!(songs.is_empty()),
        PhaseOutcome::TryAlternate => panic!("the alternate script is the last one"),
    }
    match client.catalog().search_phase(ScriptPhase::Primary, "alphabet", &texts(&["alpha"]), 5) {
        PhaseOutcome::Matches(songs) => assert_eq!(ids(&songs), vec![2, 1]),
        PhaseOutcome::TryAlternate => panic!("both songs hold the word"),
    }
}
