use maimai_search::markdown::MarkdownFormat;
use maimai_search::numbers::{cover_file_name, get_level_str, number_text, padded_number};
use maimai_search::profile::Profile;
use maimai_search::record::{ChartRate, LevelLabel};
use maimai_search::report::{deluxe_slot_origin, rating_digits, standard_slot_origin};
use maimai_search::text::{
    char_to_half_width, chars_before, chars_of, contains_chars, string_to_half_width, text_of,
};
use maimai_search::width::{change_column_width, column_width, get_char_width};

fn cs(text: &str) -> Vec<char> {
    text.chars().collect()
}

#[test]
fn full_width_characters_become_half_width() {
    assert_eq!(char_to_half_width('\u{3000}'), ' ');
    assert_eq!(char_to_half_width('Ｒ'), 'R');
    assert_eq!(char_to_half_width('\u{FF00}'), ' ');
    assert_eq!(char_to_half_width('\u{FF01}'), '!');
    assert_eq!(char_to_half_width('\u{FF5E}'), '~');
    assert_eq!(char_to_half_width('\u{FFEF}'), '\u{10F}');
    assert_eq!(char_to_half_width('\u{FEFF}'), '\u{FEFF}');
    assert_eq!(char_to_half_width('\u{FFF0}'), '\u{FFF0}');
    assert_eq!(char_to_half_width('语'), '语');
    assert_eq!(char_to_half_width('\u{1F600}'), '\u{1F600}');
    assert_eq!(string_to_half_width(""), "");
    assert_eq!(string_to_half_width("ＡＢＣ　１２３ abc"), "ABC 123 abc");
}

#[test]
fn texts_and_characters_convert_both_ways() {
    assert_eq!(chars_of("ミクの消失"), cs("ミクの消失"));
    assert_eq!(text_of(&cs("ミクの消失")), "ミクの消失");
    assert_eq!(text_of(&Vec::new()), "");
    assert!(chars_of("").is_empty());
}

#[test]
fn a_part_of_a_text_is_found() {
    assert!(contains_chars(&cs("ミクの消失"), &cs("消失")));
    assert!(contains_chars(&cs("ミクの消失"), &cs("ミ")));
    assert!(contains_chars(&cs("ミクの消失"), &cs("ミクの消失")));
    assert!(contains_chars(&cs("ミクの消失"), &cs("")));
    assert!(contains_chars(&cs(""), &cs("")));
    assert!(!contains_chars(&cs("ミクの消失"), &cs("失消")));
    assert!(!contains_chars(&cs("ミクの消失"), &cs("ミクの消失!")));
    assert!(!contains_chars(&cs(""), &cs("a")));
    assert!(contains_chars(&cs("aab"), &cs("ab")));
}

#[test]
fn texts_are_ordered_like_a_dictionary() {
    assert!(chars_before(&cs("a"), &cs("b")));
    assert!(!chars_before(&cs("b"), &cs("a")));
    assert!(chars_before(&cs(""), &cs("a")));
    assert!(!chars_before(&cs("a"), &cs("")));
    assert!(!chars_before(&cs("abc"), &cs("abc")));
    assert!(chars_before(&cs("abc"), &cs("abcd")));
    assert!(chars_before(&cs("abcd"), &cs("abd")));
    assert!(chars_before(&cs("Z"), &cs("a")));
    assert!(chars_before(&cs("z"), &cs("ミ")));
    for (a, b) in [("abc", "abd"), ("", "x"), ("消失", "消失点"), ("A", "a")] {
        assert_eq!(chars_before(&cs(a), &cs(b)), a < b);
        assert_eq!(chars_before(&cs(b), &cs(a)), b < a);
    }
}

#[test]
fn characters_have_their_widths() {
    assert_eq!(get_char_width(0xe), 0);
    assert_eq!(get_char_width(0xf), 0);
    assert_eq!(get_char_width(0), 1);
    assert_eq!(get_char_width('a' as u32), 1);
    assert_eq!(get_char_width(126), 1);
    assert_eq!(get_char_width(127), 0);
    assert_eq!(get_char_width(159), 0);
    assert_eq!(get_char_width(160), 1);
    assert_eq!(get_char_width('消' as u32), 2);
    assert_eq!(get_char_width('ミ' as u32), 2);
    assert_eq!(get_char_width(1114109), 1);
    assert_eq!(get_char_width(1114110), 1);
    assert_eq!(get_char_width(u32::MAX), 1);
    assert_eq!(column_width(""), 0);
    assert_eq!(column_width("abc"), 3);
    assert_eq!(column_width("ミクの消失"), 10);
    assert_eq!(column_width("a消b"), 4);
}

#[test]
fn a_title_is_cut_to_the_columns_it_may_take() {
    assert_eq!(change_column_width("PANDORA PARADOXXX", 7), "PANDORA");
    assert_eq!(change_column_width("PANDORA", 7), "PANDORA");
    assert_eq!(change_column_width("PANDORA", 100), "PANDORA");
    assert_eq!(change_column_width("ミクの消失", 5), "ミク");
    assert_eq!(change_column_width("ミクの消失", 6), "ミクの");
    assert_eq!(change_column_width("aミ", 2), "a");
    assert_eq!(change_column_width("abc", 0), "");
    assert_eq!(change_column_width("abc", -1), "");
    assert_eq!(change_column_width("", 10), "");
}

#[test]
fn grades_and_tiers_have_their_names() {
    assert_eq!(ChartRate::D.get_file_name(), "UI_GAM_Rank_D.png");
    assert_eq!(ChartRate::BBB.get_file_name(), "UI_GAM_Rank_BBB.png");
    assert_eq!(ChartRate::SP.get_file_name(), "UI_GAM_Rank_Sp.png");
    assert_eq!(ChartRate::SSP.get_file_name(), "UI_GAM_Rank_SSp.png");
    assert_eq!(ChartRate::SSSP.get_file_name(), "UI_GAM_Rank_SSSp.png");
    assert_eq!(LevelLabel::Basic.label_color(), [69, 193, 36, 255]);
    assert_eq!(LevelLabel::Advanced.label_color(), [255, 186, 1, 255]);
    assert_eq!(LevelLabel::Expert.label_color(), [255, 90, 102, 255]);
    assert_eq!(LevelLabel::Master.label_color(), [134, 49, 200, 255]);
    assert_eq!(LevelLabel::ReMaster.label_color(), [217, 197, 233, 255]);
    assert_eq!(LevelLabel::ReMaster.name(), "Re:MASTER");
    assert_eq!(LevelLabel::Basic.name(), "BASIC");
    assert_eq!(LevelLabel::Basic.index(), 0);
    assert_eq!(LevelLabel::ReMaster.index(), 4);
}

#[test]
fn markdown_pieces_are_spelled_out() {
    assert_eq!(MarkdownFormat::H1.marker(), "#");
    assert_eq!(MarkdownFormat::H2.marker(), "##");
    assert_eq!(MarkdownFormat::H3.marker(), "###");
    assert_eq!(cover_file_name(834), "00834.png");
    assert_eq!(cover_file_name(0), "00000.png");
    assert_eq!(cover_file_name(11311), "11311.png");
    assert_eq!(cover_file_name(99999), "99999.png");
    assert_eq!(cover_file_name(123456), "123456.png");
    assert_eq!(get_level_str(137, "13+"), "13+(.7)");
    assert_eq!(get_level_str(150, "15"), "15(.0)");
    assert_eq!(get_level_str(9, ""), "(.9)");
    assert_eq!(number_text(0), "0");
    assert_eq!(number_text(11571), "11571");
    assert_eq!(number_text(usize::MAX), usize::MAX.to_string());
    assert_eq!(padded_number(834, 5, ' '), "  834");
    assert_eq!(padded_number(123456, 5, ' '), "123456");
    assert_eq!(padded_number(7, 0, '0'), "7");
}

#[test]
fn plays_have_their_places_on_the_card() {
    assert_eq!(standard_slot_origin(0), (6, 120));
    assert_eq!(standard_slot_origin(1), (144, 120));
    assert_eq!(standard_slot_origin(6), (834, 120));
    assert_eq!(standard_slot_origin(7), (6, 216));
    assert_eq!(standard_slot_origin(34), (834, 504));
    assert_eq!(deluxe_slot_origin(0), (992, 120));
    assert_eq!(deluxe_slot_origin(2), (1268, 120));
    assert_eq!(deluxe_slot_origin(3), (992, 216));
    assert_eq!(deluxe_slot_origin(14), (1268, 504));
}

#[test]
fn the_digits_of_a_rating_stand_right_aligned() {
    assert_eq!(rating_digits(16850), vec![(0, 143), (5, 128), (8, 113), (6, 98), (1, 84)]);
    assert_eq!(rating_digits(907), vec![(7, 143), (0, 128), (9, 113)]);
    assert_eq!(rating_digits(0), vec![(0, 143)]);
    assert_eq!(rating_digits(123456), vec![(6, 143), (5, 128), (4, 113), (3, 98), (2, 84)]);
}

#[test]
fn the_default_settings_name_the_public_service() {
    let profile = Profile::default_profile();
    assert_eq!(
        profile.remote_api.json_url,
        "https://www.diving-fish.com/api/maimaidxprober/music_data"
    );
    assert_eq!(profile.remote_api.resource_url, "https://www.diving-fish.com/maibot/static.zip");
    assert_eq!(
        profile.remote_api.maimaidxprober.data_url,
        "https://www.diving-fish.com/api/maimaidxprober/query/player"
    );
    assert!(profile.remote_api.maimaidxprober.username.is_none());
    assert!(profile.get_username().is_none());
    assert!(!profile.markdown.picture.local.enable);
    assert!(profile.markdown.picture.local.path.is_none());
    assert!(!profile.markdown.picture.local.absolute);
    assert_eq!(profile.markdown.picture.remote.prefix_url, "https://www.diving-fish.com/covers/");
    assert!(!profile.markdown.picture.console_picture);
    let mut named = Profile::default_profile();
    named.remote_api.maimaidxprober.username = Some("AnselYuki".to_string());
    assert_eq!(named.get_username(), Some("AnselYuki".to_string()));
}
