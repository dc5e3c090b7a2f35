use cow::danbooru::{
    artist_title, build_tag, clean_word, is_nice_post, next_step, search_url, FetchStep, Post, ATTEMPTS, LARGEST_FILE,
};

fn post() -> Post {
    Post {
        file_size: Some(1000),
        tag_string_general: Some("1girl solo smile".to_string()),
        tag_string_character: Some("hakurei_reimu".to_string()),
        tag_string_artist: Some("someone".to_string()),
        file_url: Some("https://example/a.png".to_string()),
    }
}

#[test]
fn a_whole_small_post_is_nice() {
    assert!(is_nice_post(&post()));
}

#[test]
fn a_post_with_a_part_missing_is_not_nice() {
    assert!(!is_nice_post(&Post { file_size: None, ..post() }));
    assert!(!is_nice_post(&Post { tag_string_general: None, ..post() }));
    assert!(!is_nice_post(&Post { tag_string_character: None, ..post() }));
    assert!(!is_nice_post(&Post { tag_string_artist: None, ..post() }));
    assert!(!is_nice_post(&Post { file_url: None, ..post() }));
}

#[test]
fn large_files_are_not_nice() {
    assert_eq!(LARGEST_FILE, 8388608);
    assert!(is_nice_post(&Post { file_size: Some(8388608), ..post() }));
    assert!(!is_nice_post(&Post { file_size: Some(8388609), ..post() }));
}

#[test]
fn comics_are_not_nice() {
    assert!(!is_nice_post(&Post { tag_string_general: Some("1girl comic solo".to_string()), ..post() }));
    assert!(!is_nice_post(&Post { tag_string_general: Some("comic".to_string()), ..post() }));
    // Only the whole word counts.
    assert!(is_nice_post(&Post { tag_string_general: Some("comical 4koma_comic".to_string()), ..post() }));
    assert!(is_nice_post(&Post { tag_string_general: Some(String::new()), ..post() }));
}

#[test]
fn crowds_are_not_nice() {
    assert!(is_nice_post(&Post { tag_string_character: Some("a b c".to_string()), ..post() }));
    assert!(!is_nice_post(&Post { tag_string_character: Some("a b c d".to_string()), ..post() }));
    // Two blanks in a row part an empty word.
    assert!(!is_nice_post(&Post { tag_string_character: Some("a b  c".to_string()), ..post() }));
    assert!(is_nice_post(&Post { tag_string_character: Some(String::new()), ..post() }));
}

#[test]
fn three_more_posts_are_asked_for() {
    assert_eq!(ATTEMPTS, 3);
    let bad = Post { file_url: None, ..post() };
    assert_eq!(next_step(&post(), 0), FetchStep::Show);
    assert_eq!(next_step(&bad, 0), FetchStep::Retry { attempts: 1 });
    assert_eq!(next_step(&bad, 1), FetchStep::Retry { attempts: 2 });
    assert_eq!(next_step(&bad, 2), FetchStep::Retry { attempts: 3 });
    assert_eq!(next_step(&post(), 2), FetchStep::Show);
    assert_eq!(next_step(&bad, 3), FetchStep::GiveUp);
    // Even a fit post is given up after the third.
    assert_eq!(next_step(&post(), 3), FetchStep::GiveUp);
    assert_eq!(next_step(&post(), u32::MAX), FetchStep::GiveUp);
}

#[test]
fn words_are_cleaned() {
    assert_eq!(clean_word("  Hakurei_Reimu  "), "hakurei_reimu");
    assert_eq!(clean_word("Fate/Stay-Night"), "fatestaynight");
    assert_eq!(clean_word("kirisame_marisa_(cosplay)"), "kirisame_marisa_(cosplay)");
    assert_eq!(clean_word("rating:e"), "ratinge");
    assert_eq!(clean_word("a.b c"), "a.bc");
    assert_eq!(clean_word("É+あ"), "");
    assert_eq!(clean_word(""), "");
}

#[test]
fn tags_are_built_from_words() {
    assert_eq!(build_tag(&Vec::new()), None);
    assert_eq!(build_tag(&vec!["Reimu".to_string()]), Some("reimu".to_string()));
    assert_eq!(build_tag(&vec!["Hakurei".to_string(), " REIMU! ".to_string()]), Some("hakurei_reimu".to_string()));
    assert_eq!(build_tag(&vec!["a".to_string(), "??".to_string(), "b".to_string()]), Some("a__b".to_string()));
}

#[test]
fn search_addresses() {
    assert_eq!(search_url("reimu", true), "https://danbooru.donmai.us/posts/random.json?tags=reimu");
    assert_eq!(search_url("reimu", false), "https://danbooru.donmai.us/posts/random.json?tags=rating:s+reimu");
}

#[test]
fn artists_are_made_harmless() {
    assert_eq!(artist_title("someone"), "Artist: someone");
    assert_eq!(artist_title("some_one*"), "Artist: some\\_one\\*");
    assert_eq!(artist_title("@everyone"), "Artist: @\u{200B}everyone");
}
