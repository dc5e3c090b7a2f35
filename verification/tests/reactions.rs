use cow::cowboard::emoji::Emoji;
use cow::cowboard::error::{ConfigurationFault, CowboardError};
use cow::cowboard::reaction::{adjust, count_reactions, trigger_count, MessageReaction};

fn unicode(text: &str) -> Emoji {
    Emoji::Unicode(text.to_string())
}

fn custom(id: u64, name: &str) -> Emoji {
    Emoji::Custom { animated: false, id, name: Some(name.to_string()) }
}

fn line(emoji: Emoji, count: u64) -> MessageReaction {
    MessageReaction { emoji, count }
}

#[test]
fn unicode_text_parses_as_itself() {
    match Emoji::parse("🐮") {
        Ok(Emoji::Unicode(text)) => assert_eq!(text, "🐮"),
        other => panic!("unexpected: {:?}", other),
    }
    match Emoji::parse(":cow:") {
        Ok(Emoji::Unicode(text)) => assert_eq!(text, ":cow:"),
        other => panic!("unexpected: {:?}", other),
    }
}

#[test]
fn custom_emoji_text_parses_to_its_id() {
    match Emoji::parse("<:customemoji:600404340292059257>") {
        Ok(Emoji::Custom { animated, id, name }) => {
            assert!(!animated);
            assert_eq!(id, 600404340292059257);
            assert_eq!(name, Some("customemoji".to_string()));
        },
        other => panic!("unexpected: {:?}", other),
    }
    match Emoji::parse("<a:dance:15>") {
        Ok(Emoji::Custom { animated, id, name }) => {
            assert!(animated);
            assert_eq!(id, 15);
            assert_eq!(name, Some("dance".to_string()));
        },
        other => panic!("unexpected: {:?}", other),
    }
}

#[test]
fn malformed_emoji_is_a_configuration_fault() {
    let fault = CowboardError::Configuration(ConfigurationFault::MalformedEmoji);
    assert!(matches!(Emoji::parse(""), Err(e) if e == fault));
    assert!(matches!(Emoji::parse("<:broken"), Err(e) if e == fault));
    assert!(matches!(Emoji::parse("<:name:notanumber>"), Err(e) if e == fault));
    assert!(matches!(Emoji::parse("<:name>"), Err(e) if e == fault));
}

#[test]
fn emoji_are_told_apart_by_code_points_or_id() {
    assert!(unicode("🐮").same(&unicode("🐮")));
    assert!(!unicode("🐮").same(&unicode("⭐")));
    assert!(custom(5, "cow").same(&custom(5, "moo")));
    assert!(custom(5, "cow").same(&Emoji::Custom { animated: true, id: 5, name: None }));
    assert!(!custom(5, "cow").same(&custom(6, "cow")));
    assert!(!custom(5, "cow").same(&unicode("cow")));
    assert!(!unicode("cow").same(&custom(5, "cow")));
}

#[test]
fn emoji_text_round_trips() {
    assert_eq!(unicode("🐮").to_text(), "🐮");
    assert_eq!(custom(600404340292059257, "customemoji").to_text(), "<:customemoji:600404340292059257>");
    assert_eq!(Emoji::Custom { animated: true, id: 15, name: Some("dance".to_string()) }.to_text(), "<a:dance:15>");
    assert_eq!(Emoji::Custom { animated: false, id: 0, name: None }.to_text(), "<::0>");
    let parsed = Emoji::parse("<a:dance:15>").unwrap();
    assert_eq!(parsed.to_text(), "<a:dance:15>");
}

#[test]
fn no_matching_reaction_counts_zero() {
    let reactions = vec![line(unicode("⭐"), 7), line(custom(5, "cow"), 3)];
    assert_eq!(trigger_count(&reactions, &unicode("🐮")), None);
    assert_eq!(count_reactions(&reactions, &unicode("🐮"), false), 0);
    assert_eq!(count_reactions(&reactions, &unicode("🐮"), true), 0);
    assert_eq!(count_reactions(&Vec::new(), &unicode("🐮"), true), 0);
}

#[test]
fn matching_reaction_gives_its_count() {
    let reactions = vec![line(unicode("⭐"), 7), line(unicode("🐮"), 3), line(custom(5, "cow"), 9)];
    assert_eq!(trigger_count(&reactions, &unicode("🐮")), Some(3));
    assert_eq!(count_reactions(&reactions, &unicode("🐮"), false), 3);
    assert_eq!(trigger_count(&reactions, &custom(5, "renamed")), Some(9));
    assert_eq!(count_reactions(&reactions, &custom(5, "renamed"), false), 9);
}

#[test]
fn first_matching_line_wins() {
    let reactions = vec![line(custom(5, "a"), 2), line(custom(5, "b"), 8)];
    assert_eq!(trigger_count(&reactions, &custom(5, "c")), Some(2));
}

#[test]
fn authors_own_reaction_does_not_count() {
    let reactions = vec![line(unicode("🐮"), 3)];
    assert_eq!(count_reactions(&reactions, &unicode("🐮"), true), 2);
    assert_eq!(adjust(3, true), 2);
    assert_eq!(adjust(3, false), 3);
    assert_eq!(adjust(u64::MAX, true), u64::MAX - 1);
}

#[test]
fn sole_self_reaction_counts_zero() {
    let reactions = vec![line(unicode("🐮"), 1)];
    assert_eq!(count_reactions(&reactions, &unicode("🐮"), true), 0);
    assert_eq!(adjust(1, true), 0);
    assert_eq!(adjust(0, true), 0);
    assert_eq!(adjust(0, false), 0);
}
