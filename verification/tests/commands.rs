use cow::cowboard::config::{Cowboard, InfoPanel, StoredCowboard};
use cow::cowboard::error::{ConfigurationFault, CowboardError};
use cow::general::{about, ban_report, epoch_text, plays, rate_limit_text};
use cow::interaction::{interaction_content, write_option, OptionValue};
use cow::leveling::{
    current_role_text, experience_text, level_note, level_up_message, levels_page, list_ranks, page_footer, page_offset,
    place_text, reached_level, read_page, role_to_take, toggle_text,
};
use cow::models::db_models::{Experience, LevelUp, Member, Rank};

fn strings(texts: &[&str]) -> Vec<String> {
    texts.iter().map(|t| t.to_string()).collect()
}

#[test]
fn stored_settings_become_settings() {
    let stored = StoredCowboard {
        channel: Some(10),
        add_threshold: 7,
        remove_threshold: 2,
        emote: "⭐".to_string(),
        webhook_id: Some(5),
        webhook_token: Some("t".to_string()),
    };
    let config = Cowboard::from_stored(99, Some(stored));
    assert_eq!(
        config,
        Cowboard {
            id: 99,
            channel: Some(10),
            add_threshold: 7,
            remove_threshold: 2,
            emote: "⭐".to_string(),
            webhook_id: Some(5),
            webhook_token: Some("t".to_string()),
        }
    );
    assert_eq!(Cowboard::from_stored(99, None), Cowboard::new(99));
}

#[test]
fn the_trigger_is_set_from_text() {
    let mut config = Cowboard::new(1);
    assert_eq!(config.set_emote("⭐"), Ok(()));
    assert_eq!(config.emote, "⭐");
    assert_eq!(config.set_emote("<a:dance:15>"), Ok(()));
    assert_eq!(config.emote, "<a:dance:15>");
    assert_eq!(config.set_emote("<:cow:77:junk>"), Ok(()));
    assert_eq!(config.emote, "<:cow:77>");
    let malformed = Err(CowboardError::Configuration(ConfigurationFault::MalformedEmoji));
    assert_eq!(config.set_emote(""), malformed);
    assert_eq!(config.set_emote("<:broken"), malformed);
    assert_eq!(config.emote, "<:cow:77>");
    assert_eq!(config.add_threshold, 5);
}

#[test]
fn settings_are_shown() {
    let mut config = Cowboard::new(1);
    assert_eq!(
        config.info(),
        InfoPanel {
            emote: ":cow:".to_string(),
            raw_emote: "`:cow:`".to_string(),
            channel: "No Cowboard Channel".to_string(),
            add_threshold: "`5`".to_string(),
            remove_threshold: "`4`".to_string(),
            webhook: "Disabled".to_string(),
        }
    );
    config.set_channel(2002);
    config.enable_webhook(1, "t".to_string());
    config.add_threshold = -3;
    let panel = config.info();
    assert_eq!(panel.channel, "<#2002>");
    assert_eq!(panel.webhook, "Enabled");
    assert_eq!(panel.add_threshold, "`-3`");
}

#[test]
fn level_ups_are_told() {
    let plain = LevelUp { level: 3, old_rank: None, new_rank: None };
    assert!(reached_level(&plain));
    assert!(reached_level(&LevelUp { level: 0, ..plain }));
    assert!(!reached_level(&LevelUp { level: -1, ..plain }));
    assert_eq!(level_up_message(42, &plain, false), "<@42> leveled up from 2 to 3.");
    assert_eq!(level_up_message(42, &plain, true), "<@42> leveled up from 2 to 3.");
    let ranked = LevelUp { level: 10, old_rank: Some(7), new_rank: Some(8) };
    assert_eq!(level_up_message(42, &ranked, false), "<@42> leveled up from 9 to 10.\nYou are now a <@&8>.");
    assert_eq!(
        level_up_message(42, &ranked, true),
        "<@42> leveled up from 9 to 10.\nYou are now a <@&8>.\n(We failed to update your roles; maybe we don't have permission?)"
    );
    assert_eq!(level_up_message(1, &LevelUp { level: 0, ..plain }, false), "<@1> leveled up from -1 to 0.");
    assert_eq!(
        level_up_message(1, &LevelUp { level: i32::MIN, ..plain }, false),
        "<@1> leveled up from -2147483649 to -2147483648."
    );
}

#[test]
fn the_old_rank_is_taken_where_it_is_held() {
    let ranked = LevelUp { level: 10, old_rank: Some(7), new_rank: Some(8) };
    assert_eq!(role_to_take(&ranked, &vec![1, 7, 9]), Some(7));
    assert_eq!(role_to_take(&ranked, &vec![1, 9]), None);
    assert_eq!(role_to_take(&ranked, &Vec::new()), None);
    assert_eq!(role_to_take(&LevelUp { new_rank: None, ..ranked }, &vec![7]), None);
    assert_eq!(role_to_take(&LevelUp { old_rank: None, ..ranked }, &vec![7]), None);
}

#[test]
fn pages_of_the_ranking() {
    assert_eq!(read_page(None), 1);
    assert_eq!(read_page(Some("3")), 3);
    assert_eq!(read_page(Some("0")), 1);
    assert_eq!(read_page(Some("-5")), 1);
    assert_eq!(read_page(Some("x")), 1);
    assert_eq!(read_page(Some("2147483647")), i32::MAX);
    assert_eq!(page_offset(0), 0);
    assert_eq!(page_offset(2), 20);
    assert_eq!(page_offset(-1), 0);
    assert_eq!(page_offset(i32::MAX), 21474836470);
    let members = vec![
        Member { id: 1, exp: Experience { level: 9, xp: 120 } },
        Member { id: 2, exp: Experience { level: 8, xp: 5 } },
    ];
    assert_eq!(levels_page(&members, 1), "`#1` <@1> - Level 9, 120 xp\n`#2` <@2> - Level 8, 5 xp");
    assert_eq!(levels_page(&members, 3), "`#21` <@1> - Level 9, 120 xp\n`#22` <@2> - Level 8, 5 xp");
    assert_eq!(levels_page(&members[..1].to_vec(), i32::MAX), "`#21474836461` <@1> - Level 9, 120 xp");
    assert_eq!(levels_page(&Vec::new(), 1), "There is nothing on this page.");
    assert_eq!(page_footer(2, 7), "Page 2/7");
}

#[test]
fn ranks_are_listed() {
    let ranks = vec![
        Rank { name: "Calf".to_string(), role_id: Some(10), min_level: 1 },
        Rank { name: "Ghost".to_string(), role_id: None, min_level: 5 },
    ];
    assert_eq!(list_ranks(&ranks), "Calf: <@&10> at level 1\nGhost: <no role> at level 5");
    assert_eq!(list_ranks(&Vec::new()), "No roles are registered on this server.");
}

#[test]
fn rank_card_texts() {
    assert_eq!(current_role_text(Some(10)), "Current role: <@&10>");
    assert_eq!(current_role_text(None), "No role");
    assert_eq!(place_text(Some(3)), "#3");
    assert_eq!(place_text(None), "(Unranked)");
    assert_eq!(experience_text(120, 500), "120/500");
    assert_eq!(level_note(7), "You leveled up to **level 7**.");
    assert_eq!(toggle_text(true, 2002), "Disabled collecting experience in <#2002>.");
    assert_eq!(toggle_text(false, 2002), "Enabled collecting experience in <#2002>.");
}

#[test]
fn options_as_text() {
    assert_eq!(write_option(&OptionValue::Text("hi there".to_string())), "hi there");
    assert_eq!(write_option(&OptionValue::Integer(-5)), "-5");
    assert_eq!(write_option(&OptionValue::Boolean(true)), "true");
    assert_eq!(write_option(&OptionValue::Boolean(false)), "false");
    assert_eq!(write_option(&OptionValue::User(42)), "<@42>");
    assert_eq!(write_option(&OptionValue::Channel(7)), "<#7>");
    assert_eq!(write_option(&OptionValue::Role(9)), "<@&9");
    assert_eq!(write_option(&OptionValue::Number("1.5".to_string())), "1.5");
    assert_eq!(write_option(&OptionValue::Other), "");
}

#[test]
fn interactions_as_messages() {
    assert_eq!(interaction_content(1, "info", &Vec::new()), "<@!1> info");
    assert_eq!(
        interaction_content(1, "rank", &vec![OptionValue::User(42), OptionValue::Integer(3)]),
        "<@!1> rank<@42> 3"
    );
    assert_eq!(interaction_content(1, "x", &vec![OptionValue::Other, OptionValue::Other]), "<@!1> x ");
}

#[test]
fn bans_are_reported() {
    assert_eq!(ban_report(&Vec::new()), "No haram activities detected.");
    assert_eq!(ban_report(&vec![1]), "Successfully banned these degenerates: <@1>");
    assert_eq!(ban_report(&vec![1, 2, 3]), "Successfully banned these degenerates: <@1>, <@2>, <@3>");
    assert!(plays(&vec![None, Some(5), Some(7)], 7));
    assert!(!plays(&vec![None, Some(5)], 7));
    assert!(!plays(&Vec::new(), 7));
}

#[test]
fn small_talk() {
    assert_eq!(about(Some("1.2.3")), "Cow v1.2.3 - A Discord bot written by HelloAndrew and DoggySazHi");
    assert_eq!(about(None), "Cow v<unknown> - A Discord bot written by HelloAndrew and DoggySazHi");
    assert_eq!(epoch_text(1650000000000), "1650000000000 ms since epoch");
    assert_eq!(rate_limit_text(30), "This command is rate-limited, please try this again in 30 seconds.");
    let _ = strings(&[]);
}
