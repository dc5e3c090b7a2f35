use chrono::{Datelike, NaiveDate, NaiveTime};
use regex::Regex;
use serenity::model::channel::ReactionType;
use serenity::model::id::{ChannelId, EmojiId, RoleId, UserId};
use serenity::model::misc::Mentionable;
use serenity::utils::MessageBuilder;

use cow::chat::{mention_channel, mention_user, mono};
use cow::cowboard::emoji::Emoji;
use cow::cowboard::render::format_content;
use cow::danbooru::clean_word;
use cow::diagnostics::mention_role;
use cow::duration::{from_ms, to_ms};
use cow::music::{generate_line, generate_queue, QueuedTrack};
use cow::text::{i64_to_string, u64_to_string};
use cow::ucm::courses::format_term;
use cow::ucm::courses_db::{create_full_text_query, strip_marks};
use cow::ucm::foodtrucks::{pick_schedule, Date, FoodTruckSchedule};
use cow::ucm::library::hours_url;
use cow::ucm::pav_models::TimeOfDay;
use cow::ucm::pavilion::write_clock;

const NUMBERS: [u64; 12] =
    [0, 1, 9, 10, 11, 99, 100, 101, 4294967295, 4294967296, 9223372036854775807, 18446744073709551615];

#[test]
fn numbers_as_the_standard_library_writes_them() {
    for n in NUMBERS {
        assert_eq!(u64_to_string(n), n.to_string());
        assert_eq!(i64_to_string(n as i64), (n as i64).to_string());
        assert_eq!(i64_to_string((n as i64).wrapping_neg()), (n as i64).wrapping_neg().to_string());
    }
    for n in 0..2000u64 {
        assert_eq!(u64_to_string(n), n.to_string());
        assert_eq!(i64_to_string(-(n as i64)), (-(n as i64)).to_string());
    }
}

#[test]
fn clocks_as_chrono_writes_them() {
    for hour in 0..24 {
        for minute in 0..60 {
            let want = NaiveTime::from_hms_opt(hour, minute, 0).unwrap().format("%l:%M %p").to_string();
            assert_eq!(write_clock(TimeOfDay::from_hms(hour, minute, 0)), want);
        }
    }
}

#[test]
fn days_between_weeks_as_chrono_counts_them() {
    // The week that begins within the last four days or the next day is shown.
    let weeks = [(2022, 1, 24), (2022, 1, 31), (2022, 2, 7), (2022, 2, 28), (2022, 3, 7)];
    let schedules: Vec<FoodTruckSchedule> =
        weeks.iter().map(|(y, m, d)| FoodTruckSchedule::new(Date { year: *y, month: *m, day: *d })).collect();
    let mut today = NaiveDate::from_ymd_opt(2022, 1, 1).unwrap();
    let last = NaiveDate::from_ymd_opt(2022, 4, 1).unwrap();
    while today < last {
        let mut want = None;
        for (i, (y, m, d)) in weeks.iter().enumerate() {
            let diff = today.signed_duration_since(NaiveDate::from_ymd_opt(*y, *m, *d).unwrap()).num_days();
            if diff < 5 && diff > -2 {
                want = Some(i);
                break;
            }
        }
        if want.is_none() {
            let first = NaiveDate::from_ymd_opt(weeks[0].0, weeks[0].1, weeks[0].2).unwrap();
            want = if today.signed_duration_since(first).num_days() < 0 { Some(0) } else { Some(weeks.len() - 1) };
        }
        let asked = Date { year: today.year(), month: today.month(), day: today.day() };
        assert_eq!(pick_schedule(&schedules, asked), want, "on {}", today);
        today = today.succ_opt().unwrap();
    }
}

#[test]
fn library_dates_are_padded_as_the_formatter_pads_them() {
    for (year, month, day) in [(2022, 1, 5), (2022, 12, 31), (1999, 10, 9), (5, 3, 7)] {
        let want = format!(
            "https://api3.libcal.com/api_hours_grid.php?iid=4052&lid=0&format=json&date={}-{:0>2}-{:0>2}",
            year, month, day
        );
        assert_eq!(hours_url(year, month, day), want);
    }
}

fn spans_by_hand(ms: i32) -> String {
    let mut s = ms / 1000;
    let days = s / 3600 / 24;
    s -= days * 3600 * 24;
    let hours = s / 3600;
    s -= hours * 3600;
    let mins = s / 60;
    s -= mins * 60;
    format!("{}d {}h {}m {}s", days, hours, mins, s)
}

#[test]
fn spans_agree_with_the_sums_done_by_hand() {
    let mut ms: i64 = i32::MIN as i64;
    while ms <= i32::MAX as i64 {
        assert_eq!(from_ms(ms as i32), spans_by_hand(ms as i32));
        ms += 7_654_321;
    }
    for ms in [i32::MIN, -86_400_000, -86_399_999, -3_600_000, -60_000, -1000, -999, 0, 999, 1000, 59_999, i32::MAX] {
        assert_eq!(from_ms(ms), spans_by_hand(ms));
    }
}

fn ms_by_hand(s: &str) -> Option<u64> {
    let mut ms: u64 = 0;
    let mut digits: u64 = 0;
    for c in s.chars() {
        if c.is_ascii_digit() {
            digits *= 10;
            digits += c.to_digit(10).unwrap() as u64;
        } else {
            ms += match c {
                's' => digits * 1000,
                'm' => digits * 60 * 1000,
                'h' => digits * 60 * 60 * 1000,
                'd' => digits * 24 * 60 * 60 * 1000,
                _ => return None,
            };
            digits = 0;
        }
    }
    Some(ms)
}

#[test]
fn spans_are_read_as_the_sums_done_by_hand() {
    let texts = ["", "5", "1s", "2m", "3h", "4d", "1d2h3m4s", "10s10s", "s", "1x", "12h30m", "24d20h31m23s", "0d0h", "1 s"];
    for text in texts {
        let want = ms_by_hand(text).filter(|ms| *ms <= i32::MAX as u64).map(|ms| ms as i32);
        assert_eq!(to_ms(text), want, "reading {:?}", text);
    }
}

#[test]
fn terms_agree_with_the_formatter() {
    for term in [202230, 202220, 202210, 202200, 199930, 30, 0, -202230, -30, -70, i32::MAX, i32::MIN] {
        let semester = match term % 100 {
            30 => "Fall",
            20 => "Summer",
            10 => "Summer",
            _ => "Unknown",
        };
        assert_eq!(format_term(term), format!("{} {}", semester, term / 100));
    }
}

#[test]
fn mentions_as_serenity_writes_them() {
    for id in NUMBERS {
        assert_eq!(mention_user(id), UserId(id).mention().to_string());
        assert_eq!(mention_channel(id), ChannelId(id).mention().to_string());
        assert_eq!(mention_role(id), RoleId(id).mention().to_string());
        assert_eq!(mention_role(id), MessageBuilder::new().role(id).build());
    }
    for text in ["", "5", "`", "a b"] {
        assert_eq!(mono(text), MessageBuilder::new().push_mono(text).build());
    }
}

#[test]
fn emoji_as_serenity_writes_and_reads_them() {
    let custom = [(false, 5u64, Some("cow")), (true, 600404340292059257, Some("dance")), (false, 0, None)];
    for (animated, id, name) in custom {
        let there = ReactionType::Custom { animated, id: EmojiId(id), name: name.map(|n| n.to_string()) };
        let here = Emoji::Custom { animated, id, name: name.map(|n| n.to_string()) };
        assert_eq!(here.to_text(), there.to_string());
    }
    for text in ["🐮", ":cow:", "⭐", "x"] {
        assert_eq!(Emoji::Unicode(text.to_string()).to_text(), ReactionType::Unicode(text.to_string()).to_string());
    }
    for text in ["", "🐮", ":cow:", "<:cow:5>", "<a:dance:7>", "<:cow:x>", "<:cow>", "<cow", "<<:a:1>>", "<:a:1:2>", "<:a:+1>"] {
        let here = Emoji::parse(text);
        match ReactionType::try_from(text) {
            Ok(ReactionType::Unicode(there)) => assert!(matches!(here, Ok(Emoji::Unicode(ref t)) if *t == there)),
            Ok(ReactionType::Custom { animated, id, name }) => {
                assert!(matches!(here, Ok(Emoji::Custom { animated: a, id: i, name: ref n }) if a == animated && i == id.0 && *n == name))
            },
            _ => assert!(here.is_err(), "reading {:?}", text),
        }
    }
}

#[test]
fn content_lines_agree_with_the_formatter() {
    for (count, emote, channel, link) in [(5u64, "🐮", 2002u64, "https://x/y"), (0, "", 0, ""), (u64::MAX, "<:a:1>", u64::MAX, "l")] {
        assert_eq!(format_content(count, emote, channel, link), format!("{} {} | <#{}>\n{}", count, emote, channel, link));
    }
}

#[test]
fn tag_words_agree_with_the_pattern() {
    let non_tag = Regex::new(r"[^A-Za-z0-9()_.]").unwrap();
    for word in ["Reimu", " Hakurei_Reimu ", "Fate/Stay-Night", "a.b(c)_d", "É+あ", "", "  ", "x\ty", "1girl!"] {
        let want = non_tag.replace_all(&word.trim().to_lowercase(), "").to_string();
        assert_eq!(clean_word(word), want);
    }
}

#[test]
fn queries_agree_with_the_replacements() {
    for typed in ["cse 031", "  intro to (computing)  ", "o'neil", "\"quoted\"", "", "   ", "a  b", "x\" OR \"y"] {
        let want = typed
            .trim()
            .split(' ')
            .map(|o| o.replace('(', "").replace(')', "").replace('\"', "").replace('\'', ""))
            .map(|o| format!("\"*{}*\"", o))
            .reduce(|a, b| format!("{} AND {}", a, b))
            .unwrap();
        assert_eq!(create_full_text_query(typed), want);
    }
    assert_eq!(strip_marks("a(b)c"), "a(b)c".replace('(', "").replace(')', ""));
}

fn pages_by_hand(queue: &[QueuedTrack]) -> Vec<String> {
    let mut output: Vec<String> = Vec::new();
    if queue.is_empty() {
        output.push("There are no songs queued.".to_string());
    }
    let mut index = 0;
    while index < queue.len() {
        let mut page = String::new();
        for _ in 1..=10 {
            if index >= queue.len() {
                break;
            }
            let song = &queue[index];
            index += 1;
            let next_line = format!("``{}.`` {}", index, generate_line(song));
            if page.len() + next_line.len() > 1024 {
                index -= 1;
                break;
            }
            page.push_str(&next_line);
        }
        output.push(page);
    }
    output
}

#[test]
fn pages_agree_with_paging_by_hand() {
    for (count, title_len) in [(0usize, 10usize), (1, 10), (10, 10), (11, 10), (35, 3), (9, 200), (12, 90), (5, 400), (30, 64)] {
        let queue: Vec<QueuedTrack> = (0..count)
            .map(|i| QueuedTrack {
                title: "t".repeat(title_len + i % 7),
                author: "a".to_string(),
                length: (i as i32) * 61_000,
                requester: if i % 2 == 0 { Some(i as u64) } else { None },
            })
            .collect();
        assert_eq!(generate_queue(&queue), pages_by_hand(&queue), "{} tracks of {}", count, title_len);
    }
}
