use cow::models::config::Config;
use cow::models::db_models::{Experience, LevelUp};
use cow::ucm::courses::{fix_time, format_term, semester_from_lowercase, semester_from_text};
use cow::ucm::courses_db_models::{Days, MeetingType};
use cow::ucm::pav_models::{
    find_containing, Day, Group, Meal, MenuGroups, PavilionTime, TimeOfDay, TimeRange,
};

#[test]
fn terms_as_text() {
    assert_eq!(format_term(202230), "Fall 2022");
    assert_eq!(format_term(202220), "Summer 2022");
    assert_eq!(format_term(202210), "Summer 2022");
    assert_eq!(format_term(202200), "Unknown 2022");
    assert_eq!(format_term(202231), "Unknown 2022");
    assert_eq!(format_term(30), "Fall 0");
    assert_eq!(format_term(0), "Unknown 0");
    assert_eq!(format_term(-202230), "Unknown -2022");
    assert_eq!(format_term(i32::MAX), "Unknown 21474836");
    assert_eq!(format_term(i32::MIN), "Unknown -21474836");
}

#[test]
fn semesters_by_name() {
    assert_eq!(semester_from_text("fall"), Some(30));
    assert_eq!(semester_from_text("Fall"), Some(30));
    assert_eq!(semester_from_text("SUMMER"), Some(20));
    assert_eq!(semester_from_text("sPrInG"), Some(10));
    assert_eq!(semester_from_text("winter"), None);
    assert_eq!(semester_from_text(""), None);
    assert_eq!(semester_from_text("fall "), None);
    assert_eq!(semester_from_lowercase("fall"), Some(30));
    assert_eq!(semester_from_lowercase("Fall"), None);
}

#[test]
fn times_on_the_twelve_hour_clock() {
    assert_eq!(fix_time("0000"), "12:00 AM");
    assert_eq!(fix_time("0030"), "12:30 AM");
    assert_eq!(fix_time("0130"), "1:30 AM");
    assert_eq!(fix_time("1159"), "11:59 AM");
    assert_eq!(fix_time("1200"), "12:00 PM");
    assert_eq!(fix_time("1330"), "1:30 PM");
    assert_eq!(fix_time("2359"), "11:59 PM");
    assert_eq!(fix_time("09"), "9: AM");
    assert_eq!(fix_time("+930"), "9:30 AM");
    assert_eq!(fix_time("9945"), "87:45 PM");
}

#[test]
fn days_as_text() {
    assert_eq!(Days::base().to_text(), "<no days assigned>");
    assert_eq!(Days::sunday().to_text(), "Sunday");
    assert_eq!(Days::saturday().to_text(), "Saturday");
    assert_eq!(Days::from_bits(2 | 8 | 32).unwrap().to_text(), "Monday, Wednesday, Friday");
    assert_eq!(Days::from_bits(4 | 16).unwrap().to_text(), "Tuesday, Thursday");
    assert_eq!(
        Days::from_bits(127).unwrap().to_text(),
        "Sunday, Monday, Tuesday, Wednesday, Thursday, Friday, Saturday"
    );
}

#[test]
fn days_as_bits() {
    assert_eq!(Days::base().bits(), 0);
    assert_eq!(Days::sunday().bits(), 1);
    assert_eq!(Days::monday().bits(), 2);
    assert_eq!(Days::tuesday().bits(), 4);
    assert_eq!(Days::wednesday().bits(), 8);
    assert_eq!(Days::thursday().bits(), 16);
    assert_eq!(Days::friday().bits(), 32);
    assert_eq!(Days::saturday().bits(), 64);
    assert_eq!(Days::from_bits(128), None);
    assert_eq!(Days::from_bits(255), None);
    assert_eq!(Days::from_bits(3).map(|d| d.bits()), Some(3));
    assert_eq!(Days::from_bits_truncate(255).bits(), 127);
    assert_eq!(Days::from_bits_truncate(130).bits(), 2);
    let days = Days::from_bits(2 | 8).unwrap();
    assert!(days.contains(Days::monday()));
    assert!(days.contains(Days::wednesday()));
    assert!(!days.contains(Days::friday()));
    assert!(days.contains(Days::base()));
    assert!(days.contains(days));
    assert!(!Days::monday().contains(days));
}

#[test]
fn meeting_types_by_number() {
    assert_eq!(MeetingType::try_from(0), Err(()));
    assert_eq!(MeetingType::try_from(1), Ok(MeetingType::Lecture));
    assert_eq!(MeetingType::try_from(2), Ok(MeetingType::Discussion));
    assert_eq!(MeetingType::try_from(3), Ok(MeetingType::Lab));
    assert_eq!(MeetingType::try_from(4), Ok(MeetingType::Fieldwork));
    assert_eq!(MeetingType::try_from(5), Ok(MeetingType::Seminar));
    assert_eq!(MeetingType::try_from(6), Ok(MeetingType::IndividualStudy));
    assert_eq!(MeetingType::try_from(7), Ok(MeetingType::Tutorial));
    assert_eq!(MeetingType::try_from(8), Ok(MeetingType::Studio));
    assert_eq!(MeetingType::try_from(9), Ok(MeetingType::Practicum));
    assert_eq!(MeetingType::try_from(10), Ok(MeetingType::Exam));
    assert_eq!(MeetingType::try_from(11), Ok(MeetingType::Project));
    assert_eq!(MeetingType::try_from(12), Ok(MeetingType::Internship));
    assert_eq!(MeetingType::try_from(13), Err(()));
    assert_eq!(MeetingType::try_from(255), Err(()));
}

#[test]
fn meeting_types_as_text() {
    assert_eq!(MeetingType::Lecture.to_text(), "Lecture");
    assert_eq!(MeetingType::IndividualStudy.to_text(), "Individual Study");
    assert_eq!(MeetingType::Internship.to_text(), "Internship");
}

#[test]
fn days_of_the_week() {
    assert_eq!(Day::try_from(0), Ok(Day::Sunday));
    assert_eq!(Day::try_from(3), Ok(Day::Wednesday));
    assert_eq!(Day::try_from(6), Ok(Day::Saturday));
    assert_eq!(Day::try_from(7), Err(()));
    assert_eq!(Day::from_name("Sunday"), Ok(Day::Sunday));
    assert_eq!(Day::from_name("mo"), Ok(Day::Monday));
    assert_eq!(Day::from_name("TUESDAY"), Ok(Day::Tuesday));
    assert_eq!(Day::from_name("wednesday"), Ok(Day::Wednesday));
    assert_eq!(Day::from_name("thurs"), Ok(Day::Thursday));
    assert_eq!(Day::from_name("Fri"), Ok(Day::Friday));
    assert_eq!(Day::from_name("saturn"), Ok(Day::Saturday));
    assert_eq!(Day::from_name("s"), Err(()));
    assert_eq!(Day::from_name(""), Err(()));
    assert_eq!(Day::from_name("lunch"), Err(()));
    assert_eq!(Day::from_lowercase("Sunday"), Err(()));
    assert_eq!(Day::Saturday.succ(), Day::Sunday);
    assert_eq!(Day::Sunday.succ(), Day::Monday);
    assert_eq!(Day::Thursday.to_text(), "Thursday");
}

#[test]
fn meals_by_name() {
    assert!(matches!(Meal::from_text("Breakfast"), Meal::Breakfast));
    assert!(matches!(Meal::from_text("LUNCH"), Meal::Lunch));
    assert!(matches!(Meal::from_text("dinner"), Meal::Dinner));
    assert!(matches!(Meal::from_text("Late Night"), Meal::Other(text) if text == "late night"));
    assert!(matches!(Meal::from_lowercase("Lunch".to_string()), Meal::Other(text) if text == "Lunch"));
    assert_eq!(Meal::Breakfast.to_text(), "Breakfast");
    assert_eq!(Meal::Lunch.to_text(), "Lunch");
    assert_eq!(Meal::Dinner.to_text(), "Dinner");
    assert_eq!(Meal::Other("late night".to_string()).to_text(), "late night");
}

fn group(id: &str, name: &str) -> Group {
    Group { id: id.to_string(), name: name.to_string(), order: None }
}

fn menu() -> MenuGroups {
    MenuGroups {
        menu_groups: vec![group("g1", "Monday Menu"), group("g2", "TUESDAY"), group("g3", "Second monday")],
        menu_categories: vec![group("c1", "Breakfast"), group("c2", "Lunch & Brunch"), group("c3", "Dinner")],
    }
}

#[test]
fn groups_are_found_by_day_and_meal() {
    let menu = menu();
    assert_eq!(menu.get_group(Day::Monday), Some("g1".to_string()));
    assert_eq!(menu.get_group(Day::Tuesday), Some("g2".to_string()));
    assert_eq!(menu.get_group(Day::Friday), None);
    assert_eq!(menu.get_category(Meal::Lunch), Some("c2".to_string()));
    assert_eq!(menu.get_category(Meal::Dinner), Some("c3".to_string()));
    assert_eq!(menu.get_category(Meal::Other("brunch".to_string())), Some("c2".to_string()));
    assert_eq!(menu.get_category(Meal::Other("supper".to_string())), None);
    assert_eq!(MenuGroups::search(&menu.menu_groups, "MONDAY"), Some("g1".to_string()));
    assert_eq!(MenuGroups::search(&menu.menu_groups, "second"), Some("g3".to_string()));
    assert_eq!(MenuGroups::search(&menu.menu_groups, ""), Some("g1".to_string()));
    assert_eq!(MenuGroups::search(&[], "monday"), None);
}

#[test]
fn first_text_that_contains() {
    let texts = vec!["abc".to_string(), "bcd".to_string(), "cde".to_string()];
    assert_eq!(find_containing(&texts, "cd"), Some(1));
    assert_eq!(find_containing(&texts, "c"), Some(0));
    assert_eq!(find_containing(&texts, "e"), Some(2));
    assert_eq!(find_containing(&texts, "x"), None);
    assert_eq!(find_containing(&texts, "abcd"), None);
    assert_eq!(find_containing(&Vec::new(), ""), None);
}

fn at(hour: u32, minute: u32) -> TimeOfDay {
    TimeOfDay::from_hms(hour, minute, 0)
}

#[test]
fn meal_times() {
    assert_eq!(PavilionTime::breakfast_weekday_start(), at(7, 0));
    assert_eq!(PavilionTime::breakfast_weekend_start(), at(9, 0));
    assert_eq!(PavilionTime::breakfast_end(), at(10, 30));
    assert_eq!(PavilionTime::lunch_start(), at(11, 0));
    assert_eq!(PavilionTime::lunch_end(), at(15, 0));
    assert_eq!(PavilionTime::dinner_start(), at(16, 0));
    assert_eq!(PavilionTime::dinner_end(), at(21, 0));
    assert_eq!(PavilionTime::breakfast_weekday(), TimeRange { start: at(7, 0), end: at(10, 30) });
    assert_eq!(PavilionTime::breakfast_weekend(), TimeRange { start: at(9, 0), end: at(10, 30) });
    assert_eq!(PavilionTime::lunch(), TimeRange { start: at(11, 0), end: at(15, 0) });
    assert_eq!(PavilionTime::dinner(), TimeRange { start: at(16, 0), end: at(21, 0) });
    assert!(at(10, 29).is_before(&at(10, 30)));
    assert!(!at(10, 30).is_before(&at(10, 30)));
    assert!(TimeOfDay::from_hms(10, 29, 59).is_before(&at(10, 30)));
}

#[test]
fn the_next_meal() {
    assert!(matches!(PavilionTime::next_meal(Day::Monday, at(0, 0)), (Day::Monday, Meal::Breakfast)));
    assert!(matches!(PavilionTime::next_meal(Day::Monday, at(10, 29)), (Day::Monday, Meal::Breakfast)));
    assert!(matches!(PavilionTime::next_meal(Day::Monday, at(10, 30)), (Day::Monday, Meal::Lunch)));
    assert!(matches!(PavilionTime::next_meal(Day::Monday, at(14, 59)), (Day::Monday, Meal::Lunch)));
    assert!(matches!(PavilionTime::next_meal(Day::Monday, at(15, 0)), (Day::Monday, Meal::Dinner)));
    assert!(matches!(PavilionTime::next_meal(Day::Monday, at(20, 59)), (Day::Monday, Meal::Dinner)));
    assert!(matches!(PavilionTime::next_meal(Day::Monday, at(21, 0)), (Day::Tuesday, Meal::Breakfast)));
    assert!(matches!(PavilionTime::next_meal(Day::Saturday, at(23, 59)), (Day::Sunday, Meal::Breakfast)));
}

#[test]
fn fresh_ranking_values() {
    assert_eq!(LevelUp::new(), LevelUp { level: 0, old_rank: None, new_rank: None });
    assert_eq!(Experience::new(), Experience { level: 0, xp: 0 });
}

#[test]
fn music_needs_address_and_password() {
    let mut config = Config {
        token: String::new(),
        sql_server_ip: String::new(),
        sql_server_port: 1433,
        sql_server_username: String::new(),
        sql_server_password: String::new(),
        cmd_prefix: ".".to_string(),
        lavalink_ip: String::new(),
        lavalink_password: String::new(),
        danbooru_login: String::new(),
        danbooru_api_key: String::new(),
    };
    assert!(!config.lavalink_enabled());
    config.lavalink_ip = "127.0.0.1".to_string();
    assert!(!config.lavalink_enabled());
    config.lavalink_password = "pw".to_string();
    assert!(config.lavalink_enabled());
    config.lavalink_ip = String::new();
    assert!(!config.lavalink_enabled());
}
