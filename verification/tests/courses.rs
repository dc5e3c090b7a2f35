use cow::ucm::courses::{
    class_heading, enrollment, has_hour, list_matches, matches_heading, meeting_line, old_term, read_request,
    term_code, waitlist, CourseRequest, MeetingPlace,
};
use cow::ucm::courses_db::{create_full_text_query, find_exact, full_text_query, strip_marks};
use cow::ucm::courses_db_models::{Class, MeetingType, PartialClass, Reminder};
use cow::ucm::library::hours_url;
use cow::ucm::pav_models::{Day, Group, Item, Meal, TimeOfDay};
use cow::ucm::pavilion::{
    groups_url, menu_title, print_menu, print_times, read_request as read_pavilion, unknown_meal, write_clock,
    PavilionRequest,
};
use cow::ucm::professors::{
    list_professors, list_teaching, professors_heading, running_term, ProfessorName,
};
use cow::ucm::reminders::{
    class_title, list_reminder, parse_bool, read_reminder, reminder_heading, seats_text, waitlist_text,
    ReminderFault,
};

fn strings(texts: &[&str]) -> Vec<String> {
    texts.iter().map(|t| t.to_string()).collect()
}

fn search(year: i32, semester: i32, query: &str) -> CourseRequest {
    CourseRequest::Search { year, semester, query: query.to_string() }
}

#[test]
fn course_requests() {
    assert_eq!(read_request(&strings(&[]), 2022, 4), search(2022, 30, ""));
    assert_eq!(read_request(&strings(&[]), 2022, 11), search(2022, 10, ""));
    assert_eq!(read_request(&strings(&[]), 2022, 2), search(2022, 10, ""));
    assert_eq!(read_request(&strings(&[]), 2022, 3), search(2022, 30, ""));
    assert_eq!(read_request(&strings(&[]), 2022, 10), search(2022, 30, ""));
    assert_eq!(read_request(&strings(&["cse", "031"]), 2022, 4), search(31, 30, " cse"));
    assert_eq!(read_request(&strings(&["cse-031", "spring"]), 2022, 4), search(2022, 10, " cse-031"));
    assert_eq!(read_request(&strings(&["Computer", "Organization", "SUMMER"]), 2022, 4), search(2022, 20, " Computer Organization"));
    assert_eq!(read_request(&strings(&["2021", "fall", "math"]), 2022, 1), search(2021, 30, " math"));
    assert_eq!(read_request(&strings(&["31415"]), 2022, 4), CourseRequest::Lookup { crn: 31415 });
    assert_eq!(read_request(&strings(&["math", "10000", "fall"]), 2022, 4), CourseRequest::Lookup { crn: 10000 });
    assert_eq!(read_request(&strings(&["9999"]), 2022, 4), search(9999, 30, ""));
    // The word behind a year is a word, even where it is a number.
    assert_eq!(read_request(&strings(&["2021", "31415", "x"]), 2022, 4), search(2021, 30, " 31415 x"));
    assert_eq!(read_request(&strings(&["-5", "fall"]), 2022, 1), search(-5, 30, ""));
}

#[test]
fn term_codes() {
    assert_eq!(term_code(2022, 30), Some(202230));
    assert_eq!(term_code(0, 10), Some(10));
    assert_eq!(term_code(-1, 30), Some(-70));
    assert_eq!(term_code(21474836, 47), Some(2147483647));
    assert_eq!(term_code(21474836, 48), None);
    assert_eq!(term_code(i32::MAX, 0), None);
    assert_eq!(term_code(i32::MIN, 0), None);
    assert_eq!(term_code(21474837, -100), Some(2147483600));
    assert_eq!(running_term(2022, 4), Some(202230));
    assert_eq!(running_term(2022, 12), Some(202210));
    assert_eq!(running_term(i32::MAX, 12), None);
}

fn class() -> Class {
    Class {
        id: 1,
        term: 202230,
        course_reference_number: 31415,
        course_number: "CSE-031".to_string(),
        campus_description: None,
        course_title: Some("Computer Organization".to_string()),
        credit_hours: 4,
        maximum_enrollment: 120,
        enrollment: 100,
        seats_available: 20,
        wait_capacity: 30,
        wait_available: 25,
    }
}

#[test]
fn class_texts() {
    assert_eq!(class_heading(&class()), "CSE-031: Computer Organization");
    assert_eq!(class_heading(&Class { course_title: None, ..class() }), "CSE-031: <unknown class name>");
    assert_eq!(enrollment(&class()), "20/100/120");
    assert_eq!(waitlist(&class()), "25/5/30");
    assert_eq!(
        waitlist(&Class { wait_capacity: i16::MIN, wait_available: i16::MAX, ..class() }),
        "32767/-65535/-32768"
    );
    assert_eq!(seats_text(&class()), "20/120");
    assert_eq!(waitlist_text(&class()), "25/30");
    assert_eq!(class_title(&Some("T".to_string())), "T");
    assert_eq!(class_title(&None), "<unknown class name>");
}

#[test]
fn meeting_lines() {
    let meeting = MeetingPlace {
        meeting_type: MeetingType::Lecture,
        building_description: Some("Classroom Building".to_string()),
        room: Some("102".to_string()),
        begin_time: Some("0930".to_string()),
        end_time: Some("1045".to_string()),
    };
    assert_eq!(meeting_line(&meeting), "- Lecture: Classroom Building 102 from 9:30 AM to 10:45 AM");
    let bare = MeetingPlace { building_description: None, room: None, begin_time: None, ..meeting.clone() };
    assert_eq!(meeting_line(&bare), "- Lecture: <no building> <no room>");
    let odd = MeetingPlace { begin_time: Some("9".to_string()), meeting_type: MeetingType::IndividualStudy, ..meeting };
    assert_eq!(meeting_line(&odd), "- Individual Study: Classroom Building 102");
    assert!(has_hour("0930"));
    assert!(has_hour("+9"));
    assert!(!has_hour("9"));
    assert!(!has_hour("a930"));
    assert!(!has_hour("9a30"));
    assert!(!has_hour(""));
}

fn partial(crn: i32, number: &str, title: Option<&str>) -> PartialClass {
    PartialClass { id: crn, course_reference_number: crn, course_number: number.to_string(), course_title: title.map(|t| t.to_string()) }
}

#[test]
fn matches_are_listed() {
    let classes = vec![partial(1, "CSE-031", Some("Org")), partial(2, "CSE-030", None)];
    assert_eq!(list_matches(&classes), "`1` - CSE-031: Org\n`2` - CSE-030: <unknown class name>");
    assert_eq!(list_matches(&Vec::new()), "");
    let many: Vec<PartialClass> = (1..=12).map(|i| partial(i, "X", Some("T"))).collect();
    let listed = list_matches(&many);
    assert_eq!(listed.lines().count(), 10);
    assert!(listed.ends_with("`10` - X: T"));
    assert_eq!(matches_heading(12), "Classes Matched (totalling 12)");
}

#[test]
fn old_terms() {
    assert_eq!(old_term(2022, "fall"), "202210");
    assert_eq!(old_term(2022, "spring"), "202220");
    assert_eq!(old_term(2022, "summer"), "202230");
    assert_eq!(old_term(2022, "winter"), "202200");
    assert_eq!(old_term(2022, "Fall"), "202200");
}

#[test]
fn full_text_queries() {
    assert_eq!(strip_marks("(\"o'neil\")"), "oneil");
    assert_eq!(strip_marks(""), "");
    assert_eq!(full_text_query("cse 031"), "\"*cse*\" AND \"*031*\"");
    assert_eq!(full_text_query("cse"), "\"*cse*\"");
    assert_eq!(full_text_query(""), "\"**\"");
    assert_eq!(full_text_query("a  b"), "\"*a*\" AND \"**\" AND \"*b*\"");
    assert_eq!(create_full_text_query("  intro to (computing)  "), "\"*intro*\" AND \"*to*\" AND \"*computing*\"");
    assert_eq!(create_full_text_query("x\" OR \"y"), "\"*x*\" AND \"*OR*\" AND \"*y*\"");
    assert_eq!(create_full_text_query("   "), "\"**\"");
}

#[test]
fn exact_matches() {
    let classes = vec![partial(1, "CSE-031", Some("Org")), partial(2, "CSE-030", None), partial(3, "Org", Some("CSE-030"))];
    assert_eq!(find_exact(&classes, "CSE-030"), Some(1));
    assert_eq!(find_exact(&classes, "Org"), Some(0));
    assert_eq!(find_exact(&classes, "CSE-031"), Some(0));
    assert_eq!(find_exact(&classes, "cse-031"), None);
    assert_eq!(find_exact(&classes, ""), None);
    assert_eq!(find_exact(&Vec::new(), "x"), None);
}

#[test]
fn pavilion_requests() {
    let menu = |day: Day, meal: Meal, title: &str| PavilionRequest::Menu { day, meal, title: title.to_string() };
    assert_eq!(read_pavilion(&strings(&["times"]), Day::Monday, Meal::Lunch), PavilionRequest::Times);
    assert_eq!(read_pavilion(&strings(&["HOURS"]), Day::Monday, Meal::Lunch), PavilionRequest::Times);
    assert_eq!(
        read_pavilion(&strings(&[]), Day::Monday, Meal::Lunch),
        menu(Day::Monday, Meal::Lunch, "Lunch at the Pavilion for Monday")
    );
    assert_eq!(
        read_pavilion(&strings(&["friday"]), Day::Monday, Meal::Lunch),
        menu(Day::Friday, Meal::Lunch, "Lunch at the Pavilion for Friday")
    );
    assert_eq!(
        read_pavilion(&strings(&["Dinner", "tue"]), Day::Monday, Meal::Lunch),
        menu(Day::Tuesday, Meal::Dinner, "Dinner at the Pavilion for Tuesday")
    );
    assert_eq!(
        read_pavilion(&strings(&["late", "wed", "Night"]), Day::Monday, Meal::Lunch),
        menu(Day::Wednesday, Meal::Other("late night".to_string()), "Custom Category at the Pavilion for Wednesday")
    );
    // With more than one word, a word with `time` in it is part of the meal.
    assert_eq!(
        read_pavilion(&strings(&["tea", "time"]), Day::Monday, Meal::Lunch),
        menu(Day::Monday, Meal::Other("tea time".to_string()), "Custom Category at the Pavilion for Monday")
    );
    assert_eq!(menu_title(&Meal::Breakfast, Day::Sunday), "Breakfast at the Pavilion for Sunday");
}

#[test]
fn menus_as_text() {
    let items = vec![
        Item { id: "1".to_string(), name: "Soup".to_string(), description: "hot".to_string() },
        Item { id: "2".to_string(), name: "Salad".to_string(), description: String::new() },
    ];
    assert_eq!(print_menu(&items), "**Soup** - hot\n**Salad** - ");
    assert_eq!(print_menu(&Vec::new()), "There is nothing on the menu?");
    let categories = vec![
        Group { id: "a".to_string(), name: "Breakfast".to_string(), order: None },
        Group { id: "b".to_string(), name: "Lunch".to_string(), order: Some(1) },
    ];
    assert_eq!(
        unknown_meal(&categories),
        "Could not find the given meal! Categories available: \"Breakfast\", \"Lunch\""
    );
    assert_eq!(unknown_meal(&Vec::new()), "Could not find the given meal! Categories available: None (?)");
    assert_eq!(
        groups_url("61bd"),
        "https://widget.api.eagle.bigzpoon.com/locations/menugroups?locationId=61bd"
    );
}

#[test]
fn clocks() {
    assert_eq!(write_clock(TimeOfDay::from_hms(7, 0, 0)), " 7:00 AM");
    assert_eq!(write_clock(TimeOfDay::from_hms(10, 30, 0)), "10:30 AM");
    assert_eq!(write_clock(TimeOfDay::from_hms(0, 5, 0)), "12:05 AM");
    assert_eq!(write_clock(TimeOfDay::from_hms(12, 0, 59)), "12:00 PM");
    assert_eq!(write_clock(TimeOfDay::from_hms(21, 0, 0)), " 9:00 PM");
    assert_eq!(write_clock(TimeOfDay::from_hms(23, 59, 0)), "11:59 PM");
    assert_eq!(
        print_times(false),
        "Breakfast:  7:00 AM - 10:30 AM\nLunch: 11:00 AM -  3:00 PM\nDinner:  4:00 PM -  9:00 PM"
    );
    assert_eq!(
        print_times(true),
        "Breakfast:  9:00 AM - 10:30 AM\nLunch: 11:00 AM -  3:00 PM\nDinner:  4:00 PM -  9:00 PM"
    );
}

#[test]
fn library_addresses() {
    assert_eq!(
        hours_url(2022, 1, 5),
        "https://api3.libcal.com/api_hours_grid.php?iid=4052&lid=0&format=json&date=2022-01-05"
    );
    assert_eq!(
        hours_url(2022, 12, 25),
        "https://api3.libcal.com/api_hours_grid.php?iid=4052&lid=0&format=json&date=2022-12-25"
    );
}

#[test]
fn professors_as_text() {
    let professors = vec![
        ProfessorName { full_name: "Ada Lovelace".to_string(), department: Some("CSE".to_string()) },
        ProfessorName { full_name: "Alan Turing".to_string(), department: None },
    ];
    assert_eq!(list_professors(&professors), "`Ada Lovelace` - CSE\n`Alan Turing` - <unknown department>");
    let many: Vec<ProfessorName> =
        (0..11).map(|i| ProfessorName { full_name: format!("P{}", i), department: None }).collect();
    assert_eq!(list_professors(&many).lines().count(), 10);
    assert_eq!(professors_heading(11), "Professors Matched (totalling 11)");
    let classes = vec![partial(31415, "CSE-031", Some("Org")), partial(2, "CSE-030", None)];
    assert_eq!(list_teaching(&classes), "- CSE-031 (`31415`): Org\n- CSE-030 (`2`): <unknown class name>");
    assert_eq!(list_teaching(&Vec::new()), "This person is not teaching any classes for this term.");
}

#[test]
fn reminders_are_read() {
    let reminder = |crn: i32, min_trigger: i32, for_waitlist: bool| Reminder {
        user_id: 42,
        course_reference_number: crn,
        min_trigger,
        for_waitlist,
        triggered: false,
    };
    assert_eq!(read_reminder(&strings(&[]), 42), Err(ReminderFault::Nothing));
    assert_eq!(read_reminder(&strings(&["abc"]), 42), Err(ReminderFault::BadCrn));
    assert_eq!(read_reminder(&strings(&["31415"]), 42), Ok(reminder(31415, 1, false)));
    assert_eq!(read_reminder(&strings(&["31415", "3"]), 42), Ok(reminder(31415, 3, false)));
    assert_eq!(read_reminder(&strings(&["31415", "0"]), 42), Err(ReminderFault::TriggerTooLow));
    assert_eq!(read_reminder(&strings(&["31415", "-2"]), 42), Err(ReminderFault::TriggerTooLow));
    assert_eq!(read_reminder(&strings(&["31415", "many"]), 42), Err(ReminderFault::BadTrigger));
    assert_eq!(read_reminder(&strings(&["31415", "1", "true"]), 42), Ok(reminder(31415, 1, true)));
    assert_eq!(read_reminder(&strings(&["31415", "1", "false", "x"]), 42), Ok(reminder(31415, 1, false)));
    assert_eq!(read_reminder(&strings(&["31415", "1", "yes"]), 42), Err(ReminderFault::BadWaitlist));
    assert_eq!(read_reminder(&strings(&["31415", "1", "True"]), 42), Err(ReminderFault::BadWaitlist));
    assert_eq!(read_reminder(&strings(&["x", "0", "yes"]), 42), Err(ReminderFault::BadCrn));
    assert_eq!(parse_bool("true"), Some(true));
    assert_eq!(parse_bool("false"), Some(false));
    assert_eq!(parse_bool(""), None);
}

#[test]
fn reminders_are_listed() {
    let reminder = Reminder { user_id: 42, course_reference_number: 31415, min_trigger: 2, for_waitlist: true, triggered: false };
    assert_eq!(list_reminder(&reminder), "Minimum Trigger: `2`\nFor Waitlist: `true`\nTriggered: `false`");
    assert_eq!(reminder_heading(&reminder), "CRN 31415");
}
