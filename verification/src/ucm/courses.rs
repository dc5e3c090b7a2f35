//! Terms and class times as the course search shows them.
//!
//! A term is a number: the year times a hundred, plus 10 for spring, 20 for
//! summer or 30 for fall.

use vstd::prelude::*;
use crate::duration::{digit_value, is_digit, quotient, remainder};
use crate::number::{i32_value, parse_i32};
use crate::text::{
    chars_of, decimal, i64_to_string, join, joined, lowercase, signed_decimal, text_eq, to_lowercase, u64_to_string,
    views,
};
use crate::ucm::courses_db_models::{Class, MeetingType, PartialClass};

verus! {

/// The name shown for the semester with the given code.
pub open spec fn semester_name(code: int) -> Seq<char> {
    if code == 30 {
        "Fall"@
    } else if code == 20 {
        "Summer"@
    } else if code == 10 {
        "Summer"@
    } else {
        "Unknown"@
    }
}

/// A term as text: the name of its semester, then its year.
pub open spec fn term_text(term: int) -> Seq<char> {
    semester_name(remainder(term, 100)) + " "@ + signed_decimal(quotient(term, 100))
}

/// Writes a term as the name of its semester and its year, as in
/// `Fall 2022`.
pub fn format_term(term: i32) -> (text: String)
    ensures
        text@ == term_text(term as int),
{
    let code = term % 100;
    let year = term / 100;
    assert(year == quotient(term as int, 100));
    assert(code == remainder(term as int, 100));
    let semester = if code == 30 {
        "Fall"
    } else if code == 20 {
        "Summer"
    } else if code == 10 {
        "Summer"
    } else {
        "Unknown"
    };
    let mut text = String::from_str(semester);
    text.append(" ");
    let year = i64_to_string(year as i64);
    text.append(year.as_str());
    text
}

/// The code of the semester that lowercase text names.
pub open spec fn semester_code(lower: Seq<char>) -> Option<i32> {
    if lower == "fall"@ {
        Some(30i32)
    } else if lower == "summer"@ {
        Some(20i32)
    } else if lower == "spring"@ {
        Some(10i32)
    } else {
        None
    }
}

/// The code of the semester that `lower` names: 30 for `fall`, 20 for
/// `summer`, 10 for `spring`, and `None` for anything else.
pub fn semester_from_lowercase(lower: &str) -> (code: Option<i32>)
    ensures
        code == semester_code(lower@),
{
    if text_eq(lower, "fall") {
        Some(30)
    } else if text_eq(lower, "summer") {
        Some(20)
    } else if text_eq(lower, "spring") {
        Some(10)
    } else {
        None
    }
}

/// The code of the semester that `input` names, whatever its case.
pub fn semester_from_text(input: &str) -> (code: Option<i32>)
    ensures
        code == semester_code(lowercase(input@)),
{
    let lower = to_lowercase(input);
    semester_from_lowercase(lower.as_str())
}

/// The hour that the first two characters of a time give: two digits, or a
/// plus sign and one digit.
pub open spec fn leading_hour(time: Seq<char>) -> Option<nat> {
    if time.len() < 2 {
        None
    } else if is_digit(time[0]) && is_digit(time[1]) {
        Some(digit_value(time[0]) * 10 + digit_value(time[1]))
    } else if time[0] == '+' && is_digit(time[1]) {
        Some(digit_value(time[1]))
    } else {
        None
    }
}

/// A time of the 24-hour clock on the 12-hour clock: midnight and noon as
/// 12, the hours after noon counted anew, and AM or PM behind the minutes.
pub open spec fn clock_text(hour: nat, minutes: Seq<char>) -> Seq<char> {
    if hour == 0 {
        "12:"@ + minutes + " AM"@
    } else if hour == 12 {
        "12:"@ + minutes + " PM"@
    } else if hour < 12 {
        decimal(hour) + ":"@ + minutes + " AM"@
    } else {
        decimal((hour - 12) as nat) + ":"@ + minutes + " PM"@
    }
}

/// Turns a time such as `1330` into `1:30 PM`. The first two characters are
/// the hour; what follows them is shown as the minutes.
pub fn fix_time(time: &str) -> (text: String)
    requires
        leading_hour(time@) is Some,
    ensures
        text@ == clock_text(leading_hour(time@)->Some_0, time@.skip(2)),
{
    let first = time.get_char(0);
    let second = time.get_char(1);
    let low = (second as u32 - '0' as u32) as u64;
    let hour: u64 = if first == '+' {
        low
    } else {
        (first as u32 - '0' as u32) as u64 * 10 + low
    };
    let length = time.unicode_len();
    let minutes = time.substring_char(2, length);
    assert(minutes@ =~= time@.skip(2));
    let (shown, half) = if hour == 0 {
        (12, " AM")
    } else if hour == 12 {
        (12, " PM")
    } else if hour < 12 {
        (hour, " AM")
    } else {
        (hour - 12, " PM")
    };
    let mut text = u64_to_string(shown);
    text.append(":");
    text.append(minutes);
    text.append(half);
    proof {
        reveal_strlit("12:");
        reveal_strlit(":");
        assert(decimal(12) =~= seq!['1', '2']) by {
            reveal_with_fuel(decimal, 3);
        }
        assert("12:"@ =~= decimal(12) + ":"@);
        assert(text@ =~= clock_text(leading_hour(time@)->Some_0, time@.skip(2)));
    }
    text
}

/// The least number that is taken for the reference number of a class and
/// not for a year.
pub const LEAST_CRN: i32 = 10000;

/// What a search for courses asks for.
#[derive(PartialEq, Eq, Clone, Debug)]
pub enum CourseRequest {
    /// The class with this reference number.
    Lookup { crn: i32 },
    /// The classes of a semester of a year that match the words.
    Search { year: i32, semester: i32, query: String },
}

/// A request as a mathematical value.
pub enum CourseRequestView {
    Lookup { crn: i32 },
    Search { year: i32, semester: i32, query: Seq<char> },
}

impl View for CourseRequest {
    type V = CourseRequestView;

    open spec fn view(&self) -> CourseRequestView {
        match self {
            CourseRequest::Lookup { crn } => CourseRequestView::Lookup { crn: *crn },
            CourseRequest::Search { year, semester, query } => CourseRequestView::Search {
                year: *year,
                semester: *semester,
                query: query@,
            },
        }
    }
}

/// The semester that is searched in a month where none is named: fall from
/// March to October, else spring.
pub open spec fn semester_in(month: u32) -> i32 {
    if 3 <= month <= 10 {
        30
    } else {
        10
    }
}

/// What the words from place `i` on ask for, with year, semester and query
/// as they stand. A number is read first: from 10000 on it is the reference
/// number of a class, and that class is asked for; a lesser one is the year,
/// and the word behind it is read as a word whatever it is. A word that
/// names a semester sets the semester; any other goes into the query, with
/// a blank before it.
pub open spec fn request_from(
    words: Seq<Seq<char>>,
    i: int,
    year: i32,
    semester: i32,
    query: Seq<char>,
) -> CourseRequestView
    decreases words.len() - i,
{
    if i < 0 || i >= words.len() {
        CourseRequestView::Search { year, semester, query }
    } else {
        match i32_value(words[i]) {
            Some(number) => if number >= LEAST_CRN {
                CourseRequestView::Lookup { crn: number }
            } else if i + 1 >= words.len() {
                CourseRequestView::Search { year: number, semester, query }
            } else {
                match semester_code(lowercase(words[i + 1])) {
                    Some(named) => request_from(words, i + 2, number, named, query),
                    None => request_from(words, i + 2, number, semester, query + " "@ + words[i + 1]),
                }
            },
            None => match semester_code(lowercase(words[i])) {
                Some(named) => request_from(words, i + 1, year, named, query),
                None => request_from(words, i + 1, year, semester, query + " "@ + words[i]),
            },
        }
    }
}

/// Reads what a search for courses asks for out of its words, in the month
/// `month` of the year `this_year`.
pub fn read_request(words: &Vec<String>, this_year: i32, month: u32) -> (request: CourseRequest)
    ensures
        request@ == request_from(views(words@), 0, this_year, semester_in(month), Seq::empty()),
{
    let mut year = this_year;
    let mut semester: i32 = if 3 <= month && month <= 10 {
        30
    } else {
        10
    };
    let mut query = String::new();
    let mut i: usize = 0;
    while i < words.len()
        invariant
            i <= words@.len(),
            request_from(views(words@), 0, this_year, semester_in(month), Seq::empty()) == request_from(
                views(words@),
                i as int,
                year,
                semester,
                query@,
            ),
        decreases words@.len() - i,
    {
        assert(views(words@)[i as int] == words@[i as int]@);
        match parse_i32(&chars_of(words[i].as_str())) {
            Some(number) => {
                if number >= LEAST_CRN {
                    return CourseRequest::Lookup { crn: number };
                }
                year = number;
                i += 1;
                if i >= words.len() {
                    return CourseRequest::Search { year, semester, query };
                }
                assert(views(words@)[i as int] == words@[i as int]@);
            },
            None => {},
        }
        match semester_from_text(words[i].as_str()) {
            Some(named) => {
                semester = named;
            },
            None => {
                query.append(" ");
                query.append(words[i].as_str());
            },
        }
        i += 1;
    }
    CourseRequest::Search { year, semester, query }
}

/// The term of a semester of a year, where an `i32` holds it.
pub fn term_code(year: i32, semester: i32) -> (term: Option<i32>)
    ensures
        term == (if i32::MIN <= year * 100 + semester <= i32::MAX {
            Some((year * 100 + semester) as i32)
        } else {
            None
        }),
{
    let term = year as i64 * 100 + semester as i64;
    if term >= -0x8000_0000 && term <= 0x7fff_ffff {
        Some(term as i32)
    } else {
        None
    }
}

/// The title of a class, or a note where it has none.
pub open spec fn title_or_unknown(title: Option<String>) -> Seq<char> {
    match title {
        Some(title) => title@,
        None => "<unknown class name>"@,
    }
}

/// The heading of a class: its number and its title.
pub open spec fn class_heading_text(class: Class) -> Seq<char> {
    class.course_number@ + ": "@ + title_or_unknown(class.course_title)
}

/// Three counts with strokes between them.
pub open spec fn counts_text(a: int, b: int, c: int) -> Seq<char> {
    signed_decimal(a) + "/"@ + signed_decimal(b) + "/"@ + signed_decimal(c)
}

/// The enrollment of a class: seats free, seats taken, seats in all.
pub open spec fn enrollment_text(class: Class) -> Seq<char> {
    counts_text(class.seats_available as int, class.enrollment as int, class.maximum_enrollment as int)
}

/// The waitlist of a class: places free, places taken, places in all.
pub open spec fn waitlist_text(class: Class) -> Seq<char> {
    counts_text(
        class.wait_available as int,
        class.wait_capacity - class.wait_available,
        class.wait_capacity as int,
    )
}

/// Writes three counts with strokes between them.
fn counts(a: i64, b: i64, c: i64) -> (text: String)
    ensures
        text@ == counts_text(a as int, b as int, c as int),
{
    let mut text = i64_to_string(a);
    text.append("/");
    let n = i64_to_string(b);
    text.append(n.as_str());
    text.append("/");
    let n = i64_to_string(c);
    text.append(n.as_str());
    text
}

/// Writes the heading of a class.
pub fn class_heading(class: &Class) -> (text: String)
    ensures
        text@ == class_heading_text(*class),
{
    let mut text = class.course_number.clone();
    text.append(": ");
    match &class.course_title {
        Some(title) => {
            text.append(title.as_str());
        },
        None => {
            text.append("<unknown class name>");
        },
    }
    text
}

/// Writes the enrollment of a class.
pub fn enrollment(class: &Class) -> (text: String)
    ensures
        text@ == enrollment_text(*class),
{
    counts(class.seats_available as i64, class.enrollment as i64, class.maximum_enrollment as i64)
}

/// Writes the waitlist of a class.
pub fn waitlist(class: &Class) -> (text: String)
    ensures
        text@ == waitlist_text(*class),
{
    counts(
        class.wait_available as i64,
        class.wait_capacity as i64 - class.wait_available as i64,
        class.wait_capacity as i64,
    )
}

/// What is shown of a meeting of a class.
#[derive(PartialEq, Eq, Clone, Debug)]
pub struct MeetingPlace {
    pub meeting_type: MeetingType,
    pub building_description: Option<String>,
    pub room: Option<String>,
    pub begin_time: Option<String>,
    pub end_time: Option<String>,
}

/// Whether both times of a meeting are given and begin with an hour.
pub open spec fn has_times(meeting: MeetingPlace) -> bool {
    &&& meeting.begin_time is Some
    &&& meeting.end_time is Some
    &&& leading_hour(meeting.begin_time->Some_0@) is Some
    &&& leading_hour(meeting.end_time->Some_0@) is Some
}

/// A time of the 24-hour clock in four digits on the 12-hour clock.
pub open spec fn fixed_time(time: Seq<char>) -> Seq<char> {
    clock_text(leading_hour(time)->Some_0, time.skip(2))
}

/// The line of a meeting: its kind, its building and room, and its times
/// where it has them.
pub open spec fn meeting_text(meeting: MeetingPlace) -> Seq<char> {
    "- "@ + meeting.meeting_type.name() + ": "@ + (match meeting.building_description {
        Some(building) => building@,
        None => "<no building>"@,
    }) + " "@ + (match meeting.room {
        Some(room) => room@,
        None => "<no room>"@,
    }) + (if has_times(meeting) {
        " from "@ + fixed_time(meeting.begin_time->Some_0@) + " to "@ + fixed_time(meeting.end_time->Some_0@)
    } else {
        Seq::empty()
    })
}

/// Whether a time begins with an hour.
pub fn has_hour(time: &str) -> (yes: bool)
    ensures
        yes == (leading_hour(time@) is Some),
{
    if time.unicode_len() < 2 {
        return false;
    }
    let first = time.get_char(0);
    let second = time.get_char(1);
    let digit = second >= '0' && second <= '9';
    digit && (first == '+' || (first >= '0' && first <= '9'))
}

/// Writes the line of a meeting.
pub fn meeting_line(meeting: &MeetingPlace) -> (text: String)
    ensures
        text@ == meeting_text(*meeting),
{
    let mut text = String::from_str("- ");
    let kind = meeting.meeting_type.to_text();
    text.append(kind.as_str());
    text.append(": ");
    match &meeting.building_description {
        Some(building) => {
            text.append(building.as_str());
        },
        None => {
            text.append("<no building>");
        },
    }
    text.append(" ");
    match &meeting.room {
        Some(room) => {
            text.append(room.as_str());
        },
        None => {
            text.append("<no room>");
        },
    }
    match (&meeting.begin_time, &meeting.end_time) {
        (Some(begin), Some(end)) => {
            if has_hour(begin.as_str()) && has_hour(end.as_str()) {
                text.append(" from ");
                let from = fix_time(begin.as_str());
                text.append(from.as_str());
                text.append(" to ");
                let to = fix_time(end.as_str());
                text.append(to.as_str());
            }
        },
        _ => {},
    }
    assert(text@ =~= meeting_text(*meeting));
    text
}

/// How many matches are listed at most.
pub const LISTED_MATCHES: usize = 10;

/// The line of a class that matched: its reference number as code, its
/// number and its title.
pub open spec fn match_text(class: PartialClass) -> Seq<char> {
    "`"@ + signed_decimal(class.course_reference_number as int) + "` - "@ + class.course_number@ + ": "@
        + title_or_unknown(class.course_title)
}

/// The first ten of the classes that matched, one line for each.
pub open spec fn matches_text(classes: Seq<PartialClass>) -> Seq<char> {
    joined(
        Seq::new(
            if classes.len() <= LISTED_MATCHES {
                classes.len()
            } else {
                LISTED_MATCHES as nat
            },
            |i: int| match_text(classes[i]),
        ),
        "\n"@,
    )
}

/// Writes the first ten of the classes that matched.
pub fn list_matches(classes: &Vec<PartialClass>) -> (text: String)
    ensures
        text@ == matches_text(classes@),
{
    let mut lines: Vec<String> = Vec::new();
    let mut i: usize = 0;
    while i < classes.len() && i < LISTED_MATCHES
        invariant
            i <= classes@.len(),
            i <= LISTED_MATCHES,
            lines@.len() == i,
            forall|k: int| 0 <= k < i ==> (#[trigger] lines@[k])@ == match_text(classes@[k]),
        decreases classes@.len() - i,
    {
        let mut line = String::from_str("`");
        let crn = i64_to_string(classes[i].course_reference_number as i64);
        line.append(crn.as_str());
        line.append("` - ");
        line.append(classes[i].course_number.as_str());
        line.append(": ");
        match &classes[i].course_title {
            Some(title) => {
                line.append(title.as_str());
            },
            None => {
                line.append("<unknown class name>");
            },
        }
        assert(line@ =~= match_text(classes@[i as int]));
        lines.push(line);
        i += 1;
    }
    assert(views(lines@) =~= Seq::new(
        if classes@.len() <= LISTED_MATCHES {
            classes@.len()
        } else {
            LISTED_MATCHES as nat
        },
        |i: int| match_text(classes@[i]),
    ));
    join(&lines, "\n")
}

/// The heading over the classes that matched.
pub fn matches_heading(total: usize) -> (text: String)
    ensures
        text@ == "Classes Matched (totalling "@ + decimal(total as nat) + ")"@,
{
    let mut text = String::from_str("Classes Matched (totalling ");
    let n = u64_to_string(total as u64);
    text.append(n.as_str());
    text.append(")");
    text
}

/// The code of a semester in the old course search: 10 for fall, 20 for
/// spring, 30 for summer, and 00 for anything else.
pub open spec fn old_semester_code(lower: Seq<char>) -> Seq<char> {
    if lower == "fall"@ {
        "10"@
    } else if lower == "spring"@ {
        "20"@
    } else if lower == "summer"@ {
        "30"@
    } else {
        "00"@
    }
}

/// The term of the old course search for a semester, named in lowercase, of
/// a year: the year and behind it the code of the semester.
pub fn old_term(year: i32, lower: &str) -> (term: String)
    ensures
        term@ == signed_decimal(year as int) + old_semester_code(lower@),
{
    let mut term = i64_to_string(year as i64);
    if text_eq(lower, "fall") {
        term.append("10");
    } else if text_eq(lower, "spring") {
        term.append("20");
    } else if text_eq(lower, "summer") {
        term.append("30");
    } else {
        term.append("00");
    }
    term
}

} // verus!
