//! The academic calendar as read from the registrar's page.
//!
//! The page of an academic year names itself in its first heading and holds
//! one table of dates for each semester or session, each under a heading of
//! the second order.

use vstd::prelude::*;
use crate::number::{i32_value, parse_i32};
use crate::text::{
    chars_of, contains, i64_to_string, join, joined, lowercase, occurs_in, signed_decimal, to_lowercase, views,
};
use crate::ucm::page::{select_nested, select_texts, selected_nested, selected_texts, texts2, texts4};

verus! {

/// One semester or session: its name and its dates, each with what falls on
/// it.
#[derive(PartialEq, Eq, Clone, Debug)]
pub struct Semester {
    pub name: String,
    pub dates: Vec<(String, String)>,
}

/// The calendar of an academic year.
#[derive(PartialEq, Eq, Clone, Debug)]
pub struct AcademicCalendar {
    pub name: String,
    pub semesters: Vec<Semester>,
}

/// A semester as a mathematical value.
pub struct SemesterView {
    pub name: Seq<char>,
    pub dates: Seq<(Seq<char>, Seq<char>)>,
}

/// A calendar as a mathematical value.
pub struct AcademicCalendarView {
    pub name: Seq<char>,
    pub semesters: Seq<SemesterView>,
}

impl View for Semester {
    type V = SemesterView;

    open spec fn view(&self) -> SemesterView {
        SemesterView { name: self.name@, dates: self.dates@.map_values(|d: (String, String)| (d.0@, d.1@)) }
    }
}

impl View for AcademicCalendar {
    type V = AcademicCalendarView;

    open spec fn view(&self) -> AcademicCalendarView {
        AcademicCalendarView { name: self.name@, semesters: self.semesters@.map_values(|s: Semester| s@) }
    }
}

/// Whether a heading names a semester or a session.
pub open spec fn names_term(heading: Seq<char>) -> bool {
    occurs_in("semester"@, lowercase(heading)) || occurs_in("session"@, lowercase(heading))
}

/// The headings among `texts`, taken element by element and piece by piece,
/// that name a semester or a session.
pub open spec fn term_names(texts: Seq<Seq<Seq<char>>>) -> Seq<Seq<char>>
    decreases texts.len(),
{
    if texts.len() == 0 {
        Seq::empty()
    } else {
        term_names(texts.drop_last()) + texts.last().filter(|t: Seq<char>| names_term(t))
    }
}

/// The first text of cell `k` of a row, or a note where the row has no such
/// cell or the cell no text.
pub open spec fn cell_text(row: Seq<Seq<Seq<char>>>, k: int) -> Seq<char> {
    if 0 <= k < row.len() && row[k].len() > 0 {
        row[k][0]
    } else {
        "<unknown>"@
    }
}

/// The dates of a table: of each row the first two cells.
pub open spec fn table_dates(table: Seq<Seq<Seq<Seq<char>>>>) -> Seq<(Seq<char>, Seq<char>)> {
    table.map_values(|row: Seq<Seq<Seq<char>>>| (cell_text(row, 0), cell_text(row, 1)))
}

/// The semesters of a page: the names and the tables, paired off in their
/// order for as long as there is one of each.
pub open spec fn semesters_of(names: Seq<Seq<char>>, tables: Seq<Seq<Seq<Seq<Seq<char>>>>>) -> Seq<SemesterView> {
    Seq::new(
        if names.len() <= tables.len() {
            names.len()
        } else {
            tables.len()
        },
        |i: int| SemesterView { name: names[i], dates: table_dates(tables[i]) },
    )
}

/// The calendar that a page holds, given the texts of its first headings, of
/// its second headings and of the cells of its tables. The first text of
/// the first heading names the page; where there is none, or `calendar` does
/// not stand in it, the page is no calendar.
pub open spec fn calendar_of(
    headings: Seq<Seq<Seq<char>>>,
    titles: Seq<Seq<Seq<char>>>,
    tables: Seq<Seq<Seq<Seq<Seq<char>>>>>,
) -> Option<AcademicCalendarView> {
    if headings.len() > 0 && headings[0].len() > 0 && occurs_in("calendar"@, lowercase(headings[0][0])) {
        Some(AcademicCalendarView { name: headings[0][0], semesters: semesters_of(term_names(titles), tables) })
    } else {
        None
    }
}

/// Whether a heading names a semester or a session.
fn is_term_name(heading: &str) -> (yes: bool)
    ensures
        yes == names_term(heading@),
{
    let lower = to_lowercase(heading);
    contains(lower.as_str(), "semester") || contains(lower.as_str(), "session")
}

/// Picks the headings that name a semester or a session.
fn pick_term_names(titles: &Vec<Vec<String>>) -> (names: Vec<String>)
    ensures
        views(names@) == term_names(texts2(titles@)),
{
    let mut names: Vec<String> = Vec::new();
    let mut i: usize = 0;
    assert(texts2(titles@).take(0) =~= Seq::<Seq<Seq<char>>>::empty());
    assert(views(names@) =~= Seq::<Seq<char>>::empty());
    while i < titles.len()
        invariant
            i <= titles@.len(),
            views(names@) == term_names(texts2(titles@).take(i as int)),
        decreases titles@.len() - i,
    {
        let ghost all = texts2(titles@);
        let ghost before = views(names@);
        let ghost pieces = all[i as int];
        let mut k: usize = 0;
        assert(pieces.take(0) =~= Seq::<Seq<char>>::empty());
        assert(pieces.take(0).filter(|t: Seq<char>| names_term(t)) =~= Seq::<Seq<char>>::empty());
        assert(views(names@) =~= before + pieces.take(0).filter(|t: Seq<char>| names_term(t)));
        while k < titles[i].len()
            invariant
                i < titles@.len(),
                k <= titles@[i as int]@.len(),
                all == texts2(titles@),
                pieces == all[i as int],
                views(names@) == before + pieces.take(k as int).filter(|t: Seq<char>| names_term(t)),
            decreases titles@[i as int]@.len() - k,
        {
            proof {
                assert(pieces.take(k + 1).drop_last() =~= pieces.take(k as int));
                assert(pieces.take(k + 1).last() == titles@[i as int]@[k as int]@);
                reveal(Seq::filter);
            }
            let ghost so_far = views(names@);
            if is_term_name(titles[i][k].as_str()) {
                names.push(titles[i][k].clone());
                assert(views(names@) =~= so_far.push(titles@[i as int]@[k as int]@));
            }
            assert(views(names@) =~= before + pieces.take(k + 1).filter(|t: Seq<char>| names_term(t)));
            k += 1;
        }
        proof {
            assert(pieces.take(pieces.len() as int) =~= pieces);
            assert(all.take(i + 1).drop_last() =~= all.take(i as int));
            assert(all.take(i + 1).last() == pieces);
        }
        i += 1;
    }
    assert(texts2(titles@).take(titles@.len() as int) =~= texts2(titles@));
    names
}

/// The first text of cell `k` of a row.
fn first_text(row: &Vec<Vec<String>>, k: usize) -> (text: String)
    ensures
        text@ == cell_text(crate::ucm::page::texts2(row@), k as int),
{
    if k < row.len() && row[k].len() > 0 {
        row[k][0].clone()
    } else {
        String::from_str("<unknown>")
    }
}

/// Makes the calendar out of what was read from a page: the texts of its
/// first headings, of its second headings and of the cells of the rows of its
/// tables.
pub fn build_calendar(
    headings: &Vec<Vec<String>>,
    titles: &Vec<Vec<String>>,
    tables: &Vec<Vec<Vec<Vec<String>>>>,
) -> (calendar: Option<AcademicCalendar>)
    ensures
        match calendar_of(texts2(headings@), texts2(titles@), texts4(tables@)) {
            Some(view) => calendar is Some && calendar->Some_0@ == view,
            None => calendar is None,
        },
{
    if headings.len() == 0 || headings[0].len() == 0 {
        return None;
    }
    let name = headings[0][0].clone();
    let lower = to_lowercase(name.as_str());
    if !contains(lower.as_str(), "calendar") {
        return None;
    }
    let names = pick_term_names(titles);
    let mut semesters: Vec<Semester> = Vec::new();
    let mut i: usize = 0;
    let ghost want = semesters_of(term_names(texts2(titles@)), texts4(tables@));
    while i < names.len() && i < tables.len()
        invariant
            i <= names@.len(),
            i <= tables@.len(),
            views(names@) == term_names(texts2(titles@)),
            want == semesters_of(term_names(texts2(titles@)), texts4(tables@)),
            semesters@.len() == i,
            forall|k: int| 0 <= k < i ==> (#[trigger] semesters@[k])@ == want[k],
        decreases names@.len() - i,
    {
        let table = &tables[i];
        let ghost rows = texts4(tables@)[i as int];
        let mut dates: Vec<(String, String)> = Vec::new();
        let mut r: usize = 0;
        while r < table.len()
            invariant
                r <= table@.len(),
                rows == crate::ucm::page::texts3(table@),
                dates@.len() == r,
                forall|k: int|
                    0 <= k < r ==> ((#[trigger] dates@[k]).0@, dates@[k].1@) == (
                        cell_text(rows[k], 0),
                        cell_text(rows[k], 1),
                    ),
            decreases table@.len() - r,
        {
            dates.push((first_text(&table[r], 0), first_text(&table[r], 1)));
            r += 1;
        }
        let semester = Semester { name: names[i].clone(), dates };
        proof {
            assert(semester@.dates =~= table_dates(rows));
            assert(views(names@)[i as int] == names@[i as int]@);
        }
        semesters.push(semester);
        i += 1;
    }
    let calendar = AcademicCalendar { name, semesters };
    assert(calendar@.semesters =~= want);
    Some(calendar)
}

/// Reads the calendar from the text of a page.
pub fn process_calendar(data: &str) -> (calendar: Option<AcademicCalendar>)
    ensures
        match (selected_texts(data@, "h1"@), selected_texts(data@, "h2"@), selected_nested(
            data@,
            "table"@,
            "tr"@,
            "td"@,
        )) {
            (Some(headings), Some(titles), Some(tables)) => match calendar_of(headings, titles, tables) {
                Some(view) => calendar is Some && calendar->Some_0@ == view,
                None => calendar is None,
            },
            _ => calendar is None,
        },
{
    match (select_texts(data, "h1"), select_texts(data, "h2"), select_nested(data, "table", "tr", "td")) {
        (Some(headings), Some(titles), Some(tables)) => build_calendar(&headings, &titles, &tables),
        _ => None,
    }
}

/// The line of a date: the date, a dash and what falls on it.
pub open spec fn date_line(date: (Seq<char>, Seq<char>)) -> Seq<char> {
    date.0 + " - "@ + date.1
}

/// The dates of a semester as text: one line for each, or a note where there
/// is none.
pub open spec fn dates_text(dates: Seq<(Seq<char>, Seq<char>)>) -> Seq<char> {
    if dates.len() == 0 {
        "Nothing was written..."@
    } else {
        joined(dates.map_values(|d: (Seq<char>, Seq<char>)| date_line(d)), "\n"@)
    }
}

/// Writes the dates of a semester.
pub fn print_dates(semester: &Semester) -> (text: String)
    ensures
        text@ == dates_text(semester@.dates),
{
    if semester.dates.len() == 0 {
        return String::from_str("Nothing was written...");
    }
    let mut lines: Vec<String> = Vec::new();
    let mut i: usize = 0;
    while i < semester.dates.len()
        invariant
            i <= semester.dates@.len(),
            lines@.len() == i,
            forall|k: int| 0 <= k < i ==> (#[trigger] lines@[k])@ == date_line(semester@.dates[k]),
        decreases semester.dates@.len() - i,
    {
        let mut line = semester.dates[i].0.clone();
        line.append(" - ");
        line.append(semester.dates[i].1.as_str());
        lines.push(line);
        i += 1;
    }
    assert(views(lines@) =~= semester@.dates.map_values(|d: (Seq<char>, Seq<char>)| date_line(d)));
    join(&lines, "\n")
}

/// The first year that has a calendar on the page.
pub const FIRST_YEAR: i32 = 2005;

/// The academic year that `word` asks for in place of `year`: the year it
/// names, where it names one from 2005 on.
pub open spec fn year_after(year: i32, word: Seq<char>) -> i32 {
    match i32_value(word) {
        Some(named) => if named >= FIRST_YEAR {
            named
        } else {
            year
        },
        None => year,
    }
}

/// The academic year after all of `words` were heard, one after the other.
pub open spec fn year_after_all(year: i32, words: Seq<Seq<char>>) -> i32
    decreases words.len(),
{
    if words.len() == 0 {
        year
    } else {
        year_after(year_after_all(year, words.drop_last()), words.last())
    }
}

/// The academic year that is running: up to July it began in the year
/// before.
pub open spec fn running_year(year: i32, month: u32) -> int {
    if month <= 7 {
        year - 1
    } else {
        year as int
    }
}

/// Picks the academic year to show in the month `month` of the year `year`
/// when `words` were said: the last year from 2005 on that a word names,
/// else the year that is running.
pub fn academic_year(year: i32, month: u32, words: &Vec<String>) -> (chosen: i32)
    requires
        year > i32::MIN,
    ensures
        chosen == year_after_all(running_year(year, month) as i32, views(words@)),
{
    let mut chosen = if month <= 7 {
        year - 1
    } else {
        year
    };
    let mut i: usize = 0;
    assert(views(words@).take(0) =~= Seq::<Seq<char>>::empty());
    while i < words.len()
        invariant
            i <= words@.len(),
            chosen == year_after_all(running_year(year, month) as i32, views(words@).take(i as int)),
        decreases words@.len() - i,
    {
        proof {
            assert(views(words@).take(i + 1).drop_last() =~= views(words@).take(i as int));
            assert(views(words@).take(i + 1).last() == words@[i as int]@);
        }
        match parse_i32(&chars_of(words[i].as_str())) {
            Some(named) => {
                if named >= FIRST_YEAR {
                    chosen = named;
                }
            },
            None => {},
        }
        i += 1;
    }
    assert(views(words@).take(words@.len() as int) =~= views(words@));
    chosen
}

/// Where the calendar of the academic year that begins in `year` is found.
pub open spec fn calendar_address(year: i32) -> Seq<char> {
    "https://registrar.ucmerced.edu/schedules/academic-calendar/academic-calendar-"@ + signed_decimal(year as int)
        + "-"@ + signed_decimal(year + 1)
}

/// Where the calendar of the academic year that begins in `year` is found.
pub fn calendar_url(year: i32) -> (url: String)
    ensures
        url@ == calendar_address(year),
{
    let mut url = String::from_str("https://registrar.ucmerced.edu/schedules/academic-calendar/academic-calendar-");
    let first = i64_to_string(year as i64);
    url.append(first.as_str());
    url.append("-");
    let second = i64_to_string(year as i64 + 1);
    url.append(second.as_str());
    assert(url@ =~= calendar_address(year));
    url
}

} // verus!
