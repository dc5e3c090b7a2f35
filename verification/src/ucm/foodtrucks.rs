//! The food truck schedule as read from the dining page.
//!
//! The page holds one table for each week, with the days of the week as its
//! first row and the trucks of each day below, and for each table a
//! paragraph that names the week it is for.

use chrono::{Datelike, NaiveDate};
use vstd::prelude::*;
use crate::number::{parse_u32, u32_value};
use crate::text::{
    chars_of, contains, join, joined, lowercase, occurs_in, pieces, split, text_eq, to_lowercase, trim, trimmed, views,
};
use crate::ucm::page::{
    select_html, select_nested, select_within, selected_html, selected_nested, selected_within, texts1, texts2,
    texts3, texts4,
};

verus! {

/// A day of the calendar.
#[derive(PartialEq, Eq, Structural, Clone, Copy, Debug)]
pub struct Date {
    pub year: i32,
    pub month: u32,
    pub day: u32,
}

/// The trucks of one week, day by day.
#[derive(PartialEq, Eq, Clone, Debug)]
pub struct FoodTruckSchedule {
    /// The day with which the week begins.
    pub date: Date,
    pub monday: Option<String>,
    pub tuesday: Option<String>,
    pub wednesday: Option<String>,
    pub thursday: Option<String>,
    pub friday: Option<String>,
}

/// A schedule as a mathematical value.
pub struct FoodTruckScheduleView {
    pub date: Date,
    pub monday: Option<Seq<char>>,
    pub tuesday: Option<Seq<char>>,
    pub wednesday: Option<Seq<char>>,
    pub thursday: Option<Seq<char>>,
    pub friday: Option<Seq<char>>,
}

/// Text that may be missing, as a mathematical value.
pub open spec fn maybe(text: Option<String>) -> Option<Seq<char>> {
    match text {
        Some(text) => Some(text@),
        None => None,
    }
}

impl View for FoodTruckSchedule {
    type V = FoodTruckScheduleView;

    open spec fn view(&self) -> FoodTruckScheduleView {
        FoodTruckScheduleView {
            date: self.date,
            monday: maybe(self.monday),
            tuesday: maybe(self.tuesday),
            wednesday: maybe(self.wednesday),
            thursday: maybe(self.thursday),
            friday: maybe(self.friday),
        }
    }
}

impl FoodTruckSchedule {
    /// The schedule of the week that begins with `date`, with no truck yet.
    pub fn new(date: Date) -> (schedule: Self)
        ensures
            schedule@ == (FoodTruckScheduleView {
                date,
                monday: None,
                tuesday: None,
                wednesday: None,
                thursday: None,
                friday: None,
            }),
    {
        FoodTruckSchedule { date, monday: None, tuesday: None, wednesday: None, thursday: None, friday: None }
    }
}

/// What stands in the column `column` of the rows of `table`, the first row
/// left out and rows that are too short passed over.
pub open spec fn column_cells(table: Seq<Seq<Seq<char>>>, column: int) -> Seq<Seq<char>>
    decreases table.len(),
{
    if table.len() <= 1 {
        Seq::empty()
    } else {
        let before = column_cells(table.drop_last(), column);
        if 0 <= column < table.last().len() {
            before.push(table.last()[column])
        } else {
            before
        }
    }
}

/// The cells of a column below its heading, in a row with a comma and a
/// blank between each two.
pub fn reduce_columns(table: &[Vec<String>], column: usize) -> (text: String)
    ensures
        text@ == joined(column_cells(texts2(table@), column as int), ", "@),
{
    let mut cells: Vec<String> = Vec::new();
    let ghost all = texts2(table@);
    if table.len() == 0 {
        assert(views(cells@) =~= column_cells(all, column as int));
        return join(&cells, ", ");
    }
    let mut i: usize = 1;
    assert(views(cells@) =~= column_cells(all.take(1), column as int));
    while i < table.len()
        invariant
            1 <= i <= table@.len(),
            all == texts2(table@),
            views(cells@) == column_cells(all.take(i as int), column as int),
        decreases table@.len() - i,
    {
        proof {
            assert(all.take(i + 1).drop_last() =~= all.take(i as int));
            assert(all.take(i + 1).last() == texts1(table@[i as int]@));
        }
        let ghost before = views(cells@);
        if column < table[i].len() {
            cells.push(table[i][column].clone());
            assert(views(cells@) =~= before.push(table@[i as int]@[column as int]@));
        }
        i += 1;
    }
    assert(all.take(table@.len() as int) =~= all);
    join(&cells, ", ")
}

/// What is known of a date while the words of a paragraph are read.
pub struct DateScan {
    pub month: u32,
    pub month_set: bool,
    pub day: u32,
    pub year: i32,
}

/// The number of the month whose name begins like `word`.
pub open spec fn month_named(word: Seq<char>) -> Option<u32> {
    if word.len() < 3 {
        None
    } else {
        let start = word.take(3);
        if start == "jan"@ {
            Some(1u32)
        } else if start == "feb"@ {
            Some(2u32)
        } else if start == "mar"@ {
            Some(3u32)
        } else if start == "apr"@ {
            Some(4u32)
        } else if start == "may"@ {
            Some(5u32)
        } else if start == "jun"@ {
            Some(6u32)
        } else if start == "jul"@ {
            Some(7u32)
        } else if start == "aug"@ {
            Some(8u32)
        } else if start == "sep"@ {
            Some(9u32)
        } else if start == "oct"@ {
            Some(10u32)
        } else if start == "nov"@ {
            Some(11u32)
        } else if start == "dec"@ {
            Some(12u32)
        } else {
            None
        }
    }
}

/// What one more word tells of the date. Until the month is known, the name
/// of a month or a number from 1 to 12 gives the month. After that a number
/// from 1 to 31 gives the day. A number over 2000 gives the year. Anything
/// else tells nothing.
pub open spec fn scan_word(state: DateScan, word: Seq<char>) -> DateScan {
    if !state.month_set && month_named(word) is Some {
        DateScan { month: month_named(word)->Some_0, month_set: true, ..state }
    } else {
        match u32_value(word) {
            Some(number) => if !state.month_set && 0 < number < 13 {
                DateScan { month: number, month_set: true, ..state }
            } else if state.month_set && 0 < number < 32 {
                DateScan { day: number, ..state }
            } else if 2000 < number <= i32::MAX {
                DateScan { year: number as i32, ..state }
            } else {
                state
            },
            None => state,
        }
    }
}

/// What the words tell of the date, read one after the other. With nothing
/// told it is the first of January 2022.
pub open spec fn scan_words(words: Seq<Seq<char>>) -> DateScan
    decreases words.len(),
{
    if words.len() == 0 {
        DateScan { month: 1, month_set: false, day: 1, year: 2022 }
    } else {
        scan_word(scan_words(words.drop_last()), words.last())
    }
}

/// Whether `c` parts the words of a date.
pub open spec fn parts_words(c: char) -> bool {
    c == '.' || c == ',' || c == '/' || c == '-' || c == '>' || c == '<'
}

/// Lowercase text with all that parts words made a blank.
pub open spec fn spaced(lower: Seq<char>) -> Seq<char> {
    lower.map_values(|c: char| if parts_words(c) {
        ' '
    } else {
        c
    })
}

/// The date that lowercase text names.
pub open spec fn date_of_lowercase(lower: Seq<char>) -> Date {
    let scan = scan_words(pieces(spaced(lower), ' '));
    Date { year: scan.year, month: scan.month, day: scan.day }
}

/// Whether `word` begins with the three letters `name`.
fn begins_with(word: &Vec<char>, name: &str) -> (yes: bool)
    requires
        word@.len() >= 3,
        name@.len() == 3,
    ensures
        yes == (word@.take(3) == name@),
{
    let yes = word[0] == name.get_char(0) && word[1] == name.get_char(1) && word[2] == name.get_char(2);
    proof {
        if yes {
            assert(word@.take(3) =~= name@);
        }
    }
    yes
}

/// The number of the month whose name begins like `word`.
fn month_of(word: &Vec<char>) -> (month: Option<u32>)
    ensures
        month == month_named(word@),
{
    if word.len() < 3 {
        return None;
    }
    proof {
        reveal_strlit("jan");
        reveal_strlit("feb");
        reveal_strlit("mar");
        reveal_strlit("apr");
        reveal_strlit("may");
        reveal_strlit("jun");
        reveal_strlit("jul");
        reveal_strlit("aug");
        reveal_strlit("sep");
        reveal_strlit("oct");
        reveal_strlit("nov");
        reveal_strlit("dec");
    }
    if begins_with(word, "jan") {
        Some(1)
    } else if begins_with(word, "feb") {
        Some(2)
    } else if begins_with(word, "mar") {
        Some(3)
    } else if begins_with(word, "apr") {
        Some(4)
    } else if begins_with(word, "may") {
        Some(5)
    } else if begins_with(word, "jun") {
        Some(6)
    } else if begins_with(word, "jul") {
        Some(7)
    } else if begins_with(word, "aug") {
        Some(8)
    } else if begins_with(word, "sep") {
        Some(9)
    } else if begins_with(word, "oct") {
        Some(10)
    } else if begins_with(word, "nov") {
        Some(11)
    } else if begins_with(word, "dec") {
        Some(12)
    } else {
        None
    }
}

/// Reads the date that lowercase text names.
pub fn date_from_lowercase(lower: &str) -> (date: Date)
    ensures
        date == date_of_lowercase(lower@),
{
    let mut chars = chars_of(lower);
    let mut i: usize = 0;
    while i < chars.len()
        invariant
            i <= chars@.len(),
            chars@.len() == lower@.len(),
            forall|k: int| 0 <= k < i ==> chars@[k] == spaced(lower@)[k],
            forall|k: int| i <= k < chars@.len() ==> chars@[k] == lower@[k],
        decreases chars@.len() - i,
    {
        let c = chars[i];
        if c == '.' || c == ',' || c == '/' || c == '-' || c == '>' || c == '<' {
            chars.set(i, ' ');
        }
        i += 1;
    }
    assert(chars@ =~= spaced(lower@));
    let words = split(&chars, ' ');
    let mut month: u32 = 1;
    let mut month_set = false;
    let mut day: u32 = 1;
    let mut year: i32 = 2022;
    let mut w: usize = 0;
    assert(views(words@).take(0) =~= Seq::<Seq<char>>::empty());
    while w < words.len()
        invariant
            w <= words@.len(),
            (DateScan { month, month_set, day, year }) == scan_words(views(words@).take(w as int)),
        decreases words@.len() - w,
    {
        proof {
            assert(views(words@).take(w + 1).drop_last() =~= views(words@).take(w as int));
            assert(views(words@).take(w + 1).last() == words@[w as int]@);
        }
        let word = chars_of(words[w].as_str());
        let named = if month_set {
            None
        } else {
            month_of(&word)
        };
        match named {
            Some(m) => {
                month = m;
                month_set = true;
            },
            None => {
                match parse_u32(&word) {
                    Some(number) => {
                        if !month_set && 0 < number && number < 13 {
                            month = number;
                            month_set = true;
                        } else if month_set && 0 < number && number < 32 {
                            day = number;
                        } else if 2000 < number && number <= 0x7fff_ffff {
                            year = number as i32;
                        }
                    },
                    None => {},
                }
            },
        }
        w += 1;
    }
    assert(views(words@).take(words@.len() as int) =~= views(words@));
    Date { year, month, day }
}

/// Reads the date that a paragraph names, such as `week of Jan. 24, 2022`.
pub fn paragraph_to_date(input: &str) -> (date: Date)
    ensures
        date == date_of_lowercase(lowercase(input@)),
{
    let lower = to_lowercase(input);
    date_from_lowercase(lower.as_str())
}

/// How near a week must be to be the week to show: it began fewer than this
/// many days ago,
pub const DAYS_BEHIND: i64 = 5;

/// and begins in fewer than this many days.
pub const DAYS_AHEAD: i64 = 2;

/// Whether the week that began on day `begins` is the one to show on day
/// `today`.
pub open spec fn is_current(begins: i64, today: i64) -> bool {
    -DAYS_AHEAD < today - begins < DAYS_BEHIND
}

/// The schedule to show on day `today`, where the schedules begin on the
/// days `begins`, counted from some first day: the first that is current;
/// without one, the first of all where it lies ahead and else the last.
pub open spec fn best_of(begins: Seq<i64>, today: i64) -> Option<int> {
    if begins.len() == 0 {
        None
    } else if exists|i: int| 0 <= i < begins.len() && is_current(#[trigger] begins[i], today) {
        Some(choose|i: int|
            0 <= i < begins.len() && is_current(#[trigger] begins[i], today) && forall|j: int|
                0 <= j < i ==> !is_current(#[trigger] begins[j], today))
    } else if today < begins[0] {
        Some(0)
    } else {
        Some(begins.len() - 1)
    }
}

/// Picks the schedule to show on day `today`.
pub fn pick_best_schedule(begins: &Vec<i64>, today: i64) -> (best: Option<usize>)
    ensures
        match best_of(begins@, today) {
            Some(i) => best == Some(i as usize),
            None => best is None,
        },
        best is Some ==> best->Some_0 < begins@.len(),
{
    if begins.len() == 0 {
        return None;
    }
    let mut i: usize = 0;
    while i < begins.len()
        invariant
            i <= begins@.len(),
            forall|j: int| 0 <= j < i ==> !is_current(#[trigger] begins@[j], today),
        decreases begins@.len() - i,
    {
        let ahead = today as i128 - begins[i] as i128;
        if ahead < 5 && ahead > -2 {
            proof {
                let found = choose|k: int|
                    0 <= k < begins@.len() && is_current(#[trigger] begins@[k], today) && forall|j: int|
                        0 <= j < k ==> !is_current(#[trigger] begins@[j], today);
                assert(is_current(begins@[i as int], today));
                assert(found == i) by {
                    if found < i {
                        assert(!is_current(begins@[found], today));
                    } else if found > i {
                        assert(!is_current(begins@[i as int], today));
                    }
                }
            }
            return Some(i);
        }
        i += 1;
    }
    if today < begins[0] {
        Some(0)
    } else {
        Some(begins.len() - 1)
    }
}

/// The first text of a cell, or a note where it has none.
pub open spec fn cell_or_unknown(cell: Seq<Seq<char>>) -> Seq<char> {
    if cell.len() > 0 {
        cell[0]
    } else {
        "unknown"@
    }
}

/// Whether a text is blank.
pub open spec fn blank(text: Seq<char>) -> bool {
    trimmed(text).len() == 0
}

/// The cells of a row that are not blank.
pub open spec fn row_cells(row: Seq<Seq<Seq<char>>>) -> Seq<Seq<char>> {
    row.map_values(|cell: Seq<Seq<char>>| cell_or_unknown(cell)).filter(|text: Seq<char>| !blank(text))
}

/// A table as its rows of cells that are not blank.
pub open spec fn table_cells(table: Seq<Seq<Seq<Seq<char>>>>) -> Seq<Seq<Seq<char>>> {
    table.map_values(|row: Seq<Seq<Seq<char>>>| row_cells(row))
}

/// The day of the week that a heading names: 0 for Monday up to 4 for
/// Friday.
pub open spec fn weekday_of(heading: Seq<char>) -> Option<u8> {
    let name = trimmed(lowercase(heading));
    if name == "monday"@ {
        Some(0u8)
    } else if name == "tuesday"@ {
        Some(1u8)
    } else if name == "wednesday"@ {
        Some(2u8)
    } else if name == "thursday"@ {
        Some(3u8)
    } else if name == "friday"@ {
        Some(4u8)
    } else {
        None
    }
}

/// The schedule with the trucks of one more column: where the heading of the
/// column names a day of the week, the column is that day's.
pub open spec fn with_column(
    schedule: FoodTruckScheduleView,
    table: Seq<Seq<Seq<char>>>,
    column: int,
) -> FoodTruckScheduleView {
    let trucks = Some(joined(column_cells(table, column), ", "@));
    match weekday_of(table[0][column]) {
        Some(0) => FoodTruckScheduleView { monday: trucks, ..schedule },
        Some(1) => FoodTruckScheduleView { tuesday: trucks, ..schedule },
        Some(2) => FoodTruckScheduleView { wednesday: trucks, ..schedule },
        Some(3) => FoodTruckScheduleView { thursday: trucks, ..schedule },
        Some(4) => FoodTruckScheduleView { friday: trucks, ..schedule },
        _ => schedule,
    }
}

/// The schedule of a table after its first `columns` columns were read.
pub open spec fn with_columns(date: Date, table: Seq<Seq<Seq<char>>>, columns: nat) -> FoodTruckScheduleView
    decreases columns,
{
    if columns == 0 {
        FoodTruckScheduleView {
            date,
            monday: None,
            tuesday: None,
            wednesday: None,
            thursday: None,
            friday: None,
        }
    } else {
        with_column(with_columns(date, table, (columns - 1) as nat), table, columns - 1)
    }
}

/// The schedule that a table holds for the week that begins with `date`.
pub open spec fn schedule_of(date: Date, table: Seq<Seq<Seq<char>>>) -> FoodTruckScheduleView {
    with_columns(date, table, table[0].len())
}

/// Makes the schedule of one week out of its table, a table with at least
/// its first row, and the day with which the week begins.
pub fn build_schedule(date: Date, table: &Vec<Vec<String>>) -> (schedule: FoodTruckSchedule)
    requires
        table@.len() > 0,
    ensures
        schedule@ == schedule_of(date, texts2(table@)),
{
    let mut schedule = FoodTruckSchedule::new(date);
    let mut i: usize = 0;
    let ghost rows = texts2(table@);
    while i < table[0].len()
        invariant
            table@.len() > 0,
            rows == texts2(table@),
            i <= table@[0]@.len(),
            schedule@ == with_columns(date, rows, i as nat),
        decreases table@[0]@.len() - i,
    {
        let lower = to_lowercase(table[0][i].as_str());
        let day = trim(lower.as_str());
        assert(day@ == trimmed(lowercase(rows[0][i as int])));
        if text_eq(day, "monday") {
            schedule.monday = Some(reduce_columns(table.as_slice(), i));
        } else if text_eq(day, "tuesday") {
            schedule.tuesday = Some(reduce_columns(table.as_slice(), i));
        } else if text_eq(day, "wednesday") {
            schedule.wednesday = Some(reduce_columns(table.as_slice(), i));
        } else if text_eq(day, "thursday") {
            schedule.thursday = Some(reduce_columns(table.as_slice(), i));
        } else if text_eq(day, "friday") {
            schedule.friday = Some(reduce_columns(table.as_slice(), i));
        }
        i += 1;
    }
    assert(rows[0].len() == table@[0]@.len());
    schedule
}

/// The tables that have a head among the first `n` tables, each as its rows
/// of cells that are not blank. `heads` holds the heads of each table and
/// `tables` its rows; a table that one of the two does not list has no head.
pub open spec fn headed_tables(
    heads: Seq<Seq<Seq<Seq<char>>>>,
    tables: Seq<Seq<Seq<Seq<Seq<char>>>>>,
    n: nat,
) -> Seq<Seq<Seq<Seq<char>>>>
    decreases n,
{
    if n == 0 {
        Seq::empty()
    } else {
        let before = headed_tables(heads, tables, (n - 1) as nat);
        if n <= heads.len() && n <= tables.len() && heads[n - 1].len() > 0 {
            before.push(table_cells(tables[n - 1]))
        } else {
            before
        }
    }
}

/// The weeks that the first `n` paragraphs name: each paragraph in which
/// `week of` stands gives a date.
pub open spec fn week_dates(paragraphs: Seq<Seq<char>>, n: nat) -> Seq<Date>
    decreases n,
{
    if n == 0 {
        Seq::empty()
    } else {
        let before = week_dates(paragraphs, (n - 1) as nat);
        if n <= paragraphs.len() && occurs_in("week of"@, paragraphs[n - 1]) {
            before.push(date_of_lowercase(lowercase(paragraphs[n - 1])))
        } else {
            before
        }
    }
}

/// The schedules of the first `n` tables, each with the date of the same
/// place; a table without a row gives none.
pub open spec fn paired(tables: Seq<Seq<Seq<Seq<char>>>>, dates: Seq<Date>, n: nat) -> Seq<FoodTruckScheduleView>
    decreases n,
{
    if n == 0 {
        Seq::empty()
    } else {
        let before = paired(tables, dates, (n - 1) as nat);
        if n <= tables.len() && n <= dates.len() && tables[n - 1].len() > 0 {
            before.push(schedule_of(dates[n - 1], tables[n - 1]))
        } else {
            before
        }
    }
}

/// The lesser of two lengths.
pub open spec fn lesser(a: nat, b: nat) -> nat {
    if a <= b {
        a
    } else {
        b
    }
}

/// The schedules of a page, given the heads of its tables, the cells of the
/// rows of its tables and its paragraphs.
pub open spec fn schedules_of(
    heads: Seq<Seq<Seq<Seq<char>>>>,
    tables: Seq<Seq<Seq<Seq<Seq<char>>>>>,
    paragraphs: Seq<Seq<char>>,
) -> Seq<FoodTruckScheduleView> {
    let kept = headed_tables(heads, tables, tables.len());
    let dates = week_dates(paragraphs, paragraphs.len());
    paired(kept, dates, lesser(kept.len(), dates.len()))
}

/// The schedules as mathematical values.
pub open spec fn schedule_views(schedules: Seq<FoodTruckSchedule>) -> Seq<FoodTruckScheduleView> {
    schedules.map_values(|s: FoodTruckSchedule| s@)
}

/// The cells of a row that are not blank.
fn clean_row(row: &Vec<Vec<String>>) -> (cells: Vec<String>)
    ensures
        views(cells@) == row_cells(texts2(row@)),
{
    let ghost all = texts2(row@).map_values(|cell: Seq<Seq<char>>| cell_or_unknown(cell));
    let mut cells: Vec<String> = Vec::new();
    let mut i: usize = 0;
    assert(views(cells@) =~= all.take(0).filter(|text: Seq<char>| !blank(text)));
    while i < row.len()
        invariant
            i <= row@.len(),
            all == texts2(row@).map_values(|cell: Seq<Seq<char>>| cell_or_unknown(cell)),
            views(cells@) == all.take(i as int).filter(|text: Seq<char>| !blank(text)),
        decreases row@.len() - i,
    {
        let text = if row[i].len() > 0 {
            row[i][0].clone()
        } else {
            String::from_str("unknown")
        };
        proof {
            assert(all.take(i + 1).drop_last() =~= all.take(i as int));
            assert(all.take(i + 1).last() == text@);
            reveal(Seq::filter);
        }
        let ghost before = views(cells@);
        if !trim(text.as_str()).is_empty() {
            cells.push(text);
            assert(views(cells@) =~= before.push(all[i as int]));
        }
        i += 1;
    }
    assert(all.take(row@.len() as int) =~= all);
    cells
}

/// The rows of a table, each as its cells that are not blank.
fn clean_table(table: &Vec<Vec<Vec<String>>>) -> (rows: Vec<Vec<String>>)
    ensures
        texts2(rows@) == table_cells(texts3(table@)),
{
    let mut rows: Vec<Vec<String>> = Vec::new();
    let mut i: usize = 0;
    while i < table.len()
        invariant
            i <= table@.len(),
            rows@.len() == i,
            forall|k: int| 0 <= k < i ==> views((#[trigger] rows@[k])@) == row_cells(texts2(table@[k]@)),
        decreases table@.len() - i,
    {
        rows.push(clean_row(&table[i]));
        i += 1;
    }
    assert(texts2(rows@) =~= table_cells(texts3(table@)));
    rows
}

/// Makes the schedules of a page out of what was read from it: the heads of
/// its tables, the cells of the rows of its tables, and its paragraphs.
pub fn build_schedules(
    heads: &Vec<Vec<Vec<String>>>,
    tables: &Vec<Vec<Vec<Vec<String>>>>,
    paragraphs: &Vec<String>,
) -> (schedules: Vec<FoodTruckSchedule>)
    ensures
        schedule_views(schedules@) == schedules_of(texts3(heads@), texts4(tables@), texts1(paragraphs@)),
{
    let mut kept: Vec<Vec<Vec<String>>> = Vec::new();
    let mut i: usize = 0;
    assert(texts3(kept@) =~= headed_tables(texts3(heads@), texts4(tables@), 0));
    while i < tables.len()
        invariant
            i <= tables@.len(),
            texts3(kept@) == headed_tables(texts3(heads@), texts4(tables@), i as nat),
        decreases tables@.len() - i,
    {
        let ghost before = texts3(kept@);
        if i < heads.len() && heads[i].len() > 0 {
            let rows = clean_table(&tables[i]);
            kept.push(rows);
            assert(texts3(kept@) =~= before.push(table_cells(texts4(tables@)[i as int])));
        }
        i += 1;
    }
    let mut dates: Vec<Date> = Vec::new();
    let mut p: usize = 0;
    while p < paragraphs.len()
        invariant
            p <= paragraphs@.len(),
            dates@ == week_dates(texts1(paragraphs@), p as nat),
        decreases paragraphs@.len() - p,
    {
        if contains(paragraphs[p].as_str(), "week of") {
            dates.push(paragraph_to_date(paragraphs[p].as_str()));
        }
        p += 1;
    }
    let mut schedules: Vec<FoodTruckSchedule> = Vec::new();
    let mut k: usize = 0;
    assert(schedule_views(schedules@) =~= paired(texts3(kept@), dates@, 0));
    while k < kept.len() && k < dates.len()
        invariant
            k <= kept@.len(),
            k <= dates@.len(),
            schedule_views(schedules@) == paired(texts3(kept@), dates@, k as nat),
        decreases kept@.len() - k,
    {
        let ghost before = schedule_views(schedules@);
        if kept[k].len() > 0 {
            let schedule = build_schedule(dates[k], &kept[k]);
            schedules.push(schedule);
            assert(schedule_views(schedules@) =~= before.push(schedule_of(dates@[k as int], texts3(kept@)[k as int])));
        }
        k += 1;
    }
    schedules
}

/// Reads the schedules from the text of a page.
pub fn process_schedules(data: &str) -> (schedules: Vec<FoodTruckSchedule>)
    ensures
        schedule_views(schedules@) == (match (
            selected_within(data@, "table"@, "thead"@),
            selected_nested(data@, "table"@, "tr"@, "th, td"@),
            selected_html(data@, "p"@),
        ) {
            (Some(heads), Some(tables), Some(paragraphs)) => schedules_of(heads, tables, paragraphs),
            _ => Seq::empty(),
        }),
{
    match (select_within(data, "table", "thead"), select_nested(data, "table", "tr", "th, td"), select_html(data, "p")) {
        (Some(heads), Some(tables), Some(paragraphs)) => build_schedules(&heads, &tables, &paragraphs),
        _ => {
            let schedules: Vec<FoodTruckSchedule> = Vec::new();
            assert(schedule_views(schedules@) =~= Seq::<FoodTruckScheduleView>::empty());
            schedules
        },
    }
}

/// The number of the day `day` of the month `month` of the year `year`,
/// counted from the first day of the year 1 as 1, as the `chrono` crate
/// counts; `None` where there is no such day.
pub uninterp spec fn day_number(year: i32, month: u32, day: u32) -> Option<i64>;

/// Calls `NaiveDate::from_ymd_opt` and `Datelike::num_days_from_ce` of the
/// `chrono` crate. The result depends on the three numbers alone and is
/// named `day_number`.
#[verifier::external_body]
fn days_from_ce(year: i32, month: u32, day: u32) -> (number: Option<i64>)
    ensures
        number == day_number(year, month, day),
{
    NaiveDate::from_ymd_opt(year, month, day).map(|date| i64::from(date.num_days_from_ce()))
}

/// The days on which the first `n` schedules begin, as numbers; `None`
/// where one of them begins on a day that does not exist.
pub open spec fn begin_days(schedules: Seq<FoodTruckSchedule>, n: nat) -> Option<Seq<i64>>
    decreases n,
{
    if n == 0 {
        Some(Seq::empty())
    } else {
        let date = schedules[n - 1].date;
        match (begin_days(schedules, (n - 1) as nat), day_number(date.year, date.month, date.day)) {
            (Some(before), Some(number)) => Some(before.push(number)),
            _ => None,
        }
    }
}

/// Picks the schedule to show on the day `today`: the first whose week
/// began fewer than five days ago and begins in fewer than two; without one,
/// the first of all where it lies ahead and else the last. Without a
/// schedule, or with a day that does not exist, none is picked.
pub fn pick_schedule(schedules: &Vec<FoodTruckSchedule>, today: Date) -> (best: Option<usize>)
    ensures
        match (begin_days(schedules@, schedules@.len()), day_number(today.year, today.month, today.day)) {
            (Some(begins), Some(today)) => match best_of(begins, today) {
                Some(i) => best == Some(i as usize),
                None => best is None,
            },
            _ => best is None,
        },
        best is Some ==> best->Some_0 < schedules@.len(),
{
    let mut begins: Vec<i64> = Vec::new();
    let mut i: usize = 0;
    while i < schedules.len()
        invariant
            i <= schedules@.len(),
            begins@.len() == i,
            begin_days(schedules@, i as nat) == Some(begins@),
        decreases schedules@.len() - i,
    {
        let date = schedules[i].date;
        match days_from_ce(date.year, date.month, date.day) {
            Some(number) => {
                begins.push(number);
            },
            None => {
                proof {
                    lemma_begin_days_stay_none(schedules@, i as nat + 1, schedules@.len());
                }
                return None;
            },
        }
        i += 1;
    }
    match days_from_ce(today.year, today.month, today.day) {
        Some(today) => pick_best_schedule(&begins, today),
        None => None,
    }
}

/// Once a day does not exist, the days of more schedules do not either.
proof fn lemma_begin_days_stay_none(schedules: Seq<FoodTruckSchedule>, n: nat, m: nat)
    requires
        n <= m,
        begin_days(schedules, n) is None,
    ensures
        begin_days(schedules, m) is None,
    decreases m - n,
{
    if n < m {
        lemma_begin_days_stay_none(schedules, n, (m - 1) as nat);
    }
}

/// The trucks of a day as they are shown, or a note where none are known.
pub fn trucks_text(trucks: &Option<String>) -> (text: String)
    ensures
        text@ == (match trucks {
            Some(trucks) => trucks@,
            None => "Unknown/Closed"@,
        }),
{
    match trucks {
        Some(trucks) => trucks.clone(),
        None => String::from_str("Unknown/Closed"),
    }
}

} // verus!
