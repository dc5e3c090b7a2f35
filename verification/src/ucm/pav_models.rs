//! The dining hall: its menu as the menu service gives it, and its meal
//! times.

use vstd::prelude::*;
use crate::text::{contains, lowercase, occurs_in, text_eq, to_lowercase};

verus! {

/// A day of the week.
#[derive(PartialEq, Eq, Structural, Clone, Copy, Debug)]
pub enum Day {
    Sunday,
    Monday,
    Tuesday,
    Wednesday,
    Thursday,
    Friday,
    Saturday,
}

/// A meal of the day, or whatever else the menu is asked for.
#[derive(PartialEq, Eq, Clone, Debug)]
pub enum Meal {
    Breakfast,
    Lunch,
    Dinner,
    /// Some other category of the menu, to be searched for by this text.
    Other(String),
}

impl Day {
    /// The day with the given number, counted from Sunday as 0.
    pub open spec fn of_number(v: int) -> Option<Day> {
        if v == 0 {
            Some(Day::Sunday)
        } else if v == 1 {
            Some(Day::Monday)
        } else if v == 2 {
            Some(Day::Tuesday)
        } else if v == 3 {
            Some(Day::Wednesday)
        } else if v == 4 {
            Some(Day::Thursday)
        } else if v == 5 {
            Some(Day::Friday)
        } else if v == 6 {
            Some(Day::Saturday)
        } else {
            None
        }
    }

    /// The number of the day, counted from Sunday as 0.
    pub open spec fn number(self) -> int {
        match self {
            Day::Sunday => 0,
            Day::Monday => 1,
            Day::Tuesday => 2,
            Day::Wednesday => 3,
            Day::Thursday => 4,
            Day::Friday => 5,
            Day::Saturday => 6,
        }
    }

    /// The day that lowercase text names by its first two letters.
    pub open spec fn of_prefix(lower: Seq<char>) -> Option<Day> {
        if lower.len() < 2 {
            None
        } else if lower[0] == 's' && lower[1] == 'u' {
            Some(Day::Sunday)
        } else if lower[0] == 'm' && lower[1] == 'o' {
            Some(Day::Monday)
        } else if lower[0] == 't' && lower[1] == 'u' {
            Some(Day::Tuesday)
        } else if lower[0] == 'w' && lower[1] == 'e' {
            Some(Day::Wednesday)
        } else if lower[0] == 't' && lower[1] == 'h' {
            Some(Day::Thursday)
        } else if lower[0] == 'f' && lower[1] == 'r' {
            Some(Day::Friday)
        } else if lower[0] == 's' && lower[1] == 'a' {
            Some(Day::Saturday)
        } else {
            None
        }
    }

    /// The name of the day.
    pub open spec fn name(self) -> Seq<char> {
        match self {
            Day::Sunday => "Sunday"@,
            Day::Monday => "Monday"@,
            Day::Tuesday => "Tuesday"@,
            Day::Wednesday => "Wednesday"@,
            Day::Thursday => "Thursday"@,
            Day::Friday => "Friday"@,
            Day::Saturday => "Saturday"@,
        }
    }

    /// The day with the number `v`, counted from Sunday as 0, or an error
    /// where `v` is over 6.
    pub fn try_from(v: u32) -> (day: Result<Day, ()>)
        ensures
            day == (match Self::of_number(v as int) {
                Some(day) => Ok::<Day, ()>(day),
                None => Err::<Day, ()>(()),
            }),
    {
        match v {
            0 => Ok(Day::Sunday),
            1 => Ok(Day::Monday),
            2 => Ok(Day::Tuesday),
            3 => Ok(Day::Wednesday),
            4 => Ok(Day::Thursday),
            5 => Ok(Day::Friday),
            6 => Ok(Day::Saturday),
            _ => Err(()),
        }
    }

    /// The day that `lower`, text in lowercase, names by its first two
    /// letters, or an error where it names none.
    pub fn from_lowercase(lower: &str) -> (day: Result<Day, ()>)
        ensures
            day == (match Self::of_prefix(lower@) {
                Some(day) => Ok::<Day, ()>(day),
                None => Err::<Day, ()>(()),
            }),
    {
        if lower.unicode_len() < 2 {
            return Err(());
        }
        let a = lower.get_char(0);
        let b = lower.get_char(1);
        if a == 's' && b == 'u' {
            Ok(Day::Sunday)
        } else if a == 'm' && b == 'o' {
            Ok(Day::Monday)
        } else if a == 't' && b == 'u' {
            Ok(Day::Tuesday)
        } else if a == 'w' && b == 'e' {
            Ok(Day::Wednesday)
        } else if a == 't' && b == 'h' {
            Ok(Day::Thursday)
        } else if a == 'f' && b == 'r' {
            Ok(Day::Friday)
        } else if a == 's' && b == 'a' {
            Ok(Day::Saturday)
        } else {
            Err(())
        }
    }

    /// The day that `text` names by its first two letters, whatever their
    /// case.
    pub fn from_name(text: &str) -> (day: Result<Day, ()>)
        ensures
            day == (match Self::of_prefix(lowercase(text@)) {
                Some(day) => Ok::<Day, ()>(day),
                None => Err::<Day, ()>(()),
            }),
    {
        let lower = to_lowercase(text);
        Self::from_lowercase(lower.as_str())
    }

    /// The day after this one.
    pub fn succ(self) -> (next: Day)
        ensures
            Some(next) == Self::of_number((self.number() + 1) % 7),
    {
        match self {
            Day::Sunday => Day::Monday,
            Day::Monday => Day::Tuesday,
            Day::Tuesday => Day::Wednesday,
            Day::Wednesday => Day::Thursday,
            Day::Thursday => Day::Friday,
            Day::Friday => Day::Saturday,
            Day::Saturday => Day::Sunday,
        }
    }

    /// The name of the day as text.
    pub fn to_text(&self) -> (text: String)
        ensures
            text@ == self.name(),
    {
        String::from_str(
            match self {
                Day::Sunday => "Sunday",
                Day::Monday => "Monday",
                Day::Tuesday => "Tuesday",
                Day::Wednesday => "Wednesday",
                Day::Thursday => "Thursday",
                Day::Friday => "Friday",
                Day::Saturday => "Saturday",
            },
        )
    }
}

/// A meal as a mathematical value.
pub enum MealView {
    Breakfast,
    Lunch,
    Dinner,
    Other(Seq<char>),
}

impl View for Meal {
    type V = MealView;

    open spec fn view(&self) -> MealView {
        match self {
            Meal::Breakfast => MealView::Breakfast,
            Meal::Lunch => MealView::Lunch,
            Meal::Dinner => MealView::Dinner,
            Meal::Other(text) => MealView::Other(text@),
        }
    }
}

impl Meal {
    /// The meal that lowercase text names; other text is kept as it is.
    pub open spec fn of_lowercase(lower: Seq<char>) -> MealView {
        if lower == "breakfast"@ {
            MealView::Breakfast
        } else if lower == "lunch"@ {
            MealView::Lunch
        } else if lower == "dinner"@ {
            MealView::Dinner
        } else {
            MealView::Other(lower)
        }
    }

    /// The text by which the meal is found on the menu.
    pub open spec fn name(meal: MealView) -> Seq<char> {
        match meal {
            MealView::Breakfast => "Breakfast"@,
            MealView::Lunch => "Lunch"@,
            MealView::Dinner => "Dinner"@,
            MealView::Other(text) => text,
        }
    }

    /// The meal that `lower`, text in lowercase, names.
    pub fn from_lowercase(lower: String) -> (meal: Meal)
        ensures
            meal@ == Self::of_lowercase(lower@),
    {
        if text_eq(lower.as_str(), "breakfast") {
            Meal::Breakfast
        } else if text_eq(lower.as_str(), "lunch") {
            Meal::Lunch
        } else if text_eq(lower.as_str(), "dinner") {
            Meal::Dinner
        } else {
            Meal::Other(lower)
        }
    }

    /// The meal that `text` names, whatever its case.
    pub fn from_text(text: &str) -> (meal: Meal)
        ensures
            meal@ == Self::of_lowercase(lowercase(text@)),
    {
        Self::from_lowercase(to_lowercase(text))
    }

    /// The text by which the meal is found on the menu.
    pub fn to_text(&self) -> (text: String)
        ensures
            text@ == Self::name(self@),
    {
        match self {
            Meal::Breakfast => String::from_str("Breakfast"),
            Meal::Lunch => String::from_str("Lunch"),
            Meal::Dinner => String::from_str("Dinner"),
            Meal::Other(text) => text.clone(),
        }
    }
}

/// What the menu service can answer with.
pub trait PavData {

}

/// An answer of the menu service.
#[derive(Debug)]
pub struct PavResult<T> {
    pub code: u16,
    pub message: String,
    pub data: T,
}

/// The place of a company.
#[derive(Debug)]
pub struct Location {
    pub id: String,
}

/// The company that runs the dining hall.
#[derive(Debug)]
pub struct Company {
    pub id: String,
    pub location_info: Location,
}

/// A group or a category of the menu.
#[derive(PartialEq, Eq, Clone, Debug)]
pub struct Group {
    pub id: String,
    pub name: String,
    pub order: Option<i32>,
}

/// The groups of the menu, one for each day, and its categories, one for
/// each meal.
#[derive(Debug)]
pub struct MenuGroups {
    pub menu_groups: Vec<Group>,
    pub menu_categories: Vec<Group>,
}

/// A dish.
#[derive(PartialEq, Eq, Clone, Debug)]
pub struct Item {
    pub id: String,
    pub name: String,
    pub description: String,
}

/// The dishes of one group and category.
#[derive(Debug)]
pub struct MenuItems {
    pub menu_items: Vec<Item>,
}

/// The place of the first of `texts` in which `needle` occurs.
pub open spec fn first_hit(texts: Seq<Seq<char>>, needle: Seq<char>) -> Option<int>
    decreases texts.len(),
{
    if texts.len() == 0 {
        None
    } else if occurs_in(needle, texts[0]) {
        Some(0)
    } else {
        match first_hit(texts.drop_first(), needle) {
            Some(i) => Some(i + 1),
            None => None,
        }
    }
}

/// The names of the groups in lowercase.
pub open spec fn lowered_names(groups: Seq<Group>) -> Seq<Seq<char>> {
    groups.map_values(|g: Group| lowercase(g.name@))
}

/// The id of the first group whose name in lowercase holds `needle`.
pub open spec fn found_id(groups: Seq<Group>, needle: Seq<char>) -> Option<Seq<char>> {
    match first_hit(lowered_names(groups), needle) {
        Some(i) => Some(groups[i].id@),
        None => None,
    }
}

/// The first hit is a hit, and nothing before it is.
pub proof fn lemma_first_hit(texts: Seq<Seq<char>>, needle: Seq<char>)
    ensures
        match first_hit(texts, needle) {
            Some(i) => 0 <= i < texts.len() && occurs_in(needle, texts[i]) && forall|j: int|
                0 <= j < i ==> !occurs_in(needle, #[trigger] texts[j]),
            None => forall|j: int| 0 <= j < texts.len() ==> !occurs_in(needle, #[trigger] texts[j]),
        },
    decreases texts.len(),
{
    if texts.len() > 0 && !occurs_in(needle, texts[0]) {
        let rest = texts.drop_first();
        lemma_first_hit(rest, needle);
        match first_hit(rest, needle) {
            Some(i) => {
                assert(texts[i + 1] == rest[i]);
                assert forall|j: int| 0 <= j < i + 1 implies !occurs_in(needle, #[trigger] texts[j]) by {
                    if j > 0 {
                        assert(texts[j] == rest[j - 1]);
                    }
                }
            },
            None => {
                assert forall|j: int| 0 <= j < texts.len() implies !occurs_in(needle, #[trigger] texts[j]) by {
                    if j > 0 {
                        assert(texts[j] == rest[j - 1]);
                    }
                }
            },
        }
    }
}

/// Finds the first of `texts` in which `needle` occurs.
pub fn find_containing(texts: &Vec<String>, needle: &str) -> (hit: Option<usize>)
    ensures
        match first_hit(texts@.map_values(|t: String| t@), needle@) {
            Some(i) => hit == Some(i as usize),
            None => hit is None,
        },
{
    let ghost views = texts@.map_values(|t: String| t@);
    let mut i: usize = 0;
    assert(views.skip(0) =~= views);
    while i < texts.len()
        invariant
            i <= texts@.len(),
            views == texts@.map_values(|t: String| t@),
            match first_hit(views.skip(i as int), needle@) {
                Some(k) => first_hit(views, needle@) == Some(k + i),
                None => first_hit(views, needle@) is None,
            },
        decreases texts@.len() - i,
    {
        proof {
            let rest = views.skip(i as int);
            assert(rest[0] == texts@[i as int]@);
            assert(rest.drop_first() =~= views.skip(i + 1));
        }
        if contains(texts[i].as_str(), needle) {
            return Some(i);
        }
        i += 1;
    }
    None
}

impl MenuGroups {
    /// Looks for the first group whose name holds `query`, whatever the case
    /// of either, and gives its id.
    pub fn search(array: &[Group], query: &str) -> (id: Option<String>)
        ensures
            match found_id(array@, lowercase(query@)) {
                Some(found) => id is Some && id->Some_0@ == found,
                None => id is None,
            },
    {
        let query_lower = to_lowercase(query);
        let mut names: Vec<String> = Vec::new();
        let mut i: usize = 0;
        while i < array.len()
            invariant
                i <= array@.len(),
                names@.len() == i,
                forall|j: int| 0 <= j < i ==> (#[trigger] names@[j])@ == lowercase(array@[j].name@),
            decreases array@.len() - i,
        {
            names.push(to_lowercase(array[i].name.as_str()));
            i += 1;
        }
        proof {
            assert(names@.map_values(|t: String| t@) =~= lowered_names(array@));
            lemma_first_hit(lowered_names(array@), lowercase(query@));
        }
        match find_containing(&names, query_lower.as_str()) {
            Some(i) => Some(array[i].id.clone()),
            None => None,
        }
    }

    /// The id of the menu group of a day.
    pub fn get_group(&self, day: Day) -> (id: Option<String>)
        ensures
            match found_id(self.menu_groups@, lowercase(day.name())) {
                Some(found) => id is Some && id->Some_0@ == found,
                None => id is None,
            },
    {
        let name = day.to_text();
        MenuGroups::search(self.menu_groups.as_slice(), name.as_str())
    }

    /// The id of the menu category of a meal.
    pub fn get_category(&self, meal: Meal) -> (id: Option<String>)
        ensures
            match found_id(self.menu_categories@, lowercase(Meal::name(meal@))) {
                Some(found) => id is Some && id->Some_0@ == found,
                None => id is None,
            },
    {
        let name = meal.to_text();
        MenuGroups::search(self.menu_categories.as_slice(), name.as_str())
    }
}

/// A time of the day.
#[derive(PartialEq, Eq, Structural, Clone, Copy, Debug)]
pub struct TimeOfDay {
    pub hour: u32,
    pub minute: u32,
    pub second: u32,
}

/// A span of the day, from its start up to its end.
#[derive(PartialEq, Eq, Structural, Clone, Copy, Debug)]
pub struct TimeRange {
    pub start: TimeOfDay,
    pub end: TimeOfDay,
}

impl TimeOfDay {
    /// The seconds since midnight.
    pub open spec fn seconds(self) -> int {
        self.hour * 3600 + self.minute * 60 + self.second
    }

    /// The time at `hour`, `minute` and `second`.
    pub fn from_hms(hour: u32, minute: u32, second: u32) -> (time: TimeOfDay)
        ensures
            time == (TimeOfDay { hour, minute, second }),
    {
        TimeOfDay { hour, minute, second }
    }

    /// Whether this time comes before `other`.
    pub fn is_before(&self, other: &TimeOfDay) -> (yes: bool)
        ensures
            yes == (self.seconds() < other.seconds()),
    {
        self.since_midnight() < other.since_midnight()
    }

    /// The seconds since midnight.
    fn since_midnight(&self) -> (seconds: u64)
        ensures
            seconds == self.seconds(),
    {
        self.hour as u64 * 3600 + self.minute as u64 * 60 + self.second as u64
    }
}

/// The meal times of the dining hall.
pub struct PavilionTime;

impl PavilionTime {
    pub fn breakfast_weekday_start() -> (time: TimeOfDay)
        ensures
            time == (TimeOfDay { hour: 7, minute: 0, second: 0 }),
    {
        TimeOfDay::from_hms(7, 0, 0)
    }

    pub fn breakfast_weekend_start() -> (time: TimeOfDay)
        ensures
            time == (TimeOfDay { hour: 9, minute: 0, second: 0 }),
    {
        TimeOfDay::from_hms(9, 0, 0)
    }

    pub fn breakfast_end() -> (time: TimeOfDay)
        ensures
            time == (TimeOfDay { hour: 10, minute: 30, second: 0 }),
    {
        TimeOfDay::from_hms(10, 30, 0)
    }

    pub fn breakfast_weekday() -> (span: TimeRange)
        ensures
            span == (TimeRange {
                start: TimeOfDay { hour: 7, minute: 0, second: 0 },
                end: TimeOfDay { hour: 10, minute: 30, second: 0 },
            }),
    {
        TimeRange { start: PavilionTime::breakfast_weekday_start(), end: PavilionTime::breakfast_end() }
    }

    pub fn breakfast_weekend() -> (span: TimeRange)
        ensures
            span == (TimeRange {
                start: TimeOfDay { hour: 9, minute: 0, second: 0 },
                end: TimeOfDay { hour: 10, minute: 30, second: 0 },
            }),
    {
        TimeRange { start: PavilionTime::breakfast_weekend_start(), end: PavilionTime::breakfast_end() }
    }

    pub fn lunch_start() -> (time: TimeOfDay)
        ensures
            time == (TimeOfDay { hour: 11, minute: 0, second: 0 }),
    {
        TimeOfDay::from_hms(11, 0, 0)
    }

    pub fn lunch_end() -> (time: TimeOfDay)
        ensures
            time == (TimeOfDay { hour: 15, minute: 0, second: 0 }),
    {
        TimeOfDay::from_hms(15, 0, 0)
    }

    pub fn lunch() -> (span: TimeRange)
        ensures
            span == (TimeRange {
                start: TimeOfDay { hour: 11, minute: 0, second: 0 },
                end: TimeOfDay { hour: 15, minute: 0, second: 0 },
            }),
    {
        TimeRange { start: PavilionTime::lunch_start(), end: PavilionTime::lunch_end() }
    }

    pub fn dinner_start() -> (time: TimeOfDay)
        ensures
            time == (TimeOfDay { hour: 16, minute: 0, second: 0 }),
    {
        TimeOfDay::from_hms(16, 0, 0)
    }

    pub fn dinner_end() -> (time: TimeOfDay)
        ensures
            time == (TimeOfDay { hour: 21, minute: 0, second: 0 }),
    {
        TimeOfDay::from_hms(21, 0, 0)
    }

    pub fn dinner() -> (span: TimeRange)
        ensures
            span == (TimeRange {
                start: TimeOfDay { hour: 16, minute: 0, second: 0 },
                end: TimeOfDay { hour: 21, minute: 0, second: 0 },
            }),
    {
        TimeRange { start: PavilionTime::dinner_start(), end: PavilionTime::dinner_end() }
    }

    /// The meal that is served next at this time of this day: before the end
    /// of breakfast that breakfast, before the end of lunch that lunch,
    /// before the end of dinner that dinner, and after that the breakfast of
    /// the day after.
    pub open spec fn spec_next_meal(day: Day, time: TimeOfDay) -> (Day, MealView) {
        if time.seconds() < 10 * 3600 + 30 * 60 {
            (day, MealView::Breakfast)
        } else if time.seconds() < 15 * 3600 {
            (day, MealView::Lunch)
        } else if time.seconds() < 21 * 3600 {
            (day, MealView::Dinner)
        } else {
            (Day::of_number((day.number() + 1) % 7)->Some_0, MealView::Breakfast)
        }
    }

    /// The meal that is served next at the time `time` of the day `day`.
    pub fn next_meal(day: Day, time: TimeOfDay) -> (next: (Day, Meal))
        ensures
            (next.0, next.1@) == Self::spec_next_meal(day, time),
    {
        if time.is_before(&PavilionTime::breakfast_end()) {
            (day, Meal::Breakfast)
        } else if time.is_before(&PavilionTime::lunch_end()) {
            (day, Meal::Lunch)
        } else if time.is_before(&PavilionTime::dinner_end()) {
            (day, Meal::Dinner)
        } else {
            (day.succ(), Meal::Breakfast)
        }
    }
}

} // verus!
