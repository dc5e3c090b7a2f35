//! Asking for the menu of the dining hall: what is asked for, and how the
//! answer reads.

use vstd::prelude::*;
use crate::text::{contains, decimal, join, joined, lowercase, occurs_in, to_lowercase, u64_to_string, views};
use crate::ucm::pav_models::{Day, Group, Item, Meal, MealView, PavilionTime, TimeOfDay};

verus! {

/// What is asked of the dining hall.
#[derive(PartialEq, Eq, Clone, Debug)]
pub enum PavilionRequest {
    /// The meal times.
    Times,
    /// The menu of a meal of a day, under this heading.
    Menu { day: Day, meal: Meal, title: String },
}

/// A request as a mathematical value.
pub enum PavilionRequestView {
    Times,
    Menu { day: Day, meal: MealView, title: Seq<char> },
}

impl View for PavilionRequest {
    type V = PavilionRequestView;

    open spec fn view(&self) -> PavilionRequestView {
        match self {
            PavilionRequest::Times => PavilionRequestView::Times,
            PavilionRequest::Menu { day, meal, title } => PavilionRequestView::Menu {
                day: *day,
                meal: meal@,
                title: title@,
            },
        }
    }
}

/// Whether a single word asks for the meal times.
pub open spec fn asks_times(word: Seq<char>) -> bool {
    occurs_in("time"@, lowercase(word)) || occurs_in("hour"@, lowercase(word))
}

/// The day that is asked for after the first `n` words: the last day that a
/// word names, else the day given.
pub open spec fn day_asked(words: Seq<Seq<char>>, n: nat, day: Day) -> Day
    decreases n,
{
    if n == 0 {
        day
    } else {
        match Day::of_prefix(lowercase(words[n - 1])) {
            Some(named) => named,
            None => day_asked(words, (n - 1) as nat, day),
        }
    }
}

/// The words among the first `n` that name no day, with a blank between each
/// two: the meal that is asked for.
pub open spec fn meal_asked(words: Seq<Seq<char>>, n: nat) -> Seq<char>
    decreases n,
{
    if n == 0 {
        Seq::empty()
    } else {
        let before = meal_asked(words, (n - 1) as nat);
        if Day::of_prefix(lowercase(words[n - 1])) is Some {
            before
        } else if before.len() == 0 {
            words[n - 1]
        } else {
            before + " "@ + words[n - 1]
        }
    }
}

/// The heading over a menu: the meal and the day; a meal that is none of the
/// three is not named.
pub open spec fn title_text(meal: MealView, day: Day) -> Seq<char> {
    (match meal {
        MealView::Other(_) => "Custom Category"@,
        _ => Meal::name(meal),
    }) + " at the Pavilion for "@ + day.name()
}

/// What the words ask of the dining hall, when `day` and `meal` are what is
/// served next.
pub open spec fn request_of(words: Seq<Seq<char>>, day: Day, meal: MealView) -> PavilionRequestView {
    if words.len() == 1 && asks_times(words[0]) {
        PavilionRequestView::Times
    } else {
        let day = day_asked(words, words.len(), day);
        let custom = meal_asked(words, words.len());
        let meal = if custom.len() == 0 {
            meal
        } else {
            Meal::of_lowercase(lowercase(custom))
        };
        PavilionRequestView::Menu { day, meal, title: title_text(meal, day) }
    }
}

/// Writes the heading over a menu.
pub fn menu_title(meal: &Meal, day: Day) -> (title: String)
    ensures
        title@ == title_text(meal@, day),
{
    let mut title = match meal {
        Meal::Other(_) => String::from_str("Custom Category"),
        _ => meal.to_text(),
    };
    title.append(" at the Pavilion for ");
    let name = day.to_text();
    title.append(name.as_str());
    title
}

/// Reads what the words ask of the dining hall, when `day` and `meal` are
/// what is served next.
pub fn read_request(words: &Vec<String>, day: Day, meal: Meal) -> (request: PavilionRequest)
    ensures
        request@ == request_of(views(words@), day, meal@),
{
    if words.len() == 1 {
        let lower = to_lowercase(words[0].as_str());
        if contains(lower.as_str(), "time") || contains(lower.as_str(), "hour") {
            return PavilionRequest::Times;
        }
    }
    let mut asked_day = day;
    let mut custom = String::new();
    let mut i: usize = 0;
    while i < words.len()
        invariant
            i <= words@.len(),
            asked_day == day_asked(views(words@), i as nat, day),
            custom@ == meal_asked(views(words@), i as nat),
        decreases words@.len() - i,
    {
        assert(views(words@)[i as int] == words@[i as int]@);
        match Day::from_name(words[i].as_str()) {
            Ok(named) => {
                asked_day = named;
            },
            Err(_) => {
                if !custom.as_str().is_empty() {
                    custom.append(" ");
                }
                custom.append(words[i].as_str());
                proof {
                    if meal_asked(views(words@), i as nat).len() == 0 {
                        assert(custom@ =~= words@[i as int]@);
                    }
                }
            },
        }
        i += 1;
    }
    let meal = if custom.as_str().is_empty() {
        meal
    } else {
        Meal::from_text(custom.as_str())
    };
    let title = menu_title(&meal, asked_day);
    PavilionRequest::Menu { day: asked_day, meal, title }
}

/// The line of a dish: its name in bold, a dash and what it is.
pub open spec fn item_line(item: Item) -> Seq<char> {
    "**"@ + item.name@ + "** - "@ + item.description@
}

/// A menu as text.
pub open spec fn menu_text(items: Seq<Item>) -> Seq<char> {
    if items.len() == 0 {
        "There is nothing on the menu?"@
    } else {
        joined(items.map_values(|i: Item| item_line(i)), "\n"@)
    }
}

/// Writes a menu, one line for each dish.
pub fn print_menu(items: &Vec<Item>) -> (text: String)
    ensures
        text@ == menu_text(items@),
{
    if items.len() == 0 {
        return String::from_str("There is nothing on the menu?");
    }
    let mut lines: Vec<String> = Vec::new();
    let mut i: usize = 0;
    while i < items.len()
        invariant
            i <= items@.len(),
            lines@.len() == i,
            forall|k: int| 0 <= k < i ==> (#[trigger] lines@[k])@ == item_line(items@[k]),
        decreases items@.len() - i,
    {
        let mut line = String::from_str("**");
        line.append(items[i].name.as_str());
        line.append("** - ");
        line.append(items[i].description.as_str());
        lines.push(line);
        i += 1;
    }
    assert(views(lines@) =~= items@.map_values(|i: Item| item_line(i)));
    join(&lines, "\n")
}

/// The names of the categories, each in quotes, with a comma and a blank
/// between each two.
pub open spec fn categories_text(categories: Seq<Group>) -> Seq<char> {
    if categories.len() == 0 {
        "None (?)"@
    } else {
        joined(categories.map_values(|g: Group| "\""@ + g.name@ + "\""@), ", "@)
    }
}

/// What is said where the menu has no category for the meal asked for.
pub fn unknown_meal(categories: &Vec<Group>) -> (text: String)
    ensures
        text@ == "Could not find the given meal! Categories available: "@ + categories_text(categories@),
{
    let mut text = String::from_str("Could not find the given meal! Categories available: ");
    if categories.len() == 0 {
        text.append("None (?)");
        return text;
    }
    let mut names: Vec<String> = Vec::new();
    let mut i: usize = 0;
    while i < categories.len()
        invariant
            i <= categories@.len(),
            names@.len() == i,
            forall|k: int| 0 <= k < i ==> (#[trigger] names@[k])@ == "\""@ + categories@[k].name@ + "\""@,
        decreases categories@.len() - i,
    {
        let mut name = String::from_str("\"");
        name.append(categories[i].name.as_str());
        name.append("\"");
        names.push(name);
        i += 1;
    }
    assert(views(names@) =~= categories@.map_values(|g: Group| "\""@ + g.name@ + "\""@));
    let all = join(&names, ", ");
    text.append(all.as_str());
    text
}

/// Where the groups of the menu of a place are asked for.
pub fn groups_url(location_id: &str) -> (url: String)
    ensures
        url@ == "https://widget.api.eagle.bigzpoon.com/locations/menugroups?locationId="@ + location_id@,
{
    let mut url = String::from_str("https://widget.api.eagle.bigzpoon.com/locations/menugroups?locationId=");
    url.append(location_id);
    url
}

/// Two digits for a number under 100.
pub open spec fn two_digits(n: nat) -> Seq<char> {
    decimal(n / 10) + decimal(n % 10)
}

/// A time on the 12-hour clock as a clock shows it: the hour, with a blank
/// before a single digit, the minute in two digits, and AM or PM.
pub open spec fn clock(time: TimeOfDay) -> Seq<char> {
    let hour = if time.hour % 12 == 0 {
        12nat
    } else {
        (time.hour % 12) as nat
    };
    (if hour < 10 {
        " "@
    } else {
        Seq::empty()
    }) + decimal(hour) + ":"@ + two_digits((time.minute % 100) as nat) + (if time.hour % 24 < 12 {
        " AM"@
    } else {
        " PM"@
    })
}

/// Writes a time on the 12-hour clock.
pub fn write_clock(time: TimeOfDay) -> (text: String)
    ensures
        text@ == clock(time),
{
    let hour: u64 = if time.hour % 12 == 0 {
        12
    } else {
        (time.hour % 12) as u64
    };
    let mut text = if hour < 10 {
        String::from_str(" ")
    } else {
        String::new()
    };
    let digits = u64_to_string(hour);
    text.append(digits.as_str());
    text.append(":");
    let minute = (time.minute % 100) as u64;
    let tens = u64_to_string(minute / 10);
    text.append(tens.as_str());
    let ones = u64_to_string(minute % 10);
    text.append(ones.as_str());
    if time.hour % 24 < 12 {
        text.append(" AM");
    } else {
        text.append(" PM");
    }
    assert(text@ =~= clock(time));
    text
}

/// The meal times of a day whose breakfast begins at `breakfast`.
pub open spec fn times_text(breakfast: TimeOfDay) -> Seq<char> {
    "Breakfast: "@ + clock(breakfast) + " - "@ + clock(TimeOfDay { hour: 10, minute: 30, second: 0 }) + "\nLunch: "@
        + clock(TimeOfDay { hour: 11, minute: 0, second: 0 }) + " - "@ + clock(
        TimeOfDay { hour: 15, minute: 0, second: 0 },
    ) + "\nDinner: "@ + clock(TimeOfDay { hour: 16, minute: 0, second: 0 }) + " - "@ + clock(
        TimeOfDay { hour: 21, minute: 0, second: 0 },
    )
}

/// Writes the meal times of weekdays or of the weekend.
pub fn print_times(weekend: bool) -> (text: String)
    ensures
        text@ == times_text(
            if weekend {
                TimeOfDay { hour: 9, minute: 0, second: 0 }
            } else {
                TimeOfDay { hour: 7, minute: 0, second: 0 }
            },
        ),
{
    let breakfast = if weekend {
        PavilionTime::breakfast_weekend_start()
    } else {
        PavilionTime::breakfast_weekday_start()
    };
    let mut text = String::from_str("Breakfast: ");
    let t = write_clock(breakfast);
    text.append(t.as_str());
    text.append(" - ");
    let t = write_clock(PavilionTime::breakfast_end());
    text.append(t.as_str());
    text.append("\nLunch: ");
    let t = write_clock(PavilionTime::lunch_start());
    text.append(t.as_str());
    text.append(" - ");
    let t = write_clock(PavilionTime::lunch_end());
    text.append(t.as_str());
    text.append("\nDinner: ");
    let t = write_clock(PavilionTime::dinner_start());
    text.append(t.as_str());
    text.append(" - ");
    let t = write_clock(PavilionTime::dinner_end());
    text.append(t.as_str());
    assert(text@ =~= times_text(breakfast));
    text
}

} // verus!
