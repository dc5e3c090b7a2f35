//! Reminders for seats in classes: reading what is asked for, and writing
//! what is known.

use vstd::prelude::*;
use crate::number::{i32_value, parse_i32};
use crate::text::{chars_of, i64_to_string, signed_decimal, text_eq, views};
use crate::ucm::courses_db_models::{Class, Reminder};

verus! {

/// Why a reminder could not be read.
#[derive(PartialEq, Eq, Structural, Clone, Copy, Debug)]
pub enum ReminderFault {
    /// Nothing was given.
    Nothing,
    /// The first word is no reference number.
    BadCrn,
    /// The second word is a number under 1.
    TriggerTooLow,
    /// The second word is no number.
    BadTrigger,
    /// The third word is neither `true` nor `false`.
    BadWaitlist,
}

/// What a word says of yes or no: `true` or `false` and nothing else.
pub open spec fn truth_of(word: Seq<char>) -> Option<bool> {
    if word == "true"@ {
        Some(true)
    } else if word == "false"@ {
        Some(false)
    } else {
        None
    }
}

/// The reminder that the words ask for on behalf of `user`: the reference
/// number of the class, then, if given, the number of free seats to wait
/// for, 1 where not given, then, if given, whether seats on the waitlist are
/// meant.
pub open spec fn reminder_of(words: Seq<Seq<char>>, user: u64) -> Result<Reminder, ReminderFault> {
    if words.len() == 0 {
        Err(ReminderFault::Nothing)
    } else if i32_value(words[0]) is None {
        Err(ReminderFault::BadCrn)
    } else if words.len() > 1 && i32_value(words[1]) is None {
        Err(ReminderFault::BadTrigger)
    } else if words.len() > 1 && i32_value(words[1])->Some_0 < 1 {
        Err(ReminderFault::TriggerTooLow)
    } else if words.len() > 2 && truth_of(words[2]) is None {
        Err(ReminderFault::BadWaitlist)
    } else {
        Ok(
            Reminder {
                user_id: user,
                course_reference_number: i32_value(words[0])->Some_0,
                min_trigger: if words.len() > 1 {
                    i32_value(words[1])->Some_0
                } else {
                    1
                },
                for_waitlist: if words.len() > 2 {
                    truth_of(words[2])->Some_0
                } else {
                    false
                },
                triggered: false,
            },
        )
    }
}

/// Reads yes or no.
pub fn parse_bool(word: &str) -> (truth: Option<bool>)
    ensures
        truth == truth_of(word@),
{
    if text_eq(word, "true") {
        Some(true)
    } else if text_eq(word, "false") {
        Some(false)
    } else {
        None
    }
}

/// Reads the reminder that the words ask for on behalf of `user`.
pub fn read_reminder(words: &Vec<String>, user: u64) -> (reminder: Result<Reminder, ReminderFault>)
    ensures
        reminder == reminder_of(views(words@), user),
{
    if words.len() == 0 {
        return Err(ReminderFault::Nothing);
    }
    assert(views(words@)[0] == words@[0]@);
    let crn = match parse_i32(&chars_of(words[0].as_str())) {
        Some(crn) => crn,
        None => {
            return Err(ReminderFault::BadCrn);
        },
    };
    let mut min_trigger: i32 = 1;
    let mut for_waitlist = false;
    if words.len() > 1 {
        assert(views(words@)[1] == words@[1]@);
        match parse_i32(&chars_of(words[1].as_str())) {
            Some(value) => {
                if value < 1 {
                    return Err(ReminderFault::TriggerTooLow);
                }
                min_trigger = value;
            },
            None => {
                return Err(ReminderFault::BadTrigger);
            },
        }
    }
    if words.len() > 2 {
        assert(views(words@)[2] == words@[2]@);
        match parse_bool(words[2].as_str()) {
            Some(value) => {
                for_waitlist = value;
            },
            None => {
                return Err(ReminderFault::BadWaitlist);
            },
        }
    }
    Ok(Reminder { user_id: user, course_reference_number: crn, min_trigger, for_waitlist, triggered: false })
}

/// Yes or no as text.
pub open spec fn truth_text(truth: bool) -> Seq<char> {
    if truth {
        "true"@
    } else {
        "false"@
    }
}

/// What is listed of a reminder.
pub open spec fn reminder_text(reminder: Reminder) -> Seq<char> {
    "Minimum Trigger: `"@ + signed_decimal(reminder.min_trigger as int) + "`\nFor Waitlist: `"@ + truth_text(
        reminder.for_waitlist,
    ) + "`\nTriggered: `"@ + truth_text(reminder.triggered) + "`"@
}

/// Writes what is listed of a reminder.
pub fn list_reminder(reminder: &Reminder) -> (text: String)
    ensures
        text@ == reminder_text(*reminder),
{
    let mut text = String::from_str("Minimum Trigger: `");
    let n = i64_to_string(reminder.min_trigger as i64);
    text.append(n.as_str());
    text.append("`\nFor Waitlist: `");
    text.append(
        if reminder.for_waitlist {
            "true"
        } else {
            "false"
        },
    );
    text.append("`\nTriggered: `");
    text.append(
        if reminder.triggered {
            "true"
        } else {
            "false"
        },
    );
    text.append("`");
    assert(text@ =~= reminder_text(*reminder));
    text
}

/// The heading of a listed reminder.
pub fn reminder_heading(reminder: &Reminder) -> (text: String)
    ensures
        text@ == "CRN "@ + signed_decimal(reminder.course_reference_number as int),
{
    let mut text = String::from_str("CRN ");
    let n = i64_to_string(reminder.course_reference_number as i64);
    text.append(n.as_str());
    text
}

/// Two counts with a stroke between them.
pub open spec fn ratio_text(a: int, b: int) -> Seq<char> {
    signed_decimal(a) + "/"@ + signed_decimal(b)
}

/// Writes two counts with a stroke between them.
pub fn ratio(a: i16, b: i16) -> (text: String)
    ensures
        text@ == ratio_text(a as int, b as int),
{
    let mut text = i64_to_string(a as i64);
    text.append("/");
    let n = i64_to_string(b as i64);
    text.append(n.as_str());
    text
}

/// The free seats of a class of all its seats.
pub fn seats_text(class: &Class) -> (text: String)
    ensures
        text@ == ratio_text(class.seats_available as int, class.maximum_enrollment as int),
{
    ratio(class.seats_available, class.maximum_enrollment)
}

/// The free places on the waitlist of a class of all its places.
pub fn waitlist_text(class: &Class) -> (text: String)
    ensures
        text@ == ratio_text(class.wait_available as int, class.wait_capacity as int),
{
    ratio(class.wait_available, class.wait_capacity)
}

/// The title of a class, or a note where it has none.
pub fn class_title(title: &Option<String>) -> (text: String)
    ensures
        text@ == (match title {
            Some(title) => title@,
            None => "<unknown class name>"@,
        }),
{
    match title {
        Some(title) => title.clone(),
        None => String::from_str("<unknown class name>"),
    }
}

} // verus!
