//! Classes, their meetings and the reminders set on them, as the course
//! database holds them.

use vstd::prelude::*;

verus! {

/// A wish to be told when a class has room.
#[derive(PartialEq, Eq, Structural, Clone, Copy, Debug)]
pub struct Reminder {
    pub user_id: u64,
    pub course_reference_number: i32,
    /// How many seats must be free.
    pub min_trigger: i32,
    /// Whether seats on the waitlist are meant.
    pub for_waitlist: bool,
    pub triggered: bool,
}

/// A reminder that has come due.
#[derive(PartialEq, Eq, Structural, Clone, Copy, Debug)]
pub struct Trigger {
    pub user_id: u64,
    pub course_reference_number: i32,
    pub min_trigger: i32,
}

/// A class of a term.
#[derive(PartialEq, Eq, Clone, Debug)]
pub struct Class {
    pub id: i32,
    pub term: i32,
    pub course_reference_number: i32,
    pub course_number: String,
    pub campus_description: Option<String>,
    pub course_title: Option<String>,
    pub credit_hours: u8,
    pub maximum_enrollment: i16,
    pub enrollment: i16,
    pub seats_available: i16,
    pub wait_capacity: i16,
    pub wait_available: i16,
}

/// What a search shows of a class.
#[derive(PartialEq, Eq, Clone, Debug)]
pub struct PartialClass {
    pub id: i32,
    pub course_reference_number: i32,
    pub course_number: String,
    pub course_title: Option<String>,
}

/// The days of the week on which a class meets, one bit for each day.
#[derive(PartialEq, Eq, Structural, Clone, Copy, Debug)]
pub struct Days {
    bits: u8,
}

/// The bits of all seven days.
pub const ALL_DAYS: u8 = 127;

/// `name` where the bit `bit` is set in `bits`, else nothing.
pub open spec fn named_if(bits: u8, bit: u8, name: Seq<char>) -> Seq<char> {
    if bits & bit == bit {
        name
    } else {
        Seq::empty()
    }
}

/// The names of the days in `bits`, Sunday first, each with a comma and a
/// blank behind it.
pub open spec fn day_list(bits: u8) -> Seq<char> {
    named_if(bits, 1, "Sunday, "@) + named_if(bits, 2, "Monday, "@) + named_if(bits, 4, "Tuesday, "@) + named_if(
        bits,
        8,
        "Wednesday, "@,
    ) + named_if(bits, 16, "Thursday, "@) + named_if(bits, 32, "Friday, "@) + named_if(bits, 64, "Saturday, "@)
}

/// The days as text: their names, Sunday first, with a comma and a blank
/// between them, or a note where there is no day.
pub open spec fn days_text(bits: u8) -> Seq<char> {
    if bits == 0 {
        "<no days assigned>"@
    } else {
        day_list(bits).subrange(0, day_list(bits).len() - 2)
    }
}

impl Days {
    /// No day.
    pub fn base() -> (days: Days)
        ensures
            days.spec_bits() == 0,
    {
        Days { bits: 0 }
    }

    /// Sunday alone.
    pub fn sunday() -> (days: Days)
        ensures
            days.spec_bits() == 1,
    {
        Days { bits: 1 }
    }

    /// Monday alone.
    pub fn monday() -> (days: Days)
        ensures
            days.spec_bits() == 2,
    {
        Days { bits: 2 }
    }

    /// Tuesday alone.
    pub fn tuesday() -> (days: Days)
        ensures
            days.spec_bits() == 4,
    {
        Days { bits: 4 }
    }

    /// Wednesday alone.
    pub fn wednesday() -> (days: Days)
        ensures
            days.spec_bits() == 8,
    {
        Days { bits: 8 }
    }

    /// Thursday alone.
    pub fn thursday() -> (days: Days)
        ensures
            days.spec_bits() == 16,
    {
        Days { bits: 16 }
    }

    /// Friday alone.
    pub fn friday() -> (days: Days)
        ensures
            days.spec_bits() == 32,
    {
        Days { bits: 32 }
    }

    /// Saturday alone.
    pub fn saturday() -> (days: Days)
        ensures
            days.spec_bits() == 64,
    {
        Days { bits: 64 }
    }

    /// The bits of the days.
    pub closed spec fn spec_bits(&self) -> u8 {
        self.bits
    }

    /// The bits of the days.
    #[verifier::when_used_as_spec(spec_bits)]
    pub fn bits(&self) -> (bits: u8)
        ensures
            bits == self.spec_bits(),
    {
        self.bits
    }

    /// The days with the given bits, or `None` where a bit stands for no day.
    pub fn from_bits(bits: u8) -> (days: Option<Days>)
        ensures
            bits <= ALL_DAYS ==> days is Some && days->Some_0.spec_bits() == bits,
            bits > ALL_DAYS ==> days is None,
    {
        if bits <= ALL_DAYS {
            Some(Days { bits })
        } else {
            None
        }
    }

    /// The days with the given bits; bits that stand for no day are dropped.
    pub fn from_bits_truncate(bits: u8) -> (days: Days)
        ensures
            days.spec_bits() == bits & ALL_DAYS,
    {
        assert(bits & 127 <= 127) by (bit_vector);
        Days { bits: bits & ALL_DAYS }
    }

    /// Whether all days of `other` are among these.
    pub fn contains(&self, other: Days) -> (yes: bool)
        ensures
            yes == (self.spec_bits() & other.spec_bits() == other.spec_bits()),
    {
        self.bits & other.bits == other.bits
    }

    /// The days as text.
    pub fn to_text(&self) -> (text: String)
        ensures
            text@ == days_text(self.spec_bits()),
    {
        proof {
            use_type_invariant(self);
        }
        if self.bits == 0 {
            return String::from_str("<no days assigned>");
        }
        let mut list = String::new();
        if self.bits & 1 == 1 {
            list.append("Sunday, ");
        }
        if self.bits & 2 == 2 {
            list.append("Monday, ");
        }
        if self.bits & 4 == 4 {
            list.append("Tuesday, ");
        }
        if self.bits & 8 == 8 {
            list.append("Wednesday, ");
        }
        if self.bits & 16 == 16 {
            list.append("Thursday, ");
        }
        if self.bits & 32 == 32 {
            list.append("Friday, ");
        }
        if self.bits & 64 == 64 {
            list.append("Saturday, ");
        }
        proof {
            assert(list@ =~= day_list(self.bits));
            lemma_some_day(self.bits);
        }
        let length = list.as_str().unicode_len();
        String::from_str(list.as_str().substring_char(0, length - 2))
    }

    #[verifier::type_invariant]
    spec fn only_days(self) -> bool {
        self.bits <= ALL_DAYS
    }
}

/// Bits that are not zero and stand for days only hold some day.
proof fn lemma_some_day(bits: u8)
    requires
        bits != 0,
        bits <= ALL_DAYS,
    ensures
        day_list(bits).len() >= 2,
{
    reveal_strlit("Sunday, ");
    reveal_strlit("Monday, ");
    reveal_strlit("Tuesday, ");
    reveal_strlit("Wednesday, ");
    reveal_strlit("Thursday, ");
    reveal_strlit("Friday, ");
    reveal_strlit("Saturday, ");
    assert(bits & 1 == 1 || bits & 2 == 2 || bits & 4 == 4 || bits & 8 == 8 || bits & 16 == 16 || bits & 32 == 32
        || bits & 64 == 64) by (bit_vector)
        requires
            bits != 0,
            bits <= 127,
    ;
}

/// The kind of a class meeting.
#[derive(PartialEq, Eq, Structural, Clone, Copy, Debug)]
pub enum MeetingType {
    Lecture,
    Discussion,
    Lab,
    Fieldwork,
    Seminar,
    IndividualStudy,
    Tutorial,
    Studio,
    Practicum,
    Exam,
    Project,
    Internship,
}

impl MeetingType {
    /// The kind with the given number, from 1 for a lecture to 12 for an
    /// internship.
    pub open spec fn of_number(v: u8) -> Option<MeetingType> {
        if v == 1 {
            Some(MeetingType::Lecture)
        } else if v == 2 {
            Some(MeetingType::Discussion)
        } else if v == 3 {
            Some(MeetingType::Lab)
        } else if v == 4 {
            Some(MeetingType::Fieldwork)
        } else if v == 5 {
            Some(MeetingType::Seminar)
        } else if v == 6 {
            Some(MeetingType::IndividualStudy)
        } else if v == 7 {
            Some(MeetingType::Tutorial)
        } else if v == 8 {
            Some(MeetingType::Studio)
        } else if v == 9 {
            Some(MeetingType::Practicum)
        } else if v == 10 {
            Some(MeetingType::Exam)
        } else if v == 11 {
            Some(MeetingType::Project)
        } else if v == 12 {
            Some(MeetingType::Internship)
        } else {
            None
        }
    }

    /// The name of the kind.
    pub open spec fn name(self) -> Seq<char> {
        match self {
            MeetingType::Lecture => "Lecture"@,
            MeetingType::Discussion => "Discussion"@,
            MeetingType::Lab => "Lab"@,
            MeetingType::Fieldwork => "Fieldwork"@,
            MeetingType::Seminar => "Seminar"@,
            MeetingType::IndividualStudy => "Individual Study"@,
            MeetingType::Tutorial => "Tutorial"@,
            MeetingType::Studio => "Studio"@,
            MeetingType::Practicum => "Practicum"@,
            MeetingType::Exam => "Exam"@,
            MeetingType::Project => "Project"@,
            MeetingType::Internship => "Internship"@,
        }
    }

    /// The kind with the number `v`, or an error where no kind has it.
    pub fn try_from(v: u8) -> (kind: Result<MeetingType, ()>)
        ensures
            kind == (match Self::of_number(v) {
                Some(kind) => Ok::<MeetingType, ()>(kind),
                None => Err::<MeetingType, ()>(()),
            }),
    {
        match v {
            1 => Ok(MeetingType::Lecture),
            2 => Ok(MeetingType::Discussion),
            3 => Ok(MeetingType::Lab),
            4 => Ok(MeetingType::Fieldwork),
            5 => Ok(MeetingType::Seminar),
            6 => Ok(MeetingType::IndividualStudy),
            7 => Ok(MeetingType::Tutorial),
            8 => Ok(MeetingType::Studio),
            9 => Ok(MeetingType::Practicum),
            10 => Ok(MeetingType::Exam),
            11 => Ok(MeetingType::Project),
            12 => Ok(MeetingType::Internship),
            _ => Err(()),
        }
    }

    /// The name of the kind as text.
    pub fn to_text(&self) -> (text: String)
        ensures
            text@ == self.name(),
    {
        String::from_str(
            match self {
                MeetingType::Lecture => "Lecture",
                MeetingType::Discussion => "Discussion",
                MeetingType::Lab => "Lab",
                MeetingType::Fieldwork => "Fieldwork",
                MeetingType::Seminar => "Seminar",
                MeetingType::IndividualStudy => "Individual Study",
                MeetingType::Tutorial => "Tutorial",
                MeetingType::Studio => "Studio",
                MeetingType::Practicum => "Practicum",
                MeetingType::Exam => "Exam",
                MeetingType::Project => "Project",
                MeetingType::Internship => "Internship",
            },
        )
    }
}

} // verus!
