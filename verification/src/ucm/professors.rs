//! Professors as the search shows them.

use vstd::prelude::*;
use crate::text::{decimal, i64_to_string, join, joined, signed_decimal, u64_to_string, views};
use crate::ucm::courses::{semester_in, title_or_unknown};
use crate::ucm::courses_db_models::PartialClass;

verus! {

/// What is shown of a professor in a list of matches.
#[derive(PartialEq, Eq, Clone, Debug)]
pub struct ProfessorName {
    pub full_name: String,
    pub department: Option<String>,
}

/// The line of a professor that matched: the name as code and the
/// department.
pub open spec fn professor_text(professor: ProfessorName) -> Seq<char> {
    "`"@ + professor.full_name@ + "` - "@ + (match professor.department {
        Some(department) => department@,
        None => "<unknown department>"@,
    })
}

/// The first ten of the professors that matched, one line for each.
pub open spec fn professors_text(professors: Seq<ProfessorName>) -> Seq<char> {
    joined(
        Seq::new(
            if professors.len() <= 10 {
                professors.len()
            } else {
                10
            },
            |i: int| professor_text(professors[i]),
        ),
        "\n"@,
    )
}

/// Writes the first ten of the professors that matched.
pub fn list_professors(professors: &Vec<ProfessorName>) -> (text: String)
    ensures
        text@ == professors_text(professors@),
{
    let mut lines: Vec<String> = Vec::new();
    let mut i: usize = 0;
    while i < professors.len() && i < 10
        invariant
            i <= professors@.len(),
            i <= 10,
            lines@.len() == i,
            forall|k: int| 0 <= k < i ==> (#[trigger] lines@[k])@ == professor_text(professors@[k]),
        decreases professors@.len() - i,
    {
        let mut line = String::from_str("`");
        line.append(professors[i].full_name.as_str());
        line.append("` - ");
        match &professors[i].department {
            Some(department) => {
                line.append(department.as_str());
            },
            None => {
                line.append("<unknown department>");
            },
        }
        assert(line@ =~= professor_text(professors@[i as int]));
        lines.push(line);
        i += 1;
    }
    assert(views(lines@) =~= Seq::new(
        if professors@.len() <= 10 {
            professors@.len()
        } else {
            10
        },
        |i: int| professor_text(professors@[i]),
    ));
    join(&lines, "\n")
}

/// The heading over the professors that matched.
pub fn professors_heading(total: usize) -> (text: String)
    ensures
        text@ == "Professors Matched (totalling "@ + decimal(total as nat) + ")"@,
{
    let mut text = String::from_str("Professors Matched (totalling ");
    let n = u64_to_string(total as u64);
    text.append(n.as_str());
    text.append(")");
    text
}

/// The line of a class that a professor teaches: its number, its reference
/// number as code and its title.
pub open spec fn taught_text(class: PartialClass) -> Seq<char> {
    "- "@ + class.course_number@ + " (`"@ + signed_decimal(class.course_reference_number as int) + "`): "@
        + title_or_unknown(class.course_title)
}

/// The classes that a professor teaches, as text.
pub open spec fn teaching_text(classes: Seq<PartialClass>) -> Seq<char> {
    if classes.len() == 0 {
        "This person is not teaching any classes for this term."@
    } else {
        joined(classes.map_values(|c: PartialClass| taught_text(c)), "\n"@)
    }
}

/// Writes the classes that a professor teaches, one line for each.
pub fn list_teaching(classes: &Vec<PartialClass>) -> (text: String)
    ensures
        text@ == teaching_text(classes@),
{
    if classes.len() == 0 {
        return String::from_str("This person is not teaching any classes for this term.");
    }
    let mut lines: Vec<String> = Vec::new();
    let mut i: usize = 0;
    while i < classes.len()
        invariant
            i <= classes@.len(),
            lines@.len() == i,
            forall|k: int| 0 <= k < i ==> (#[trigger] lines@[k])@ == taught_text(classes@[k]),
        decreases classes@.len() - i,
    {
        let mut line = String::from_str("- ");
        line.append(classes[i].course_number.as_str());
        line.append(" (`");
        let crn = i64_to_string(classes[i].course_reference_number as i64);
        line.append(crn.as_str());
        line.append("`): ");
        match &classes[i].course_title {
            Some(title) => {
                line.append(title.as_str());
            },
            None => {
                line.append("<unknown class name>");
            },
        }
        assert(line@ =~= taught_text(classes@[i as int]));
        lines.push(line);
        i += 1;
    }
    assert(views(lines@) =~= classes@.map_values(|c: PartialClass| taught_text(c)));
    join(&lines, "\n")
}

/// The term that is running in the month `month` of the year `year`.
pub fn running_term(year: i32, month: u32) -> (term: Option<i32>)
    ensures
        term == (if i32::MIN <= year * 100 + semester_in(month) <= i32::MAX {
            Some((year * 100 + semester_in(month)) as i32)
        } else {
            None
        }),
{
    let semester = if 3 <= month && month <= 10 {
        30
    } else {
        10
    };
    crate::ucm::courses::term_code(year, semester)
}

} // verus!
