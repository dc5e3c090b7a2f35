//! Regular expressions, as the `regex` crate reads and applies them.

use regex::{Error, Regex};
use vstd::prelude::*;

verus! {

#[verifier::external_type_specification]
#[verifier::external_body]
pub struct ExRegexError(regex::Error);

/// What the group with the number `group` of `pattern` catches at the first
/// place where `pattern` matches in `text`: `None` where `pattern` is no
/// regular expression, `Some(None)` where it matches nowhere or matches
/// without that group.
pub uninterp spec fn captured(pattern: Seq<char>, text: Seq<char>, group: usize) -> Option<Option<Seq<char>>>;

/// What is left of `text` when each match of `pattern`, from the left and
/// without overlap, is replaced by `replacement`; `None` where `pattern` is
/// no regular expression.
pub uninterp spec fn replaced(pattern: Seq<char>, text: Seq<char>, replacement: Seq<char>) -> Option<Seq<char>>;

/// A result of this module as a mathematical value.
pub open spec fn capture_view(caught: Result<Option<String>, Error>) -> Option<Option<Seq<char>>> {
    match caught {
        Ok(Some(text)) => Some(Some(text@)),
        Ok(None) => Some(None),
        Err(_) => None,
    }
}

/// A result of this module as a mathematical value.
pub open spec fn replaced_view(text: Result<String, Error>) -> Option<Seq<char>> {
    match text {
        Ok(text) => Some(text@),
        Err(_) => None,
    }
}

/// Whether `c` is a letter of the alphabet, a digit, a round bracket, an
/// underscore or a full stop.
pub open spec fn is_tag_char(c: char) -> bool {
    ('A' <= c && c <= 'Z') || ('a' <= c && c <= 'z') || ('0' <= c && c <= '9') || c == '(' || c == ')' || c == '_'
        || c == '.'
}

/// What of `text` belongs into a tag.
pub open spec fn tag_chars(text: Seq<char>) -> Seq<char> {
    text.filter(|c: char| is_tag_char(c))
}

/// Calls `Regex::new`, `Regex::captures` and `Captures::get` of the `regex`
/// crate. The result depends on pattern, text and number alone and is named
/// `captured`.
#[verifier::external_body]
pub(crate) fn capture(pattern: &str, text: &str, group: usize) -> (caught: Result<Option<String>, Error>)
    ensures
        capture_view(caught) == captured(pattern@, text@, group),
{
    let regex = Regex::new(pattern)?;
    Ok(regex.captures(text).and_then(|groups| groups.get(group)).map(|found| found.as_str().to_string()))
}

/// Calls `Regex::new` and `Regex::replace_all` of the `regex` crate. The
/// result depends on the three texts alone and is named `replaced`. Of the
/// pattern that is the class of all characters but letters, digits, round
/// brackets, underscore and full stop, replaced by nothing, the contract
/// claims what a negated class means: exactly the characters outside the
/// class go.
#[verifier::external_body]
pub(crate) fn replace_all(pattern: &str, text: &str, replacement: &str) -> (changed: Result<String, Error>)
    ensures
        replaced_view(changed) == replaced(pattern@, text@, replacement@),
        pattern@ == "[^A-Za-z0-9()_.]"@ && replacement@.len() == 0 ==> replaced_view(changed) == Some(
            tag_chars(text@),
        ),
{
    let regex = Regex::new(pattern)?;
    Ok(regex.replace_all(text, replacement).to_string())
}

} // verus!
