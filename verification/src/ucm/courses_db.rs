//! Searching the course database: the query that is handed to its full-text
//! search, and what is made of the matches.

use vstd::prelude::*;
use crate::text::{chars_of, join, joined, pieces, split, string_of, text_eq, trim, trimmed, views};
use crate::ucm::courses_db_models::PartialClass;

verus! {

/// Whether `c` has a meaning of its own in a full-text query and must not
/// stand in a word of it.
pub open spec fn is_query_mark(c: char) -> bool {
    c == '(' || c == ')' || c == '"' || c == '\''
}

/// A word without the marks of a query.
pub open spec fn bare_word(word: Seq<char>) -> Seq<char> {
    word.filter(|c: char| !is_query_mark(c))
}

/// The term that finds a word anywhere: the bare word between asterisks, in
/// quotes.
pub open spec fn wildcard(word: Seq<char>) -> Seq<char> {
    "\"*"@ + bare_word(word) + "*\""@
}

/// The terms of the words.
pub open spec fn wildcards(words: Seq<Seq<char>>) -> Seq<Seq<char>> {
    words.map_values(|word: Seq<char>| wildcard(word))
}

/// The full-text query for what was typed, once its outer blanks are gone:
/// the terms of its words, all of which must be found.
pub open spec fn full_text_of(typed: Seq<char>) -> Seq<char> {
    joined(wildcards(pieces(typed, ' ')), " AND "@)
}

/// No mark of a query is left in a bare word.
pub proof fn lemma_bare_word_has_no_mark(word: Seq<char>)
    ensures
        forall|i: int| 0 <= i < bare_word(word).len() ==> !is_query_mark(#[trigger] bare_word(word)[i]),
{
    let keep = |c: char| !is_query_mark(c);
    assert forall|i: int| 0 <= i < bare_word(word).len() implies !is_query_mark(#[trigger] bare_word(word)[i]) by {
        word.lemma_filter_pred(keep, i);
    }
}

/// Takes the marks of a query out of a word.
pub fn strip_marks(word: &str) -> (bare: String)
    ensures
        bare@ == bare_word(word@),
{
    let chars = chars_of(word);
    let mut kept: Vec<char> = Vec::new();
    let mut i: usize = 0;
    assert(chars@.take(0).filter(|c: char| !is_query_mark(c)) =~= Seq::<char>::empty());
    while i < chars.len()
        invariant
            i <= chars@.len(),
            kept@ == chars@.take(i as int).filter(|c: char| !is_query_mark(c)),
        decreases chars@.len() - i,
    {
        proof {
            assert(chars@.take(i + 1).drop_last() =~= chars@.take(i as int));
            reveal(Seq::filter);
        }
        let c = chars[i];
        if !(c == '(' || c == ')' || c == '"' || c == '\'') {
            kept.push(c);
        }
        i += 1;
    }
    assert(chars@.take(chars@.len() as int) =~= chars@);
    let bare = string_of(&kept, 0, kept.len());
    assert(kept@.subrange(0, kept@.len() as int) =~= kept@);
    bare
}

/// Makes the full-text query for what was typed, outer blanks already gone.
pub fn full_text_query(typed: &str) -> (query: String)
    ensures
        query@ == full_text_of(typed@),
{
    let words = split(&chars_of(typed), ' ');
    let mut terms: Vec<String> = Vec::new();
    let mut i: usize = 0;
    while i < words.len()
        invariant
            i <= words@.len(),
            terms@.len() == i,
            forall|k: int| 0 <= k < i ==> (#[trigger] terms@[k])@ == wildcard(words@[k]@),
        decreases words@.len() - i,
    {
        let mut term = String::from_str("\"*");
        let bare = strip_marks(words[i].as_str());
        term.append(bare.as_str());
        term.append("*\"");
        terms.push(term);
        i += 1;
    }
    assert(views(terms@) =~= wildcards(views(words@)));
    join(&terms, " AND ")
}

/// Makes the full-text query for what was typed.
pub fn create_full_text_query(search_query: &str) -> (query: String)
    ensures
        query@ == full_text_of(trimmed(search_query@)),
{
    full_text_query(trim(search_query))
}

/// Whether a class is exactly what was asked for: by its number or by its
/// title.
pub open spec fn is_exact(class: PartialClass, asked: Seq<char>) -> bool {
    class.course_number@ == asked || (class.course_title is Some && class.course_title->Some_0@ == asked)
}

/// The place of the first class that is exactly what was asked for.
pub open spec fn first_exact(classes: Seq<PartialClass>, asked: Seq<char>) -> Option<int>
    decreases classes.len(),
{
    if classes.len() == 0 {
        None
    } else if is_exact(classes[0], asked) {
        Some(0)
    } else {
        match first_exact(classes.drop_first(), asked) {
            Some(i) => Some(i + 1),
            None => None,
        }
    }
}

/// Finds the first class that is exactly what was asked for. Where there is
/// one, it alone is the answer to the search; else all matches are.
pub fn find_exact(classes: &Vec<PartialClass>, asked: &str) -> (place: Option<usize>)
    ensures
        match first_exact(classes@, asked@) {
            Some(i) => place == Some(i as usize) && i < classes@.len(),
            None => place is None,
        },
{
    let mut i: usize = 0;
    assert(classes@.skip(0) =~= classes@);
    while i < classes.len()
        invariant
            i <= classes@.len(),
            match first_exact(classes@.skip(i as int), asked@) {
                Some(k) => first_exact(classes@, asked@) == Some(k + i),
                None => first_exact(classes@, asked@) is None,
            },
        decreases classes@.len() - i,
    {
        proof {
            assert(classes@.skip(i as int)[0] == classes@[i as int]);
            assert(classes@.skip(i as int).drop_first() =~= classes@.skip(i + 1));
        }
        let by_title = match &classes[i].course_title {
            Some(title) => text_eq(title.as_str(), asked),
            None => false,
        };
        if text_eq(classes[i].course_number.as_str(), asked) || by_title {
            return Some(i);
        }
        i += 1;
    }
    None
}

} // verus!
