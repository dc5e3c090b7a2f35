//! Picking a picture from the image board: which tag to ask for, which posts
//! to show and when to give up.

use vstd::prelude::*;
use crate::chat::{push_safe, safe_text};
use crate::pattern::{replace_all, tag_chars};
use crate::text::{chars_of, join, joined, lowercase, pieces, split, text_eq, to_lowercase, trim, trimmed, views};

verus! {

/// A post of the image board.
#[derive(Debug)]
pub struct Post {
    /// The size of the file in bytes.
    pub file_size: Option<u64>,
    pub tag_string_general: Option<String>,
    pub tag_string_character: Option<String>,
    pub tag_string_artist: Option<String>,
    pub file_url: Option<String>,
}

/// The largest file that is shown, in bytes.
pub const LARGEST_FILE: u64 = 8 * 1024 * 1024;

/// The most characters that a picture may show.
pub const MOST_CHARACTERS: usize = 3;

/// How often another post is asked for before giving up.
pub const ATTEMPTS: u32 = 3;

/// The pattern of what does not belong into a tag.
pub const NOT_TAG: &'static str = "[^A-Za-z0-9()_.]";

/// Whether a post is fit to be shown: it has all its parts, its file is not
/// too large, it shows three characters at most, and it is no comic. The
/// tags of a post stand in a row with one blank between each two.
pub open spec fn nice(post: Post) -> bool {
    &&& post.tag_string_general is Some
    &&& post.file_url is Some
    &&& post.file_size is Some
    &&& post.tag_string_character is Some
    &&& post.tag_string_artist is Some
    &&& post.file_size->Some_0 <= LARGEST_FILE
    &&& pieces(post.tag_string_character->Some_0@, ' ').len() <= MOST_CHARACTERS
    &&& !pieces(post.tag_string_general->Some_0@, ' ').contains("comic"@)
}

/// Whether `word` is among `words`.
fn has_word(words: &Vec<String>, word: &str) -> (yes: bool)
    ensures
        yes == views(words@).contains(word@),
{
    let mut i: usize = 0;
    while i < words.len()
        invariant
            i <= words@.len(),
            forall|k: int| 0 <= k < i ==> views(words@)[k] != word@,
        decreases words@.len() - i,
    {
        if text_eq(words[i].as_str(), word) {
            assert(views(words@)[i as int] == word@);
            return true;
        }
        i += 1;
    }
    false
}

/// Says whether a post is fit to be shown.
pub fn is_nice_post(post: &Post) -> (yes: bool)
    ensures
        yes == nice(*post),
{
    if post.tag_string_general.is_none() || post.file_url.is_none() || post.file_size.is_none()
        || post.tag_string_character.is_none() || post.tag_string_artist.is_none() {
        return false;
    }
    let (general, character, size) = match (&post.tag_string_general, &post.tag_string_character, post.file_size) {
        (Some(general), Some(character), Some(size)) => (general, character, size),
        _ => {
            return false;
        },
    };
    let general = split(&chars_of(general.as_str()), ' ');
    let is_comic = has_word(&general, "comic");
    let characters = split(&chars_of(character.as_str()), ' ');
    size <= LARGEST_FILE && characters.len() <= MOST_CHARACTERS && !is_comic
}

/// What to do with a post that came.
#[derive(PartialEq, Eq, Structural, Clone, Copy, Debug)]
pub enum FetchStep {
    /// Show the post.
    Show,
    /// Ask for another post; this many were asked for then.
    Retry { attempts: u32 },
    /// Say that nothing could be had.
    GiveUp,
}

/// What to do with a post that is `nice` or not after `attempts` further
/// posts were asked for.
pub open spec fn fetch_step(nice: bool, attempts: u32) -> FetchStep {
    if attempts >= ATTEMPTS {
        FetchStep::GiveUp
    } else if nice {
        FetchStep::Show
    } else {
        FetchStep::Retry { attempts: (attempts + 1) as u32 }
    }
}

/// Decides what to do with a post that came, after `attempts` further posts
/// were asked for: a fit one is shown, for an unfit one another is asked
/// for, but after three further posts the search is given up, whatever the
/// third was like.
pub fn next_step(post: &Post, attempts: u32) -> (step: FetchStep)
    ensures
        step == fetch_step(nice(*post), attempts),
{
    if attempts >= ATTEMPTS {
        FetchStep::GiveUp
    } else if is_nice_post(post) {
        FetchStep::Show
    } else {
        FetchStep::Retry { attempts: attempts + 1 }
    }
}

/// A word of a tag: outer blanks gone, in lowercase, and only what belongs
/// into a tag left of it.
pub open spec fn tag_word(word: Seq<char>) -> Seq<char> {
    tag_chars(lowercase(trimmed(word)))
}

/// The words of a tag.
pub open spec fn tag_words(words: Seq<Seq<char>>) -> Seq<Seq<char>> {
    words.map_values(|word: Seq<char>| tag_word(word))
}

/// Makes one word of a tag.
pub fn clean_word(word: &str) -> (clean: String)
    ensures
        clean@ == tag_word(word@),
{
    let lower = to_lowercase(trim(word));
    proof {
        reveal_strlit("");
    }
    match replace_all(NOT_TAG, lower.as_str(), "") {
        Ok(clean) => clean,
        Err(_) => String::new(),
    }
}

/// Makes the tag to search for out of the words given: each word cleaned,
/// and an underscore between each two. Without a word there is no tag.
pub fn build_tag(words: &Vec<String>) -> (tag: Option<String>)
    ensures
        match tag {
            Some(tag) => words@.len() > 0 && tag@ == joined(tag_words(views(words@)), "_"@),
            None => words@.len() == 0,
        },
{
    if words.len() == 0 {
        return None;
    }
    let mut clean: Vec<String> = Vec::new();
    let mut i: usize = 0;
    while i < words.len()
        invariant
            i <= words@.len(),
            clean@.len() == i,
            forall|k: int| 0 <= k < i ==> (#[trigger] clean@[k])@ == tag_word(words@[k]@),
        decreases words@.len() - i,
    {
        clean.push(clean_word(words[i].as_str()));
        i += 1;
    }
    assert(views(clean@) =~= tag_words(views(words@)));
    Some(join(&clean, "_"))
}

/// Where a post with the tag is asked for; outside channels for adults only
/// safe posts are asked for.
pub open spec fn search_text(tag: Seq<char>, adult: bool) -> Seq<char> {
    if adult {
        "https://danbooru.donmai.us/posts/random.json?tags="@ + tag
    } else {
        "https://danbooru.donmai.us/posts/random.json?tags=rating:s+"@ + tag
    }
}

/// Where a post with the tag is asked for.
pub fn search_url(tag: &str, adult: bool) -> (url: String)
    ensures
        url@ == search_text(tag@, adult),
{
    let mut url = if adult {
        String::from_str("https://danbooru.donmai.us/posts/random.json?tags=")
    } else {
        String::from_str("https://danbooru.donmai.us/posts/random.json?tags=rating:s+")
    };
    url.append(tag);
    url
}

/// The heading over a post: its artist, made harmless.
pub fn artist_title(artist: &str) -> (title: String)
    ensures
        title@ == "Artist: "@ + safe_text(artist@),
{
    let mut title = String::from_str("Artist: ");
    let safe = push_safe(artist);
    title.append(safe.as_str());
    title
}

} // verus!
