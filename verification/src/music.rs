//! The player queue as text: one line for each track, and pages of lines.

use vstd::prelude::*;
use vstd::utf8::encode_utf8;
use crate::chat::{push_mono_safe, safe_mono_text};
use crate::duration::{from_ms, span_text};
use crate::pattern::{capture, captured};
use crate::text::{decimal, u64_to_string, views};

verus! {

/// A track in the queue.
#[derive(PartialEq, Eq, Clone, Debug)]
pub struct QueuedTrack {
    pub title: String,
    pub author: String,
    /// The length in milliseconds.
    pub length: i32,
    /// Who asked for the track.
    pub requester: Option<u64>,
}

/// The most lines on one page.
pub const PAGE_LINES: usize = 10;

/// The most bytes on one page.
pub const PAGE_BYTES: usize = 1024;

/// The line of a track: title, author and length, and who asked for it.
pub open spec fn line_text(track: QueuedTrack) -> Seq<char> {
    track.title@ + " - "@ + track.author@ + " | ``"@ + span_text(track.length as int) + "``"@ + (match track.requester {
        Some(person) => " Requested by: <@"@ + decimal(person as nat) + ">"@,
        None => Seq::empty(),
    }) + "\n\n"@
}

/// The line of the track at place `index`, counted from 0, with its number,
/// counted from 1, in front.
pub open spec fn numbered_line(index: int, track: QueuedTrack) -> Seq<char> {
    "``"@ + decimal((index + 1) as nat) + ".`` "@ + line_text(track)
}

/// How many bytes a text takes, as its length says.
pub open spec fn byte_len(text: Seq<char>) -> usize {
    encode_utf8(text).len() as usize
}

/// Pages in the making: the pages that are full, and the page that is
/// being filled with how many lines and bytes it holds.
pub struct Paging {
    pub full: Seq<Seq<char>>,
    pub page: Seq<char>,
    pub lines: nat,
    pub bytes: nat,
}

/// The pages after the first `n` tracks were put on them. A track goes on
/// the page that is being filled unless that page has ten lines already or
/// has lines and would grow over 1024 bytes; then that page is full and the
/// track begins the next.
pub open spec fn paging(queue: Seq<QueuedTrack>, n: nat) -> Paging
    decreases n,
{
    if n == 0 {
        Paging { full: Seq::empty(), page: Seq::empty(), lines: 0, bytes: 0 }
    } else {
        let before = paging(queue, (n - 1) as nat);
        let line = numbered_line(n - 1, queue[n - 1]);
        if before.lines == PAGE_LINES || (before.lines > 0 && before.bytes + byte_len(line) > PAGE_BYTES) {
            Paging { full: before.full.push(before.page), page: line, lines: 1, bytes: byte_len(line) as nat }
        } else {
            Paging {
                full: before.full,
                page: before.page + line,
                lines: before.lines + 1,
                bytes: before.bytes + byte_len(line) as nat,
            }
        }
    }
}

/// The pages of a queue: for an empty queue one page that says so, else the
/// lines of the tracks in their order, as many on each page as fit.
pub open spec fn queue_pages(queue: Seq<QueuedTrack>) -> Seq<Seq<char>> {
    if queue.len() == 0 {
        seq!["There are no songs queued."@]
    } else {
        paging(queue, queue.len()).full.push(paging(queue, queue.len()).page)
    }
}

/// The page to show when page `asked` of `pages` pages is asked for: the
/// last page where there are not so many, the first where 0 is asked for.
pub open spec fn shown_page(asked: usize, pages: usize) -> usize {
    if asked > pages {
        pages
    } else if asked == 0 {
        1
    } else {
        asked
    }
}

/// The heading over a page of the queue.
pub open spec fn heading_text(page: usize, pages: usize, server: Option<Seq<char>>) -> Seq<char> {
    "Player Queue | Page "@ + decimal(page as nat) + "/"@ + decimal(pages as nat) + (match server {
        Some(server) => " | Playing in "@ + server,
        None => Seq::empty(),
    })
}

/// Writes the line of a track.
pub fn generate_line(song: &QueuedTrack) -> (line: String)
    ensures
        line@ == line_text(*song),
{
    let mut line = song.title.clone();
    line.append(" - ");
    line.append(song.author.as_str());
    line.append(" | ``");
    let length = from_ms(song.length);
    line.append(length.as_str());
    line.append("``");
    match song.requester {
        Some(person) => {
            line.append(" Requested by: <@");
            let id = u64_to_string(person);
            line.append(id.as_str());
            line.append(">");
        },
        None => {},
    }
    line.append("\n\n");
    assert(line@ =~= line_text(*song));
    line
}

/// Writes the pages of a queue.
pub fn generate_queue(queue: &[QueuedTrack]) -> (pages: Vec<String>)
    ensures
        views(pages@) == queue_pages(queue@),
        pages@.len() >= 1,
{
    let mut output: Vec<String> = Vec::new();
    if queue.len() == 0 {
        output.push(String::from_str("There are no songs queued."));
        assert(views(output@) =~= queue_pages(queue@));
        return output;
    }
    let mut page = String::new();
    let mut lines: usize = 0;
    let mut bytes: usize = 0;
    let mut index: usize = 0;
    assert(views(output@) =~= Seq::<Seq<char>>::empty());
    while index < queue.len()
        invariant
            index <= queue@.len(),
            views(output@) == paging(queue@, index as nat).full,
            page@ == paging(queue@, index as nat).page,
            lines == paging(queue@, index as nat).lines,
            bytes == paging(queue@, index as nat).bytes,
            lines <= PAGE_LINES,
            lines == 0 ==> bytes == 0,
        decreases queue@.len() - index,
    {
        let mut next_line = String::from_str("``");
        let number = u64_to_string(index as u64 + 1);
        next_line.append(number.as_str());
        next_line.append(".`` ");
        let line = generate_line(&queue[index]);
        next_line.append(line.as_str());
        assert(next_line@ =~= numbered_line(index as int, queue@[index as int]));
        let size = next_line.as_str().len();
        assert(size == byte_len(next_line@));
        let fits = match bytes.checked_add(size) {
            Some(sum) => sum <= PAGE_BYTES,
            None => false,
        };
        if lines == PAGE_LINES || (lines > 0 && !fits) {
            let ghost before = views(output@);
            output.push(page);
            assert(views(output@) =~= before.push(paging(queue@, index as nat).page));
            page = next_line;
            lines = 1;
            bytes = size;
        } else {
            page.append(next_line.as_str());
            lines += 1;
            bytes = if lines == 1 {
                size
            } else {
                bytes + size
            };
        }
        index += 1;
    }
    let ghost before = views(output@);
    output.push(page);
    assert(views(output@) =~= before.push(paging(queue@, queue@.len()).page));
    output
}

/// Picks the page to show.
pub fn clamp_page(asked: usize, pages: usize) -> (page: usize)
    ensures
        page == shown_page(asked, pages),
{
    if asked > pages {
        pages
    } else if asked == 0 {
        1
    } else {
        asked
    }
}

/// Writes the heading over a page of the queue.
pub fn queue_heading(page: usize, pages: usize, server: Option<&str>) -> (heading: String)
    ensures
        heading@ == heading_text(
            page,
            pages,
            match server {
                Some(server) => Some(server@),
                None => None,
            },
        ),
{
    let mut heading = String::from_str("Player Queue | Page ");
    let n = u64_to_string(page as u64);
    heading.append(n.as_str());
    heading.append("/");
    let n = u64_to_string(pages as u64);
    heading.append(n.as_str());
    match server {
        Some(server) => {
            heading.append(" | Playing in ");
            heading.append(server);
        },
        None => {},
    }
    assert(heading@ =~= heading_text(
        page,
        pages,
        match server {
            Some(server) => Some(server@),
            None => None,
        },
    ));
    heading
}

/// The pattern that finds the id of a video in a link to it: its first group
/// catches the eleven characters behind the address of the video site in one
/// of its forms.
pub const VIDEO_LINK: &'static str = r#"(?:youtube\.com/(?:[^/]+/.+/|(?:v|e(?:mbed)?)/|.*[?&]v=)|youtu\.be/)([^"&?/\s]{11})"#;

/// The id of the video that `uri` links to, if it links to one.
pub open spec fn video_id(uri: Seq<char>) -> Option<Seq<char>> {
    match captured(VIDEO_LINK@, uri, 1) {
        Some(Some(id)) => Some(id),
        _ => None,
    }
}

/// Where the picture of the video with this id is found.
pub open spec fn thumbnail_text(id: Seq<char>) -> Seq<char> {
    "https://img.youtube.com/vi/"@ + id + "/maxresdefault.jpg"@
}

/// Where the picture of the video with this id is found.
pub fn thumbnail_of(id: &str) -> (url: String)
    ensures
        url@ == thumbnail_text(id@),
{
    let mut url = String::from_str("https://img.youtube.com/vi/");
    url.append(id);
    url.append("/maxresdefault.jpg");
    url
}

/// Where the picture of the video is found that `uri` links to, if it links
/// to one.
pub fn thumbnail(uri: &str) -> (url: Option<String>)
    ensures
        match video_id(uri@) {
            Some(id) => url is Some && url->Some_0@ == thumbnail_text(id),
            None => url is None,
        },
{
    match capture(VIDEO_LINK, uri, 1) {
        Ok(Some(id)) => Some(thumbnail_of(id.as_str())),
        _ => None,
    }
}

/// The note that a link seems to hold more than one track.
pub open spec fn playlist_note() -> Seq<char> {
    "Note: This seems to be a playlist. If you want to add all tracks at once, use `playlist` instead of `play`.\n"@
}

/// What is said when a track was put into the queue; where the link holds
/// `found` tracks and that is more than one, a note on playlists comes first.
pub fn queued_text(title: &str, found: usize) -> (text: String)
    ensures
        text@ == (if found > 1 {
            playlist_note()
        } else {
            Seq::empty()
        }) + "Added to queue: "@ + safe_mono_text(title@),
{
    let mut text = if found > 1 {
        String::from_str(
            "Note: This seems to be a playlist. If you want to add all tracks at once, use `playlist` instead of `play`.\n",
        )
    } else {
        String::new()
    };
    text.append("Added to queue: ");
    let safe = push_mono_safe(title);
    text.append(safe.as_str());
    assert(text@ =~= (if found > 1 {
        playlist_note()
    } else {
        Seq::empty()
    }) + "Added to queue: "@ + safe_mono_text(title@));
    text
}

/// What is said when the tracks of a playlist were put into the queue.
pub fn playlist_text(count: usize, name: Option<&str>) -> (text: String)
    ensures
        text@ == (match name {
            Some(name) => "Added to the queue "@ + decimal(count as nat) + " tracks from "@ + safe_mono_text(name@)
                + "."@,
            None => "Added to the queue "@ + decimal(count as nat) + " tracks."@,
        }),
{
    let mut text = String::from_str("Added to the queue ");
    let n = u64_to_string(count as u64);
    text.append(n.as_str());
    match name {
        Some(name) => {
            text.append(" tracks from ");
            let safe = push_mono_safe(name);
            text.append(safe.as_str());
            text.append(".");
        },
        None => {
            text.append(" tracks.");
        },
    }
    text
}

/// How far a track has played of its length.
pub fn progress_text(position: i32, length: i32) -> (text: String)
    ensures
        text@ == span_text(position as int) + "/"@ + span_text(length as int),
{
    let mut text = from_ms(position);
    text.append("/");
    let whole = from_ms(length);
    text.append(whole.as_str());
    text
}

/// The heading over the track that is playing.
pub fn playing_heading(server: Option<&str>) -> (text: String)
    ensures
        text@ == (match server {
            Some(server) => "Now Playing in "@ + server@,
            None => "Now Playing"@,
        }),
{
    match server {
        Some(server) => {
            let mut text = String::from_str("Now Playing in ");
            text.append(server);
            text
        },
        None => String::from_str("Now Playing"),
    }
}

} // verus!
