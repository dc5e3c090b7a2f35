//! What the bot says about levels and ranks.

use vstd::prelude::*;
use crate::chat::{channel_mention, mention_channel, mention_user, user_mention};
use crate::diagnostics::{mention_role, role_mention};
use crate::models::db_models::{LevelUp, Member, Rank};
use crate::number::{i32_value, parse_i32};
use crate::text::{chars_of, i64_to_string, join, joined, signed_decimal, views};

verus! {

/// The note that roles could not be changed.
pub open spec fn failure_note() -> Seq<char> {
    "\n(We failed to update your roles; maybe we don't have permission?)"@
}

/// What is said when a member reaches a level: who, from which level to
/// which, the rank that comes with it if one does, and once at most a note
/// where the old rank could not be taken or the new one not given.
pub open spec fn level_up_text(author: u64, level_up: LevelUp, role_failed: bool) -> Seq<char> {
    user_mention(author) + " leveled up from "@ + signed_decimal(level_up.level - 1) + " to "@ + signed_decimal(
        level_up.level as int,
    ) + "."@ + (match level_up.new_rank {
        Some(rank) => "\nYou are now a "@ + role_mention(rank) + "."@ + (if role_failed {
            failure_note()
        } else {
            Seq::empty()
        }),
        None => Seq::empty(),
    })
}

/// Whether a message earned its author a level worth telling: a negative
/// level says that none was reached.
pub fn reached_level(level_up: &LevelUp) -> (yes: bool)
    ensures
        yes == (level_up.level >= 0),
{
    level_up.level >= 0
}

/// The role to take from a member that got a new rank: the old rank, where
/// the member has it.
pub fn role_to_take(level_up: &LevelUp, member_roles: &Vec<u64>) -> (role: Option<u64>)
    ensures
        role == (if level_up.new_rank is Some && level_up.old_rank is Some && member_roles@.contains(
            level_up.old_rank->Some_0,
        ) {
            level_up.old_rank
        } else {
            None
        }),
{
    match (level_up.new_rank, level_up.old_rank) {
        (Some(_), Some(old)) => {
            let mut i: usize = 0;
            while i < member_roles.len()
                invariant
                    i <= member_roles@.len(),
                    level_up.new_rank is Some,
                    level_up.old_rank == Some(old),
                    forall|k: int| 0 <= k < i ==> member_roles@[k] != old,
                decreases member_roles@.len() - i,
            {
                if member_roles[i] == old {
                    assert(member_roles@[i as int] == old);
                    return Some(old);
                }
                i += 1;
            }
            None
        },
        _ => None,
    }
}

/// Writes what is said when a member reaches a level; `role_failed` says
/// that taking the old rank or giving the new one did not work.
pub fn level_up_message(author: u64, level_up: &LevelUp, role_failed: bool) -> (text: String)
    ensures
        text@ == level_up_text(author, *level_up, role_failed),
{
    let mut text = mention_user(author);
    text.append(" leveled up from ");
    let from = i64_to_string(level_up.level as i64 - 1);
    text.append(from.as_str());
    text.append(" to ");
    let to = i64_to_string(level_up.level as i64);
    text.append(to.as_str());
    text.append(".");
    match level_up.new_rank {
        Some(rank) => {
            text.append("\nYou are now a ");
            let mention = mention_role(rank);
            text.append(mention.as_str());
            text.append(".");
            if role_failed {
                text.append("\n(We failed to update your roles; maybe we don't have permission?)");
            }
        },
        None => {},
    }
    assert(text@ =~= level_up_text(author, *level_up, role_failed));
    text
}

/// How many members stand on a page of the ranking.
pub const PAGE_SIZE: i32 = 10;

/// The page that is shown when `word` asks for one: the page it names, but
/// the first where it names none or one before the first.
pub open spec fn page_asked(word: Option<Seq<char>>) -> i32 {
    match word {
        Some(word) => match i32_value(word) {
            Some(page) => if page >= 1 {
                page
            } else {
                1
            },
            None => 1,
        },
        None => 1,
    }
}

/// Reads the page that is asked for.
pub fn read_page(word: Option<&str>) -> (page: i32)
    ensures
        page == page_asked(
            match word {
                Some(word) => Some(word@),
                None => None,
            },
        ),
        page >= 1,
{
    match word {
        Some(word) => match parse_i32(&chars_of(word)) {
            Some(page) => {
                if page >= 1 {
                    page
                } else {
                    1
                }
            },
            None => 1,
        },
        None => 1,
    }
}

/// How many members stand before page `page`, the first page being 0; no
/// page before the first has any before it.
pub fn page_offset(page: i32) -> (offset: i64)
    ensures
        offset == (if page > 0 {
            page * PAGE_SIZE
        } else {
            0
        }),
{
    if page > 0 {
        page as i64 * 10
    } else {
        0
    }
}

/// The line of the member at place `index` of page `page`, the first page
/// being 1: place in the ranking, member, level and experience.
pub open spec fn member_line(index: int, page: i32, member: Member) -> Seq<char> {
    "`#"@ + signed_decimal(index + 10 * (page - 1) + 1) + "` "@ + user_mention(member.id) + " - Level "@
        + signed_decimal(member.exp.level as int) + ", "@ + signed_decimal(member.exp.xp as int) + " xp"@
}

/// A page of the ranking as text.
pub open spec fn page_text(members: Seq<Member>, page: i32) -> Seq<char> {
    if members.len() == 0 {
        "There is nothing on this page."@
    } else {
        joined(Seq::new(members.len(), |i: int| member_line(i, page, members[i])), "\n"@)
    }
}

/// Writes a page of the ranking.
pub fn levels_page(members: &Vec<Member>, page: i32) -> (text: String)
    requires
        members@.len() <= i32::MAX,
    ensures
        text@ == page_text(members@, page),
{
    if members.len() == 0 {
        return String::from_str("There is nothing on this page.");
    }
    let mut lines: Vec<String> = Vec::new();
    let mut i: usize = 0;
    while i < members.len()
        invariant
            i <= members@.len(),
            members@.len() <= i32::MAX,
            lines@.len() == i,
            forall|k: int| 0 <= k < i ==> (#[trigger] lines@[k])@ == member_line(k, page, members@[k]),
        decreases members@.len() - i,
    {
        let mut line = String::from_str("`#");
        let place = i64_to_string(i as i64 + 10 * (page as i64 - 1) + 1);
        line.append(place.as_str());
        line.append("` ");
        let who = mention_user(members[i].id);
        line.append(who.as_str());
        line.append(" - Level ");
        let level = i64_to_string(members[i].exp.level as i64);
        line.append(level.as_str());
        line.append(", ");
        let xp = i64_to_string(members[i].exp.xp as i64);
        line.append(xp.as_str());
        line.append(" xp");
        assert(line@ =~= member_line(i as int, page, members@[i as int]));
        lines.push(line);
        i += 1;
    }
    assert(views(lines@) =~= Seq::new(members@.len(), |i: int| member_line(i, page, members@[i])));
    join(&lines, "\n")
}

/// The foot of a page of the ranking.
pub fn page_footer(page: i32, last_page: i32) -> (text: String)
    ensures
        text@ == "Page "@ + signed_decimal(page as int) + "/"@ + signed_decimal(last_page as int),
{
    let mut text = String::from_str("Page ");
    let n = i64_to_string(page as i64);
    text.append(n.as_str());
    text.append("/");
    let n = i64_to_string(last_page as i64);
    text.append(n.as_str());
    text
}

/// The line of a rank: its name, its role if it has one, and its level.
pub open spec fn rank_line(rank: Rank) -> Seq<char> {
    rank.name@ + ": "@ + (match rank.role_id {
        Some(role) => role_mention(role),
        None => "<no role>"@,
    }) + " at level "@ + signed_decimal(rank.min_level as int)
}

/// The ranks of a server as text.
pub open spec fn ranks_text(ranks: Seq<Rank>) -> Seq<char> {
    if ranks.len() == 0 {
        "No roles are registered on this server."@
    } else {
        joined(ranks.map_values(|r: Rank| rank_line(r)), "\n"@)
    }
}

/// Writes the ranks of a server, one line for each.
pub fn list_ranks(ranks: &Vec<Rank>) -> (text: String)
    ensures
        text@ == ranks_text(ranks@),
{
    if ranks.len() == 0 {
        return String::from_str("No roles are registered on this server.");
    }
    let mut lines: Vec<String> = Vec::new();
    let mut i: usize = 0;
    while i < ranks.len()
        invariant
            i <= ranks@.len(),
            lines@.len() == i,
            forall|k: int| 0 <= k < i ==> (#[trigger] lines@[k])@ == rank_line(ranks@[k]),
        decreases ranks@.len() - i,
    {
        let mut line = ranks[i].name.clone();
        line.append(": ");
        match ranks[i].role_id {
            Some(role) => {
                let mention = mention_role(role);
                line.append(mention.as_str());
            },
            None => {
                line.append("<no role>");
            },
        }
        line.append(" at level ");
        let level = i64_to_string(ranks[i].min_level as i64);
        line.append(level.as_str());
        assert(line@ =~= rank_line(ranks@[i as int]));
        lines.push(line);
        i += 1;
    }
    assert(views(lines@) =~= ranks@.map_values(|r: Rank| rank_line(r)));
    join(&lines, "\n")
}

/// What is said of the rank role of a member.
pub fn current_role_text(role: Option<u64>) -> (text: String)
    ensures
        text@ == (match role {
            Some(role) => "Current role: "@ + role_mention(role),
            None => "No role"@,
        }),
{
    match role {
        Some(role) => {
            let mut text = String::from_str("Current role: ");
            let mention = mention_role(role);
            text.append(mention.as_str());
            text
        },
        None => String::from_str("No role"),
    }
}

/// What is said of the place of a member in the ranking.
pub fn place_text(place: Option<i64>) -> (text: String)
    ensures
        text@ == (match place {
            Some(place) => "#"@ + signed_decimal(place as int),
            None => "(Unranked)"@,
        }),
{
    match place {
        Some(place) => {
            let mut text = String::from_str("#");
            let n = i64_to_string(place);
            text.append(n.as_str());
            text
        },
        None => String::from_str("(Unranked)"),
    }
}

/// What is said of the experience of a member: what it has of what the next
/// level takes.
pub fn experience_text(xp: i32, next_level_xp: i32) -> (text: String)
    ensures
        text@ == signed_decimal(xp as int) + "/"@ + signed_decimal(next_level_xp as int),
{
    let mut text = i64_to_string(xp as i64);
    text.append("/");
    let n = i64_to_string(next_level_xp as i64);
    text.append(n.as_str());
    text
}

/// What is said when the experience of a channel is switched: whether it is
/// off or on now, and where.
pub fn toggle_text(disabled: bool, channel: u64) -> (text: String)
    ensures
        text@ == (if disabled {
            "Disabled"@
        } else {
            "Enabled"@
        }) + " collecting experience in "@ + channel_mention(channel) + "."@,
{
    let mut text = if disabled {
        String::from_str("Disabled")
    } else {
        String::from_str("Enabled")
    };
    text.append(" collecting experience in ");
    let mention = mention_channel(channel);
    text.append(mention.as_str());
    text.append(".");
    assert(text@ =~= (if disabled {
        "Disabled"@
    } else {
        "Enabled"@
    }) + " collecting experience in "@ + channel_mention(channel) + "."@);
    text
}

/// The short word on a new level.
pub fn level_note(next_level: i32) -> (text: String)
    ensures
        text@ == "You leveled up to **level "@ + signed_decimal(next_level as int) + "**."@,
{
    let mut text = String::from_str("You leveled up to **level ");
    let n = i64_to_string(next_level as i64);
    text.append(n.as_str());
    text.append("**.");
    text
}

} // verus!
