//! Small talk: what the bot answers to its simplest commands.

use vstd::prelude::*;
use crate::chat::{mention_user, user_mention};
use crate::text::{decimal, join, joined, u64_to_string, views};

verus! {

/// The mentions of the users, with a comma and a blank between each two.
pub open spec fn mentions_text(users: Seq<u64>) -> Seq<char> {
    joined(users.map_values(|u: u64| user_mention(u)), ", "@)
}

/// What is said after a ban of all who play a game.
pub open spec fn ban_text(banned: Seq<u64>) -> Seq<char> {
    if banned.len() == 0 {
        "No haram activities detected."@
    } else {
        "Successfully banned these degenerates: "@ + mentions_text(banned)
    }
}

/// Writes what is said after a ban of all who play a game.
pub fn ban_report(banned: &Vec<u64>) -> (text: String)
    ensures
        text@ == ban_text(banned@),
{
    if banned.len() == 0 {
        return String::from_str("No haram activities detected.");
    }
    let mut mentions: Vec<String> = Vec::new();
    let mut i: usize = 0;
    while i < banned.len()
        invariant
            i <= banned@.len(),
            mentions@.len() == i,
            forall|k: int| 0 <= k < i ==> (#[trigger] mentions@[k])@ == user_mention(banned@[k]),
        decreases banned@.len() - i,
    {
        mentions.push(mention_user(banned[i]));
        i += 1;
    }
    assert(views(mentions@) =~= banned@.map_values(|u: u64| user_mention(u)));
    let mut text = String::from_str("Successfully banned these degenerates: ");
    let all = join(&mentions, ", ");
    text.append(all.as_str());
    text
}

/// Whether someone plays the game `game`, given the applications of what
/// they are doing.
pub fn plays(activities: &Vec<Option<u64>>, game: u64) -> (yes: bool)
    ensures
        yes == activities@.contains(Some(game)),
{
    let mut i: usize = 0;
    while i < activities.len()
        invariant
            i <= activities@.len(),
            forall|k: int| 0 <= k < i ==> activities@[k] != Some(game),
        decreases activities@.len() - i,
    {
        match activities[i] {
            Some(id) => {
                if id == game {
                    assert(activities@[i as int] == Some(game));
                    return true;
                }
            },
            None => {},
        }
        i += 1;
    }
    false
}

/// What the bot says of itself, given its version if it knows it.
pub fn about(version: Option<&str>) -> (text: String)
    ensures
        text@ == "Cow v"@ + (match version {
            Some(version) => version@,
            None => "<unknown>"@,
        }) + " - A Discord bot written by HelloAndrew and DoggySazHi"@,
{
    let mut text = String::from_str("Cow v");
    match version {
        Some(version) => {
            text.append(version);
        },
        None => {
            text.append("<unknown>");
        },
    }
    text.append(" - A Discord bot written by HelloAndrew and DoggySazHi");
    text
}

/// What is said of the time: the milliseconds since 1970.
pub fn epoch_text(ms: u64) -> (text: String)
    ensures
        text@ == decimal(ms as nat) + " ms since epoch"@,
{
    let mut text = u64_to_string(ms);
    text.append(" ms since epoch");
    text
}

/// What is said to one who asks too often: to try again in so many seconds.
pub fn rate_limit_text(seconds: u64) -> (text: String)
    ensures
        text@ == "This command is rate-limited, please try this again in "@ + decimal(seconds as nat)
            + " seconds."@,
{
    let mut text = String::from_str("This command is rate-limited, please try this again in ");
    let n = u64_to_string(seconds);
    text.append(n.as_str());
    text.append(" seconds.");
    text
}

} // verus!
