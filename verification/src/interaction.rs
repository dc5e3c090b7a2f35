//! Slash commands as text commands: the message that stands for an
//! interaction.

use vstd::prelude::*;
use crate::chat::{channel_mention, mention_channel, mention_user, user_mention};
use crate::text::{decimal, i64_to_string, join, joined, signed_decimal, u64_to_string, views};

verus! {

/// The value of an option of a slash command.
#[derive(PartialEq, Eq, Clone, Debug)]
pub enum OptionValue {
    Text(String),
    Integer(i64),
    Boolean(bool),
    User(u64),
    Channel(u64),
    Role(u64),
    /// A number with a fraction, as text.
    Number(String),
    /// Anything else.
    Other,
}

/// An option as it stands in the message: text and numbers as they are, a
/// user or a channel as its mention, a role as the opening of its mention,
/// and anything else as nothing.
pub open spec fn option_text(option: OptionValue) -> Seq<char> {
    match option {
        OptionValue::Text(text) => text@,
        OptionValue::Integer(i) => signed_decimal(i as int),
        OptionValue::Boolean(b) => if b {
            "true"@
        } else {
            "false"@
        },
        OptionValue::User(id) => user_mention(id),
        OptionValue::Channel(id) => channel_mention(id),
        OptionValue::Role(id) => "<@&"@ + decimal(id as nat),
        OptionValue::Number(text) => text@,
        OptionValue::Other => Seq::empty(),
    }
}

/// The message that stands for a slash command: the bot mentioned, a blank,
/// the name of the command, and straight behind it the options with a blank
/// between each two.
pub open spec fn content_of(app_id: u64, name: Seq<char>, options: Seq<OptionValue>) -> Seq<char> {
    "<@!"@ + decimal(app_id as nat) + "> "@ + name + joined(options.map_values(|o: OptionValue| option_text(o)), " "@)
}

/// Writes an option as it stands in the message.
pub fn write_option(option: &OptionValue) -> (text: String)
    ensures
        text@ == option_text(*option),
{
    match option {
        OptionValue::Text(text) => text.clone(),
        OptionValue::Integer(i) => i64_to_string(*i),
        OptionValue::Boolean(b) => {
            if *b {
                String::from_str("true")
            } else {
                String::from_str("false")
            }
        },
        OptionValue::User(id) => mention_user(*id),
        OptionValue::Channel(id) => mention_channel(*id),
        OptionValue::Role(id) => {
            let mut text = String::from_str("<@&");
            let digits = u64_to_string(*id);
            text.append(digits.as_str());
            text
        },
        OptionValue::Number(text) => text.clone(),
        OptionValue::Other => String::new(),
    }
}

/// Writes the message that stands for a slash command.
pub fn interaction_content(app_id: u64, name: &str, options: &Vec<OptionValue>) -> (content: String)
    ensures
        content@ == content_of(app_id, name@, options@),
{
    let mut content = String::from_str("<@!");
    let id = u64_to_string(app_id);
    content.append(id.as_str());
    content.append("> ");
    content.append(name);
    let mut written: Vec<String> = Vec::new();
    let mut i: usize = 0;
    while i < options.len()
        invariant
            i <= options@.len(),
            written@.len() == i,
            forall|k: int| 0 <= k < i ==> (#[trigger] written@[k])@ == option_text(options@[k]),
        decreases options@.len() - i,
    {
        written.push(write_option(&options[i]));
        i += 1;
    }
    assert(views(written@) =~= options@.map_values(|o: OptionValue| option_text(o)));
    let all = join(&written, " ");
    content.append(all.as_str());
    assert(content@ =~= content_of(app_id, name@, options@));
    content
}

} // verus!
