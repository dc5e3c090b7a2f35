//! Pieces of message text: mentions, code spans and text made harmless.

use serenity::utils::MessageBuilder;
use vstd::prelude::*;
use crate::text::{decimal, u64_to_string};

verus! {

/// What the message builder of serenity makes of `text` when it pushes it
/// as safe text: invite links and mentions of everyone defused, marks that
/// turn the reading order or hide in the text blanked, and the characters
/// that shape text escaped.
pub uninterp spec fn safe_text(text: Seq<char>) -> Seq<char>;

/// Calls `MessageBuilder::push_safe` of serenity on an empty builder and
/// builds the message. The result depends on the text alone and is named
/// `safe_text`.
#[verifier::external_body]
pub(crate) fn push_safe(text: &str) -> (safe: String)
    ensures
        safe@ == safe_text(text@),
{
    MessageBuilder::new().push_safe(text).build()
}

/// What the message builder of serenity makes of `text` when it pushes it
/// as safe code: as `safe_text`, but set as code, with any mark that would
/// end the code turned into an apostrophe.
pub uninterp spec fn safe_mono_text(text: Seq<char>) -> Seq<char>;

/// Calls `MessageBuilder::push_mono_safe` of serenity on an empty builder
/// and builds the message. The result depends on the text alone and is named
/// `safe_mono_text`.
#[verifier::external_body]
pub(crate) fn push_mono_safe(text: &str) -> (safe: String)
    ensures
        safe@ == safe_mono_text(text@),
{
    MessageBuilder::new().push_mono_safe(text).build()
}

/// The mention of a user.
pub open spec fn user_mention(id: u64) -> Seq<char> {
    "<@"@ + decimal(id as nat) + ">"@
}

/// The mention of a channel.
pub open spec fn channel_mention(id: u64) -> Seq<char> {
    "<#"@ + decimal(id as nat) + ">"@
}

/// Text set as code.
pub open spec fn mono_text(text: Seq<char>) -> Seq<char> {
    "`"@ + text + "`"@
}

/// The mention of a user.
pub fn mention_user(id: u64) -> (text: String)
    ensures
        text@ == user_mention(id),
{
    let mut text = String::from_str("<@");
    let digits = u64_to_string(id);
    text.append(digits.as_str());
    text.append(">");
    text
}

/// The mention of a channel.
pub fn mention_channel(id: u64) -> (text: String)
    ensures
        text@ == channel_mention(id),
{
    let mut text = String::from_str("<#");
    let digits = u64_to_string(id);
    text.append(digits.as_str());
    text.append(">");
    text
}

/// Sets text as code.
pub fn mono(text: &str) -> (code: String)
    ensures
        code@ == mono_text(text@),
{
    let mut code = String::from_str("`");
    code.append(text);
    code.append("`");
    code
}

} // verus!
