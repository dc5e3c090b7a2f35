//! Reaction emoji: either a unicode emoji, told apart by its code points, or
//! a custom emoji of some guild, told apart by its id.

use serenity::model::channel::{ReactionConversionError, ReactionType};
use vstd::prelude::*;
use crate::cowboard::error::{ConfigurationFault, CowboardError};
use crate::text::{decimal, u64_to_string};

verus! {

/// A reaction emoji.
#[derive(Clone, Debug)]
pub enum Emoji {
    /// A unicode emoji, by its text.
    Unicode(String),
    /// A custom emoji. The name is decoration, and names are not unique: the
    /// id alone says which emoji it is.
    Custom { animated: bool, id: u64, name: Option<String> },
}

/// An emoji as a mathematical value.
pub enum EmojiView {
    Unicode(Seq<char>),
    Custom { animated: bool, id: u64, name: Option<Seq<char>> },
}

impl View for Emoji {
    type V = EmojiView;

    open spec fn view(&self) -> EmojiView {
        match self {
            Emoji::Unicode(text) => EmojiView::Unicode(text@),
            Emoji::Custom { animated, id, name } => EmojiView::Custom {
                animated: *animated,
                id: *id,
                name: match name {
                    Some(name) => Some(name@),
                    None => None,
                },
            },
        }
    }
}

/// Whether two emoji are the same reaction: unicode emoji with the same
/// code points, or custom emoji with the same id.
pub open spec fn same_emoji(a: EmojiView, b: EmojiView) -> bool {
    match (a, b) {
        (EmojiView::Unicode(s), EmojiView::Unicode(t)) => s == t,
        (EmojiView::Custom { id: i, .. }, EmojiView::Custom { id: j, .. }) => i == j,
        _ => false,
    }
}

/// The text that stands for an emoji in a message: a unicode emoji as it is,
/// a custom one as `<:name:id>`, or `<a:name:id>` where it is animated.
pub open spec fn emoji_text(e: EmojiView) -> Seq<char> {
    match e {
        EmojiView::Unicode(text) => text,
        EmojiView::Custom { animated, id, name } => (if animated {
            "<a:"@
        } else {
            "<:"@
        }) + (match name {
            Some(name) => name,
            None => Seq::empty(),
        }) + ":"@ + decimal(id as nat) + ">"@,
    }
}

/// What `ReactionType::try_from` of serenity reads out of `text`, or `None`
/// where it reports a conversion error.
pub uninterp spec fn parsed_reaction(text: Seq<char>) -> Option<EmojiView>;

#[verifier::external_type_specification]
#[verifier::external_body]
pub struct ExReactionConversionError(serenity::model::channel::ReactionConversionError);

/// The reading of a conversion result as a mathematical value.
pub open spec fn conversion_view(
    parsed: Result<Emoji, ReactionConversionError>,
) -> Option<EmojiView> {
    match parsed {
        Ok(emoji) => Some(emoji@),
        Err(_) => None,
    }
}

/// Calls `ReactionType::try_from` of serenity on `text`. Its result depends
/// on `text` alone and is named `parsed_reaction`. Of that result the
/// contract claims what the first lines of the conversion show: empty text is
/// an error; text that does not begin with `<` is taken whole as a unicode
/// emoji; text that begins with `<` gives a custom emoji or an error.
#[verifier::external_body]
fn convert_reaction(text: &str) -> (parsed: Result<Emoji, ReactionConversionError>)
    ensures
        conversion_view(parsed) == parsed_reaction(text@),
        text@.len() == 0 ==> parsed is Err,
        text@.len() > 0 && text@[0] != '<' ==> conversion_view(parsed) == Some(EmojiView::Unicode(text@)),
        text@.len() > 0 && text@[0] == '<' ==> !(conversion_view(parsed) matches Some(EmojiView::Unicode(_))),
{
    match ReactionType::try_from(text) {
        Ok(ReactionType::Unicode(text)) => Ok(Emoji::Unicode(text)),
        Ok(ReactionType::Custom { animated, id, name }) => Ok(Emoji::Custom { animated, id: id.0, name }),
        Ok(_) => Err(ReactionConversionError),
        Err(e) => Err(e),
    }
}

impl Emoji {
    /// Reads the trigger emoji out of the text stored in the settings. Text
    /// that is no reaction identifier is a fault of the configuration.
    pub fn parse(text: &str) -> (parsed: Result<Emoji, CowboardError>)
        ensures
            match parsed_reaction(text@) {
                Some(emoji) => parsed is Ok && parsed->Ok_0@ == emoji,
                None => parsed == Err::<Emoji, CowboardError>(
                    CowboardError::Configuration(ConfigurationFault::MalformedEmoji),
                ),
            },
            text@.len() == 0 ==> parsed is Err,
            text@.len() > 0 && text@[0] != '<' ==> parsed is Ok && parsed->Ok_0@ == EmojiView::Unicode(text@),
            text@.len() > 0 && text@[0] == '<' && parsed is Ok ==> parsed->Ok_0 is Custom,
    {
        match convert_reaction(text) {
            Ok(emoji) => Ok(emoji),
            Err(_) => Err(CowboardError::Configuration(ConfigurationFault::MalformedEmoji)),
        }
    }

    /// Whether `self` and `other` are the same reaction.
    pub fn same(&self, other: &Emoji) -> (yes: bool)
        ensures
            yes == same_emoji(self@, other@),
    {
        match self {
            Emoji::Unicode(s) => match other {
                Emoji::Unicode(t) => *s == *t,
                Emoji::Custom { .. } => false,
            },
            Emoji::Custom { id: i, .. } => match other {
                Emoji::Unicode(_) => false,
                Emoji::Custom { id: j, .. } => *i == *j,
            },
        }
    }

    /// The text that stands for the emoji in a message.
    pub fn to_text(&self) -> (text: String)
        ensures
            text@ == emoji_text(self@),
    {
        match self {
            Emoji::Unicode(s) => s.clone(),
            Emoji::Custom { animated, id, name } => {
                let mut text = if *animated {
                    String::from_str("<a:")
                } else {
                    String::from_str("<:")
                };
                match name {
                    Some(name) => {
                        text.append(name.as_str());
                    },
                    None => {},
                }
                text.append(":");
                let digits = u64_to_string(*id);
                text.append(digits.as_str());
                text.append(">");
                proof {
                    assert(text@ =~= emoji_text(self@));
                }
                text
            },
        }
    }
}

} // verus!
