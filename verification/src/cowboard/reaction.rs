//! Counting the reactions that speak for a message.
//!
//! Only the trigger emoji counts, and the author's own reaction does not: a
//! message cannot vote itself onto the board.

use vstd::prelude::*;
use crate::cowboard::emoji::{same_emoji, Emoji, EmojiView};

verus! {

/// One line of a message's reaction summary: an emoji and how many reacted
/// with it.
#[derive(Clone, Debug)]
pub struct MessageReaction {
    pub emoji: Emoji,
    pub count: u64,
}

/// A line of the reaction summary as a mathematical value.
pub struct MessageReactionView {
    pub emoji: EmojiView,
    pub count: u64,
}

impl View for MessageReaction {
    type V = MessageReactionView;

    open spec fn view(&self) -> MessageReactionView {
        MessageReactionView { emoji: self.emoji@, count: self.count }
    }
}

/// The reaction summary as a sequence of mathematical values.
pub open spec fn summary_view(reactions: Seq<MessageReaction>) -> Seq<MessageReactionView> {
    reactions.map_values(|r: MessageReaction| r@)
}

/// Whether line `i` of the summary is the first one for `trigger`.
pub open spec fn is_first_match(summary: Seq<MessageReactionView>, trigger: EmojiView, i: int) -> bool {
    &&& 0 <= i < summary.len()
    &&& same_emoji(summary[i].emoji, trigger)
    &&& forall|j: int| 0 <= j < i ==> !same_emoji(#[trigger] summary[j].emoji, trigger)
}

/// Whether some line of the summary is for `trigger`.
pub open spec fn has_match(summary: Seq<MessageReactionView>, trigger: EmojiView) -> bool {
    exists|i: int| 0 <= i < summary.len() && same_emoji(#[trigger] summary[i].emoji, trigger)
}

/// How many reacted with `trigger` according to the summary: the count of the
/// first line for it, or nothing where no line is for it.
pub open spec fn raw_count(summary: Seq<MessageReactionView>, trigger: EmojiView) -> Option<u64>
    decreases summary.len(),
{
    if summary.len() == 0 {
        None
    } else if same_emoji(summary[0].emoji, trigger) {
        Some(summary[0].count)
    } else {
        raw_count(summary.drop_first(), trigger)
    }
}

/// The count with the author's own reaction taken out.
pub open spec fn adjusted(raw: u64, author_reacted: bool) -> u64 {
    if author_reacted && raw > 0 {
        (raw - 1) as u64
    } else {
        raw
    }
}

/// The adjusted count of a message: nothing where no line of the summary is
/// for `trigger`, else that line's count without the author's own reaction.
pub open spec fn adjusted_count(
    summary: Seq<MessageReactionView>,
    trigger: EmojiView,
    author_reacted: bool,
) -> u64 {
    match raw_count(summary, trigger) {
        Some(raw) => adjusted(raw, author_reacted),
        None => 0,
    }
}

/// The first line for `trigger` is where the raw count comes from.
pub proof fn lemma_raw_count_is_first_match(summary: Seq<MessageReactionView>, trigger: EmojiView)
    ensures
        match raw_count(summary, trigger) {
            Some(raw) => exists|i: int| is_first_match(summary, trigger, i) && summary[i].count == raw,
            None => !has_match(summary, trigger),
        },
    decreases summary.len(),
{
    if summary.len() == 0 {
    } else if same_emoji(summary[0].emoji, trigger) {
        assert(is_first_match(summary, trigger, 0));
    } else {
        let rest = summary.drop_first();
        lemma_raw_count_is_first_match(rest, trigger);
        match raw_count(rest, trigger) {
            Some(raw) => {
                let i = choose|i: int| is_first_match(rest, trigger, i) && rest[i].count == raw;
                assert forall|j: int| 0 <= j < i + 1 implies !same_emoji(#[trigger] summary[j].emoji, trigger) by {
                    if j > 0 {
                        assert(summary[j] == rest[j - 1]);
                    }
                }
                assert(summary[i + 1] == rest[i]);
                assert(is_first_match(summary, trigger, i + 1));
            },
            None => {
                assert forall|i: int| 0 <= i < summary.len() implies !same_emoji(
                    #[trigger] summary[i].emoji,
                    trigger,
                ) by {
                    if i > 0 {
                        assert(summary[i] == rest[i - 1]);
                    }
                }
            },
        }
    }
}

/// Finds the count that the summary gives for `trigger`: that of the first
/// line whose emoji is the same reaction, or `None` where there is no such
/// line. Only where a line is found does anyone need to ask whether the
/// author is among those who reacted.
pub fn trigger_count(reactions: &Vec<MessageReaction>, trigger: &Emoji) -> (raw: Option<u64>)
    ensures
        raw == raw_count(summary_view(reactions@), trigger@),
{
    let ghost summary = summary_view(reactions@);
    let mut i: usize = 0;
    assert(summary.skip(0) =~= summary);
    while i < reactions.len()
        invariant
            i <= reactions@.len(),
            summary == summary_view(reactions@),
            raw_count(summary, trigger@) == raw_count(summary.skip(i as int), trigger@),
        decreases reactions@.len() - i,
    {
        proof {
            let rest = summary.skip(i as int);
            assert(rest[0] == reactions@[i as int]@);
            assert(rest.drop_first() =~= summary.skip(i as int + 1));
        }
        if reactions[i].emoji.same(trigger) {
            return Some(reactions[i].count);
        }
        i += 1;
    }
    None
}

/// Takes the author's own reaction out of a raw count.
pub fn adjust(raw: u64, author_reacted: bool) -> (count: u64)
    ensures
        count == adjusted(raw, author_reacted),
{
    if author_reacted && raw > 0 {
        raw - 1
    } else {
        raw
    }
}

/// The adjusted reaction count of a message with the given reaction summary,
/// where `author_reacted` says whether the author is among those who reacted
/// with `trigger`.
pub fn count_reactions(reactions: &Vec<MessageReaction>, trigger: &Emoji, author_reacted: bool) -> (count: u64)
    ensures
        count == adjusted_count(summary_view(reactions@), trigger@, author_reacted),
{
    match trigger_count(reactions, trigger) {
        Some(raw) => adjust(raw, author_reacted),
        None => 0,
    }
}

/// With the set of those who reacted at hand, the adjusted count is the
/// number of them who are not the author.
pub proof fn lemma_adjusted_counts_others(reactors: Set<u64>, author: u64)
    requires
        reactors.finite(),
        reactors.len() <= u64::MAX,
    ensures
        adjusted(reactors.len() as u64, reactors.contains(author)) == reactors.remove(author).len(),
{
    if reactors.contains(author) {
        assert(reactors.len() > 0);
    } else {
        assert(reactors.remove(author) =~= reactors);
    }
}

/// A message whose author is the only one who reacted with the trigger emoji
/// has the adjusted count 0.
pub proof fn lemma_sole_self_reaction_counts_nothing(
    summary: Seq<MessageReactionView>,
    trigger: EmojiView,
    reactors: Set<u64>,
    author: u64,
)
    requires
        reactors == set![author],
        raw_count(summary, trigger) is Some ==> raw_count(summary, trigger)->Some_0 == reactors.len(),
    ensures
        adjusted_count(summary, trigger, reactors.contains(author)) == 0,
{
    assert(reactors.len() == 1) by {
        assert(set![author] =~= Set::<u64>::empty().insert(author));
    }
}

} // verus!
