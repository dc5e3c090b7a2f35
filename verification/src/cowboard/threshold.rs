//! The decision at the heart of the starboard: what a reaction count asks for.
//!
//! A message is mirrored once its count reaches the add threshold and stays
//! mirrored until the count falls under the remove threshold. Between the two
//! thresholds nothing happens, so a count that hovers at the edge does not make
//! the mirror come and go.

use vstd::prelude::*;
use crate::cowboard::config::Cowboard;

verus! {

/// What to do about a source message.
#[derive(PartialEq, Eq, Structural, Clone, Copy, Debug)]
pub enum Decision {
    /// Leave everything as it is.
    NoOp,
    /// Post a mirror and record it.
    Create,
    /// Refresh the mirror that exists.
    Update,
    /// Take the mirror down and forget it.
    Delete,
}

/// What `count` asks for under the two thresholds, for a message that is
/// `mirrored` or not. Where a count is both at the add threshold and under the
/// remove threshold, which well-formed settings rule out, the add threshold
/// wins.
pub open spec fn decide(count: u64, add_threshold: i32, remove_threshold: i32, mirrored: bool) -> Decision {
    if count >= add_threshold {
        if mirrored {
            Decision::Update
        } else {
            Decision::Create
        }
    } else if mirrored && count < remove_threshold {
        Decision::Delete
    } else {
        Decision::NoOp
    }
}

/// Whether a mirror exists once `decision` has been carried out.
pub open spec fn mirrored_after(mirrored: bool, decision: Decision) -> bool {
    match decision {
        Decision::NoOp => mirrored,
        Decision::Create | Decision::Update => true,
        Decision::Delete => false,
    }
}

/// Whether a mirror exists after each of `counts` has been decided on in turn.
pub open spec fn mirrored_after_all(
    counts: Seq<u64>,
    add_threshold: i32,
    remove_threshold: i32,
    mirrored: bool,
) -> bool
    decreases counts.len(),
{
    if counts.len() == 0 {
        mirrored
    } else {
        let before = mirrored_after_all(counts.drop_last(), add_threshold, remove_threshold, mirrored);
        mirrored_after(before, decide(counts.last(), add_threshold, remove_threshold, before))
    }
}

/// Decides what the adjusted reaction count `count` asks for, given whether
/// the message has a mirror now.
pub fn evaluate(count: u64, config: &Cowboard, mirrored: bool) -> (decision: Decision)
    ensures
        decision == decide(count, config.add_threshold, config.remove_threshold, mirrored),
{
    let reaches_add = config.add_threshold <= 0 || count >= config.add_threshold as u64;
    if reaches_add {
        if mirrored {
            Decision::Update
        } else {
            Decision::Create
        }
    } else if mirrored && config.remove_threshold > 0 && count < config.remove_threshold as u64 {
        Decision::Delete
    } else {
        Decision::NoOp
    }
}

/// The decision when the platform reports that every reaction was cleared:
/// the mirror goes, whatever the count.
pub fn evaluate_cleared() -> (decision: Decision)
    ensures
        decision == Decision::Delete,
{
    Decision::Delete
}

/// A mirror is created only for a message without one, and refreshed or taken
/// down only for a message that has one.
pub proof fn lemma_decision_fits_state(count: u64, add_threshold: i32, remove_threshold: i32, mirrored: bool)
    ensures
        decide(count, add_threshold, remove_threshold, mirrored) == Decision::Create ==> !mirrored,
        decide(count, add_threshold, remove_threshold, mirrored) == Decision::Update ==> mirrored,
        decide(count, add_threshold, remove_threshold, mirrored) == Decision::Delete ==> mirrored,
{
}

/// Hysteresis, one step: with the remove threshold at or under the add
/// threshold, a mirror is taken down only by a count under the remove
/// threshold, and a message without a mirror gets one only by a count at or
/// over the add threshold. Inside the band nothing is done.
pub proof fn lemma_hysteresis_step(count: u64, add_threshold: i32, remove_threshold: i32, mirrored: bool)
    requires
        remove_threshold <= add_threshold,
    ensures
        decide(count, add_threshold, remove_threshold, mirrored) == Decision::Delete <==> mirrored && count
            < remove_threshold,
        decide(count, add_threshold, remove_threshold, mirrored) == Decision::Create <==> !mirrored && count
            >= add_threshold,
        remove_threshold <= count < add_threshold ==> decide(count, add_threshold, remove_threshold, mirrored)
            == Decision::NoOp,
        count >= remove_threshold ==> (mirrored ==> mirrored_after(
            mirrored,
            decide(count, add_threshold, remove_threshold, mirrored),
        )),
        count < add_threshold ==> (!mirrored ==> !mirrored_after(
            mirrored,
            decide(count, add_threshold, remove_threshold, mirrored),
        )),
{
}

/// Hysteresis, any run of counts: while no count drops under the remove
/// threshold, a mirror that exists stays; while no count reaches the add
/// threshold, a message without a mirror gets none.
pub proof fn lemma_hysteresis(counts: Seq<u64>, add_threshold: i32, remove_threshold: i32, mirrored: bool)
    requires
        remove_threshold <= add_threshold,
    ensures
        mirrored && (forall|i: int| 0 <= i < counts.len() ==> counts[i] >= remove_threshold)
            ==> mirrored_after_all(counts, add_threshold, remove_threshold, mirrored),
        !mirrored && (forall|i: int| 0 <= i < counts.len() ==> counts[i] < add_threshold)
            ==> !mirrored_after_all(counts, add_threshold, remove_threshold, mirrored),
    decreases counts.len(),
{
    if counts.len() > 0 {
        let front = counts.drop_last();
        lemma_hysteresis(front, add_threshold, remove_threshold, mirrored);
        assert(forall|i: int| 0 <= i < front.len() ==> front[i] == counts[i]);
        let before = mirrored_after_all(front, add_threshold, remove_threshold, mirrored);
        lemma_hysteresis_step(counts.last(), add_threshold, remove_threshold, before);
    }
}

} // verus!
