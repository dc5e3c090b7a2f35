//! What holds of the starboard as a whole.

use vstd::prelude::*;
use crate::cowboard::attachment::{staged_from, Attachment};
use crate::cowboard::config::Cowboard;
use crate::cowboard::degrade::{failure_kind, FailureKind, PlatformFailure};
use crate::cowboard::emoji::EmojiView;
use crate::cowboard::engine::{
    consistent, follows, holds_scratch, Command, CreateReply, EventKind, OperationState, Outcome, Phase,
    RecordReply, Reply,
};
use crate::cowboard::record::{CowboardMessage, MirrorRef, SourceKey};
use crate::cowboard::render::{mirror_post, Renderer};
use crate::cowboard::threshold::{decide, Decision};

verus! {

/// The mirror store once `decision` has been carried out for `key`, where a
/// mirror that was made is the post `mirror`.
pub open spec fn store_after(
    store: Map<SourceKey, MirrorRef>,
    key: SourceKey,
    decision: Decision,
    mirror: MirrorRef,
) -> Map<SourceKey, MirrorRef> {
    match decision {
        Decision::Create => store.insert(key, mirror),
        Decision::Delete => store.remove(key),
        Decision::Update | Decision::NoOp => store,
    }
}

/// The mirror store once an event with the adjusted count `count` has been
/// handled for `key`.
pub open spec fn store_after_event(
    store: Map<SourceKey, MirrorRef>,
    key: SourceKey,
    count: u64,
    add_threshold: i32,
    remove_threshold: i32,
    mirror: MirrorRef,
) -> Map<SourceKey, MirrorRef> {
    store_after(store, key, decide(count, add_threshold, remove_threshold, store.contains_key(key)), mirror)
}

/// A count at or over the add threshold gives a message without a record
/// its one record; the same event handled again leaves that record as it is
/// and adds none.
pub proof fn lemma_created_exactly_once(
    store: Map<SourceKey, MirrorRef>,
    key: SourceKey,
    count: u64,
    add_threshold: i32,
    remove_threshold: i32,
    first: MirrorRef,
    second: MirrorRef,
)
    requires
        !store.contains_key(key),
        count >= add_threshold,
    ensures
        ({
            let once = store_after_event(store, key, count, add_threshold, remove_threshold, first);
            let twice = store_after_event(once, key, count, add_threshold, remove_threshold, second);
            &&& once == store.insert(key, first)
            &&& twice == once
            &&& forall|other: SourceKey| other != key ==> (once.contains_key(other) <==> store.contains_key(other))
        }),
{
}

/// Removing the record of a message that has none changes nothing.
pub proof fn lemma_delete_absent_changes_nothing(store: Map<SourceKey, MirrorRef>, key: SourceKey)
    requires
        !store.contains_key(key),
    ensures
        store.remove(key) == store,
{
    assert(store.remove(key) =~= store);
}

/// Removing a record twice is the same as removing it once.
pub proof fn lemma_delete_twice_is_once(store: Map<SourceKey, MirrorRef>, key: SourceKey)
    ensures
        store.remove(key).remove(key) == store.remove(key),
{
    assert(store.remove(key).remove(key) =~= store.remove(key));
}

/// A record is stored only for a mirror that was posted for this very
/// message, and only once its scratch directory is gone.
pub proof fn lemma_record_follows_post(
    pre: OperationState,
    reply: Reply,
    trigger: Option<EmojiView>,
    post: OperationState,
    command: Command,
)
    requires
        consistent(pre),
        follows(pre, reply, trigger, post, command),
        command is CreateRecord,
    ensures
        pre.phase == Phase::AwaitRelease,
        reply is Released,
        pre.posted is Some,
        command->CreateRecord_record == CowboardMessage::spec_link(pre.key, pre.posted->Some_0),
        command->CreateRecord_record.spec_key() == pre.key,
{
}

/// Where the store holds a record for the message, no new mirror is begun:
/// the one that exists is refreshed, taken down or left alone.
pub proof fn lemma_found_record_is_not_doubled(
    pre: OperationState,
    record: CowboardMessage,
    trigger: Option<EmojiView>,
    post: OperationState,
    command: Command,
)
    requires
        consistent(pre),
        pre.phase == Phase::AwaitRecord,
        follows(pre, Reply::Record(RecordReply::Found(record)), trigger, post, command),
    ensures
        post.phase == Phase::AwaitEdit || post.phase == Phase::AwaitMirrorDeleted || post.phase == Phase::Done,
        !(command is PrepareScratch) && !(command is Post) && !(command is CreateRecord),
{
}

/// A count at or over the add threshold begins a mirror for a message
/// without a record.
pub proof fn lemma_absent_record_is_created(
    pre: OperationState,
    trigger: Option<EmojiView>,
    post: OperationState,
    command: Command,
)
    requires
        consistent(pre),
        pre.phase == Phase::AwaitRecord,
        pre.kind != EventKind::Cleared,
        pre.count >= pre.config->Some_0.add_threshold,
        follows(pre, Reply::Record(RecordReply::Absent), trigger, post, command),
    ensures
        post.phase == Phase::AwaitScratch,
        command is PrepareScratch,
{
}

/// While a scratch directory can exist the handling does not end: it goes on
/// staging and posting, or it removes the directory. So whatever comes of the
/// post, the directory is gone before the handling is over.
pub proof fn lemma_scratch_is_released(
    pre: OperationState,
    reply: Reply,
    trigger: Option<EmojiView>,
    post: OperationState,
    command: Command,
)
    requires
        consistent(pre),
        follows(pre, reply, trigger, post, command),
    ensures
        holds_scratch(pre.phase) ==> !(command is Finish) && (holds_scratch(post.phase) || (post.phase
            == Phase::AwaitRelease && command is ReleaseScratch)),
        holds_scratch(post.phase) && !holds_scratch(pre.phase) ==> command is PrepareScratch,
        command is PrepareScratch ==> post.phase == Phase::AwaitScratch,
{
}

/// A post through the webhook that fails because the webhook is unknown or
/// its token invalid clears the webhook in the settings and has them stored;
/// after that, stored or not, the same mirror is posted as the bot.
pub proof fn lemma_webhook_loss_degrades(
    pre: OperationState,
    failure: PlatformFailure,
    trigger: Option<EmojiView>,
    mid: OperationState,
    first: Command,
    saved: bool,
    post: OperationState,
    second: Command,
)
    requires
        consistent(pre),
        pre.phase == Phase::AwaitPost,
        pre.config->Some_0.spec_has_webhook(),
        failure_kind(failure) == FailureKind::WebhookLost,
        follows(pre, Reply::Posted(Err(failure)), trigger, mid, first),
        follows(mid, Reply::ConfigSaved(saved), trigger, post, second),
    ensures
        mid.config->Some_0 == (Cowboard { webhook_id: None, webhook_token: None, ..pre.config->Some_0 }),
        mid.degraded,
        first matches Command::SaveConfig { config } && config == mid.config->Some_0,
        post.phase == Phase::AwaitPost,
        second matches Command::Post { renderer, channel_id, post: mirror } && renderer == Renderer::Bot
            && channel_id == pre.config->Some_0.channel->Some_0 && mirror@ == mirror_post(
            pre.message->Some_0,
            pre.count,
            pre.config->Some_0.emote@,
            pre.stager.spec_staged(),
            Renderer::Bot,
        ),
{
}

/// A failure that does not say that the webhook is lost leaves the settings
/// alone.
pub proof fn lemma_transient_failure_keeps_webhook(
    pre: OperationState,
    failure: PlatformFailure,
    trigger: Option<EmojiView>,
    post: OperationState,
    command: Command,
)
    requires
        consistent(pre),
        pre.phase == Phase::AwaitPost || pre.phase == Phase::AwaitEdit,
        failure_kind(failure) != FailureKind::WebhookLost,
        follows(
            pre,
            if pre.phase == Phase::AwaitPost {
                Reply::Posted(Err(failure))
            } else {
                Reply::Edited(Err(failure))
            },
            trigger,
            post,
            command,
        ),
    ensures
        post.config == pre.config,
        !(command is SaveConfig),
{
}

/// The images that one staging takes together stay within the budget it
/// began with, whatever the downloads do.
pub proof fn lemma_staging_keeps_budget(attachments: Seq<Attachment>, downloaded: Seq<bool>, budget: u64)
    ensures
        crate::cowboard::attachment::total_size(attachments, staged_from(attachments, downloaded, 0, budget)) <= budget,
{
    crate::cowboard::attachment::lemma_staged_within_budget(attachments, downloaded, 0, budget);
}

/// An outcome that tells of a change tells the truth: a mirror counts as
/// created only once the store has taken its record, as refreshed only once
/// the platform has taken the edit, and as gone only once the store has
/// carried out the removal.
pub proof fn lemma_outcome_is_earned(
    pre: OperationState,
    reply: Reply,
    trigger: Option<EmojiView>,
    post: OperationState,
    command: Command,
)
    requires
        consistent(pre),
        pre.phase != Phase::Done,
        follows(pre, reply, trigger, post, command),
    ensures
        command matches Command::Finish(Outcome::Created(record)) ==> pre.phase == Phase::AwaitRecordCreated
            && reply == Reply::RecordCreated(CreateReply::Stored) && pre.posted is Some && record
            == CowboardMessage::spec_link(pre.key, pre.posted->Some_0),
        command matches Command::Finish(Outcome::Updated(mirror)) ==> pre.phase == Phase::AwaitEdit && (reply
            matches Reply::Edited(Ok(_))) && pre.record is Some && mirror == pre.record->Some_0.spec_mirror(),
        command == Command::Finish(Outcome::Deleted) ==> pre.phase == Phase::AwaitRecordDeleted && reply
            == Reply::RecordDeleted(true),
{
}

/// How many attachments the message has, as far as it is known.
pub open spec fn attachments_known(state: OperationState) -> nat {
    match state.message {
        Some(message) => message.attachments@.len(),
        None => 0,
    }
}

/// An upper bound on the steps that the handling has before it: each phase
/// has its place in the order of things, staging has two steps for each
/// attachment not yet looked at, and giving up the webhook and making a
/// mirror anew can each happen once.
pub open spec fn steps_left(state: OperationState) -> nat {
    let all = attachments_known(state);
    let place: nat = match state.phase {
        Phase::AwaitGuild => 41,
        Phase::AwaitConfig => 40,
        Phase::AwaitMessage => 32,
        Phase::AwaitMembership => 2 * all + 31,
        Phase::AwaitPurged => 2 * all + 30,
        Phase::AwaitRecord => 2 * all + 29,
        Phase::AwaitScratch => 2 * all + 28,
        Phase::AwaitDownload => (2 * (all - state.stager.spec_next()) + 26) as nat,
        Phase::AwaitPostConfigSaved => 13,
        Phase::AwaitPost => 12,
        Phase::AwaitRelease => 10,
        Phase::AwaitRecordCreated => 9,
        Phase::AwaitExisting => 8,
        Phase::AwaitEditConfigSaved => 7,
        Phase::AwaitEdit => 6,
        Phase::AwaitMirrorDeleted => 3,
        Phase::AwaitRecordDeleted => 2,
        Phase::Done => 0,
    };
    let webhook: nat = if state.config is Some && state.config->Some_0.spec_has_webhook() {
        5
    } else {
        0
    };
    let anew: nat = if state.purged {
        0
    } else {
        2 * all + 40
    };
    place + webhook + anew
}

/// Fewer steps are left after each step up to the decision.
proof fn lemma_ends_before_decision(
    pre: OperationState,
    reply: Reply,
    trigger: Option<EmojiView>,
    post: OperationState,
    command: Command,
)
    requires
        consistent(pre),
        follows(pre, reply, trigger, post, command),
        pre.phase == Phase::AwaitGuild || pre.phase == Phase::AwaitConfig || pre.phase == Phase::AwaitMembership || pre.phase == Phase::AwaitRecord,
    ensures
        steps_left(post) < steps_left(pre),
{
}

/// Fewer steps are left after each step of staging.
proof fn lemma_ends_staging(
    pre: OperationState,
    reply: Reply,
    trigger: Option<EmojiView>,
    post: OperationState,
    command: Command,
)
    requires
        consistent(pre),
        follows(pre, reply, trigger, post, command),
        pre.phase == Phase::AwaitScratch || pre.phase == Phase::AwaitDownload,
    ensures
        steps_left(post) < steps_left(pre),
{
    if pre.phase == Phase::AwaitScratch {
        lemma_next_image_is_ahead(pre.message->Some_0.attachments@, 0);
    } else {
        lemma_next_image_is_ahead(pre.message->Some_0.attachments@, pre.stager.spec_next() + 1);
    }
}

/// Fewer steps are left after each step of posting and recording.
proof fn lemma_ends_posting(
    pre: OperationState,
    reply: Reply,
    trigger: Option<EmojiView>,
    post: OperationState,
    command: Command,
)
    requires
        consistent(pre),
        follows(pre, reply, trigger, post, command),
        pre.phase == Phase::AwaitPost || pre.phase == Phase::AwaitPostConfigSaved || pre.phase == Phase::AwaitRelease || pre.phase == Phase::AwaitRecordCreated || pre.phase == Phase::AwaitExisting,
    ensures
        steps_left(post) < steps_left(pre),
{
}

/// Fewer steps are left after each step of editing and deleting.
proof fn lemma_ends_editing(
    pre: OperationState,
    reply: Reply,
    trigger: Option<EmojiView>,
    post: OperationState,
    command: Command,
)
    requires
        consistent(pre),
        follows(pre, reply, trigger, post, command),
        pre.phase == Phase::AwaitEdit || pre.phase == Phase::AwaitEditConfigSaved || pre.phase == Phase::AwaitPurged || pre.phase == Phase::AwaitMirrorDeleted || pre.phase == Phase::AwaitRecordDeleted,
    ensures
        steps_left(post) < steps_left(pre),
{
}

/// The handling of an event comes to an end: once the message is at hand,
/// every step leaves fewer steps to go, whatever the replies are.
pub proof fn lemma_handling_ends(
    pre: OperationState,
    reply: Reply,
    trigger: Option<EmojiView>,
    post: OperationState,
    command: Command,
)
    requires
        consistent(pre),
        follows(pre, reply, trigger, post, command),
        pre.phase != Phase::Done,
        pre.phase != Phase::AwaitMessage,
    ensures
        steps_left(post) < steps_left(pre),
{
    match pre.phase {
        Phase::AwaitGuild | Phase::AwaitConfig | Phase::AwaitMembership | Phase::AwaitRecord => {
            lemma_ends_before_decision(pre, reply, trigger, post, command);
        },
        Phase::AwaitScratch | Phase::AwaitDownload => {
            lemma_ends_staging(pre, reply, trigger, post, command);
        },
        Phase::AwaitPost | Phase::AwaitPostConfigSaved | Phase::AwaitRelease | Phase::AwaitRecordCreated
        | Phase::AwaitExisting => {
            lemma_ends_posting(pre, reply, trigger, post, command);
        },
        _ => {
            lemma_ends_editing(pre, reply, trigger, post, command);
        },
    }
}

/// The step that takes the message in leads on to the count, to the lookup
/// of the record, or to the end.
pub proof fn lemma_message_leads_on(
    pre: OperationState,
    reply: Reply,
    trigger: Option<EmojiView>,
    post: OperationState,
    command: Command,
)
    requires
        consistent(pre),
        follows(pre, reply, trigger, post, command),
        pre.phase == Phase::AwaitMessage,
    ensures
        post.phase == Phase::AwaitMembership || post.phase == Phase::AwaitRecord || post.phase == Phase::Done,
{
}

/// The next image is looked for ahead, never behind.
proof fn lemma_next_image_is_ahead(attachments: Seq<Attachment>, from: int)
    requires
        0 <= from,
    ensures
        from <= crate::cowboard::attachment::next_image(attachments, from) || from > attachments.len(),
        crate::cowboard::attachment::next_image(attachments, from) <= attachments.len(),
    decreases attachments.len() - from,
{
    if from < attachments.len() && !attachments[from].spec_is_image() {
        lemma_next_image_is_ahead(attachments, from + 1);
    }
}

} // verus!
