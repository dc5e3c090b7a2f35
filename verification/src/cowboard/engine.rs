//! The handling of one reaction event, step by step.
//!
//! Handling an event means asking the platform, the settings and the mirror
//! store a number of things in turn and deciding in between. The deciding is
//! done here. An [`Operation`] is begun for an event; it hands out a
//! [`Command`], the caller carries it out and hands the [`Reply`] to
//! [`Operation::step`], which answers with the next command, until the
//! command is [`Command::Finish`].

use vstd::prelude::*;
use crate::cowboard::attachment::{
    next_image, scratch_dir, scratch_dir_text, scratch_path_text, StagedAttachment, Stager, StagingStep,
    UPLOAD_BUDGET,
};
use crate::cowboard::config::Cowboard;
use crate::cowboard::degrade::{classify, error_of, failure_kind, must_degrade, FailureKind, PlatformFailure};
use crate::cowboard::emoji::{parsed_reaction, Emoji, EmojiView};
use crate::cowboard::error::{ConfigurationFault, CowboardError};
use crate::cowboard::reaction::{adjust, adjusted, raw_count, summary_view, trigger_count};
use crate::cowboard::record::{CowboardMessage, MirrorRef, SourceKey};
use crate::cowboard::render::{
    content_text, mirror_post, render, render_update, renderer_of, select_renderer, MirrorPost, Renderer,
    SourceMessage,
};
use crate::cowboard::threshold::{decide, evaluate, Decision};

verus! {

/// What happened to the reactions of a message.
#[derive(PartialEq, Eq, Structural, Clone, Copy, Debug)]
pub enum EventKind {
    /// Someone reacted.
    Added,
    /// Someone took a reaction back.
    Removed,
    /// All reactions were cleared at once.
    Cleared,
}

/// How the handling of an event ended.
#[derive(PartialEq, Eq, Structural, Clone, Copy, Debug)]
pub enum Outcome {
    /// The event does not concern a guild: nothing was done.
    Ignored,
    /// The count asks for nothing.
    NoOp,
    /// A mirror was posted and recorded.
    Created(CowboardMessage),
    /// The mirror was refreshed.
    Updated(MirrorRef),
    /// The mirror was taken down and its record removed.
    Deleted,
    /// The event was skipped or dropped for this reason.
    Failed(CowboardError),
}

/// Where the handling of an event stands: which reply is awaited.
#[derive(PartialEq, Eq, Structural, Clone, Copy, Debug)]
pub enum Phase {
    /// The guild of a message whose reactions were cleared.
    AwaitGuild,
    /// The settings of the guild.
    AwaitConfig,
    /// The source message.
    AwaitMessage,
    /// Whether the author reacted.
    AwaitMembership,
    /// The record of the source message.
    AwaitRecord,
    /// The scratch directory.
    AwaitScratch,
    /// The download of an image.
    AwaitDownload,
    /// The new mirror post.
    AwaitPost,
    /// The storing of the settings after a post lost the webhook.
    AwaitPostConfigSaved,
    /// The removal of the scratch directory.
    AwaitRelease,
    /// The storing of the new record.
    AwaitRecordCreated,
    /// The record that someone else stored first.
    AwaitExisting,
    /// The edit of the mirror post.
    AwaitEdit,
    /// The storing of the settings after an edit lost the webhook.
    AwaitEditConfigSaved,
    /// The removal of the record of a mirror that is gone.
    AwaitPurged,
    /// The deletion of the mirror post.
    AwaitMirrorDeleted,
    /// The removal of the record.
    AwaitRecordDeleted,
    /// Nothing: the handling is over.
    Done,
}

/// What the mirror store answers to a lookup.
#[derive(PartialEq, Eq, Structural, Clone, Copy, Debug)]
pub enum RecordReply {
    /// The record of the source message.
    Found(CowboardMessage),
    /// There is no record of the source message.
    Absent,
    /// The store did not answer.
    Failed,
}

/// What the mirror store answers to a new record.
#[derive(PartialEq, Eq, Structural, Clone, Copy, Debug)]
pub enum CreateReply {
    /// The record is stored.
    Stored,
    /// A record for the source message exists already.
    Duplicate,
    /// The store did not answer.
    Failed,
}

/// What came of the last command.
#[derive(Debug)]
pub enum Reply {
    /// The guild of the message, or `None` where it has none or cannot be had.
    Guild(Option<u64>),
    /// The guild's settings, or `None` where they cannot be had.
    Config(Option<Cowboard>),
    /// The source message, or `None` where it cannot be had.
    Message(Option<SourceMessage>),
    /// Whether the author reacted with the trigger emoji, or `None` where the
    /// platform does not say.
    AuthorReacted(Option<bool>),
    /// What the store holds for the source message.
    Record(RecordReply),
    /// Whether the scratch directory is there.
    ScratchReady(bool),
    /// Whether the file arrived.
    Downloaded(bool),
    /// Where the mirror was posted, or how posting failed.
    Posted(Result<MirrorRef, PlatformFailure>),
    /// Whether the mirror was edited, or how editing failed.
    Edited(Result<(), PlatformFailure>),
    /// The scratch directory is gone, or could not be removed: either way
    /// the handling goes on.
    Released,
    /// Whether the settings were stored.
    ConfigSaved(bool),
    /// What the store made of the new record.
    RecordCreated(CreateReply),
    /// Whether the mirror post was deleted.
    MirrorDeleted(bool),
    /// Whether the store carried out the removal (of a record or of none).
    RecordDeleted(bool),
}

/// What the caller is to do next.
#[derive(PartialEq, Eq, Debug)]
pub enum Command {
    /// Find the guild of the message; answer with `Reply::Guild`.
    ResolveGuild { channel_id: u64, message_id: u64 },
    /// Read the guild's settings; answer with `Reply::Config`.
    FetchConfig { guild_id: u64 },
    /// Read the message; answer with `Reply::Message`.
    FetchMessage { channel_id: u64, message_id: u64 },
    /// Ask whether the author is among those who reacted with the emoji;
    /// answer with `Reply::AuthorReacted`.
    CheckAuthorReacted { channel_id: u64, message_id: u64, author_id: u64, emote: String },
    /// Look the record up; answer with `Reply::Record`.
    FindRecord { key: SourceKey },
    /// Make the scratch directory; answer with `Reply::ScratchReady`.
    PrepareScratch { dir: String },
    /// Download the file at `url` to `path`; answer with `Reply::Downloaded`.
    Download { url: String, path: String },
    /// Post the mirror to the channel; answer with `Reply::Posted`.
    Post { renderer: Renderer, channel_id: u64, post: MirrorPost },
    /// Set the content of the mirror; answer with `Reply::Edited`.
    Edit { renderer: Renderer, mirror: MirrorRef, content: String },
    /// Remove the scratch directory with all in it; answer with
    /// `Reply::Released`.
    ReleaseScratch { dir: String },
    /// Store the settings; answer with `Reply::ConfigSaved`.
    SaveConfig { config: Cowboard },
    /// Store the record; answer with `Reply::RecordCreated`.
    CreateRecord { record: CowboardMessage },
    /// Delete the mirror post; answer with `Reply::MirrorDeleted`.
    DeleteMirror { mirror: MirrorRef },
    /// Remove the record of the message, if there is one; answer with
    /// `Reply::RecordDeleted`.
    DeleteRecord { key: SourceKey },
    /// The handling is over.
    Finish(Outcome),
}

/// All that is known while an event is handled.
pub struct OperationState {
    pub phase: Phase,
    pub kind: EventKind,
    pub key: SourceKey,
    pub config: Option<Cowboard>,
    pub message: Option<SourceMessage>,
    /// The count of the trigger emoji as the message gives it.
    pub raw: u64,
    /// The adjusted count.
    pub count: u64,
    pub record: Option<CowboardMessage>,
    pub stager: Stager,
    /// Whether the mirror goes out as the bot although a webhook was stored.
    pub degraded: bool,
    /// Whether a record was purged because its mirror was gone.
    pub purged: bool,
    pub posted: Option<MirrorRef>,
    pub outcome: Option<Outcome>,
}

/// The handling of one reaction event.
pub struct Operation {
    state: OperationState,
}

impl View for Operation {
    type V = OperationState;

    closed spec fn view(&self) -> OperationState {
        self.state
    }
}

/// Whether a scratch directory may exist in this phase.
pub open spec fn holds_scratch(phase: Phase) -> bool {
    phase == Phase::AwaitScratch || phase == Phase::AwaitDownload || phase == Phase::AwaitPost || phase
        == Phase::AwaitPostConfigSaved
}

/// The state in which the handling is over with `outcome`.
pub open spec fn finished(pre: OperationState, outcome: Outcome) -> OperationState {
    OperationState { phase: Phase::Done, outcome: Some(outcome), ..pre }
}

/// The handling ends with `outcome`.
pub open spec fn ends_with(pre: OperationState, outcome: Outcome, post: OperationState, command: Command) -> bool {
    post == finished(pre, outcome) && command == Command::Finish(outcome)
}

/// The handling fails with `error`: at once where no scratch directory can
/// exist, else after its removal.
pub open spec fn fails_with(pre: OperationState, error: CowboardError, post: OperationState, command: Command) -> bool {
    if holds_scratch(pre.phase) {
        &&& post == (OperationState { phase: Phase::AwaitRelease, posted: None, outcome: Some(Outcome::Failed(error)), ..pre })
        &&& command matches Command::ReleaseScratch { dir }
        &&& dir@ == scratch_dir_text(pre.key.message_id)
    } else {
        ends_with(pre, Outcome::Failed(error), post, command)
    }
}

/// The renderer in use: the one the settings ask for.
pub open spec fn renderer_in_use(state: OperationState) -> Renderer {
    renderer_of(state.config->Some_0)
}

/// The settings with the webhook given up.
pub open spec fn without_webhook(config: Cowboard) -> Cowboard {
    Cowboard { webhook_id: None, webhook_token: None, ..config }
}

/// A stager that has not begun.
pub open spec fn fresh(stager: Stager, message_id: u64) -> bool {
    &&& stager.spec_message_id() == message_id
    &&& stager.spec_budget_left() == UPLOAD_BUDGET
    &&& stager.spec_next() == 0
    &&& !stager.spec_stopped()
    &&& stager.spec_indices() == Seq::<int>::empty()
    &&& stager.spec_staged() == Seq::<StagedAttachment>::empty()
}

/// The record is looked up next.
pub open spec fn looks_up(next: OperationState, post: OperationState, command: Command) -> bool {
    &&& post == (OperationState { phase: Phase::AwaitRecord, ..next })
    &&& command == (Command::FindRecord { key: next.key })
}

/// The content of the mirror is edited next.
pub open spec fn edits(next: OperationState, post: OperationState, command: Command) -> bool {
    &&& post == (OperationState { phase: Phase::AwaitEdit, ..next })
    &&& command matches Command::Edit { renderer, mirror, content }
    &&& renderer == renderer_in_use(next)
    &&& mirror == next.record->Some_0.spec_mirror()
    &&& content@ == content_text(
        next.count,
        next.config->Some_0.emote@,
        next.message->Some_0.channel_id,
        next.message->Some_0.link@,
    )
}

/// The scratch directory is made next, for a staging that starts afresh.
pub open spec fn prepares(next: OperationState, post: OperationState, command: Command) -> bool {
    &&& post == (OperationState { phase: Phase::AwaitScratch, stager: post.stager, ..next })
    &&& fresh(post.stager, next.key.message_id)
    &&& command matches Command::PrepareScratch { dir }
    &&& dir@ == scratch_dir_text(next.key.message_id)
}

/// The mirror is posted next.
pub open spec fn posts(next: OperationState, post: OperationState, command: Command) -> bool {
    &&& post == (OperationState { phase: Phase::AwaitPost, ..next })
    &&& command matches Command::Post { renderer, channel_id, post: mirror }
    &&& renderer == renderer_in_use(next)
    &&& channel_id == next.config->Some_0.channel->Some_0
    &&& mirror@ == mirror_post(
        next.message->Some_0,
        next.count,
        next.config->Some_0.emote@,
        next.stager.spec_staged(),
        renderer,
    )
}

/// The mirror post is deleted next.
pub open spec fn deletes_mirror(next: OperationState, post: OperationState, command: Command) -> bool {
    &&& post == (OperationState { phase: Phase::AwaitMirrorDeleted, ..next })
    &&& command == (Command::DeleteMirror { mirror: next.record->Some_0.spec_mirror() })
}

/// The record is removed next.
pub open spec fn removes(next: OperationState, post: OperationState, command: Command) -> bool {
    &&& post == (OperationState { phase: Phase::AwaitRecordDeleted, ..next })
    &&& command == (Command::DeleteRecord { key: next.key })
}

/// The settings, with the webhook given up, are stored next, and the phase
/// `then` follows.
pub open spec fn degrades(pre: OperationState, then: Phase, post: OperationState, command: Command) -> bool {
    &&& post == (OperationState {
        phase: then,
        config: Some(without_webhook(pre.config->Some_0)),
        degraded: true,
        ..pre
    })
    &&& command matches Command::SaveConfig { config }
    &&& config == without_webhook(pre.config->Some_0)
}

/// Staging goes on with a stager that stands at `from`, has `budget` bytes
/// left and has staged `indices`: the next image is downloaded where it fits
/// the budget, else the mirror is posted with what is staged. Where staging
/// was `halted`, the mirror is posted at once.
pub open spec fn stages_on(
    pre: OperationState,
    from: int,
    budget: u64,
    indices: Seq<int>,
    halted: bool,
    post: OperationState,
    command: Command,
) -> bool {
    let attachments = pre.message->Some_0.attachments@;
    let i = next_image(attachments, from);
    &&& post.stager.spec_message_id() == pre.stager.spec_message_id()
    &&& post.stager.spec_budget_left() == budget
    &&& post.stager.spec_indices() == indices
    &&& post.stager.files_match(attachments)
    &&& if halted || i >= attachments.len() || attachments[i].size > budget {
        &&& post.stager.spec_stopped()
        &&& posts(OperationState { stager: post.stager, ..pre }, post, command)
    } else {
        &&& !post.stager.spec_stopped()
        &&& post.stager.spec_next() == i
        &&& post == (OperationState { phase: Phase::AwaitDownload, stager: post.stager, ..pre })
        &&& command matches Command::Download { url, path }
        &&& url@ == attachments[i].url@
        &&& path@ == scratch_path_text(scratch_dir_text(pre.key.message_id), attachments[i].filename@)
    }
}

/// What follows the guild of a message whose reactions were cleared.
pub open spec fn follows_guild(pre: OperationState, reply: Reply, post: OperationState, command: Command) -> bool {
    match reply {
        Reply::Guild(Some(guild_id)) => looks_up(
            OperationState { key: SourceKey { guild_id, ..pre.key }, ..pre },
            post,
            command,
        ),
        Reply::Guild(None) => ends_with(pre, Outcome::Ignored, post, command),
        _ => fails_with(pre, CowboardError::TransientPlatform, post, command),
    }
}

/// What follows the settings: without a target channel the event is skipped,
/// else the message is read.
pub open spec fn follows_config(pre: OperationState, reply: Reply, post: OperationState, command: Command) -> bool {
    match reply {
        Reply::Config(Some(config)) => if config.channel is None {
            ends_with(
                pre,
                Outcome::Failed(CowboardError::Configuration(ConfigurationFault::MissingChannel)),
                post,
                command,
            )
        } else {
            &&& post == (OperationState { phase: Phase::AwaitMessage, config: Some(config), ..pre })
            &&& command == (Command::FetchMessage {
                channel_id: pre.key.channel_id,
                message_id: pre.key.message_id,
            })
        },
        _ => fails_with(pre, CowboardError::TransientPlatform, post, command),
    }
}

/// What follows the message, where `trigger` is what the stored emoji reads
/// as: with no reaction of that emoji on the message the count is 0 and the
/// record is looked up; else the platform is asked about the author.
pub open spec fn follows_message(
    pre: OperationState,
    reply: Reply,
    trigger: Option<EmojiView>,
    post: OperationState,
    command: Command,
) -> bool {
    match reply {
        Reply::Message(Some(message)) => match trigger {
            None => ends_with(
                pre,
                Outcome::Failed(CowboardError::Configuration(ConfigurationFault::MalformedEmoji)),
                post,
                command,
            ),
            Some(trigger) => match raw_count(summary_view(message.reactions@), trigger) {
                None => looks_up(OperationState { message: Some(message), raw: 0, count: 0, ..pre }, post, command),
                Some(raw) => {
                    &&& post == (OperationState {
                        phase: Phase::AwaitMembership,
                        message: Some(message),
                        raw,
                        ..pre
                    })
                    &&& command matches Command::CheckAuthorReacted { channel_id, message_id, author_id, emote }
                    &&& channel_id == pre.key.channel_id
                    &&& message_id == pre.key.message_id
                    &&& author_id == message.author.id
                    &&& emote@ == pre.config->Some_0.emote@
                },
            },
        },
        _ => fails_with(pre, CowboardError::TransientPlatform, post, command),
    }
}

/// What follows the word on the author's own reaction: the adjusted count is
/// fixed and the record is looked up.
pub open spec fn follows_membership(pre: OperationState, reply: Reply, post: OperationState, command: Command) -> bool {
    match reply {
        Reply::AuthorReacted(Some(author_reacted)) => looks_up(
            OperationState { count: adjusted(pre.raw, author_reacted), ..pre },
            post,
            command,
        ),
        _ => fails_with(pre, CowboardError::TransientPlatform, post, command),
    }
}

/// What the count asks for, given whether a record was found; cleared
/// reactions ask for the mirror to go whatever the count.
pub open spec fn decision_of(pre: OperationState, found: bool) -> Decision {
    if pre.kind == EventKind::Cleared {
        Decision::Delete
    } else {
        decide(pre.count, pre.config->Some_0.add_threshold, pre.config->Some_0.remove_threshold, found)
    }
}

/// What follows the lookup of the record: the decision, and its first step.
pub open spec fn follows_record(pre: OperationState, reply: Reply, post: OperationState, command: Command) -> bool {
    match reply {
        Reply::Record(RecordReply::Failed) => if pre.kind == EventKind::Cleared {
            removes(pre, post, command)
        } else {
            fails_with(pre, CowboardError::TransientPlatform, post, command)
        },
        Reply::Record(RecordReply::Absent) => match decision_of(pre, false) {
            Decision::Create => prepares(pre, post, command),
            Decision::Delete => removes(pre, post, command),
            _ => ends_with(pre, Outcome::NoOp, post, command),
        },
        Reply::Record(RecordReply::Found(record)) => match decision_of(pre, true) {
            Decision::Update => edits(OperationState { record: Some(record), ..pre }, post, command),
            Decision::Delete => deletes_mirror(OperationState { record: Some(record), ..pre }, post, command),
            _ => ends_with(pre, Outcome::NoOp, post, command),
        },
        _ => fails_with(pre, CowboardError::TransientPlatform, post, command),
    }
}

/// What follows the making of the scratch directory: staging begins, or,
/// where the directory is not there, the mirror is posted without images.
pub open spec fn follows_scratch(pre: OperationState, reply: Reply, post: OperationState, command: Command) -> bool {
    match reply {
        Reply::ScratchReady(ready) => stages_on(
            pre,
            0,
            UPLOAD_BUDGET,
            Seq::<int>::empty(),
            !ready,
            post,
            command,
        ),
        _ => fails_with(pre, CowboardError::TransientPlatform, post, command),
    }
}

/// What follows a download: a file that arrived is staged and paid for, and
/// staging goes on behind it.
pub open spec fn follows_download(pre: OperationState, reply: Reply, post: OperationState, command: Command) -> bool {
    match reply {
        Reply::Downloaded(arrived) => {
            let at = pre.stager.spec_next();
            let size = pre.message->Some_0.attachments@[at].size;
            stages_on(
                pre,
                at + 1,
                if arrived {
                    (pre.stager.spec_budget_left() - size) as u64
                } else {
                    pre.stager.spec_budget_left()
                },
                if arrived {
                    pre.stager.spec_indices().push(at)
                } else {
                    pre.stager.spec_indices()
                },
                false,
                post,
                command,
            )
        },
        _ => fails_with(pre, CowboardError::TransientPlatform, post, command),
    }
}

/// What follows the posting: a post that went out is remembered and the
/// scratch directory removed; one that failed for the loss of the webhook
/// makes the settings give the webhook up; any other failure ends the
/// handling once the scratch directory is removed.
pub open spec fn follows_post(pre: OperationState, reply: Reply, post: OperationState, command: Command) -> bool {
    match reply {
        Reply::Posted(Ok(mirror)) => {
            &&& post == (OperationState { phase: Phase::AwaitRelease, posted: Some(mirror), ..pre })
            &&& command matches Command::ReleaseScratch { dir }
            &&& dir@ == scratch_dir_text(pre.key.message_id)
        },
        Reply::Posted(Err(failure)) => if must_degrade(pre.config->Some_0.spec_has_webhook(), failure) {
            degrades(pre, Phase::AwaitPostConfigSaved, post, command)
        } else {
            fails_with(pre, CowboardError::RenderFailed, post, command)
        },
        _ => fails_with(pre, CowboardError::TransientPlatform, post, command),
    }
}

/// What follows the storing of the settings after a post failed: the same
/// mirror is posted as the bot, whether or not the settings could be stored.
pub open spec fn follows_post_config_saved(
    pre: OperationState,
    reply: Reply,
    post: OperationState,
    command: Command,
) -> bool {
    match reply {
        Reply::ConfigSaved(_) => posts(pre, post, command),
        _ => fails_with(pre, CowboardError::TransientPlatform, post, command),
    }
}

/// What follows the removal of the scratch directory: the record of the
/// post that went out is stored, or the failure that was pending is reported.
pub open spec fn follows_release(pre: OperationState, reply: Reply, post: OperationState, command: Command) -> bool {
    match reply {
        Reply::Released => match pre.posted {
            Some(mirror) => {
                &&& post == (OperationState { phase: Phase::AwaitRecordCreated, ..pre })
                &&& command == (Command::CreateRecord { record: CowboardMessage::spec_link(pre.key, mirror) })
            },
            None => ends_with(pre, pre.outcome->Some_0, post, command),
        },
        _ => fails_with(pre, CowboardError::TransientPlatform, post, command),
    }
}

/// What follows the storing of the record. A duplicate means that someone
/// else recorded a mirror first: that record is read and its mirror
/// refreshed.
pub open spec fn follows_record_created(
    pre: OperationState,
    reply: Reply,
    post: OperationState,
    command: Command,
) -> bool {
    match reply {
        Reply::RecordCreated(CreateReply::Stored) => ends_with(
            pre,
            Outcome::Created(CowboardMessage::spec_link(pre.key, pre.posted->Some_0)),
            post,
            command,
        ),
        Reply::RecordCreated(CreateReply::Duplicate) => {
            &&& post == (OperationState { phase: Phase::AwaitExisting, ..pre })
            &&& command == (Command::FindRecord { key: pre.key })
        },
        _ => fails_with(pre, CowboardError::TransientPlatform, post, command),
    }
}

/// What follows the reading of the record that was there first.
pub open spec fn follows_existing(pre: OperationState, reply: Reply, post: OperationState, command: Command) -> bool {
    match reply {
        Reply::Record(RecordReply::Found(record)) => edits(
            OperationState { record: Some(record), ..pre },
            post,
            command,
        ),
        _ => fails_with(pre, CowboardError::TransientPlatform, post, command),
    }
}

/// What follows an edit. One that failed for the loss of the webhook makes
/// the settings give the webhook up; one that failed because the mirror is
/// gone has the record purged, once, and a new mirror made.
pub open spec fn follows_edit(pre: OperationState, reply: Reply, post: OperationState, command: Command) -> bool {
    match reply {
        Reply::Edited(Ok(_)) => ends_with(
            pre,
            Outcome::Updated(pre.record->Some_0.spec_mirror()),
            post,
            command,
        ),
        Reply::Edited(Err(failure)) => if must_degrade(pre.config->Some_0.spec_has_webhook(), failure) {
            degrades(pre, Phase::AwaitEditConfigSaved, post, command)
        } else if failure_kind(failure) == FailureKind::MirrorMissing && !pre.purged {
            &&& post == (OperationState { phase: Phase::AwaitPurged, purged: true, ..pre })
            &&& command == (Command::DeleteRecord { key: pre.key })
        } else {
            fails_with(pre, CowboardError::RenderFailed, post, command)
        },
        _ => fails_with(pre, CowboardError::TransientPlatform, post, command),
    }
}

/// What follows the storing of the settings after an edit failed: the same
/// edit is made as the bot.
pub open spec fn follows_edit_config_saved(
    pre: OperationState,
    reply: Reply,
    post: OperationState,
    command: Command,
) -> bool {
    match reply {
        Reply::ConfigSaved(_) => edits(pre, post, command),
        _ => fails_with(pre, CowboardError::TransientPlatform, post, command),
    }
}

/// What follows the purge of a record whose mirror is gone: a new mirror.
pub open spec fn follows_purged(pre: OperationState, reply: Reply, post: OperationState, command: Command) -> bool {
    match reply {
        Reply::RecordDeleted(true) => prepares(OperationState { record: None, ..pre }, post, command),
        _ => fails_with(pre, CowboardError::TransientPlatform, post, command),
    }
}

/// What follows the deletion of the mirror post: the record goes, whether
/// or not the post could be deleted.
pub open spec fn follows_mirror_deleted(
    pre: OperationState,
    reply: Reply,
    post: OperationState,
    command: Command,
) -> bool {
    match reply {
        Reply::MirrorDeleted(_) => removes(pre, post, command),
        _ => fails_with(pre, CowboardError::TransientPlatform, post, command),
    }
}

/// What follows the removal of the record.
pub open spec fn follows_record_deleted(
    pre: OperationState,
    reply: Reply,
    post: OperationState,
    command: Command,
) -> bool {
    match reply {
        Reply::RecordDeleted(true) => ends_with(pre, Outcome::Deleted, post, command),
        _ => fails_with(pre, CowboardError::TransientPlatform, post, command),
    }
}

/// The step from `pre` on `reply` to `post` with `command`, where `trigger`
/// is what the stored trigger emoji reads as. A reply that does not answer
/// the last command fails the handling.
pub open spec fn follows(
    pre: OperationState,
    reply: Reply,
    trigger: Option<EmojiView>,
    post: OperationState,
    command: Command,
) -> bool {
    match pre.phase {
        Phase::AwaitGuild => follows_guild(pre, reply, post, command),
        Phase::AwaitConfig => follows_config(pre, reply, post, command),
        Phase::AwaitMessage => follows_message(pre, reply, trigger, post, command),
        Phase::AwaitMembership => follows_membership(pre, reply, post, command),
        Phase::AwaitRecord => follows_record(pre, reply, post, command),
        Phase::AwaitScratch => follows_scratch(pre, reply, post, command),
        Phase::AwaitDownload => follows_download(pre, reply, post, command),
        Phase::AwaitPost => follows_post(pre, reply, post, command),
        Phase::AwaitPostConfigSaved => follows_post_config_saved(pre, reply, post, command),
        Phase::AwaitRelease => follows_release(pre, reply, post, command),
        Phase::AwaitRecordCreated => follows_record_created(pre, reply, post, command),
        Phase::AwaitExisting => follows_existing(pre, reply, post, command),
        Phase::AwaitEdit => follows_edit(pre, reply, post, command),
        Phase::AwaitEditConfigSaved => follows_edit_config_saved(pre, reply, post, command),
        Phase::AwaitPurged => follows_purged(pre, reply, post, command),
        Phase::AwaitMirrorDeleted => follows_mirror_deleted(pre, reply, post, command),
        Phase::AwaitRecordDeleted => follows_record_deleted(pre, reply, post, command),
        Phase::Done => post == pre && command == Command::Finish(pre.outcome->Some_0),
    }
}

/// Whether the settings and the message are at hand.
pub open spec fn has_source(state: OperationState) -> bool {
    state.config is Some && state.config->Some_0.channel is Some && state.message is Some
}

/// What holds of the state in each phase.
pub open spec fn consistent(state: OperationState) -> bool {
    let attachments = state.message->Some_0.attachments@;
    &&& state.stager.spec_message_id() == state.key.message_id
    &&& match state.phase {
        Phase::AwaitGuild => state.kind == EventKind::Cleared && state.config is None && state.message is None,
        Phase::AwaitConfig => state.kind != EventKind::Cleared && state.config is None && state.message is None,
        Phase::AwaitMessage => state.kind != EventKind::Cleared && state.config is Some
            && state.config->Some_0.channel is Some && state.message is None,
        Phase::AwaitRecord => state.kind != EventKind::Cleared ==> has_source(state),
        Phase::AwaitScratch => has_source(state) && fresh(state.stager, state.key.message_id),
        Phase::AwaitDownload => {
            &&& has_source(state)
            &&& state.stager.files_match(attachments)
            &&& !state.stager.spec_stopped()
            &&& 0 <= state.stager.spec_next() < attachments.len()
            &&& attachments[state.stager.spec_next()].spec_is_image()
            &&& attachments[state.stager.spec_next()].size <= state.stager.spec_budget_left()
        },
        Phase::AwaitPost | Phase::AwaitPostConfigSaved => {
            &&& has_source(state)
            &&& state.stager.files_match(attachments)
            &&& state.stager.spec_stopped()
        },
        Phase::AwaitRelease => has_source(state) && (state.posted is None ==> state.outcome is Some
            && state.outcome->Some_0 is Failed),
        Phase::AwaitRecordCreated => has_source(state) && state.posted is Some,
        Phase::AwaitEdit | Phase::AwaitEditConfigSaved => has_source(state) && state.record is Some,
        Phase::AwaitMirrorDeleted => state.record is Some,
        Phase::AwaitRecordDeleted => true,
        Phase::Done => state.outcome is Some,
        _ => has_source(state),
    }
}

/// Ends the handling with `outcome`.
fn finish(state: OperationState, outcome: Outcome) -> (next: (OperationState, Command))
    requires
        consistent(state),
    ensures
        ends_with(state, outcome, next.0, next.1),
        consistent(next.0),
{
    (OperationState { phase: Phase::Done, outcome: Some(outcome), ..state }, Command::Finish(outcome))
}

/// Fails the handling with `error`, by way of the removal of the scratch
/// directory where one can exist.
fn fail(state: OperationState, error: CowboardError) -> (next: (OperationState, Command))
    requires
        consistent(state),
    ensures
        fails_with(state, error, next.0, next.1),
        consistent(next.0),
{
    match state.phase {
        Phase::AwaitScratch | Phase::AwaitDownload | Phase::AwaitPost | Phase::AwaitPostConfigSaved => {
            let dir = scratch_dir(state.key.message_id);
            (
                OperationState {
                    phase: Phase::AwaitRelease,
                    posted: None,
                    outcome: Some(Outcome::Failed(error)),
                    ..state
                },
                Command::ReleaseScratch { dir },
            )
        },
        _ => finish(state, Outcome::Failed(error)),
    }
}

/// Goes on to look the record up.
fn look_up(state: OperationState) -> (next: (OperationState, Command))
    requires
        state.stager.spec_message_id() == state.key.message_id,
        state.kind != EventKind::Cleared ==> has_source(state),
    ensures
        looks_up(state, next.0, next.1),
        consistent(next.0),
{
    let key = state.key;
    (OperationState { phase: Phase::AwaitRecord, ..state }, Command::FindRecord { key })
}

/// Goes on to edit the content of the mirror.
fn edit(state: OperationState) -> (next: (OperationState, Command))
    requires
        state.stager.spec_message_id() == state.key.message_id,
        has_source(state),
        state.record is Some,
    ensures
        edits(state, next.0, next.1),
        consistent(next.0),
{
    let command = match (&state.config, &state.message, &state.record) {
        (Some(config), Some(message), Some(record)) => Command::Edit {
            renderer: select_renderer(config),
            mirror: record.mirror(),
            content: render_update(message, state.count, config),
        },
        _ => Command::Finish(Outcome::NoOp),
    };
    (OperationState { phase: Phase::AwaitEdit, ..state }, command)
}

/// Goes on to make the scratch directory, with a stager that starts afresh.
fn prepare(state: OperationState) -> (next: (OperationState, Command))
    requires
        has_source(state),
    ensures
        prepares(state, next.0, next.1),
        consistent(next.0),
{
    let dir = scratch_dir(state.key.message_id);
    let stager = Stager::new(state.key.message_id);
    (OperationState { phase: Phase::AwaitScratch, stager, ..state }, Command::PrepareScratch { dir })
}

/// Goes on to post the mirror with what is staged.
fn post_mirror(state: OperationState) -> (next: (OperationState, Command))
    requires
        state.stager.spec_message_id() == state.key.message_id,
        has_source(state),
        state.stager.files_match(state.message->Some_0.attachments@),
        state.stager.spec_stopped(),
    ensures
        posts(state, next.0, next.1),
        consistent(next.0),
{
    let command = match (&state.config, &state.message) {
        (Some(config), Some(message)) => match config.channel {
            Some(channel_id) => {
                let renderer = select_renderer(config);
                let post = render(message, state.count, config, state.stager.staged(), &renderer);
                Command::Post { renderer, channel_id, post }
            },
            None => Command::Finish(Outcome::NoOp),
        },
        _ => Command::Finish(Outcome::NoOp),
    };
    (OperationState { phase: Phase::AwaitPost, ..state }, command)
}

/// Goes on to delete the mirror post.
fn delete_mirror(state: OperationState) -> (next: (OperationState, Command))
    requires
        state.stager.spec_message_id() == state.key.message_id,
        state.record is Some,
    ensures
        deletes_mirror(state, next.0, next.1),
        consistent(next.0),
{
    let command = match &state.record {
        Some(record) => Command::DeleteMirror { mirror: record.mirror() },
        None => Command::Finish(Outcome::NoOp),
    };
    (OperationState { phase: Phase::AwaitMirrorDeleted, ..state }, command)
}

/// Goes on to remove the record.
fn remove_record(state: OperationState) -> (next: (OperationState, Command))
    requires
        state.stager.spec_message_id() == state.key.message_id,
    ensures
        removes(state, next.0, next.1),
        consistent(next.0),
{
    let key = state.key;
    (OperationState { phase: Phase::AwaitRecordDeleted, ..state }, Command::DeleteRecord { key })
}

/// Gives the webhook up and goes on to store the settings.
fn give_up_webhook(state: OperationState, then: Phase) -> (next: (OperationState, Command))
    requires
        consistent(state),
        state.phase == Phase::AwaitPost && then == Phase::AwaitPostConfigSaved || state.phase == Phase::AwaitEdit
            && then == Phase::AwaitEditConfigSaved,
    ensures
        degrades(state, then, next.0, next.1),
        consistent(next.0),
{
    match &state.config {
        Some(config) => {
            let mut cleared = config.clone();
            cleared.disable_webhook();
            let saved = cleared.clone();
            (
                OperationState { phase: then, config: Some(cleared), degraded: true, ..state },
                Command::SaveConfig { config: saved },
            )
        },
        None => (state, Command::Finish(Outcome::NoOp)),
    }
}

/// Goes on with staging: asks for the next download, or posts the mirror.
fn stage_on(state: OperationState, halted: bool) -> (next: (OperationState, Command))
    requires
        state.stager.spec_message_id() == state.key.message_id,
        has_source(state),
        state.stager.files_match(state.message->Some_0.attachments@),
        !state.stager.spec_stopped(),
        0 <= state.stager.spec_next() <= state.message->Some_0.attachments@.len(),
    ensures
        stages_on(
            state,
            state.stager.spec_next(),
            state.stager.spec_budget_left(),
            state.stager.spec_indices(),
            halted,
            next.0,
            next.1,
        ),
        consistent(next.0),
{
    let mut state = state;
    let ghost before = state;
    let step = if halted {
        state.stager.halt();
        StagingStep::Finished
    } else {
        match &state.message {
            Some(message) => state.stager.advance(&message.attachments),
            None => StagingStep::Finished,
        }
    };
    match step {
        StagingStep::Download { index, path } => {
            let url = match &state.message {
                Some(message) => message.attachments[index].url.clone(),
                None => String::new(),
            };
            (OperationState { phase: Phase::AwaitDownload, ..state }, Command::Download { url, path })
        },
        StagingStep::Finished => {
            assert(state == (OperationState { stager: state.stager, ..before }));
            post_mirror(state)
        },
    }
}

impl Operation {
    #[verifier::type_invariant]
    spec fn inv(self) -> bool {
        consistent(self.state)
    }

    /// Begins the handling of a reaction that was added or taken back.
    fn begin(kind: EventKind, guild_id: Option<u64>, channel_id: u64, message_id: u64) -> (begun: (
        Operation,
        Command,
    ))
        requires
            kind != EventKind::Cleared,
        ensures
            begun.0@.kind == kind,
            begun.0@.key.channel_id == channel_id,
            begun.0@.key.message_id == message_id,
            begun.0@.config is None,
            begun.0@.message is None,
            begun.0@.record is None,
            begun.0@.posted is None,
            !begun.0@.degraded,
            !begun.0@.purged,
            consistent(begun.0@),
            match guild_id {
                Some(guild_id) => {
                    &&& begun.0@.phase == Phase::AwaitConfig
                    &&& begun.0@.key.guild_id == guild_id
                    &&& begun.0@.outcome is None
                    &&& begun.1 == (Command::FetchConfig { guild_id })
                },
                None => {
                    &&& begun.0@.phase == Phase::Done
                    &&& begun.0@.outcome == Some(Outcome::Ignored)
                    &&& begun.1 == Command::Finish(Outcome::Ignored)
                },
            },
    {
        let state = OperationState {
            phase: Phase::AwaitConfig,
            kind,
            key: SourceKey {
                message_id,
                channel_id,
                guild_id: match guild_id {
                    Some(guild_id) => guild_id,
                    None => 0,
                },
            },
            config: None,
            message: None,
            raw: 0,
            count: 0,
            record: None,
            stager: Stager::new(message_id),
            degraded: false,
            purged: false,
            posted: None,
            outcome: None,
        };
        match guild_id {
            Some(guild_id) => (Operation { state }, Command::FetchConfig { guild_id }),
            None => {
                let (state, command) = finish(state, Outcome::Ignored);
                (Operation { state }, command)
            },
        }
    }

    /// Where the handling stands.
    pub fn phase(&self) -> (phase: Phase)
        ensures
            phase == self@.phase,
    {
        self.state.phase
    }

    /// How the handling ended, once it has.
    pub fn outcome(&self) -> (outcome: Option<Outcome>)
        ensures
            outcome == self@.outcome,
    {
        self.state.outcome
    }

    /// Whether the webhook was given up while the event was handled.
    pub fn degraded(&self) -> (degraded: bool)
        ensures
            degraded == self@.degraded,
    {
        self.state.degraded
    }

    /// Takes the reply to the last command and says what to do next, where
    /// `trigger` is the trigger emoji as read from the settings, or `None`
    /// where it cannot be read. Only the step that follows the message looks
    /// at it.
    pub fn step_with_trigger(self, reply: Reply, trigger: Option<Emoji>) -> (next: (Operation, Command))
        ensures
            follows(
                self@,
                reply,
                match trigger {
                    Some(emoji) => Some(emoji@),
                    None => None,
                },
                next.0@,
                next.1,
            ),
            consistent(self@),
            consistent(next.0@),
    {
        proof {
            use_type_invariant(&self);
        }
        let state = self.state;
        let (state, command) = match state.phase {
            Phase::AwaitGuild => Self::on_guild(state, reply),
            Phase::AwaitConfig => Self::on_config(state, reply),
            Phase::AwaitMessage => Self::on_message(state, reply, trigger),
            Phase::AwaitMembership => Self::on_membership(state, reply),
            Phase::AwaitRecord => Self::on_record(state, reply),
            Phase::AwaitScratch => Self::on_scratch(state, reply),
            Phase::AwaitDownload => Self::on_download(state, reply),
            Phase::AwaitPost => Self::on_post(state, reply),
            Phase::AwaitPostConfigSaved => Self::on_post_config_saved(state, reply),
            Phase::AwaitRelease => Self::on_release(state, reply),
            Phase::AwaitRecordCreated => Self::on_record_created(state, reply),
            Phase::AwaitExisting => Self::on_existing(state, reply),
            Phase::AwaitEdit => Self::on_edit(state, reply),
            Phase::AwaitEditConfigSaved => Self::on_edit_config_saved(state, reply),
            Phase::AwaitPurged => Self::on_purged(state, reply),
            Phase::AwaitMirrorDeleted => Self::on_mirror_deleted(state, reply),
            Phase::AwaitRecordDeleted => Self::on_record_deleted(state, reply),
            Phase::Done => match state.outcome {
                Some(outcome) => (state, Command::Finish(outcome)),
                None => finish(state, Outcome::NoOp),
            },
        };
        (Operation { state }, command)
    }

    /// Takes the guild of a message whose reactions were cleared.
    fn on_guild(state: OperationState, reply: Reply) -> (next: (OperationState, Command))
        requires
            consistent(state),
            state.phase == Phase::AwaitGuild,
        ensures
            follows_guild(state, reply, next.0, next.1),
            consistent(next.0),
    {
        match reply {
            Reply::Guild(Some(guild_id)) => {
                let key = SourceKey { guild_id, ..state.key };
                look_up(OperationState { key, ..state })
            },
            Reply::Guild(None) => finish(state, Outcome::Ignored),
            _ => fail(state, CowboardError::TransientPlatform),
        }
    }

    /// Takes the settings.
    fn on_config(state: OperationState, reply: Reply) -> (next: (OperationState, Command))
        requires
            consistent(state),
            state.phase == Phase::AwaitConfig,
        ensures
            follows_config(state, reply, next.0, next.1),
            consistent(next.0),
    {
        match reply {
            Reply::Config(Some(config)) => {
                if config.channel.is_none() {
                    finish(
                        state,
                        Outcome::Failed(CowboardError::Configuration(ConfigurationFault::MissingChannel)),
                    )
                } else {
                    let channel_id = state.key.channel_id;
                    let message_id = state.key.message_id;
                    (
                        OperationState { phase: Phase::AwaitMessage, config: Some(config), ..state },
                        Command::FetchMessage { channel_id, message_id },
                    )
                }
            },
            _ => fail(state, CowboardError::TransientPlatform),
        }
    }

    /// Takes the message and counts.
    fn on_message(state: OperationState, reply: Reply, trigger: Option<Emoji>) -> (next: (OperationState, Command))
        requires
            consistent(state),
            state.phase == Phase::AwaitMessage,
        ensures
            follows_message(
                state,
                reply,
                match trigger {
                    Some(emoji) => Some(emoji@),
                    None => None,
                },
                next.0,
                next.1,
            ),
            consistent(next.0),
    {
        match reply {
            Reply::Message(Some(message)) => match trigger {
                None => finish(
                    state,
                    Outcome::Failed(CowboardError::Configuration(ConfigurationFault::MalformedEmoji)),
                ),
                Some(trigger) => match trigger_count(&message.reactions, &trigger) {
                    None => look_up(OperationState { message: Some(message), raw: 0, count: 0, ..state }),
                    Some(raw) => {
                        let emote = match &state.config {
                            Some(config) => config.emote.clone(),
                            None => String::new(),
                        };
                        let command = Command::CheckAuthorReacted {
                            channel_id: state.key.channel_id,
                            message_id: state.key.message_id,
                            author_id: message.author.id,
                            emote,
                        };
                        (
                            OperationState {
                                phase: Phase::AwaitMembership,
                                message: Some(message),
                                raw,
                                ..state
                            },
                            command,
                        )
                    },
                },
            },
            _ => fail(state, CowboardError::TransientPlatform),
        }
    }

    /// Takes the word on the author's own reaction.
    fn on_membership(state: OperationState, reply: Reply) -> (next: (OperationState, Command))
        requires
            consistent(state),
            state.phase == Phase::AwaitMembership,
        ensures
            follows_membership(state, reply, next.0, next.1),
            consistent(next.0),
    {
        match reply {
            Reply::AuthorReacted(Some(author_reacted)) => {
                let count = adjust(state.raw, author_reacted);
                look_up(OperationState { count, ..state })
            },
            _ => fail(state, CowboardError::TransientPlatform),
        }
    }

    /// Takes the word on the scratch directory.
    fn on_scratch(state: OperationState, reply: Reply) -> (next: (OperationState, Command))
        requires
            consistent(state),
            state.phase == Phase::AwaitScratch,
        ensures
            follows_scratch(state, reply, next.0, next.1),
            consistent(next.0),
    {
        match reply {
            Reply::ScratchReady(ready) => stage_on(state, !ready),
            _ => fail(state, CowboardError::TransientPlatform),
        }
    }

    /// Takes the word on a download.
    fn on_download(state: OperationState, reply: Reply) -> (next: (OperationState, Command))
        requires
            consistent(state),
            state.phase == Phase::AwaitDownload,
        ensures
            follows_download(state, reply, next.0, next.1),
            consistent(next.0),
    {
        match reply {
            Reply::Downloaded(arrived) => {
                let mut state = state;
                let ghost before = state;
                match &state.message {
                    Some(message) => {
                        state.stager.record(&message.attachments, arrived);
                    },
                    None => {},
                }
                assert(state == (OperationState { stager: state.stager, ..before }));
                stage_on(state, false)
            },
            _ => fail(state, CowboardError::TransientPlatform),
        }
    }

    /// Takes the word on the post.
    fn on_post(state: OperationState, reply: Reply) -> (next: (OperationState, Command))
        requires
            consistent(state),
            state.phase == Phase::AwaitPost,
        ensures
            follows_post(state, reply, next.0, next.1),
            consistent(next.0),
    {
        match reply {
            Reply::Posted(Ok(mirror)) => {
                let dir = scratch_dir(state.key.message_id);
                (
                    OperationState { phase: Phase::AwaitRelease, posted: Some(mirror), ..state },
                    Command::ReleaseScratch { dir },
                )
            },
            Reply::Posted(Err(failure)) => {
                if Self::webhook_lost(&state, failure) {
                    give_up_webhook(state, Phase::AwaitPostConfigSaved)
                } else {
                    fail(state, CowboardError::RenderFailed)
                }
            },
            _ => fail(state, CowboardError::TransientPlatform),
        }
    }

    /// Posts as the bot once the settings are stored.
    fn on_post_config_saved(state: OperationState, reply: Reply) -> (next: (OperationState, Command))
        requires
            consistent(state),
            state.phase == Phase::AwaitPostConfigSaved,
        ensures
            follows_post_config_saved(state, reply, next.0, next.1),
            consistent(next.0),
    {
        match reply {
            Reply::ConfigSaved(_) => post_mirror(state),
            _ => fail(state, CowboardError::TransientPlatform),
        }
    }

    /// Takes the word on the removal of the scratch directory.
    fn on_release(state: OperationState, reply: Reply) -> (next: (OperationState, Command))
        requires
            consistent(state),
            state.phase == Phase::AwaitRelease,
        ensures
            follows_release(state, reply, next.0, next.1),
            consistent(next.0),
    {
        match reply {
            Reply::Released => match state.posted {
                Some(mirror) => {
                    let record = CowboardMessage::link(state.key, mirror);
                    (
                        OperationState { phase: Phase::AwaitRecordCreated, ..state },
                        Command::CreateRecord { record },
                    )
                },
                None => match state.outcome {
                    Some(outcome) => finish(state, outcome),
                    None => finish(state, Outcome::Failed(CowboardError::RenderFailed)),
                },
            },
            _ => fail(state, CowboardError::TransientPlatform),
        }
    }

    /// Takes the word on the new record.
    fn on_record_created(state: OperationState, reply: Reply) -> (next: (OperationState, Command))
        requires
            consistent(state),
            state.phase == Phase::AwaitRecordCreated,
        ensures
            follows_record_created(state, reply, next.0, next.1),
            consistent(next.0),
    {
        match reply {
            Reply::RecordCreated(CreateReply::Stored) => match state.posted {
                Some(mirror) => {
                    let record = CowboardMessage::link(state.key, mirror);
                    finish(state, Outcome::Created(record))
                },
                None => fail(state, CowboardError::TransientPlatform),
            },
            Reply::RecordCreated(CreateReply::Duplicate) => {
                let key = state.key;
                (OperationState { phase: Phase::AwaitExisting, ..state }, Command::FindRecord { key })
            },
            _ => fail(state, CowboardError::TransientPlatform),
        }
    }

    /// Takes the record that was there first.
    fn on_existing(state: OperationState, reply: Reply) -> (next: (OperationState, Command))
        requires
            consistent(state),
            state.phase == Phase::AwaitExisting,
        ensures
            follows_existing(state, reply, next.0, next.1),
            consistent(next.0),
    {
        match reply {
            Reply::Record(RecordReply::Found(record)) => edit(OperationState { record: Some(record), ..state }),
            _ => fail(state, CowboardError::TransientPlatform),
        }
    }

    /// Takes the word on the edit.
    fn on_edit(state: OperationState, reply: Reply) -> (next: (OperationState, Command))
        requires
            consistent(state),
            state.phase == Phase::AwaitEdit,
        ensures
            follows_edit(state, reply, next.0, next.1),
            consistent(next.0),
    {
        match reply {
            Reply::Edited(Ok(_)) => match state.record {
                Some(record) => finish(state, Outcome::Updated(record.mirror())),
                None => fail(state, CowboardError::TransientPlatform),
            },
            Reply::Edited(Err(failure)) => {
                if Self::webhook_lost(&state, failure) {
                    give_up_webhook(state, Phase::AwaitEditConfigSaved)
                } else if classify(failure) == FailureKind::MirrorMissing && !state.purged {
                    let key = state.key;
                    (
                        OperationState { phase: Phase::AwaitPurged, purged: true, ..state },
                        Command::DeleteRecord { key },
                    )
                } else {
                    fail(state, CowboardError::RenderFailed)
                }
            },
            _ => fail(state, CowboardError::TransientPlatform),
        }
    }

    /// Edits as the bot once the settings are stored.
    fn on_edit_config_saved(state: OperationState, reply: Reply) -> (next: (OperationState, Command))
        requires
            consistent(state),
            state.phase == Phase::AwaitEditConfigSaved,
        ensures
            follows_edit_config_saved(state, reply, next.0, next.1),
            consistent(next.0),
    {
        match reply {
            Reply::ConfigSaved(_) => edit(state),
            _ => fail(state, CowboardError::TransientPlatform),
        }
    }

    /// Takes the word on the purge.
    fn on_purged(state: OperationState, reply: Reply) -> (next: (OperationState, Command))
        requires
            consistent(state),
            state.phase == Phase::AwaitPurged,
        ensures
            follows_purged(state, reply, next.0, next.1),
            consistent(next.0),
    {
        match reply {
            Reply::RecordDeleted(true) => prepare(OperationState { record: None, ..state }),
            _ => fail(state, CowboardError::TransientPlatform),
        }
    }

    /// Takes the word on the deletion of the mirror post.
    fn on_mirror_deleted(state: OperationState, reply: Reply) -> (next: (OperationState, Command))
        requires
            consistent(state),
            state.phase == Phase::AwaitMirrorDeleted,
        ensures
            follows_mirror_deleted(state, reply, next.0, next.1),
            consistent(next.0),
    {
        match reply {
            Reply::MirrorDeleted(_) => remove_record(state),
            _ => fail(state, CowboardError::TransientPlatform),
        }
    }

    /// Takes the word on the removal of the record.
    fn on_record_deleted(state: OperationState, reply: Reply) -> (next: (OperationState, Command))
        requires
            consistent(state),
            state.phase == Phase::AwaitRecordDeleted,
        ensures
            follows_record_deleted(state, reply, next.0, next.1),
            consistent(next.0),
    {
        match reply {
            Reply::RecordDeleted(true) => finish(state, Outcome::Deleted),
            _ => fail(state, CowboardError::TransientPlatform),
        }
    }

    /// Whether a failed post or edit means that the webhook is lost.
    fn webhook_lost(state: &OperationState, failure: PlatformFailure) -> (lost: bool)
        requires
            state.config is Some,
        ensures
            lost == must_degrade(state.config->Some_0.spec_has_webhook(), failure),
    {
        match &state.config {
            Some(config) => error_of(config.has_webhook(), failure) == CowboardError::WebhookInvalid,
            None => false,
        }
    }

    /// Decides on the record that the store gave, and takes the first step.
    fn on_record(state: OperationState, reply: Reply) -> (next: (OperationState, Command))
        requires
            consistent(state),
            state.phase == Phase::AwaitRecord,
        ensures
            follows_record(state, reply, next.0, next.1),
            consistent(next.0),
    {
        let cleared = state.kind == EventKind::Cleared;
        match reply {
            Reply::Record(RecordReply::Failed) => {
                if cleared {
                    remove_record(state)
                } else {
                    fail(state, CowboardError::TransientPlatform)
                }
            },
            Reply::Record(RecordReply::Absent) => {
                let decision = Self::decision(&state, false);
                match decision {
                    Decision::Create => prepare(state),
                    Decision::Delete => remove_record(state),
                    _ => finish(state, Outcome::NoOp),
                }
            },
            Reply::Record(RecordReply::Found(record)) => {
                let decision = Self::decision(&state, true);
                match decision {
                    Decision::Update => edit(OperationState { record: Some(record), ..state }),
                    Decision::Delete => delete_mirror(OperationState { record: Some(record), ..state }),
                    _ => finish(state, Outcome::NoOp),
                }
            },
            _ => fail(state, CowboardError::TransientPlatform),
        }
    }

    /// What the count asks for.
    fn decision(state: &OperationState, found: bool) -> (decision: Decision)
        requires
            state.kind != EventKind::Cleared ==> state.config is Some,
        ensures
            decision == decision_of(*state, found),
    {
        if state.kind == EventKind::Cleared {
            Decision::Delete
        } else {
            match &state.config {
                Some(config) => evaluate(state.count, config, found),
                None => Decision::NoOp,
            }
        }
    }

    /// Takes the reply to the last command and says what to do next.
    pub fn step(self, reply: Reply) -> (next: (Operation, Command))
        ensures
            follows(self@, reply, parsed_reaction(self@.config->Some_0.emote@), next.0@, next.1),
            consistent(self@),
            consistent(next.0@),
    {
        proof {
            use_type_invariant(&self);
        }
        let trigger = match self.state.phase {
            Phase::AwaitMessage => match &self.state.config {
                Some(config) => match Emoji::parse(config.emote.as_str()) {
                    Ok(emoji) => Some(emoji),
                    Err(_) => None,
                },
                None => None,
            },
            _ => None,
        };
        self.step_with_trigger(reply, trigger)
    }
}

/// Begins the handling of a reaction that was added to a message. A
/// reaction outside a guild is ignored; else the guild's settings are asked
/// for first.
pub fn add_reaction(guild_id: Option<u64>, channel_id: u64, message_id: u64) -> (begun: (Operation, Command))
    ensures
        begun.0@.kind == EventKind::Added,
        begun.0@.key.channel_id == channel_id,
        begun.0@.key.message_id == message_id,
        begun.0@.config is None,
        begun.0@.message is None,
        begun.0@.record is None,
        begun.0@.posted is None,
        !begun.0@.degraded,
        !begun.0@.purged,
        consistent(begun.0@),
        match guild_id {
            Some(guild_id) => {
                &&& begun.0@.phase == Phase::AwaitConfig
                &&& begun.0@.key.guild_id == guild_id
                &&& begun.0@.outcome is None
                &&& begun.1 == (Command::FetchConfig { guild_id })
            },
            None => {
                &&& begun.0@.phase == Phase::Done
                &&& begun.0@.outcome == Some(Outcome::Ignored)
                &&& begun.1 == Command::Finish(Outcome::Ignored)
            },
        },
{
    Operation::begin(EventKind::Added, guild_id, channel_id, message_id)
}

/// Begins the handling of a reaction that was taken back from a message. A
/// reaction outside a guild is ignored; else the guild's settings are asked
/// for first.
pub fn remove_reaction(guild_id: Option<u64>, channel_id: u64, message_id: u64) -> (begun: (Operation, Command))
    ensures
        begun.0@.kind == EventKind::Removed,
        begun.0@.key.channel_id == channel_id,
        begun.0@.key.message_id == message_id,
        begun.0@.config is None,
        begun.0@.message is None,
        begun.0@.record is None,
        begun.0@.posted is None,
        !begun.0@.degraded,
        !begun.0@.purged,
        consistent(begun.0@),
        match guild_id {
            Some(guild_id) => {
                &&& begun.0@.phase == Phase::AwaitConfig
                &&& begun.0@.key.guild_id == guild_id
                &&& begun.0@.outcome is None
                &&& begun.1 == (Command::FetchConfig { guild_id })
            },
            None => {
                &&& begun.0@.phase == Phase::Done
                &&& begun.0@.outcome == Some(Outcome::Ignored)
                &&& begun.1 == Command::Finish(Outcome::Ignored)
            },
        },
{
    Operation::begin(EventKind::Removed, guild_id, channel_id, message_id)
}

/// Begins the handling of the clearing of all reactions of a message: its
/// mirror goes, whatever the count was. The guild of the message is asked
/// for first.
pub fn reaction_remove_all(channel_id: u64, message_id: u64) -> (begun: (Operation, Command))
    ensures
        begun.0@.phase == Phase::AwaitGuild,
        begun.0@.kind == EventKind::Cleared,
        begun.0@.key.channel_id == channel_id,
        begun.0@.key.message_id == message_id,
        begun.0@.config is None,
        begun.0@.message is None,
        begun.0@.record is None,
        begun.0@.posted is None,
        begun.0@.outcome is None,
        !begun.0@.degraded,
        !begun.0@.purged,
        consistent(begun.0@),
        begun.1 == (Command::ResolveGuild { channel_id, message_id }),
{
    let state = OperationState {
        phase: Phase::AwaitGuild,
        kind: EventKind::Cleared,
        key: SourceKey { message_id, channel_id, guild_id: 0 },
        config: None,
        message: None,
        raw: 0,
        count: 0,
        record: None,
        stager: Stager::new(message_id),
        degraded: false,
        purged: false,
        posted: None,
        outcome: None,
    };
    (Operation::make(state), Command::ResolveGuild { channel_id, message_id })
}

impl Operation {
    /// Wraps a state.
    fn make(state: OperationState) -> (operation: Operation)
        requires
            consistent(state),
        ensures
            operation@ == state,
    {
        Operation { state }
    }
}

} // verus!
