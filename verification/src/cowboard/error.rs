//! What can go wrong while a reaction event is handled. None of it is fatal:
//! at worst a mirror is missing or stale until the next event on the message.

use vstd::prelude::*;

verus! {

/// A fault in the stored settings; only an administrator can mend it.
#[derive(PartialEq, Eq, Structural, Clone, Copy, Debug)]
pub enum ConfigurationFault {
    /// The stored trigger emoji is no reaction identifier.
    MalformedEmoji,
    /// No target channel is set.
    MissingChannel,
}

/// The ways in which handling an event fails.
#[derive(PartialEq, Eq, Structural, Clone, Copy, Debug)]
pub enum CowboardError {
    /// The settings are unusable: the event is skipped.
    Configuration(ConfigurationFault),
    /// The platform or the store did not answer as hoped: the event is dropped.
    TransientPlatform,
    /// A record for the source message exists already.
    DuplicateRecord,
    /// The stored webhook is gone or its token no longer valid.
    WebhookInvalid,
    /// One attachment could not be staged.
    Attachment,
    /// The mirror could not be posted or edited.
    RenderFailed,
}

} // verus!
