//! Telling a lost webhook from a passing failure.
//!
//! A post or edit through the webhook can fail because the webhook itself is
//! gone or its token no longer valid. Then the stored credentials are
//! useless: they are cleared, and the same post or edit is made as the bot. A
//! timeout or a rate limit says nothing about the webhook and leaves it alone.

use vstd::prelude::*;
use crate::cowboard::config::Cowboard;
use crate::cowboard::error::CowboardError;

verus! {

/// The platform's error code for a webhook that does not exist.
pub const UNKNOWN_WEBHOOK: i64 = 10015;

/// The platform's error code for a webhook token that is not valid.
pub const INVALID_WEBHOOK_TOKEN: i64 = 50027;

/// The platform's error code for a message that does not exist.
pub const UNKNOWN_MESSAGE: i64 = 10008;

/// How a call to the platform failed.
#[derive(PartialEq, Eq, Structural, Clone, Copy, Debug)]
pub enum PlatformFailure {
    /// The platform turned the call down, with this HTTP status and this
    /// error code of its own.
    Rejected { status: u16, code: i64 },
    /// No answer came: a timeout, a lost connection.
    Unreachable,
}

/// What a failure means for the starboard.
#[derive(PartialEq, Eq, Structural, Clone, Copy, Debug)]
pub enum FailureKind {
    /// The webhook is gone or its token revoked.
    WebhookLost,
    /// The mirror post does not exist any more.
    MirrorMissing,
    /// Nothing that the starboard can act on; the next event will try again.
    Transient,
}

/// What a failure means: a rejection with the code of an unknown webhook or
/// of an invalid webhook token is the loss of the webhook, one with the code
/// of an unknown message says that the mirror is gone, and everything else is
/// transient.
pub open spec fn failure_kind(failure: PlatformFailure) -> FailureKind {
    match failure {
        PlatformFailure::Rejected { code, .. } => if code == UNKNOWN_WEBHOOK || code == INVALID_WEBHOOK_TOKEN {
            FailureKind::WebhookLost
        } else if code == UNKNOWN_MESSAGE {
            FailureKind::MirrorMissing
        } else {
            FailureKind::Transient
        },
        PlatformFailure::Unreachable => FailureKind::Transient,
    }
}

/// Says what a failure means for the starboard.
pub fn classify(failure: PlatformFailure) -> (kind: FailureKind)
    ensures
        kind == failure_kind(failure),
{
    match failure {
        PlatformFailure::Rejected { status: _, code } => {
            if code == UNKNOWN_WEBHOOK || code == INVALID_WEBHOOK_TOKEN {
                FailureKind::WebhookLost
            } else if code == UNKNOWN_MESSAGE {
                FailureKind::MirrorMissing
            } else {
                FailureKind::Transient
            }
        },
        PlatformFailure::Unreachable => FailureKind::Transient,
    }
}

/// Whether a failure of a call made through the webhook (`via_webhook`) means
/// that the stored webhook must be given up.
pub open spec fn must_degrade(via_webhook: bool, failure: PlatformFailure) -> bool {
    via_webhook && failure_kind(failure) == FailureKind::WebhookLost
}

/// Applies the policy to a failed post or edit. Where the call went through
/// the webhook and failed for the loss of it, the webhook credentials in
/// `config` are cleared and `true` is returned: the caller stores the
/// settings and repeats the call as the bot. Else nothing changes.
pub fn degrade(config: &mut Cowboard, via_webhook: bool, failure: PlatformFailure) -> (degraded: bool)
    ensures
        degraded == must_degrade(via_webhook, failure),
        degraded ==> *final(config) == (Cowboard { webhook_id: None, webhook_token: None, ..*old(config) }),
        !degraded ==> *final(config) == *old(config),
        old(config).wf() ==> final(config).wf(),
{
    if via_webhook {
        match classify(failure) {
            FailureKind::WebhookLost => {
                config.disable_webhook();
                true
            },
            _ => false,
        }
    } else {
        false
    }
}

/// What a failed post or edit is: the loss of the webhook where the call
/// went through the webhook and failed for that, else a failed render.
pub open spec fn render_error(via_webhook: bool, failure: PlatformFailure) -> CowboardError {
    if must_degrade(via_webhook, failure) {
        CowboardError::WebhookInvalid
    } else {
        CowboardError::RenderFailed
    }
}

/// Says what a failed post or edit is. A `WebhookInvalid` is not the end of
/// the handling: the webhook is given up and the call repeated as the bot.
pub fn error_of(via_webhook: bool, failure: PlatformFailure) -> (error: CowboardError)
    ensures
        error == render_error(via_webhook, failure),
{
    if via_webhook {
        match classify(failure) {
            FailureKind::WebhookLost => CowboardError::WebhookInvalid,
            _ => CowboardError::RenderFailed,
        }
    } else {
        CowboardError::RenderFailed
    }
}

} // verus!
