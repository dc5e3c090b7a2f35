//! The cross-reference between a source message and its mirror.

use vstd::prelude::*;

verus! {

/// What identifies a source message: the message, its channel and its guild.
#[derive(PartialEq, Eq, Structural, Clone, Copy, Debug)]
pub struct SourceKey {
    pub message_id: u64,
    pub channel_id: u64,
    pub guild_id: u64,
}

/// Where a mirror post lives.
#[derive(PartialEq, Eq, Structural, Clone, Copy, Debug)]
pub struct MirrorRef {
    pub post_id: u64,
    pub post_channel_id: u64,
}

/// One mirrored message: the source and the post that mirrors it.
#[derive(PartialEq, Eq, Structural, Clone, Copy, Debug)]
pub struct CowboardMessage {
    pub message_id: u64,
    pub message_channel_id: u64,
    pub post_id: u64,
    pub post_channel_id: u64,
    pub guild_id: u64,
}

impl CowboardMessage {
    /// The source message that this record is about.
    pub open spec fn spec_key(&self) -> SourceKey {
        SourceKey {
            message_id: self.message_id,
            channel_id: self.message_channel_id,
            guild_id: self.guild_id,
        }
    }

    /// The post that mirrors it.
    pub open spec fn spec_mirror(&self) -> MirrorRef {
        MirrorRef { post_id: self.post_id, post_channel_id: self.post_channel_id }
    }

    /// The record that joins `key` to `mirror`.
    pub open spec fn spec_link(key: SourceKey, mirror: MirrorRef) -> CowboardMessage {
        CowboardMessage {
            message_id: key.message_id,
            message_channel_id: key.channel_id,
            post_id: mirror.post_id,
            post_channel_id: mirror.post_channel_id,
            guild_id: key.guild_id,
        }
    }

    /// A blank record, every id zero; `_id` is not stored.
    pub fn new(_id: u64) -> (record: Self)
        ensures
            record == (CowboardMessage {
                message_id: 0,
                message_channel_id: 0,
                post_id: 0,
                post_channel_id: 0,
                guild_id: 0,
            }),
    {
        CowboardMessage {
            message_id: 0,
            message_channel_id: 0,
            post_id: 0,
            post_channel_id: 0,
            guild_id: 0,
        }
    }

    /// The record that joins `key` to `mirror`.
    #[verifier::when_used_as_spec(spec_link)]
    pub fn link(key: SourceKey, mirror: MirrorRef) -> (record: Self)
        ensures
            record == Self::spec_link(key, mirror),
            record.spec_key() == key,
            record.spec_mirror() == mirror,
    {
        CowboardMessage {
            message_id: key.message_id,
            message_channel_id: key.channel_id,
            post_id: mirror.post_id,
            post_channel_id: mirror.post_channel_id,
            guild_id: key.guild_id,
        }
    }

    /// The source message that this record is about.
    #[verifier::when_used_as_spec(spec_key)]
    pub fn key(&self) -> (key: SourceKey)
        ensures
            key == self.spec_key(),
    {
        SourceKey {
            message_id: self.message_id,
            channel_id: self.message_channel_id,
            guild_id: self.guild_id,
        }
    }

    /// The post that mirrors it.
    #[verifier::when_used_as_spec(spec_mirror)]
    pub fn mirror(&self) -> (mirror: MirrorRef)
        ensures
            mirror == self.spec_mirror(),
    {
        MirrorRef { post_id: self.post_id, post_channel_id: self.post_channel_id }
    }
}

} // verus!
