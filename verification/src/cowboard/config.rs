//! Per-guild starboard settings and the rules that guard their thresholds.

use vstd::prelude::*;
use crate::chat::{channel_mention, mention_channel, mono, mono_text};
use crate::cowboard::emoji::{emoji_text, parsed_reaction, Emoji};
use crate::cowboard::error::{ConfigurationFault, CowboardError};
use crate::text::{i64_to_string, signed_decimal};

verus! {

/// Settings of one guild's starboard.
#[derive(PartialEq, Eq, Debug)]
pub struct Cowboard {
    pub id: u64,
    pub channel: Option<u64>,
    pub add_threshold: i32,
    pub remove_threshold: i32,
    pub emote: String,
    pub webhook_id: Option<u64>,
    pub webhook_token: Option<String>,
}

/// Why a change to the settings was turned down.
#[derive(PartialEq, Eq, Structural, Clone, Copy, Debug)]
pub enum ConfigError {
    /// An add threshold must be at least one.
    NotPositive,
    /// The add threshold may not fall under the remove threshold, given here.
    BelowRemoveThreshold { remove_threshold: i32 },
    /// A remove threshold may not be negative.
    Negative,
    /// The remove threshold may not pass the add threshold, given here.
    AboveAddThreshold { add_threshold: i32 },
    /// A webhook needs a target channel to live in.
    NoChannel,
}

/// What toggling the webhook asks of the caller.
#[derive(PartialEq, Eq, Structural, Clone, Copy, Debug)]
pub enum WebhookToggle {
    /// No webhook is stored: make one in this channel, then call `enable_webhook`.
    Create { channel: u64 },
    /// A webhook is stored: call `disable_webhook`.
    Disable,
}

impl Clone for Cowboard {
    fn clone(&self) -> (copy: Self)
        ensures
            copy == *self,
    {
        Cowboard {
            id: self.id,
            channel: self.channel,
            add_threshold: self.add_threshold,
            remove_threshold: self.remove_threshold,
            emote: self.emote.clone(),
            webhook_id: self.webhook_id,
            webhook_token: match &self.webhook_token {
                Some(token) => Some(token.clone()),
                None => None,
            },
        }
    }
}

impl Cowboard {
    /// The thresholds are ordered and the webhook credentials come as a pair.
    pub open spec fn wf(&self) -> bool {
        &&& 1 <= self.add_threshold
        &&& 0 <= self.remove_threshold <= self.add_threshold
        &&& (self.webhook_id is Some <==> self.webhook_token is Some)
    }

    /// Both webhook credentials are stored.
    pub open spec fn spec_has_webhook(&self) -> bool {
        self.webhook_id is Some && self.webhook_token is Some
    }

    /// The settings a guild starts with.
    pub fn new(id: u64) -> (config: Self)
        ensures
            config.id == id,
            config.channel is None,
            config.add_threshold == 5,
            config.remove_threshold == 4,
            config.emote@ == ":cow:"@,
            config.webhook_id is None,
            config.webhook_token is None,
            config.wf(),
    {
        Cowboard {
            id,
            channel: None,
            add_threshold: 5,
            remove_threshold: 4,
            emote: String::from_str(":cow:"),
            webhook_id: None,
            webhook_token: None,
        }
    }

    /// Whether mirrors are posted through the stored webhook.
    #[verifier::when_used_as_spec(spec_has_webhook)]
    pub fn has_webhook(&self) -> (yes: bool)
        ensures
            yes == self.spec_has_webhook(),
    {
        self.webhook_id.is_some() && self.webhook_token.is_some()
    }

    /// Sets the count at which a message is mirrored. Only a positive value
    /// that is not under the remove threshold is taken.
    pub fn set_add_threshold(&mut self, value: i32) -> (outcome: Result<(), ConfigError>)
        ensures
            outcome == Self::add_threshold_verdict(*old(self), value),
            outcome is Ok ==> *final(self) == (Cowboard { add_threshold: value, ..*old(self) }),
            outcome is Err ==> *final(self) == *old(self),
            old(self).wf() ==> final(self).wf(),
    {
        if value <= 0 {
            return Err(ConfigError::NotPositive);
        }
        if value < self.remove_threshold {
            return Err(ConfigError::BelowRemoveThreshold { remove_threshold: self.remove_threshold });
        }
        self.add_threshold = value;
        Ok(())
    }

    /// Whether `value` is taken as the add threshold of `config`, and if not, why.
    pub open spec fn add_threshold_verdict(config: Cowboard, value: i32) -> Result<(), ConfigError> {
        if value <= 0 {
            Err(ConfigError::NotPositive)
        } else if value < config.remove_threshold {
            Err(ConfigError::BelowRemoveThreshold { remove_threshold: config.remove_threshold })
        } else {
            Ok(())
        }
    }

    /// Sets the count under which a mirror is taken down. Only a value from
    /// zero up to the add threshold is taken.
    pub fn set_remove_threshold(&mut self, value: i32) -> (outcome: Result<(), ConfigError>)
        ensures
            outcome == Self::remove_threshold_verdict(*old(self), value),
            outcome is Ok ==> *final(self) == (Cowboard { remove_threshold: value, ..*old(self) }),
            outcome is Err ==> *final(self) == *old(self),
            old(self).wf() ==> final(self).wf(),
    {
        if value < 0 {
            return Err(ConfigError::Negative);
        }
        if value > self.add_threshold {
            return Err(ConfigError::AboveAddThreshold { add_threshold: self.add_threshold });
        }
        self.remove_threshold = value;
        Ok(())
    }

    /// Whether `value` is taken as the remove threshold of `config`, and if not, why.
    pub open spec fn remove_threshold_verdict(config: Cowboard, value: i32) -> Result<(), ConfigError> {
        if value < 0 {
            Err(ConfigError::Negative)
        } else if value > config.add_threshold {
            Err(ConfigError::AboveAddThreshold { add_threshold: config.add_threshold })
        } else {
            Ok(())
        }
    }

    /// Points the starboard at another channel. A webhook belongs to its
    /// channel, so the stored one is dropped.
    pub fn set_channel(&mut self, channel: u64)
        ensures
            *final(self) == (Cowboard {
                channel: Some(channel),
                webhook_id: None,
                webhook_token: None,
                ..*old(self)
            }),
            old(self).wf() ==> final(self).wf(),
    {
        self.channel = Some(channel);
        self.webhook_id = None;
        self.webhook_token = None;
    }

    /// What a request to toggle the webhook comes to: nothing without a target
    /// channel, a new webhook where none is stored, else its removal.
    pub fn webhook_toggle(&self) -> (plan: Result<WebhookToggle, ConfigError>)
        ensures
            plan == (match self.channel {
                None => Err::<WebhookToggle, ConfigError>(ConfigError::NoChannel),
                Some(channel) => if self.webhook_id is None {
                    Ok(WebhookToggle::Create { channel })
                } else {
                    Ok(WebhookToggle::Disable)
                },
            }),
    {
        match self.channel {
            None => Err(ConfigError::NoChannel),
            Some(channel) => {
                if self.webhook_id.is_none() {
                    Ok(WebhookToggle::Create { channel })
                } else {
                    Ok(WebhookToggle::Disable)
                }
            },
        }
    }

    /// Stores the credentials of a freshly made webhook.
    pub fn enable_webhook(&mut self, id: u64, token: String)
        ensures
            *final(self) == (Cowboard {
                webhook_id: Some(id),
                webhook_token: Some(token),
                ..*old(self)
            }),
            final(self).spec_has_webhook(),
    {
        self.webhook_id = Some(id);
        self.webhook_token = Some(token);
    }

    /// Forgets the webhook: from now on mirrors are posted as the bot.
    pub fn disable_webhook(&mut self)
        ensures
            *final(self) == (Cowboard { webhook_id: None, webhook_token: None, ..*old(self) }),
            !final(self).spec_has_webhook(),
            old(self).wf() ==> final(self).wf(),
    {
        self.webhook_id = None;
        self.webhook_token = None;
    }
}

/// The settings of a guild as the settings store holds them.
#[derive(PartialEq, Eq, Debug)]
pub struct StoredCowboard {
    pub channel: Option<u64>,
    pub add_threshold: i32,
    pub remove_threshold: i32,
    pub emote: String,
    pub webhook_id: Option<u64>,
    pub webhook_token: Option<String>,
}

/// The settings of a guild as they are shown.
#[derive(PartialEq, Eq, Debug)]
pub struct InfoPanel {
    pub emote: String,
    pub raw_emote: String,
    pub channel: String,
    pub add_threshold: String,
    pub remove_threshold: String,
    pub webhook: String,
}

impl Cowboard {
    /// The settings of the guild `id` as stored, or those a guild starts
    /// with where nothing is stored for it.
    pub fn from_stored(id: u64, stored: Option<StoredCowboard>) -> (config: Self)
        ensures
            match stored {
                Some(stored) => config == (Cowboard {
                    id,
                    channel: stored.channel,
                    add_threshold: stored.add_threshold,
                    remove_threshold: stored.remove_threshold,
                    emote: stored.emote,
                    webhook_id: stored.webhook_id,
                    webhook_token: stored.webhook_token,
                }),
                None => {
                    &&& config.id == id
                    &&& config.channel is None
                    &&& config.add_threshold == 5
                    &&& config.remove_threshold == 4
                    &&& config.emote@ == ":cow:"@
                    &&& config.webhook_id is None
                    &&& config.webhook_token is None
                },
            },
    {
        match stored {
            Some(stored) => Cowboard {
                id,
                channel: stored.channel,
                add_threshold: stored.add_threshold,
                remove_threshold: stored.remove_threshold,
                emote: stored.emote,
                webhook_id: stored.webhook_id,
                webhook_token: stored.webhook_token,
            },
            None => Cowboard::new(id),
        }
    }

    /// Makes `emoji` the trigger: the settings hold the text that stands for
    /// it in a message.
    pub fn set_trigger(&mut self, emoji: &Emoji)
        ensures
            final(self).emote@ == emoji_text(emoji@),
            *final(self) == (Cowboard { emote: final(self).emote, ..*old(self) }),
            old(self).wf() ==> final(self).wf(),
    {
        self.emote = emoji.to_text();
    }

    /// Makes the emoji that `raw` reads as the trigger. Text that is no
    /// reaction identifier changes nothing.
    pub fn set_emote(&mut self, raw: &str) -> (outcome: Result<(), CowboardError>)
        ensures
            match parsed_reaction(raw@) {
                Some(emoji) => {
                    &&& outcome is Ok
                    &&& final(self).emote@ == emoji_text(emoji)
                    &&& *final(self) == (Cowboard { emote: final(self).emote, ..*old(self) })
                },
                None => {
                    &&& outcome == Err::<(), CowboardError>(
                        CowboardError::Configuration(ConfigurationFault::MalformedEmoji),
                    )
                    &&& *final(self) == *old(self)
                },
            },
            old(self).wf() ==> final(self).wf(),
    {
        match Emoji::parse(raw) {
            Ok(emoji) => {
                self.set_trigger(&emoji);
                Ok(())
            },
            Err(error) => Err(error),
        }
    }

    /// The settings as they are shown: the trigger as it is and as code, the
    /// target channel as its mention, the thresholds as code, and whether
    /// the webhook is in use.
    pub fn info(&self) -> (panel: InfoPanel)
        ensures
            panel.emote@ == self.emote@,
            panel.raw_emote@ == mono_text(self.emote@),
            panel.channel@ == (match self.channel {
                Some(channel) => channel_mention(channel),
                None => "No Cowboard Channel"@,
            }),
            panel.add_threshold@ == mono_text(signed_decimal(self.add_threshold as int)),
            panel.remove_threshold@ == mono_text(signed_decimal(self.remove_threshold as int)),
            panel.webhook@ == (if self.spec_has_webhook() {
                "Enabled"@
            } else {
                "Disabled"@
            }),
    {
        let add = i64_to_string(self.add_threshold as i64);
        let remove = i64_to_string(self.remove_threshold as i64);
        InfoPanel {
            emote: self.emote.clone(),
            raw_emote: mono(self.emote.as_str()),
            channel: match self.channel {
                Some(channel) => mention_channel(channel),
                None => String::from_str("No Cowboard Channel"),
            },
            add_threshold: mono(add.as_str()),
            remove_threshold: mono(remove.as_str()),
            webhook: if self.has_webhook() {
                String::from_str("Enabled")
            } else {
                String::from_str("Disabled")
            },
        }
    }
}

} // verus!
