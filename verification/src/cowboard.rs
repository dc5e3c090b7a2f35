//! The starboard: popular messages are mirrored into a channel of their own,
//! the mirror follows the count of reactions, and goes when the count falls.
//!
//! A message is mirrored when enough members react to it with the trigger
//! emoji of the guild. Every change of its reactions is an event, and every
//! event is handled from the count as it stands then, so that an event that
//! was missed is made good by the next.

pub mod attachment;
pub mod config;
pub mod degrade;
pub mod emoji;
pub mod engine;
pub mod error;
pub mod laws;
pub mod reaction;
pub mod record;
pub mod render;
pub mod store;
pub mod threshold;
