//! The logic of a chat bot for a campus community: its starboard (the
//! "cowboard"), its ranking, its music queue, and what it knows of the campus.
//!
//! Nothing here talks to the chat platform, to a database or to the web. What
//! has to be asked of them is asked by the program around this library, which
//! hands in what came back and is told what to do next.

pub mod chat;
pub mod cowboard;
pub mod danbooru;
pub mod diagnostics;
pub mod duration;
pub mod general;
pub mod interaction;
pub mod leveling;
pub mod models;
pub mod music;
pub mod number;
pub mod pattern;
pub mod text;
pub mod ucm;
