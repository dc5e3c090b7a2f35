//! Plain data of the bot: its settings and the ranking of its members.

pub mod config;
pub mod db_models;
