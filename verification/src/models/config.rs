//! What the bot is started with.

use vstd::prelude::*;

verus! {

/// The settings of the bot.
#[derive(Debug)]
pub struct Config {
    pub token: String,
    pub sql_server_ip: String,
    pub sql_server_port: u16,
    pub sql_server_username: String,
    pub sql_server_password: String,
    pub cmd_prefix: String,
    pub lavalink_ip: String,
    pub lavalink_password: String,
    pub danbooru_login: String,
    pub danbooru_api_key: String,
}

impl Config {
    /// Whether an address and a password of the music service are set.
    pub fn lavalink_enabled(&self) -> (enabled: bool)
        ensures
            enabled == (self.lavalink_ip@.len() > 0 && self.lavalink_password@.len() > 0),
    {
        !self.lavalink_ip.as_str().is_empty() && !self.lavalink_password.as_str().is_empty()
    }
}

} // verus!
