//! Settings which can be adjusted before first launch.  Some cannot be
//! changed after the fact and require manual work to adjust after first
//! setup.

use vstd::prelude::*;

verus! {

/// The bot's startup configuration.  The runtime loads it from a file and
/// the process environment and persists it back.
#[derive(Debug)]
pub struct Settings {
    /// The chat service's bot token.
    pub token: String,
    /// Account id which owns the bot.
    pub owner: u64,
    /// The clone url of the game server's repository.
    pub repository: String,
    /// Command prefix.
    pub prefix: String,
    /// The username to access the logs.
    pub web_username: String,
    /// The password to access the logs.
    pub web_password: String,
    /// The website to access the logs.
    pub web_address: String,
    /// Gameserver's address.
    pub gameserver_address: String,
}

impl Default for Settings {
    /// The placeholder settings written out when none exist yet, for the
    /// operator to fill in.
    fn default() -> (s: Self)
        ensures
            s.token@ == "DISCORD_BOT_TOKEN_HERE"@,
            s.owner == 999999999u64,
            s.repository@ == "https://gitlab.com/veloren/dev/veloren.git"@,
            s.prefix@ == "~"@,
            s.web_username@ == "WEB_LOGS_USERNAME_HERE"@,
            s.web_password@ == "WEB_LOGS_PASSWORD_HERE"@,
            s.web_address@ == "WEB_LOGS_WEBSITE_HERE"@,
            s.gameserver_address@ == "GAMESERVER_ADDRESS_HERE"@,
    {
        Settings {
            token: "DISCORD_BOT_TOKEN_HERE".to_owned(),
            owner: 999999999,
            repository: "https://gitlab.com/veloren/dev/veloren.git".to_owned(),
            prefix: "~".to_owned(),
            web_username: "WEB_LOGS_USERNAME_HERE".to_owned(),
            web_password: "WEB_LOGS_PASSWORD_HERE".to_owned(),
            web_address: "WEB_LOGS_WEBSITE_HERE".to_owned(),
            gameserver_address: "GAMESERVER_ADDRESS_HERE".to_owned(),
        }
    }
}

} // verus!
