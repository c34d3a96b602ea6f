//! What happens when the app starts, and after the setup was saved.

use crate::text;
use vstd::prelude::*;

verus! {

/// What is to happen next.
#[derive(Debug)]
pub enum StartupAction {
    /// Connect to Discord.
    StartDiscord,
    /// Start the browser of the configured guild.
    StartBrowser(String),
    /// Tell the panel, and end.
    Finish(StartupNote),
}

/// What the panel is told at the end.
#[derive(Debug)]
pub enum StartupNote {
    NoConfiguration(String),
    NoToken,
    DiscordFailed(String),
    NoGuild,
    Ready,
    SignInNeeded,
    BrowserFailed(String),
}

impl StartupNote {
    /// The note in words.
    pub open spec fn worded(self) -> Seq<char> {
        match self {
            StartupNote::NoConfiguration(error) => "Could not load startup configuration: "@
                + error@,
            StartupNote::NoToken =>
            "Discord is waiting for a bot token. Save one in Config to start automatically."@,
            StartupNote::DiscordFailed(error) => "Discord auto-start failed: "@ + error@,
            StartupNote::NoGuild =>
            "Discord is running. Set a Discord guild ID in Config to prefetch ChatGPT threads at startup."@,
            StartupNote::Ready =>
            "Dedicated ChatGPT browser is ready; recent threads were prefetched."@,
            StartupNote::SignInNeeded =>
            "Dedicated ChatGPT browser is waiting for sign-in before threads can be prefetched."@,
            StartupNote::BrowserFailed(error) => "ChatGPT browser auto-start failed: "@ + error@,
        }
    }

    /// Puts the note into words.
    pub fn word(&self) -> (message: String)
        ensures
            message@ == self.worded(),
    {
        match self {
            StartupNote::NoConfiguration(error) => text::joined(
                "Could not load startup configuration: ",
                error.as_str(),
            ),
            StartupNote::NoToken =>
            "Discord is waiting for a bot token. Save one in Config to start automatically.".to_owned(),
            StartupNote::DiscordFailed(error) => text::joined(
                "Discord auto-start failed: ",
                error.as_str(),
            ),
            StartupNote::NoGuild =>
            "Discord is running. Set a Discord guild ID in Config to prefetch ChatGPT threads at startup.".to_owned(),
            StartupNote::Ready =>
            "Dedicated ChatGPT browser is ready; recent threads were prefetched.".to_owned(),
            StartupNote::SignInNeeded =>
            "Dedicated ChatGPT browser is waiting for sign-in before threads can be prefetched.".to_owned(),
            StartupNote::BrowserFailed(error) => text::joined(
                "ChatGPT browser auto-start failed: ",
                error.as_str(),
            ),
        }
    }
}

/// Starting what the setup asks for.
#[derive(Debug)]
pub struct Startup {
    /// The configured guild, without surrounding white space.
    pub guild_id: String,
}

impl Startup {
    /// Begins with the setup: whether a token is configured, and the configured guild. Without a
    /// token nothing is started.
    pub fn spawn_runtime_start(setup: Result<(bool, String), String>) -> (begun: (
        Self,
        StartupAction,
    ))
        ensures
            match setup {
                Err(error) => begun.1 == StartupAction::Finish(StartupNote::NoConfiguration(error)),
                Ok((configured, guild)) => begun.0.guild_id@ == text::trimmed(guild@) && begun.1
                    == (if configured {
                    StartupAction::StartDiscord
                } else {
                    StartupAction::Finish(StartupNote::NoToken)
                }),
            },
    {
        match setup {
            Err(error) => (
                Startup { guild_id: String::new() },
                StartupAction::Finish(StartupNote::NoConfiguration(error)),
            ),
            Ok((configured, guild)) => {
                let startup = Startup { guild_id: text::trim(guild.as_str()) };
                if configured {
                    (startup, StartupAction::StartDiscord)
                } else {
                    (startup, StartupAction::Finish(StartupNote::NoToken))
                }
            },
        }
    }

    /// Goes on when Discord was started: the browser follows where a guild is configured.
    pub fn discord_started(&self, started: Result<(), String>) -> (action: StartupAction)
        ensures
            action == (match started {
                Err(error) => StartupAction::Finish(StartupNote::DiscordFailed(error)),
                Ok(_) => if self.guild_id@.len() == 0 {
                    StartupAction::Finish(StartupNote::NoGuild)
                } else {
                    StartupAction::StartBrowser(self.guild_id)
                },
            }),
    {
        match started {
            Err(error) => StartupAction::Finish(StartupNote::DiscordFailed(error)),
            Ok(_) => if self.guild_id.as_str().is_empty() {
                StartupAction::Finish(StartupNote::NoGuild)
            } else {
                StartupAction::StartBrowser(self.guild_id.clone())
            },
        }
    }

    /// Ends when the browser was started; `started` tells whether its account is signed in.
    pub fn browser_started(&self, started: Result<bool, String>) -> (action: StartupAction)
        ensures
            action == StartupAction::Finish(
                match started {
                    Ok(true) => StartupNote::Ready,
                    Ok(false) => StartupNote::SignInNeeded,
                    Err(error) => StartupNote::BrowserFailed(error),
                },
            ),
    {
        match started {
            Ok(logged_in) => if logged_in {
                StartupAction::Finish(StartupNote::Ready)
            } else {
                StartupAction::Finish(StartupNote::SignInNeeded)
            },
            Err(error) => StartupAction::Finish(StartupNote::BrowserFailed(error)),
        }
    }
}

/// A note on something that failed gives the error word for word at its end.
pub proof fn startup_notes_name_the_error(error: String)
    ensures
        StartupNote::NoConfiguration(error).worded() == "Could not load startup configuration: "@
            + error@,
        StartupNote::DiscordFailed(error).worded() == "Discord auto-start failed: "@ + error@,
        StartupNote::BrowserFailed(error).worded() == "ChatGPT browser auto-start failed: "@
            + error@,
{
}

} // verus!
