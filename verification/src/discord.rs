//! The Discord side: its status, and what the commands and buttons of a server do.

use crate::browser::BrowserStatus;
use crate::panel;
use crate::panel::{MemberPanelAction, PanelMonitor};
use crate::text;
use std::collections::{HashMap, HashSet};
use vstd::prelude::*;

verus! {

/// The Discord connection as the panel shows it.
#[derive(Debug)]
pub struct DiscordStatus {
    pub state: String,
    pub connected: bool,
    pub user_name: Option<String>,
    pub guild_count: usize,
    pub voice_count: usize,
    pub last_error: Option<String>,
}

impl DiscordStatus {
    /// The status of a connection that was never made.
    pub open spec fn is_stopped(self) -> bool {
        &&& self.state@ == "stopped"@
        &&& !self.connected
        &&& self.user_name is None
        &&& self.guild_count == 0
        &&& self.voice_count == 0
        &&& self.last_error is None
    }

    /// The same status once more.
    pub fn copy(&self) -> (status: Self)
        ensures
            status == *self,
    {
        DiscordStatus {
            state: self.state.clone(),
            connected: self.connected,
            user_name: self.user_name.clone(),
            guild_count: self.guild_count,
            voice_count: self.voice_count,
            last_error: self.last_error.clone(),
        }
    }

    /// The status where the state of the connection cannot be read.
    pub fn unreadable() -> (status: Self)
        ensures
            status.state@ == "error"@,
            text::option_view(status.last_error) == Some(
                "Discord runtime state lock was poisoned"@,
            ),
            !status.connected,
            status.user_name is None,
            status.guild_count == 0,
            status.voice_count == 0,
    {
        DiscordStatus {
            state: "error".to_owned(),
            connected: false,
            user_name: None,
            guild_count: 0,
            voice_count: 0,
            last_error: Some("Discord runtime state lock was poisoned".to_owned()),
        }
    }
}

impl Default for DiscordStatus {
    fn default() -> (status: Self)
        ensures
            status.is_stopped(),
    {
        DiscordStatus {
            state: "stopped".to_owned(),
            connected: false,
            user_name: None,
            guild_count: 0,
            voice_count: 0,
            last_error: None,
        }
    }
}

/// The panel of a server: the message, and the channel that it is in.
#[derive(Debug, Clone, Copy, PartialEq, Eq, Structural)]
pub struct MemberPanel {
    pub guild_id: u64,
    pub channel_id: u64,
    pub message_id: u64,
}

/// A list holds each of the panels once.
pub open spec fn lists_panels(list: Seq<MemberPanel>, panels: Map<u64, MemberPanel>) -> bool {
    &&& forall|i: int|
        0 <= i < list.len() ==> panels.contains_key((#[trigger] list[i]).guild_id)
            && panels[list[i].guild_id] == list[i]
    &&& forall|i: int, j: int|
        0 <= i < j < list.len() ==> (#[trigger] list[i]).guild_id != (#[trigger] list[j]).guild_id
    &&& forall|guild_id: u64| #[trigger]
        panels.contains_key(guild_id) ==> list.contains(panels[guild_id])
}

/// The state of the Discord connection. The connection itself is the caller's part.
pub struct DiscordRuntime {
    pub status: DiscordStatus,
    pub voice_guilds: HashSet<u64>,
    pub member_panels: HashMap<u64, MemberPanel>,
}

impl DiscordRuntime {
    /// Each panel is kept under its server.
    pub open spec fn well_formed(&self) -> bool {
        forall|guild_id: u64| #[trigger]
            self.member_panels@.contains_key(guild_id) ==> self.member_panels@[guild_id].guild_id
                == guild_id
    }

    /// A connection that was never made.
    pub fn new() -> (runtime: Self)
        ensures
            runtime.well_formed(),
            runtime.status.is_stopped(),
            runtime.voice_guilds@ == Set::<u64>::empty(),
            runtime.member_panels@ == Map::<u64, MemberPanel>::empty(),
    {
        DiscordRuntime {
            status: DiscordStatus::default(),
            voice_guilds: HashSet::new(),
            member_panels: HashMap::new(),
        }
    }

    /// The status as it is shown: the number of relays is counted afresh.
    pub fn status(&self) -> (status: DiscordStatus)
        ensures
            status == (DiscordStatus { voice_count: status.voice_count, ..self.status }),
            status.voice_count == self.voice_guilds@.len(),
    {
        broadcast use vstd::std_specs::hash::group_hash_axioms;

        let mut status = self.status.copy();
        status.voice_count = self.voice_guilds.len();
        status
    }

    /// Moves on to another state of the connection.
    pub fn set_state(&mut self, state: &str)
        ensures
            final(self).status.state@ == state@,
            final(self).status.connected == (state@ == "connected"@),
            final(self).status.voice_count == old(self).voice_guilds@.len(),
            final(self).status.user_name == old(self).status.user_name,
            final(self).status.guild_count == old(self).status.guild_count,
            final(self).status.last_error == old(self).status.last_error,
            *final(self) == (DiscordRuntime { status: final(self).status, ..*old(self) }),
    {
        let mut next = self.status();
        next.state = state.to_owned();
        next.connected = text::same(state, "connected");
        self.status = next;
    }

    /// Takes note of an error. The answer is what the panel is told.
    pub fn set_error(&mut self, message: &str) -> (note: String)
        ensures
            final(self).status.state@ == "error"@,
            !final(self).status.connected,
            text::option_view(final(self).status.last_error) == Some(message@),
            final(self).status.voice_count == old(self).voice_guilds@.len(),
            final(self).status.user_name == old(self).status.user_name,
            final(self).status.guild_count == old(self).status.guild_count,
            *final(self) == (DiscordRuntime { status: final(self).status, ..*old(self) }),
            note@ == "Discord: "@ + message@,
    {
        let mut next = self.status();
        next.state = "error".to_owned();
        next.connected = false;
        next.last_error = Some(message.to_owned());
        self.status = next;
        text::joined("Discord: ", message)
    }

    /// Takes note that the bot is logged in. The answer is what the panel is told.
    pub fn ready(&mut self, user_name: &str, guild_count: usize) -> (note: String)
        ensures
            final(self).status.state@ == "connected"@,
            final(self).status.connected,
            text::option_view(final(self).status.user_name) == Some(user_name@),
            final(self).status.guild_count == guild_count,
            final(self).status.voice_count == old(self).voice_guilds@.len(),
            final(self).status.last_error is None,
            *final(self) == (DiscordRuntime { status: final(self).status, ..*old(self) }),
            note@ == "Logged in to Discord as "@ + user_name@ + "."@,
    {
        let mut next = self.status();
        next.state = "connected".to_owned();
        next.connected = true;
        next.user_name = Some(user_name.to_owned());
        next.guild_count = guild_count;
        next.last_error = None;
        self.status = next;
        let mut note = "Logged in to Discord as ".to_owned();
        note.append(user_name);
        note.append(".");
        note
    }

    /// Whether a server's relay is on.
    pub fn voice_connected(&self, guild_id: u64) -> (connected: bool)
        ensures
            connected == self.voice_guilds@.contains(guild_id),
    {
        broadcast use vstd::std_specs::hash::group_hash_axioms;

        self.voice_guilds.contains(&guild_id)
    }

    /// Takes note that a server's relay is on.
    pub fn voice_joined(&mut self, guild_id: u64)
        ensures
            final(self).voice_guilds@ == old(self).voice_guilds@.insert(guild_id),
            final(self).status == old(self).status,
            final(self).member_panels == old(self).member_panels,
    {
        broadcast use vstd::std_specs::hash::group_hash_axioms;

        self.voice_guilds.insert(guild_id);
    }

    /// Takes note that a server's relay is off.
    pub fn voice_left(&mut self, guild_id: u64)
        ensures
            final(self).voice_guilds@ == old(self).voice_guilds@.remove(guild_id),
            final(self).status == old(self).status,
            final(self).member_panels == old(self).member_panels,
    {
        broadcast use vstd::std_specs::hash::group_hash_axioms;

        self.voice_guilds.remove(&guild_id);
    }

    /// Decides whether watching the panels begins, with a monitor that has seen none; `running`
    /// tells that they are watched already, and then no second monitor starts.
    pub fn start_member_panel_monitor(running: bool) -> (started: Option<PanelMonitor>)
        ensures
            started is Some <==> !running,
            started matches Some(monitor) ==> monitor.shown@ == Map::<
                u64,
                panel::MemberPanelSnapshot,
            >::empty(),
    {
        if running {
            None
        } else {
            Some(PanelMonitor::new())
        }
    }

    /// Takes note of a server's panel. The answer is the message that it replaces, if that is
    /// another one: it is to be deleted.
    pub fn remember_member_panel(&mut self, guild_id: u64, channel_id: u64, message_id: u64) -> (
    replaced: Option<MemberPanel>)
        requires
            old(self).well_formed(),
        ensures
            final(self).well_formed(),
            final(self).status == old(self).status,
            final(self).voice_guilds == old(self).voice_guilds,
            final(self).member_panels@ == old(self).member_panels@.insert(
                guild_id,
                MemberPanel { guild_id, channel_id, message_id },
            ),
            replaced == (match old(self).member_panels@.get(guild_id) {
                Some(previous) => if previous.message_id != message_id || previous.channel_id
                    != channel_id {
                    Some(previous)
                } else {
                    None
                },
                None => None,
            }),
    {
        broadcast use vstd::std_specs::hash::group_hash_axioms;

        let fresh = MemberPanel { guild_id, channel_id, message_id };
        match self.member_panels.insert(guild_id, fresh) {
            Some(previous) => {
                if previous.message_id != message_id || previous.channel_id != channel_id {
                    Some(previous)
                } else {
                    None
                }
            },
            None => None,
        }
    }

    /// Lists the panels.
    pub fn tracked_panels(&self) -> (list: Vec<MemberPanel>)
        requires
            self.well_formed(),
        ensures
            lists_panels(list@, self.member_panels@),
    {
        broadcast use vstd::std_specs::hash::group_hash_axioms;

        let mut list: Vec<MemberPanel> = Vec::new();
        let entries = self.member_panels.iter();
        let ghost panels = self.member_panels@;
        let ghost pairs = vstd::std_specs::iter::IteratorSpec::remaining(&entries);
        for entry in it: entries
            invariant
                it.seq() == pairs,
                list@.len() == it.index(),
                forall|i: int| 0 <= i < list@.len() ==> #[trigger] list@[i] == *pairs[i].1,
        {
            list.push(*entry.1);
        }
        proof {
            assert forall|i: int| 0 <= i < list@.len() implies panels.contains_key(
                (#[trigger] list@[i]).guild_id,
            ) && panels[list@[i].guild_id] == list@[i] by {
                assert(panels.contains_key(*pairs[i].0));
                assert(panels[*pairs[i].0] == *pairs[i].1);
            }
            assert forall|i: int, j: int| 0 <= i < j < list@.len() implies (
            #[trigger] list@[i]).guild_id != (#[trigger] list@[j]).guild_id by {
                assert(panels.contains_key(*pairs[i].0) && panels[*pairs[i].0] == *pairs[i].1);
                assert(panels.contains_key(*pairs[j].0) && panels[*pairs[j].0] == *pairs[j].1);
                assert(pairs[i] != pairs[j]);
            }
            assert forall|guild_id: u64| #[trigger] panels.contains_key(guild_id) implies list@.contains(
                panels[guild_id],
            ) by {
                assert(pairs.contains((&guild_id, &panels[guild_id])));
                let at = choose|at: int|
                    0 <= at < pairs.len() && pairs[at] == (&guild_id, &panels[guild_id]);
                assert(list@[at] == panels[guild_id]);
            }
        }
        list
    }

    /// Forgets all panels; the answer is what is to be deleted.
    pub fn delete_member_panels(&mut self) -> (deleted: Vec<MemberPanel>)
        requires
            old(self).well_formed(),
        ensures
            lists_panels(deleted@, old(self).member_panels@),
            final(self).member_panels@ == Map::<u64, MemberPanel>::empty(),
            final(self).status == old(self).status,
            final(self).voice_guilds == old(self).voice_guilds,
    {
        let deleted = self.tracked_panels();
        self.member_panels.clear();
        deleted
    }

    /// Ends everything: no relay is on, no panel is kept, and the connection is stopped. The answer
    /// is the panels to delete.
    pub fn stop_all(&mut self) -> (deleted: Vec<MemberPanel>)
        requires
            old(self).well_formed(),
        ensures
            lists_panels(deleted@, old(self).member_panels@),
            final(self).well_formed(),
            final(self).member_panels@ == Map::<u64, MemberPanel>::empty(),
            final(self).voice_guilds@ == Set::<u64>::empty(),
            final(self).status.state@ == "stopped"@,
            !final(self).status.connected,
            final(self).status.voice_count == 0,
            final(self).status.user_name == old(self).status.user_name,
            final(self).status.guild_count == old(self).status.guild_count,
            final(self).status.last_error == old(self).status.last_error,
    {
        broadcast use vstd::std_specs::hash::group_hash_axioms;

        let deleted = self.delete_member_panels();
        self.voice_guilds.clear();
        self.set_state("stopped");
        proof {
            reveal_strlit("stopped");
            reveal_strlit("connected");
            assert("stopped"@.len() != "connected"@.len());
        }
        deleted
    }
}

/// What starting the Discord connection means.
#[derive(Debug)]
pub enum StartDecision {
    /// It is on already.
    Running,
    /// It starts, with this token, and with commands for this server.
    Start(String, Option<u64>),
    /// It cannot start.
    Refused(String),
}

/// The server that the credentials name: none, a number, or something that is no number.
pub open spec fn configured_guild(guild: Option<Seq<char>>) -> Result<Option<u64>, ()> {
    match guild {
        None => Ok(None),
        Some(guild) => match text::parsed_u64(guild) {
            Some(number) => Ok(Some(number)),
            None => Err(()),
        },
    }
}

/// Decides whether the connection starts. `running` tells that it is on; `credentials` is the token
/// and the configured server.
pub fn start_runtime(
    runtime: &mut DiscordRuntime,
    running: bool,
    credentials: Result<(String, Option<String>), String>,
) -> (decision: StartDecision)
    ensures
        if running {
            decision is Running && *final(runtime) == *old(runtime)
        } else {
            match credentials {
                Err(error) => decision == StartDecision::Refused(error) && *final(runtime)
                    == *old(runtime),
                Ok((token, guild)) => match configured_guild(text::option_view(guild)) {
                    Err(_) => {
                        &&& decision matches StartDecision::Refused(error) && error@
                            == "Configured Discord guild ID must be numeric"@
                        &&& *final(runtime) == *old(runtime)
                    },
                    Ok(number) => {
                        &&& decision == StartDecision::Start(token, number)
                        &&& final(runtime).status.state@ == "connecting"@
                        &&& !final(runtime).status.connected
                        &&& final(runtime).status.voice_count == old(runtime).voice_guilds@.len()
                        &&& final(runtime).status.user_name == old(runtime).status.user_name
                        &&& final(runtime).status.guild_count == old(runtime).status.guild_count
                        &&& final(runtime).status.last_error == old(runtime).status.last_error
                        &&& final(runtime).voice_guilds == old(runtime).voice_guilds
                        &&& final(runtime).member_panels == old(runtime).member_panels
                    },
                },
            }
        },
{
    if running {
        return StartDecision::Running;
    }
    let (token, guild) = match credentials {
        Ok(credentials) => credentials,
        Err(error) => {
            return StartDecision::Refused(error);
        },
    };
    let number = match &guild {
        None => None,
        Some(guild) => match text::parse_u64(guild.as_str()) {
            Some(number) => Some(number),
            None => {
                return StartDecision::Refused(
                    "Configured Discord guild ID must be numeric".to_owned(),
                );
            },
        },
    };
    runtime.set_state("connecting");
    proof {
        reveal_strlit("connecting");
        reveal_strlit("connected");
        assert("connecting"@.len() != "connected"@.len());
    }
    StartDecision::Start(token, number)
}

/// A slash command: its name and what it does.
#[derive(Debug, Clone, Copy)]
pub struct CommandDefinition {
    pub name: &'static str,
    pub description: &'static str,
}

/// Lists the slash commands.
pub fn command_definitions() -> (commands: Vec<CommandDefinition>)
    ensures
        commands@.len() == 3,
        commands@[0].name@ == "join"@,
        commands@[0].description@ == "Join your current Discord voice channel"@,
        commands@[1].name@ == "leave"@,
        commands@[1].description@ == "Leave the current Discord voice channel"@,
        commands@[2].name@ == "status"@,
        commands@[2].description@ == "Show GPTVoice status"@,
{
    let mut commands: Vec<CommandDefinition> = Vec::new();
    commands.push(
        CommandDefinition { name: "join", description: "Join your current Discord voice channel" },
    );
    commands.push(
        CommandDefinition { name: "leave", description: "Leave the current Discord voice channel" },
    );
    commands.push(CommandDefinition { name: "status", description: "Show GPTVoice status" });
    commands
}

/// What the panel is told after the commands were registered, or could not be.
pub open spec fn registered_text(in_guild: bool, registered: Result<usize, String>) -> Seq<char> {
    match registered {
        Ok(count) => "Registered "@ + text::decimal(count as nat) + if in_guild {
            " Discord slash commands in the configured guild."@
        } else {
            " Discord slash commands globally for all visible servers."@
        },
        Err(error) => if in_guild {
            "Could not register configured-guild slash commands: "@ + error@
        } else {
            "Could not register global slash commands: "@ + error@
        },
    }
}

/// Words what became of registering the commands.
pub fn registration_note(configured_guild: bool, registered: Result<usize, String>) -> (note: String)
    ensures
        note@ == registered_text(configured_guild, registered),
{
    match registered {
        Ok(count) => {
            let mut note = "Registered ".to_owned();
            note.append(text::decimal_text(count as u64).as_str());
            if configured_guild {
                note.append(" Discord slash commands in the configured guild.");
            } else {
                note.append(" Discord slash commands globally for all visible servers.");
            }
            note
        },
        Err(error) => if configured_guild {
            text::joined("Could not register configured-guild slash commands: ", error.as_str())
        } else {
            text::joined("Could not register global slash commands: ", error.as_str())
        },
    }
}

/// What a member asked for.
#[derive(Debug, Clone, Copy, PartialEq, Eq, Structural)]
pub enum Request {
    /// `/join`: answered in public, with the panel.
    Join,
    /// `/leave`: answered in private.
    Leave,
    /// `/status`: answered in private at once.
    Status,
    /// A button of this server's panel.
    Button(MemberPanelAction),
    /// Nothing that concerns this app.
    Ignored,
}

/// What a slash command asks for.
pub open spec fn command_request(name: Seq<char>) -> Request {
    if name == "join"@ {
        Request::Join
    } else if name == "leave"@ {
        Request::Leave
    } else if name == "status"@ {
        Request::Status
    } else {
        Request::Ignored
    }
}

/// What a button asks for: only buttons of the server that they were pressed in count.
pub open spec fn button_request(custom_id: Seq<char>, guild_id: Option<u64>) -> Request {
    match (panel::button_of(custom_id), guild_id) {
        (Some((action, guild)), Some(pressed_in)) => if guild == pressed_in {
            Request::Button(action)
        } else {
            Request::Ignored
        },
        _ => Request::Ignored,
    }
}

/// An interaction of a member: a slash command by its name, or a button by its identifier and the
/// server that it was pressed in.
#[derive(Debug)]
pub enum MemberInteraction {
    Command(String),
    Button(String, Option<u64>),
    Other,
}

/// Decides what an interaction asks for.
pub fn interaction_create(interaction: &MemberInteraction) -> (request: Request)
    ensures
        request == match *interaction {
            MemberInteraction::Command(name) => command_request(name@),
            MemberInteraction::Button(custom_id, guild_id) => button_request(custom_id@, guild_id),
            MemberInteraction::Other => Request::Ignored,
        },
{
    match interaction {
        MemberInteraction::Command(name) => {
            if text::same(name.as_str(), "join") {
                Request::Join
            } else if text::same(name.as_str(), "leave") {
                Request::Leave
            } else if text::same(name.as_str(), "status") {
                Request::Status
            } else {
                Request::Ignored
            }
        },
        MemberInteraction::Button(custom_id, guild_id) => {
            match panel::parse_member_panel_action(custom_id.as_str()) {
                Some((action, guild)) => match guild_id {
                    Some(pressed_in) => if guild == *pressed_in {
                        Request::Button(action)
                    } else {
                        Request::Ignored
                    },
                    None => Request::Ignored,
                },
                None => Request::Ignored,
            }
        },
        MemberInteraction::Other => Request::Ignored,
    }
}

/// A button works in its own server and in no other.
pub proof fn buttons_work_in_their_server_only(
    action: MemberPanelAction,
    guild_id: u64,
    pressed_in: u64,
)
    ensures
        button_request(panel::custom_id(action.word(), guild_id), Some(pressed_in)) == (if guild_id
            == pressed_in {
            Request::Button(action)
        } else {
            Request::Ignored
        }),
{
    panel::buttons_are_server_scoped(action, guild_id);
}

/// What joining a voice channel does next.
#[derive(Debug)]
pub enum JoinAction {
    /// Find the voice channel that the member is in.
    FindChannel,
    /// Find the voice driver.
    FindDriver,
    JoinChannel,
    StartBrowser,
    /// Get the audio transport of the browser.
    GetTransport,
    /// Take the reader of the browser's audio.
    TakeReader,
    /// Find the call that was joined.
    FindCall,
    /// Attach the audio in both directions.
    Attach,
    LeaveChannel,
    StopBrowser,
    /// Answer the member.
    Reply(JoinReply),
}

/// What a member is answered.
#[derive(Debug)]
pub enum JoinReply {
    NotInServer,
    AlreadyConnected,
    NoChannel,
    NoDriver,
    JoinFailed(String),
    BrowserFailed(String),
    SignInNeeded,
    TransportFailed(String),
    ReaderFailed(String),
    CallLost,
    Joined,
    Left,
}

impl JoinReply {
    /// The answer in words.
    pub open spec fn worded(self) -> Seq<char> {
        match self {
            JoinReply::NotInServer => "Use this control inside a Discord server."@,
            JoinReply::AlreadyConnected =>
            "GPTVoice is already connected to this server's voice channel."@,
            JoinReply::NoChannel => "Join a voice channel first, then press /join again."@,
            JoinReply::NoDriver => "The Discord voice driver is not available yet."@,
            JoinReply::JoinFailed(error) => "I could not join that voice channel: "@ + error@,
            JoinReply::BrowserFailed(error) => "I could not start the dedicated ChatGPT browser: "@
                + error@,
            JoinReply::SignInNeeded =>
            "The dedicated ChatGPT profile needs sign-in. Complete the browser setup, then press /join again."@,
            JoinReply::TransportFailed(error) =>
            "I could not start the browser audio transport: "@ + error@,
            JoinReply::ReaderFailed(error) => "I could not attach ChatGPT audio to Discord: "@
                + error@,
            JoinReply::CallLost => "Discord did not keep the voice connection open."@,
            JoinReply::Joined =>
            "Joined your voice channel and connected the continuous audio relay. The administrator can control ChatGPT from the GPTVoice desktop Status panel."@,
            JoinReply::Left =>
            "Left the Discord voice channel and stopped this guild's ChatGPT browser session."@,
        }
    }

    /// Puts the answer into words.
    pub fn word(&self) -> (message: String)
        ensures
            message@ == self.worded(),
    {
        match self {
            JoinReply::NotInServer => "Use this control inside a Discord server.".to_owned(),
            JoinReply::AlreadyConnected =>
            "GPTVoice is already connected to this server's voice channel.".to_owned(),
            JoinReply::NoChannel =>
            "Join a voice channel first, then press /join again.".to_owned(),
            JoinReply::NoDriver => "The Discord voice driver is not available yet.".to_owned(),
            JoinReply::JoinFailed(error) => text::joined(
                "I could not join that voice channel: ",
                error.as_str(),
            ),
            JoinReply::BrowserFailed(error) => text::joined(
                "I could not start the dedicated ChatGPT browser: ",
                error.as_str(),
            ),
            JoinReply::SignInNeeded =>
            "The dedicated ChatGPT profile needs sign-in. Complete the browser setup, then press /join again.".to_owned(),
            JoinReply::TransportFailed(error) => text::joined(
                "I could not start the browser audio transport: ",
                error.as_str(),
            ),
            JoinReply::ReaderFailed(error) => text::joined(
                "I could not attach ChatGPT audio to Discord: ",
                error.as_str(),
            ),
            JoinReply::CallLost => "Discord did not keep the voice connection open.".to_owned(),
            JoinReply::Joined =>
            "Joined your voice channel and connected the continuous audio relay. The administrator can control ChatGPT from the GPTVoice desktop Status panel.".to_owned(),
            JoinReply::Left =>
            "Left the Discord voice channel and stopped this guild's ChatGPT browser session.".to_owned(),
        }
    }
}

/// How far joining a voice channel has got.
#[derive(Debug)]
pub enum JoinStage {
    FindingChannel,
    FindingDriver,
    Joining,
    StartingBrowser,
    GettingTransport,
    TakingReader,
    FindingCall,
    Attaching,
    /// The channel is left again, and the browser stopped where the flag says so.
    Leaving(bool, JoinReply),
    StoppingBrowser(JoinReply),
    Over,
}

/// Joining a voice channel and connecting the relay.
#[derive(Debug)]
pub struct JoinVoice {
    pub guild_id: u64,
    pub stage: JoinStage,
}

/// The relay cannot be connected: the channel is left again before the member is answered.
pub open spec fn leaving(guild_id: u64, stop_browser: bool, reply: JoinReply) -> (
    JoinVoice,
    JoinAction,
) {
    (
        JoinVoice { guild_id, stage: JoinStage::Leaving(stop_browser, reply) },
        JoinAction::LeaveChannel,
    )
}

fn leave(guild_id: u64, stop_browser: bool, reply: JoinReply) -> (continued: (JoinVoice, JoinAction))
    ensures
        continued == leaving(guild_id, stop_browser, reply),
{
    (
        JoinVoice { guild_id, stage: JoinStage::Leaving(stop_browser, reply) },
        JoinAction::LeaveChannel,
    )
}

impl JoinVoice {
    /// Begins to join: only in a server, and only where the relay is off.
    pub fn join_voice(guild_id: Option<u64>, runtime: &DiscordRuntime) -> (begun: (
        Self,
        JoinAction,
    ))
        ensures
            begun == (match guild_id {
                None => (
                    JoinVoice { guild_id: 0, stage: JoinStage::Over },
                    JoinAction::Reply(JoinReply::NotInServer),
                ),
                Some(guild_id) => if runtime.voice_guilds@.contains(guild_id) {
                    (
                        JoinVoice { guild_id, stage: JoinStage::Over },
                        JoinAction::Reply(JoinReply::AlreadyConnected),
                    )
                } else {
                    (
                        JoinVoice { guild_id, stage: JoinStage::FindingChannel },
                        JoinAction::FindChannel,
                    )
                },
            }),
    {
        match guild_id {
            None => (
                JoinVoice { guild_id: 0, stage: JoinStage::Over },
                JoinAction::Reply(JoinReply::NotInServer),
            ),
            Some(guild_id) => if runtime.voice_connected(guild_id) {
                (
                    JoinVoice { guild_id, stage: JoinStage::Over },
                    JoinAction::Reply(JoinReply::AlreadyConnected),
                )
            } else {
                (
                    JoinVoice { guild_id, stage: JoinStage::FindingChannel },
                    JoinAction::FindChannel,
                )
            },
        }
    }

    /// The step after a reply: what was asked for was found or done (for the browser: its account
    /// is signed in), or not, or failed with a message.
    pub open spec fn after(self, reply: Result<bool, String>) -> (JoinVoice, JoinAction) {
        let guild_id = self.guild_id;
        let found = reply == Ok::<bool, String>(true);
        let over = JoinVoice { guild_id, stage: JoinStage::Over };
        match self.stage {
            JoinStage::FindingChannel => if found {
                (
                    JoinVoice { guild_id, stage: JoinStage::FindingDriver },
                    JoinAction::FindDriver,
                )
            } else {
                (over, JoinAction::Reply(JoinReply::NoChannel))
            },
            JoinStage::FindingDriver => if found {
                (JoinVoice { guild_id, stage: JoinStage::Joining }, JoinAction::JoinChannel)
            } else {
                (over, JoinAction::Reply(JoinReply::NoDriver))
            },
            JoinStage::Joining => match reply {
                Ok(_) => (
                    JoinVoice { guild_id, stage: JoinStage::StartingBrowser },
                    JoinAction::StartBrowser,
                ),
                Err(error) => (over, JoinAction::Reply(JoinReply::JoinFailed(error))),
            },
            JoinStage::StartingBrowser => match reply {
                Ok(logged_in) => if logged_in {
                    (
                        JoinVoice { guild_id, stage: JoinStage::GettingTransport },
                        JoinAction::GetTransport,
                    )
                } else {
                    leaving(guild_id, true, JoinReply::SignInNeeded)
                },
                Err(error) => leaving(guild_id, false, JoinReply::BrowserFailed(error)),
            },
            JoinStage::GettingTransport => match reply {
                Ok(_) => (
                    JoinVoice { guild_id, stage: JoinStage::TakingReader },
                    JoinAction::TakeReader,
                ),
                Err(error) => leaving(guild_id, false, JoinReply::TransportFailed(error)),
            },
            JoinStage::TakingReader => match reply {
                Ok(_) => (
                    JoinVoice { guild_id, stage: JoinStage::FindingCall },
                    JoinAction::FindCall,
                ),
                Err(error) => leaving(guild_id, false, JoinReply::ReaderFailed(error)),
            },
            JoinStage::FindingCall => if found {
                (JoinVoice { guild_id, stage: JoinStage::Attaching }, JoinAction::Attach)
            } else {
                leaving(guild_id, false, JoinReply::CallLost)
            },
            JoinStage::Attaching => (over, JoinAction::Reply(JoinReply::Joined)),
            JoinStage::Leaving(stop_browser, answer) => if stop_browser {
                (
                    JoinVoice { guild_id, stage: JoinStage::StoppingBrowser(answer) },
                    JoinAction::StopBrowser,
                )
            } else {
                (over, JoinAction::Reply(answer))
            },
            JoinStage::StoppingBrowser(answer) => (over, JoinAction::Reply(answer)),
            JoinStage::Over => (over, JoinAction::Reply(JoinReply::AlreadyConnected)),
        }
    }

    /// The relay is on from the moment that the audio is attached.
    pub open spec fn connects(self) -> bool {
        self.stage is Attaching
    }

    /// Goes on with joining.
    pub fn next(self, runtime: &mut DiscordRuntime, reply: Result<bool, String>) -> (continued: (
        Self,
        JoinAction,
    ))
        ensures
            continued == self.after(reply),
            final(runtime).voice_guilds@ == (if self.connects() {
                old(runtime).voice_guilds@.insert(self.guild_id)
            } else {
                old(runtime).voice_guilds@
            }),
            final(runtime).status == old(runtime).status,
            final(runtime).member_panels == old(runtime).member_panels,
    {
        let guild_id: u64 = self.guild_id;
        let found = match &reply {
            Ok(found) => *found,
            Err(_) => false,
        };
        let over = JoinVoice { guild_id, stage: JoinStage::Over };
        match self.stage {
            JoinStage::FindingChannel => {
                if found {
                    (
                        JoinVoice { guild_id, stage: JoinStage::FindingDriver },
                        JoinAction::FindDriver,
                    )
                } else {
                    (over, JoinAction::Reply(JoinReply::NoChannel))
                }
            },
            JoinStage::FindingDriver => {
                if found {
                    (JoinVoice { guild_id, stage: JoinStage::Joining }, JoinAction::JoinChannel)
                } else {
                    (over, JoinAction::Reply(JoinReply::NoDriver))
                }
            },
            JoinStage::Joining => match reply {
                Ok(_) => (
                    JoinVoice { guild_id, stage: JoinStage::StartingBrowser },
                    JoinAction::StartBrowser,
                ),
                Err(error) => (over, JoinAction::Reply(JoinReply::JoinFailed(error))),
            },
            JoinStage::StartingBrowser => match reply {
                Ok(logged_in) => {
                    if logged_in {
                        (
                            JoinVoice { guild_id, stage: JoinStage::GettingTransport },
                            JoinAction::GetTransport,
                        )
                    } else {
                        leave(guild_id, true, JoinReply::SignInNeeded)
                    }
                },
                Err(error) => leave(guild_id, false, JoinReply::BrowserFailed(error)),
            },
            JoinStage::GettingTransport => match reply {
                Ok(_) => (
                    JoinVoice { guild_id, stage: JoinStage::TakingReader },
                    JoinAction::TakeReader,
                ),
                Err(error) => leave(guild_id, false, JoinReply::TransportFailed(error)),
            },
            JoinStage::TakingReader => match reply {
                Ok(_) => (
                    JoinVoice { guild_id, stage: JoinStage::FindingCall },
                    JoinAction::FindCall,
                ),
                Err(error) => leave(guild_id, false, JoinReply::ReaderFailed(error)),
            },
            JoinStage::FindingCall => {
                if found {
                    (JoinVoice { guild_id, stage: JoinStage::Attaching }, JoinAction::Attach)
                } else {
                    leave(guild_id, false, JoinReply::CallLost)
                }
            },
            JoinStage::Attaching => {
                runtime.voice_joined(guild_id);
                (over, JoinAction::Reply(JoinReply::Joined))
            },
            JoinStage::Leaving(stop_browser, answer) => {
                if stop_browser {
                    (
                        JoinVoice { guild_id, stage: JoinStage::StoppingBrowser(answer) },
                        JoinAction::StopBrowser,
                    )
                } else {
                    (over, JoinAction::Reply(answer))
                }
            },
            JoinStage::StoppingBrowser(answer) => (over, JoinAction::Reply(answer)),
            JoinStage::Over => (over, JoinAction::Reply(JoinReply::AlreadyConnected)),
        }
    }
}

/// What the panel is told when a server's relay is on.
pub fn joined_note(guild_id: u64) -> (note: String)
    ensures
        note@ == "Joined Discord voice and opened ChatGPT for guild "@ + text::decimal(
            guild_id as nat,
        ) + "."@,
{
    let mut note = "Joined Discord voice and opened ChatGPT for guild ".to_owned();
    note.append(text::decimal_text(guild_id).as_str());
    note.append(".");
    note
}

/// How many steps joining takes at most from here.
pub open spec fn steps_to_join(stage: JoinStage) -> nat {
    match stage {
        JoinStage::FindingChannel => 10,
        JoinStage::FindingDriver => 9,
        JoinStage::Joining => 8,
        JoinStage::StartingBrowser => 7,
        JoinStage::GettingTransport => 6,
        JoinStage::TakingReader => 5,
        JoinStage::FindingCall => 4,
        JoinStage::Attaching => 3,
        JoinStage::Leaving(_, _) => 2,
        JoinStage::StoppingBrowser(_) => 1,
        JoinStage::Over => 0,
    }
}

/// Every member who asks to join is answered: each step answers or leaves fewer steps.
pub proof fn joins_end(join: JoinVoice, reply: Result<bool, String>)
    requires
        join.stage !is Over,
    ensures
        steps_to_join(join.after(reply).0.stage) < steps_to_join(join.stage),
        join.after(reply).0.stage is Over <==> join.after(reply).1 is Reply,
{
}

/// Whoever is told that the relay is on has it on; whoever is told of a failure after the channel
/// was joined has left the channel again.
pub proof fn joining_is_all_or_nothing(join: JoinVoice, reply: Result<bool, String>)
    requires
        join.stage is StartingBrowser || join.stage is GettingTransport
            || join.stage is TakingReader || join.stage is FindingCall || join.stage is Attaching,
    ensures
        ({
            let (after, action) = join.after(reply);
            &&& action matches JoinAction::Reply(answer) ==> answer is Joined && join.connects()
            &&& after.stage is Leaving <==> action is LeaveChannel
        }),
{
}

/// How far leaving a voice channel has got.
#[derive(Debug, Clone, Copy, PartialEq, Eq, Structural)]
pub enum LeaveStage {
    Leaving,
    Stopping,
    Over,
}

/// Leaving a voice channel.
#[derive(Debug)]
pub struct LeaveVoice {
    pub guild_id: u64,
    pub stage: LeaveStage,
}

impl LeaveVoice {
    /// Begins to leave: only in a server.
    pub fn leave_voice(guild_id: Option<u64>) -> (begun: (Self, JoinAction))
        ensures
            begun == (match guild_id {
                None => (
                    LeaveVoice { guild_id: 0, stage: LeaveStage::Over },
                    JoinAction::Reply(JoinReply::NotInServer),
                ),
                Some(guild_id) => (
                    LeaveVoice { guild_id, stage: LeaveStage::Leaving },
                    JoinAction::LeaveChannel,
                ),
            }),
    {
        match guild_id {
            None => (
                LeaveVoice { guild_id: 0, stage: LeaveStage::Over },
                JoinAction::Reply(JoinReply::NotInServer),
            ),
            Some(guild_id) => (
                LeaveVoice { guild_id, stage: LeaveStage::Leaving },
                JoinAction::LeaveChannel,
            ),
        }
    }

    /// The step after the one before: the channel is left, the browser is stopped, and then the
    /// member is answered.
    pub open spec fn after(self) -> (LeaveVoice, JoinAction) {
        match self.stage {
            LeaveStage::Leaving => (
                LeaveVoice { stage: LeaveStage::Stopping, ..self },
                JoinAction::StopBrowser,
            ),
            _ => (
                LeaveVoice { stage: LeaveStage::Over, ..self },
                JoinAction::Reply(JoinReply::Left),
            ),
        }
    }

    /// Goes on with leaving; the relay is off as soon as the channel is left.
    pub fn next(self, runtime: &mut DiscordRuntime) -> (continued: (Self, JoinAction))
        ensures
            continued == self.after(),
            final(runtime).voice_guilds@ == (if self.stage is Leaving {
                old(runtime).voice_guilds@.remove(self.guild_id)
            } else {
                old(runtime).voice_guilds@
            }),
            final(runtime).status == old(runtime).status,
            final(runtime).member_panels == old(runtime).member_panels,
    {
        let guild_id: u64 = self.guild_id;
        match self.stage {
            LeaveStage::Leaving => {
                runtime.voice_left(guild_id);
                (LeaveVoice { guild_id, stage: LeaveStage::Stopping }, JoinAction::StopBrowser)
            },
            _ => (
                LeaveVoice { guild_id, stage: LeaveStage::Over },
                JoinAction::Reply(JoinReply::Left),
            ),
        }
    }
}

/// Leaving always comes to its end: the channel is left, the browser is stopped, and then the
/// member is told so.
pub proof fn leaving_stops_the_session(guild_id: u64)
    ensures
        ({
            let (stopping, first) = (LeaveVoice { guild_id, stage: LeaveStage::Leaving }).after();
            let (over, second) = stopping.after();
            &&& first is StopBrowser
            &&& second == JoinAction::Reply(JoinReply::Left)
            &&& over.stage is Over
        }),
{
}

/// What a button does next.
#[derive(Debug)]
pub enum ButtonAction {
    Join,
    Leave,
    /// Look at the browser.
    ReadStatus,
    /// Mute or unmute the microphone.
    SetMicrophone(bool),
    ReconnectVoice,
    /// The panel is written again with this text.
    Show(ButtonReply),
}

/// What the panel says after a button was pressed.
#[derive(Debug)]
pub enum ButtonReply {
    /// The answer of joining or leaving.
    Said(String),
    /// An outside step failed.
    Failed(String),
    NotInServer,
    NoSuchButton,
    OtherServer,
    MicrophoneUnknown,
    MicrophoneUnchanged,
    Muted,
    Live,
    LimitReached(Option<String>),
    Reconnected,
    NotActive,
}

impl ButtonReply {
    /// The text in words.
    pub open spec fn worded(self) -> Seq<char> {
        match self {
            ButtonReply::Said(message) => message@,
            ButtonReply::Failed(message) => message@,
            ButtonReply::NotInServer => "This panel can only be used inside a Discord server."@,
            ButtonReply::NoSuchButton => "This GPTVoice panel button is no longer valid."@,
            ButtonReply::OtherServer => "This panel belongs to a different Discord server."@,
            ButtonReply::MicrophoneUnknown =>
            "ChatGPT's microphone state is unavailable. Reconnect Voice and try again."@,
            ButtonReply::MicrophoneUnchanged => "ChatGPT's microphone state did not update."@,
            ButtonReply::Muted => "Input to ChatGPT is muted for this server."@,
            ButtonReply::Live => "Input to ChatGPT is live again for this server."@,
            ButtonReply::LimitReached(reset) => match reset {
                Some(reset) => if reset@.len() > 0 {
                    "ChatGPT Voice reached its daily limit; it resets at "@ + reset@ + "."@
                } else {
                    "ChatGPT Voice reached its daily limit."@
                },
                None => "ChatGPT Voice reached its daily limit."@,
            },
            ButtonReply::Reconnected => "ChatGPT Voice reconnected to the active thread."@,
            ButtonReply::NotActive =>
            "The browser refreshed, but ChatGPT Voice is not active. An administrator can start or resume a thread from the desktop panel."@,
        }
    }

    /// Puts the text into words.
    pub fn word(&self) -> (message: String)
        ensures
            message@ == self.worded(),
    {
        match self {
            ButtonReply::Said(message) => message.clone(),
            ButtonReply::Failed(message) => message.clone(),
            ButtonReply::NotInServer =>
            "This panel can only be used inside a Discord server.".to_owned(),
            ButtonReply::NoSuchButton =>
            "This GPTVoice panel button is no longer valid.".to_owned(),
            ButtonReply::OtherServer =>
            "This panel belongs to a different Discord server.".to_owned(),
            ButtonReply::MicrophoneUnknown =>
            "ChatGPT's microphone state is unavailable. Reconnect Voice and try again.".to_owned(),
            ButtonReply::MicrophoneUnchanged =>
            "ChatGPT's microphone state did not update.".to_owned(),
            ButtonReply::Muted => "Input to ChatGPT is muted for this server.".to_owned(),
            ButtonReply::Live => "Input to ChatGPT is live again for this server.".to_owned(),
            ButtonReply::LimitReached(reset) => {
                if let Some(reset) = reset {
                    if !reset.as_str().is_empty() {
                        let mut message =
                            "ChatGPT Voice reached its daily limit; it resets at ".to_owned();
                        message.append(reset.as_str());
                        message.append(".");
                        return message;
                    }
                }
                "ChatGPT Voice reached its daily limit.".to_owned()
            },
            ButtonReply::Reconnected =>
            "ChatGPT Voice reconnected to the active thread.".to_owned(),
            ButtonReply::NotActive =>
            "The browser refreshed, but ChatGPT Voice is not active. An administrator can start or resume a thread from the desktop panel.".to_owned(),
        }
    }
}

/// How far a button has got.
#[derive(Debug, Clone, Copy, PartialEq, Eq, Structural)]
pub enum ButtonStage {
    Joining,
    Leaving,
    Reading,
    Switching(bool),
    Reconnecting,
    Over,
}

/// What a step of a button gave.
#[derive(Debug)]
pub enum ButtonAnswer {
    /// The answer of joining or leaving.
    Said(String),
    /// The browser as it is now.
    Status(BrowserStatus),
}

/// The first step of a button.
pub open spec fn button_begins(custom_id: Seq<char>, guild_id: Option<u64>) -> (
    ButtonStage,
    ButtonAction,
) {
    match guild_id {
        None => (ButtonStage::Over, ButtonAction::Show(ButtonReply::NotInServer)),
        Some(pressed_in) => match panel::button_of(custom_id) {
            None => (ButtonStage::Over, ButtonAction::Show(ButtonReply::NoSuchButton)),
            Some((action, guild)) => if guild != pressed_in {
                (ButtonStage::Over, ButtonAction::Show(ButtonReply::OtherServer))
            } else {
                match action {
                    MemberPanelAction::Join => (ButtonStage::Joining, ButtonAction::Join),
                    MemberPanelAction::Leave => (ButtonStage::Leaving, ButtonAction::Leave),
                    MemberPanelAction::Mic => (ButtonStage::Reading, ButtonAction::ReadStatus),
                    MemberPanelAction::Reconnect => (
                        ButtonStage::Reconnecting,
                        ButtonAction::ReconnectVoice,
                    ),
                }
            },
        },
    }
}

/// Begins what a button does.
pub fn handle_member_panel_component(custom_id: &str, guild_id: Option<u64>) -> (begun: (
    ButtonStage,
    ButtonAction,
))
    ensures
        begun == button_begins(custom_id@, guild_id),
{
    let pressed_in: u64 = match guild_id {
        None => {
            return (ButtonStage::Over, ButtonAction::Show(ButtonReply::NotInServer));
        },
        Some(guild_id) => guild_id,
    };
    match panel::parse_member_panel_action(custom_id) {
        None => (ButtonStage::Over, ButtonAction::Show(ButtonReply::NoSuchButton)),
        Some((action, guild)) => {
            if guild != pressed_in {
                return (ButtonStage::Over, ButtonAction::Show(ButtonReply::OtherServer));
            }
            match action {
                MemberPanelAction::Join => (ButtonStage::Joining, ButtonAction::Join),
                MemberPanelAction::Leave => (ButtonStage::Leaving, ButtonAction::Leave),
                MemberPanelAction::Mic => (ButtonStage::Reading, ButtonAction::ReadStatus),
                MemberPanelAction::Reconnect => (
                    ButtonStage::Reconnecting,
                    ButtonAction::ReconnectVoice,
                ),
            }
        },
    }
}

/// What the panel says after a button led to this state of the browser.
pub open spec fn button_result(stage: ButtonStage, status: BrowserStatus) -> (
    ButtonStage,
    ButtonAction,
) {
    match stage {
        ButtonStage::Reading => match status.chatgpt_mic_muted {
            Some(muted) => (ButtonStage::Switching(!muted), ButtonAction::SetMicrophone(!muted)),
            None => (ButtonStage::Over, ButtonAction::Show(ButtonReply::MicrophoneUnknown)),
        },
        ButtonStage::Switching(muted) => (
            ButtonStage::Over,
            ButtonAction::Show(
                if status.chatgpt_mic_muted != Some(muted) {
                    ButtonReply::MicrophoneUnchanged
                } else if muted {
                    ButtonReply::Muted
                } else {
                    ButtonReply::Live
                },
            ),
        ),
        _ => (
            ButtonStage::Over,
            ButtonAction::Show(
                if status.voice_limit_reached {
                    ButtonReply::LimitReached(status.voice_limit_reset)
                } else if status.voice_mode_active {
                    ButtonReply::Reconnected
                } else {
                    ButtonReply::NotActive
                },
            ),
        ),
    }
}

/// Goes on with what a button does.
pub fn button_next(stage: ButtonStage, reply: Result<ButtonAnswer, String>) -> (continued: (
    ButtonStage,
    ButtonAction,
))
    ensures
        continued == (match reply {
            Err(error) => (ButtonStage::Over, ButtonAction::Show(ButtonReply::Failed(error))),
            Ok(ButtonAnswer::Said(message)) => (
                ButtonStage::Over,
                ButtonAction::Show(ButtonReply::Said(message)),
            ),
            Ok(ButtonAnswer::Status(status)) => button_result(stage, status),
        }),
{
    let status = match reply {
        Err(error) => {
            return (ButtonStage::Over, ButtonAction::Show(ButtonReply::Failed(error)));
        },
        Ok(ButtonAnswer::Said(message)) => {
            return (ButtonStage::Over, ButtonAction::Show(ButtonReply::Said(message)));
        },
        Ok(ButtonAnswer::Status(status)) => status,
    };
    match stage {
        ButtonStage::Reading => match status.chatgpt_mic_muted {
            Some(muted) => (ButtonStage::Switching(!muted), ButtonAction::SetMicrophone(!muted)),
            None => (ButtonStage::Over, ButtonAction::Show(ButtonReply::MicrophoneUnknown)),
        },
        ButtonStage::Switching(muted) => {
            let reached = match status.chatgpt_mic_muted {
                Some(current) => current == muted,
                None => false,
            };
            let answer = if !reached {
                ButtonReply::MicrophoneUnchanged
            } else if muted {
                ButtonReply::Muted
            } else {
                ButtonReply::Live
            };
            (ButtonStage::Over, ButtonAction::Show(answer))
        },
        _ => {
            let answer = if status.voice_limit_reached {
                ButtonReply::LimitReached(status.voice_limit_reset)
            } else if status.voice_mode_active {
                ButtonReply::Reconnected
            } else {
                ButtonReply::NotActive
            };
            (ButtonStage::Over, ButtonAction::Show(answer))
        },
    }
}

/// The microphone button switches: it asks for the opposite of what the page shows, and says that
/// the input is muted or live only when the page shows it so.
pub proof fn microphone_button_switches(status: BrowserStatus, muted: bool)
    ensures
        status.chatgpt_mic_muted == Some(muted) ==> button_result(ButtonStage::Reading, status) == (
            ButtonStage::Switching(!muted),
            ButtonAction::SetMicrophone(!muted),
        ),
        button_result(ButtonStage::Switching(muted), status).1 == ButtonAction::Show(
            ButtonReply::Muted,
        ) ==> muted && status.chatgpt_mic_muted == Some(true),
        button_result(ButtonStage::Switching(muted), status).1 == ButtonAction::Show(
            ButtonReply::Live,
        ) ==> !muted && status.chatgpt_mic_muted == Some(false),
{
}

/// What answering an interaction does next.
#[derive(Debug)]
pub enum InteractionAction {
    /// Tell Discord that an answer follows, for everybody to see.
    DeferPublicly,
    /// Tell Discord that an answer follows, for the member alone.
    DeferPrivately,
    /// Tell Discord that the panel will be edited.
    Acknowledge,
    /// Join the member's voice channel.
    Join,
    /// Leave the voice channel.
    Leave,
    /// Do what the button is for.
    Press,
    /// Answer at once, for the member alone.
    AnswerPrivately(&'static str),
    /// Answer with this text.
    Say(String),
    /// Answer with the server's panel and this text.
    ShowPanel(String),
    /// Take note that the answer is the server's panel.
    RememberPanel,
    /// The interaction is over; the note is for the log.
    Finish(Option<InteractionNote>),
}

/// What the log is told about an interaction.
#[derive(Debug)]
pub enum InteractionNote {
    JoinAnswerFailed(String),
    AnswerFailed(String),
    AcknowledgementFailed(String),
    PanelUpdateFailed(String),
}

impl InteractionNote {
    /// The note in words.
    pub open spec fn worded(self) -> Seq<char> {
        match self {
            InteractionNote::JoinAnswerFailed(error) => "Discord join response failed: "@ + error@,
            InteractionNote::AnswerFailed(error) => "Discord interaction failed: "@ + error@,
            InteractionNote::AcknowledgementFailed(error) =>
            "Discord panel acknowledgement failed: "@ + error@,
            InteractionNote::PanelUpdateFailed(error) => "Discord member panel update failed: "@
                + error@,
        }
    }

    /// Puts the note into words.
    pub fn word(&self) -> (message: String)
        ensures
            message@ == self.worded(),
    {
        match self {
            InteractionNote::JoinAnswerFailed(error) => text::joined(
                "Discord join response failed: ",
                error.as_str(),
            ),
            InteractionNote::AnswerFailed(error) => text::joined(
                "Discord interaction failed: ",
                error.as_str(),
            ),
            InteractionNote::AcknowledgementFailed(error) => text::joined(
                "Discord panel acknowledgement failed: ",
                error.as_str(),
            ),
            InteractionNote::PanelUpdateFailed(error) => text::joined(
                "Discord member panel update failed: ",
                error.as_str(),
            ),
        }
    }
}

/// How far answering an interaction has got.
#[derive(Debug, Clone, Copy, PartialEq, Eq, Structural)]
pub enum InteractionStage {
    DeferringJoin,
    Joining,
    /// The answer to `/join` is being written; the flag tells that it is the panel.
    AnsweringJoin(bool),
    DeferringLeave,
    Leaving,
    AnsweringLeave,
    AnsweringStatus,
    Acknowledging,
    Pressing,
    UpdatingPanel,
    Remembering,
    Over,
}

/// Answering an interaction of a member.
#[derive(Debug)]
pub struct InteractionFlow {
    /// The server that the interaction happened in.
    pub guild_id: Option<u64>,
    pub stage: InteractionStage,
}

/// The relay of the server that an interaction happened in is on.
pub open spec fn relay_on(guild_id: Option<u64>, runtime: DiscordRuntime) -> bool {
    guild_id matches Some(guild_id) && runtime.voice_guilds@.contains(guild_id)
}

impl InteractionFlow {
    /// The first step of an answer.
    pub open spec fn first(request: Request, connected: bool) -> (
        InteractionStage,
        InteractionAction,
    ) {
        match request {
            Request::Join => (InteractionStage::DeferringJoin, InteractionAction::DeferPublicly),
            Request::Leave => (InteractionStage::DeferringLeave, InteractionAction::DeferPrivately),
            Request::Status => (
                InteractionStage::AnsweringStatus,
                InteractionAction::AnswerPrivately(
                    if connected {
                        "GPTVoice is connected to Discord."
                    } else {
                        "GPTVoice is not connected to Discord."
                    },
                ),
            ),
            Request::Button(_) => (InteractionStage::Acknowledging, InteractionAction::Acknowledge),
            Request::Ignored => (InteractionStage::Over, InteractionAction::Finish(None)),
        }
    }

    /// Begins to answer an interaction.
    pub fn begin(request: Request, guild_id: Option<u64>, runtime: &DiscordRuntime) -> (begun: (
        Self,
        InteractionAction,
    ))
        ensures
            begun.0.guild_id == guild_id,
            (begun.0.stage, begun.1) == Self::first(request, runtime.status.connected),
    {
        let (stage, action) = match request {
            Request::Join => (InteractionStage::DeferringJoin, InteractionAction::DeferPublicly),
            Request::Leave => (InteractionStage::DeferringLeave, InteractionAction::DeferPrivately),
            Request::Status => {
                let answer = if runtime.status.connected {
                    "GPTVoice is connected to Discord."
                } else {
                    "GPTVoice is not connected to Discord."
                };
                (InteractionStage::AnsweringStatus, InteractionAction::AnswerPrivately(answer))
            },
            Request::Button(_) => (InteractionStage::Acknowledging, InteractionAction::Acknowledge),
            Request::Ignored => (InteractionStage::Over, InteractionAction::Finish(None)),
        };
        (InteractionFlow { guild_id, stage }, action)
    }

    /// The flow moves on to the next stage.
    pub open spec fn on(self, stage: InteractionStage, action: InteractionAction) -> (
        InteractionFlow,
        InteractionAction,
    ) {
        (InteractionFlow { stage, ..self }, action)
    }

    /// The step after a reply: a text where something was said, or an error.
    pub open spec fn after(self, runtime: DiscordRuntime, reply: Result<String, String>) -> (
        InteractionFlow,
        InteractionAction,
    ) {
        match self.stage {
            InteractionStage::DeferringJoin => self.on(
                InteractionStage::Joining,
                InteractionAction::Join,
            ),
            InteractionStage::Joining => {
                let said = match reply {
                    Ok(said) => said,
                    Err(error) => error,
                };
                if relay_on(self.guild_id, runtime) {
                    self.on(
                        InteractionStage::AnsweringJoin(true),
                        InteractionAction::ShowPanel(said),
                    )
                } else {
                    self.on(InteractionStage::AnsweringJoin(false), InteractionAction::Say(said))
                }
            },
            InteractionStage::AnsweringJoin(panel) => match reply {
                Ok(_) => if panel {
                    self.on(InteractionStage::Remembering, InteractionAction::RememberPanel)
                } else {
                    self.on(InteractionStage::Over, InteractionAction::Finish(None))
                },
                Err(error) => self.on(
                    InteractionStage::Over,
                    InteractionAction::Finish(Some(InteractionNote::JoinAnswerFailed(error))),
                ),
            },
            InteractionStage::DeferringLeave => self.on(
                InteractionStage::Leaving,
                InteractionAction::Leave,
            ),
            InteractionStage::Leaving => {
                let said = match reply {
                    Ok(said) => said,
                    Err(error) => error,
                };
                self.on(InteractionStage::AnsweringLeave, InteractionAction::Say(said))
            },
            InteractionStage::AnsweringStatus => match reply {
                Ok(_) => self.on(InteractionStage::Over, InteractionAction::Finish(None)),
                Err(error) => self.on(
                    InteractionStage::Over,
                    InteractionAction::Finish(Some(InteractionNote::AnswerFailed(error))),
                ),
            },
            InteractionStage::Acknowledging => match reply {
                Ok(_) => self.on(InteractionStage::Pressing, InteractionAction::Press),
                Err(error) => self.on(
                    InteractionStage::Over,
                    InteractionAction::Finish(Some(InteractionNote::AcknowledgementFailed(error))),
                ),
            },
            InteractionStage::Pressing => {
                let said = match reply {
                    Ok(said) => said,
                    Err(error) => error,
                };
                self.on(InteractionStage::UpdatingPanel, InteractionAction::ShowPanel(said))
            },
            InteractionStage::UpdatingPanel => match reply {
                Ok(_) => self.on(InteractionStage::Remembering, InteractionAction::RememberPanel),
                Err(error) => self.on(
                    InteractionStage::Over,
                    InteractionAction::Finish(Some(InteractionNote::PanelUpdateFailed(error))),
                ),
            },
            _ => self.on(InteractionStage::Over, InteractionAction::Finish(None)),
        }
    }

    fn go(self, stage: InteractionStage, action: InteractionAction) -> (continued: (
        Self,
        InteractionAction,
    ))
        ensures
            continued == self.on(stage, action),
    {
        (InteractionFlow { guild_id: self.guild_id, stage }, action)
    }

    /// Goes on with answering.
    pub fn next(self, runtime: &DiscordRuntime, reply: Result<String, String>) -> (continued: (
        Self,
        InteractionAction,
    ))
        ensures
            continued == self.after(*runtime, reply),
    {
        match self.stage {
            InteractionStage::DeferringJoin => self.go(
                InteractionStage::Joining,
                InteractionAction::Join,
            ),
            InteractionStage::Joining => {
                let said = match reply {
                    Ok(said) => said,
                    Err(error) => error,
                };
                let connected = match self.guild_id {
                    Some(guild_id) => runtime.voice_connected(guild_id),
                    None => false,
                };
                if connected {
                    self.go(
                        InteractionStage::AnsweringJoin(true),
                        InteractionAction::ShowPanel(said),
                    )
                } else {
                    self.go(InteractionStage::AnsweringJoin(false), InteractionAction::Say(said))
                }
            },
            InteractionStage::AnsweringJoin(panel) => match reply {
                Ok(_) => {
                    if panel {
                        self.go(InteractionStage::Remembering, InteractionAction::RememberPanel)
                    } else {
                        self.go(InteractionStage::Over, InteractionAction::Finish(None))
                    }
                },
                Err(error) => self.go(
                    InteractionStage::Over,
                    InteractionAction::Finish(Some(InteractionNote::JoinAnswerFailed(error))),
                ),
            },
            InteractionStage::DeferringLeave => self.go(
                InteractionStage::Leaving,
                InteractionAction::Leave,
            ),
            InteractionStage::Leaving => {
                let said = match reply {
                    Ok(said) => said,
                    Err(error) => error,
                };
                self.go(InteractionStage::AnsweringLeave, InteractionAction::Say(said))
            },
            InteractionStage::AnsweringStatus => match reply {
                Ok(_) => self.go(InteractionStage::Over, InteractionAction::Finish(None)),
                Err(error) => self.go(
                    InteractionStage::Over,
                    InteractionAction::Finish(Some(InteractionNote::AnswerFailed(error))),
                ),
            },
            InteractionStage::Acknowledging => match reply {
                Ok(_) => self.go(InteractionStage::Pressing, InteractionAction::Press),
                Err(error) => self.go(
                    InteractionStage::Over,
                    InteractionAction::Finish(Some(InteractionNote::AcknowledgementFailed(error))),
                ),
            },
            InteractionStage::Pressing => {
                let said = match reply {
                    Ok(said) => said,
                    Err(error) => error,
                };
                self.go(InteractionStage::UpdatingPanel, InteractionAction::ShowPanel(said))
            },
            InteractionStage::UpdatingPanel => match reply {
                Ok(_) => self.go(InteractionStage::Remembering, InteractionAction::RememberPanel),
                Err(error) => self.go(
                    InteractionStage::Over,
                    InteractionAction::Finish(Some(InteractionNote::PanelUpdateFailed(error))),
                ),
            },
            _ => self.go(InteractionStage::Over, InteractionAction::Finish(None)),
        }
    }
}

/// How many steps an answer takes at most from here.
pub open spec fn steps_to_answer(stage: InteractionStage) -> nat {
    match stage {
        InteractionStage::DeferringJoin => 4,
        InteractionStage::Joining => 3,
        InteractionStage::AnsweringJoin(_) => 2,
        InteractionStage::DeferringLeave => 3,
        InteractionStage::Leaving => 2,
        InteractionStage::AnsweringLeave => 1,
        InteractionStage::AnsweringStatus => 1,
        InteractionStage::Acknowledging => 4,
        InteractionStage::Pressing => 3,
        InteractionStage::UpdatingPanel => 2,
        InteractionStage::Remembering => 1,
        InteractionStage::Over => 0,
    }
}

/// Every interaction comes to its end: each step ends it or leaves fewer steps.
pub proof fn interactions_end(
    flow: InteractionFlow,
    runtime: DiscordRuntime,
    reply: Result<String, String>,
)
    requires
        flow.stage !is Over,
    ensures
        steps_to_answer(flow.after(runtime, reply).0.stage) < steps_to_answer(flow.stage),
        flow.after(runtime, reply).0.stage is Over <==> flow.after(runtime, reply).1 is Finish,
{
}

/// `/join` posts the server's panel exactly when the relay is on afterwards, and only a panel that
/// was posted is kept.
pub proof fn join_posts_the_panel(
    flow: InteractionFlow,
    runtime: DiscordRuntime,
    reply: Result<String, String>,
)
    ensures
        flow.stage is Joining ==> (flow.after(runtime, reply).1 is ShowPanel <==> relay_on(
            flow.guild_id,
            runtime,
        )),
        flow.after(runtime, reply).1 is RememberPanel ==> reply is Ok && (flow.stage
            == InteractionStage::AnsweringJoin(true) || flow.stage is UpdatingPanel),
{
}

/// Registering the slash commands: in the configured server first, where there is one, and then
/// everywhere.
#[derive(Debug)]
pub enum Registration {
    InGuild,
    Everywhere,
}

/// What registering does next.
#[derive(Debug)]
pub enum RegisterAction {
    InGuild(u64),
    Everywhere,
    Finish,
}

impl Registration {
    /// Begins to register the commands.
    pub fn begin(guild_id: Option<u64>) -> (begun: (Self, RegisterAction))
        ensures
            begun == (match guild_id {
                Some(guild_id) => (Registration::InGuild, RegisterAction::InGuild(guild_id)),
                None => (Registration::Everywhere, RegisterAction::Everywhere),
            }),
    {
        match guild_id {
            Some(guild_id) => (Registration::InGuild, RegisterAction::InGuild(guild_id)),
            None => (Registration::Everywhere, RegisterAction::Everywhere),
        }
    }

    /// Goes on after a registration, with what the panel is told: a failed one does not keep the
    /// other from being tried.
    pub fn next(self, registered: Result<usize, String>) -> (continued: (
        Self,
        String,
        RegisterAction,
    ))
        ensures
            continued.0 is Everywhere,
            continued.1@ == registered_text(self is InGuild, registered),
            continued.2 == (match self {
                Registration::InGuild => RegisterAction::Everywhere,
                Registration::Everywhere => RegisterAction::Finish,
            }),
    {
        match self {
            Registration::InGuild => (
                Registration::Everywhere,
                registration_note(true, registered),
                RegisterAction::Everywhere,
            ),
            Registration::Everywhere => (
                Registration::Everywhere,
                registration_note(false, registered),
                RegisterAction::Finish,
            ),
        }
    }
}

/// The log line for an event of the track that plays to Discord.
#[derive(Debug)]
pub struct TrackLog {
    pub warning: bool,
    pub message: String,
}

/// Words an event of the track; its errors and its end are warnings.
pub fn track_event(event_name: &str, guild_id: u64, state: &str) -> (log: TrackLog)
    ensures
        log.warning == (event_name@ == "error"@ || event_name@ == "ended"@),
        log.message@ == "Discord ChatGPT output track "@ + event_name@ + " for guild "@
            + text::decimal(guild_id as nat) + ": "@ + state@,
{
    let warning = text::same(event_name, "error") || text::same(event_name, "ended");
    let mut message = "Discord ChatGPT output track ".to_owned();
    message.append(event_name);
    message.append(" for guild ");
    message.append(text::decimal_text(guild_id).as_str());
    message.append(": ");
    message.append(state);
    TrackLog { warning, message }
}

/// A member who asks to join from a voice channel gets the relay: the driver is found, the channel
/// is joined, the browser is started, its transport and its audio are taken, the call is found and
/// the audio is attached, each after the one before succeeded. Then the member is told so.
pub proof fn joining_connects_the_relay(
    guild_id: u64,
    joined: bool,
    transport: bool,
    reader: bool,
    attached: Result<bool, String>,
)
    ensures
        ({
            let start = JoinVoice { guild_id, stage: JoinStage::FindingChannel };
            let (at_driver, find_driver) = start.after(Ok(true));
            let (at_channel, join_channel) = at_driver.after(Ok(true));
            let (at_browser, start_browser) = at_channel.after(Ok(joined));
            let (at_transport, get_transport) = at_browser.after(Ok(true));
            let (at_reader, take_reader) = at_transport.after(Ok(transport));
            let (at_call, find_call) = at_reader.after(Ok(reader));
            let (at_audio, attach) = at_call.after(Ok(true));
            let (over, reply) = at_audio.after(attached);
            &&& find_driver is FindDriver
            &&& join_channel is JoinChannel
            &&& start_browser is StartBrowser
            &&& get_transport is GetTransport
            &&& take_reader is TakeReader
            &&& find_call is FindCall
            &&& attach is Attach
            &&& reply == JoinAction::Reply(JoinReply::Joined)
            &&& over.stage is Over
            &&& at_audio.guild_id == guild_id
            &&& at_audio.connects()
            &&& !start.connects() && !at_driver.connects() && !at_channel.connects()
            &&& !at_browser.connects() && !at_transport.connects() && !at_reader.connects()
            &&& !at_call.connects() && !over.connects()
        }),
{
}

/// A member who cannot join is told why: nobody is in a channel, there is no driver, or Discord
/// refused. Nothing was started then, so nothing is undone.
pub proof fn refused_join_is_explained(guild_id: u64, none: Result<bool, String>, error: String)
    requires
        none is Err || none == Ok::<bool, String>(false),
    ensures
        (JoinVoice { guild_id, stage: JoinStage::FindingChannel }).after(none).1
            == JoinAction::Reply(JoinReply::NoChannel),
        (JoinVoice { guild_id, stage: JoinStage::FindingDriver }).after(none).1
            == JoinAction::Reply(JoinReply::NoDriver),
        (JoinVoice { guild_id, stage: JoinStage::Joining }).after(Err(error)).1
            == JoinAction::Reply(JoinReply::JoinFailed(error)),
{
}

/// What goes wrong after the channel was joined is undone: the channel is left, whatever comes of
/// that, and the member is told what went wrong. A browser that needs somebody to sign in is
/// stopped, too.
pub proof fn failed_join_is_undone(
    guild_id: u64,
    error: String,
    none: Result<bool, String>,
    left: Result<bool, String>,
    stopped: Result<bool, String>,
)
    requires
        none is Err || none == Ok::<bool, String>(false),
    ensures
        ({
            let (leaving, first) = (JoinVoice { guild_id, stage: JoinStage::StartingBrowser }).after(
                Ok(false),
            );
            let (stopping, second) = leaving.after(left);
            let (over, third) = stopping.after(stopped);
            &&& first is LeaveChannel
            &&& second is StopBrowser
            &&& third == JoinAction::Reply(JoinReply::SignInNeeded)
            &&& over.stage is Over
        }),
        ({
            let (leaving, first) = (JoinVoice { guild_id, stage: JoinStage::StartingBrowser }).after(
                Err(error),
            );
            &&& first is LeaveChannel
            &&& leaving.after(left).1 == JoinAction::Reply(JoinReply::BrowserFailed(error))
        }),
        ({
            let (leaving, first) = (
            JoinVoice { guild_id, stage: JoinStage::GettingTransport }).after(Err(error));
            &&& first is LeaveChannel
            &&& leaving.after(left).1 == JoinAction::Reply(JoinReply::TransportFailed(error))
        }),
        ({
            let (leaving, first) = (JoinVoice { guild_id, stage: JoinStage::TakingReader }).after(
                Err(error),
            );
            &&& first is LeaveChannel
            &&& leaving.after(left).1 == JoinAction::Reply(JoinReply::ReaderFailed(error))
        }),
        ({
            let (leaving, first) = (JoinVoice { guild_id, stage: JoinStage::FindingCall }).after(
                none,
            );
            &&& first is LeaveChannel
            &&& leaving.after(left).1 == JoinAction::Reply(JoinReply::CallLost)
        }),
{
}

/// An answer that names an error gives it word for word, behind what could not be done.
pub proof fn answers_name_the_error(error: String)
    ensures
        text::ends_with(JoinReply::JoinFailed(error).worded(), error@),
        text::begins_with(
            JoinReply::JoinFailed(error).worded(),
            "I could not join that voice channel: "@,
        ),
        text::ends_with(JoinReply::BrowserFailed(error).worded(), error@),
        text::begins_with(
            JoinReply::BrowserFailed(error).worded(),
            "I could not start the dedicated ChatGPT browser: "@,
        ),
        text::ends_with(JoinReply::TransportFailed(error).worded(), error@),
        text::begins_with(
            JoinReply::TransportFailed(error).worded(),
            "I could not start the browser audio transport: "@,
        ),
        text::ends_with(JoinReply::ReaderFailed(error).worded(), error@),
        text::begins_with(
            JoinReply::ReaderFailed(error).worded(),
            "I could not attach ChatGPT audio to Discord: "@,
        ),
        ButtonReply::Said(error).worded() == error@,
        ButtonReply::Failed(error).worded() == error@,
        text::ends_with(InteractionNote::JoinAnswerFailed(error).worded(), error@),
        text::ends_with(InteractionNote::AnswerFailed(error).worded(), error@),
        text::ends_with(InteractionNote::AcknowledgementFailed(error).worded(), error@),
        text::ends_with(InteractionNote::PanelUpdateFailed(error).worded(), error@),
        forall|in_guild: bool|
            text::ends_with(#[trigger] registered_text(in_guild, Err(error)), error@),
{
    assert forall|before: Seq<char>, after: Seq<char>| #![trigger before + after]
        text::begins_with(before + after, before) && text::ends_with(before + after, after) by {
        assert((before + after).take(before.len() as int) =~= before);
        assert((before + after).skip((before + after).len() - after.len()) =~= after);
    }
}

/// A daily limit is told with the time at which it resets, where that is known.
pub proof fn limit_is_told_with_its_end(reset: String)
    requires
        reset@.len() > 0,
    ensures
        ButtonReply::LimitReached(Some(reset)).worded()
            == "ChatGPT Voice reached its daily limit; it resets at "@ + reset@ + "."@,
        ButtonReply::LimitReached(None).worded() == "ChatGPT Voice reached its daily limit."@,
{
}

/// A button does what it is for in its server, and elsewhere says why it does not.
pub proof fn pressed_button_does_its_work(guild_id: u64, elsewhere: u64, action: MemberPanelAction)
    requires
        guild_id != elsewhere,
    ensures
        button_begins("gptvoice:member:join:"@ + text::decimal(guild_id as nat), Some(guild_id)).1
            is Join,
        button_begins("gptvoice:member:leave:"@ + text::decimal(guild_id as nat), Some(guild_id)).1
            is Leave,
        button_begins("gptvoice:member:mic:"@ + text::decimal(guild_id as nat), Some(guild_id)).1
            is ReadStatus,
        button_begins(
            "gptvoice:member:reconnect:"@ + text::decimal(guild_id as nat),
            Some(guild_id),
        ).1 is ReconnectVoice,
        button_begins(panel::custom_id(action.word(), guild_id), Some(elsewhere)).1
            == ButtonAction::Show(ButtonReply::OtherServer),
        button_begins(panel::custom_id(action.word(), guild_id), None).1 == ButtonAction::Show(
            ButtonReply::NotInServer,
        ),
{
    panel::buttons_are_server_scoped(MemberPanelAction::Join, guild_id);
    panel::buttons_are_server_scoped(MemberPanelAction::Leave, guild_id);
    panel::buttons_are_server_scoped(MemberPanelAction::Mic, guild_id);
    panel::buttons_are_server_scoped(MemberPanelAction::Reconnect, guild_id);
    panel::buttons_are_server_scoped(action, guild_id);
    reveal_strlit("gptvoice:member:");
    reveal_strlit("gptvoice:member:join:");
    reveal_strlit("gptvoice:member:leave:");
    reveal_strlit("gptvoice:member:mic:");
    reveal_strlit("gptvoice:member:reconnect:");
    reveal_strlit(":");
    reveal_strlit("join");
    reveal_strlit("leave");
    reveal_strlit("mic");
    reveal_strlit("reconnect");
    let digits = text::decimal(guild_id as nat);
    assert("gptvoice:member:join:"@ + digits =~= panel::custom_id("join"@, guild_id));
    assert("gptvoice:member:leave:"@ + digits =~= panel::custom_id("leave"@, guild_id));
    assert("gptvoice:member:mic:"@ + digits =~= panel::custom_id("mic"@, guild_id));
    assert("gptvoice:member:reconnect:"@ + digits =~= panel::custom_id("reconnect"@, guild_id));
}

/// The microphone button goes all the way: it reads the page, asks for the opposite, and says what
/// the page shows then. A microphone that the page does not show, or that stays as it was, is told
/// as such.
pub proof fn microphone_button_reports_the_switch(
    before: BrowserStatus,
    after: BrowserStatus,
    muted: bool,
)
    requires
        before.chatgpt_mic_muted == Some(muted),
    ensures
        ({
            let (stage, action) = button_result(ButtonStage::Reading, before);
            let (over, shown) = button_result(stage, after);
            &&& action == ButtonAction::SetMicrophone(!muted)
            &&& over is Over
            &&& after.chatgpt_mic_muted == Some(!muted) && !muted ==> shown == ButtonAction::Show(
                ButtonReply::Muted,
            )
            &&& after.chatgpt_mic_muted == Some(!muted) && muted ==> shown == ButtonAction::Show(
                ButtonReply::Live,
            )
            &&& after.chatgpt_mic_muted != Some(!muted) ==> shown == ButtonAction::Show(
                ButtonReply::MicrophoneUnchanged,
            )
        }),
        after.chatgpt_mic_muted is None ==> button_result(ButtonStage::Reading, after) == (
            ButtonStage::Over,
            ButtonAction::Show(ButtonReply::MicrophoneUnknown),
        ),
{
}

/// The reconnect button says what became of Voice: its limit comes first, with its end, and Voice
/// is called reconnected only where it is active.
pub proof fn reconnect_button_reports_voice(status: BrowserStatus)
    ensures
        button_result(ButtonStage::Reconnecting, status).0 is Over,
        status.voice_limit_reached ==> button_result(ButtonStage::Reconnecting, status).1
            == ButtonAction::Show(ButtonReply::LimitReached(status.voice_limit_reset)),
        !status.voice_limit_reached && status.voice_mode_active ==> button_result(
            ButtonStage::Reconnecting,
            status,
        ).1 == ButtonAction::Show(ButtonReply::Reconnected),
        !status.voice_limit_reached && !status.voice_mode_active ==> button_result(
            ButtonStage::Reconnecting,
            status,
        ).1 == ButtonAction::Show(ButtonReply::NotActive),
{
}

/// `/join` is answered from end to end: Discord is told that a public answer follows, the channel
/// is joined, and the member reads what was said. With the relay on that is the server's panel,
/// and it is remembered once it is posted.
pub proof fn join_is_answered(
    guild_id: Option<u64>,
    runtime: DiscordRuntime,
    deferred: Result<String, String>,
    said: String,
    failed: bool,
    posted: String,
    error: String,
)
    ensures
        ({
            let (stage, defer) = InteractionFlow::first(Request::Join, runtime.status.connected);
            let (joining, join) = (InteractionFlow { guild_id, stage }).after(runtime, deferred);
            let (answering, answer) = joining.after(
                runtime,
                if failed {
                    Err(said)
                } else {
                    Ok(said)
                },
            );
            let (remembering, remember) = answering.after(runtime, Ok(posted));
            let on = guild_id is Some && runtime.voice_guilds@.contains(guild_id->0);
            &&& defer is DeferPublicly
            &&& join is Join
            &&& on ==> answer == InteractionAction::ShowPanel(said)
            &&& on ==> remember is RememberPanel
            &&& on ==> remembering.after(runtime, Ok(posted)).1 == InteractionAction::Finish(None)
            &&& !on ==> answer == InteractionAction::Say(said)
            &&& !on ==> remember == InteractionAction::Finish(None)
            &&& answering.after(runtime, Err(error)).1 == InteractionAction::Finish(
                Some(InteractionNote::JoinAnswerFailed(error)),
            )
        }),
{
}

/// `/leave` is answered from end to end: Discord is told that a private answer follows, the
/// channel is left, and the member reads what was said.
pub proof fn leave_is_answered(
    guild_id: Option<u64>,
    runtime: DiscordRuntime,
    deferred: Result<String, String>,
    said: String,
    failed: bool,
    answered: Result<String, String>,
)
    ensures
        ({
            let (stage, defer) = InteractionFlow::first(Request::Leave, runtime.status.connected);
            let (leaving, leave) = (InteractionFlow { guild_id, stage }).after(runtime, deferred);
            let (answering, answer) = leaving.after(
                runtime,
                if failed {
                    Err(said)
                } else {
                    Ok(said)
                },
            );
            &&& defer is DeferPrivately
            &&& leave is Leave
            &&& answer == InteractionAction::Say(said)
            &&& answering.after(runtime, answered).1 == InteractionAction::Finish(None)
        }),
{
}

/// `/status` is answered at once and in private, with whether the bot is logged in.
pub proof fn status_is_answered(
    guild_id: Option<u64>,
    runtime: DiscordRuntime,
    done: String,
    error: String,
)
    ensures
        ({
            let (stage, action) = InteractionFlow::first(
                Request::Status,
                runtime.status.connected,
            );
            let flow = InteractionFlow { guild_id, stage };
            &&& action matches InteractionAction::AnswerPrivately(answer) && (
            runtime.status.connected ==> answer@ == "GPTVoice is connected to Discord."@) && (
            !runtime.status.connected ==> answer@ == "GPTVoice is not connected to Discord."@)
            &&& flow.after(runtime, Ok(done)).1 == InteractionAction::Finish(None)
            &&& flow.after(runtime, Err(error)).1 == InteractionAction::Finish(
                Some(InteractionNote::AnswerFailed(error)),
            )
        }),
{
}

/// A button is answered from end to end: Discord is told that the panel changes, the button does
/// its work, the panel is written again with what was said, and it is remembered.
pub proof fn button_is_answered(
    guild_id: Option<u64>,
    runtime: DiscordRuntime,
    action: MemberPanelAction,
    done: String,
    said: String,
    failed: bool,
    error: String,
)
    ensures
        ({
            let (stage, acknowledge) = InteractionFlow::first(
                Request::Button(action),
                runtime.status.connected,
            );
            let flow = InteractionFlow { guild_id, stage };
            let (pressing, press) = flow.after(runtime, Ok(done));
            let (updating, update) = pressing.after(
                runtime,
                if failed {
                    Err(said)
                } else {
                    Ok(said)
                },
            );
            let (remembering, remember) = updating.after(runtime, Ok(done));
            &&& acknowledge is Acknowledge
            &&& press is Press
            &&& update == InteractionAction::ShowPanel(said)
            &&& remember is RememberPanel
            &&& remembering.after(runtime, Ok(done)).1 == InteractionAction::Finish(None)
            &&& flow.after(runtime, Err(error)).1 == InteractionAction::Finish(
                Some(InteractionNote::AcknowledgementFailed(error)),
            )
            &&& updating.after(runtime, Err(error)).1 == InteractionAction::Finish(
                Some(InteractionNote::PanelUpdateFailed(error)),
            )
        }),
        InteractionFlow::first(Request::Ignored, runtime.status.connected).1
            == InteractionAction::Finish(None),
{
}

/// Each slash command asks for what its name says, and nothing else is a command.
pub proof fn commands_are_told_by_their_names(name: Seq<char>)
    ensures
        command_request(name) is Join <==> name == "join"@,
        command_request(name) is Leave <==> name == "leave"@,
        command_request(name) is Status <==> name == "status"@,
        command_request(name) !is Button,
{
    reveal_strlit("join");
    reveal_strlit("leave");
    reveal_strlit("status");
    assert("join"@.len() == 4 && "leave"@.len() == 5 && "status"@.len() == 6);
}

/// The configured server is the one that its digits name, none where nothing is configured, and an
/// error where something other than a number is.
pub proof fn configured_server_is_found(guild_id: u64, other: Seq<char>)
    requires
        other.len() == 0 || exists|i: int|
            1 <= i < other.len() && !(0x30 <= #[trigger] other[i] as u32 <= 0x39),
    ensures
        configured_guild(Some(text::decimal(guild_id as nat))) == Ok::<Option<u64>, ()>(
            Some(guild_id),
        ),
        configured_guild(None) == Ok::<Option<u64>, ()>(None),
        configured_guild(Some(other)) is Err,
{
    text::lemma_decimal_round_trip(guild_id);
    if other.len() > 0 {
        let at = choose|i: int| 1 <= i < other.len() && !(0x30 <= #[trigger] other[i] as u32 <= 0x39);
        let digits = text::without_plus(other);
        let moved = if digits.len() < other.len() {
            at - 1
        } else {
            at
        };
        assert(digits[moved] == other[at]);
        assert(!text::is_digit(digits[moved]));
    }
}

/// A list of panels holds the panel of each server exactly once, and no panel of a server that has
/// none.
pub proof fn each_panel_is_listed_once(
    list: Seq<MemberPanel>,
    panels: Map<u64, MemberPanel>,
    guild_id: u64,
    i: int,
    j: int,
)
    requires
        lists_panels(list, panels),
        0 <= i < list.len(),
        0 <= j < list.len(),
    ensures
        panels.contains_key(guild_id) ==> exists|at: int|
            0 <= at < list.len() && #[trigger] list[at] == panels[guild_id],
        panels.contains_key(list[i].guild_id) && panels[list[i].guild_id] == list[i],
        list[i].guild_id == list[j].guild_id ==> i == j,
{
    if panels.contains_key(guild_id) {
        assert(list.contains(panels[guild_id]));
    }
}

/// A connection that was never made shows nobody, nothing and no error.
pub proof fn stopped_connection_shows_nothing(status: DiscordStatus)
    requires
        status.is_stopped(),
    ensures
        status.state@ == "stopped"@,
        !status.connected,
        status.user_name is None && status.last_error is None,
        status.guild_count == 0 && status.voice_count == 0,
{
}

/// The panel is told how many commands were registered, and whether in the configured server or
/// everywhere, or why they could not be.
pub proof fn registration_is_told(count: usize, error: String)
    ensures
        registered_text(true, Ok(count)) == "Registered "@ + text::decimal(count as nat)
            + " Discord slash commands in the configured guild."@,
        registered_text(false, Ok(count)) == "Registered "@ + text::decimal(count as nat)
            + " Discord slash commands globally for all visible servers."@,
        registered_text(true, Err(error)) == "Could not register configured-guild slash commands: "@
            + error@,
        registered_text(false, Err(error)) == "Could not register global slash commands: "@
            + error@,
{
}

} // verus!
