//! The member panel: the message with which the members of a server control the relay.

use crate::browser::BrowserStatus;
use crate::text;
use std::collections::HashMap;
use vstd::prelude::*;

verus! {

/// A button of the panel.
#[derive(Debug, Clone, Copy, PartialEq, Eq, Structural)]
pub enum MemberPanelAction {
    Join,
    Leave,
    Mic,
    Reconnect,
}

impl MemberPanelAction {
    /// The word for a button.
    pub open spec fn word(self) -> Seq<char> {
        match self {
            MemberPanelAction::Join => "join"@,
            MemberPanelAction::Leave => "leave"@,
            MemberPanelAction::Mic => "mic"@,
            MemberPanelAction::Reconnect => "reconnect"@,
        }
    }
}

/// The identifier of a button: it names the action and the server.
pub open spec fn custom_id(action: Seq<char>, guild_id: u64) -> Seq<char> {
    "gptvoice:member:"@ + action + ":"@ + text::decimal(guild_id as nat)
}

/// Writes the identifier of a button.
pub fn member_panel_custom_id(action: &str, guild_id: u64) -> (id: String)
    ensures
        id@ == custom_id(action@, guild_id),
{
    let mut id = "gptvoice:member:".to_owned();
    id.append(action);
    id.append(":");
    id.append(text::decimal_text(guild_id).as_str());
    id
}

/// The action that a word names.
pub open spec fn action_of(word: Seq<char>) -> Option<MemberPanelAction> {
    if word == "join"@ {
        Some(MemberPanelAction::Join)
    } else if word == "leave"@ {
        Some(MemberPanelAction::Leave)
    } else if word == "mic"@ {
        Some(MemberPanelAction::Mic)
    } else if word == "reconnect"@ {
        Some(MemberPanelAction::Reconnect)
    } else {
        None
    }
}

/// The button that an identifier names: four fields, of which the last one is a server.
pub open spec fn button_of(id: Seq<char>) -> Option<(MemberPanelAction, u64)> {
    let parts = text::fields(id, ':');
    if parts.len() == 4 && parts[0] == "gptvoice"@ && parts[1] == "member"@ {
        match (action_of(parts[2]), text::parsed_u64(parts[3])) {
            (Some(action), Some(guild)) => Some((action, guild)),
            _ => None,
        }
    } else {
        None
    }
}

/// Reads the identifier of a button.
pub fn parse_member_panel_action(custom_id: &str) -> (button: Option<(MemberPanelAction, u64)>)
    ensures
        button == button_of(custom_id@),
{
    let parts = text::split(custom_id, ':');
    assert(parts@.len() == text::fields(custom_id@, ':').len());
    if parts.len() != 4 {
        return None;
    }
    assert(text::views(parts@)[0] == parts@[0]@);
    assert(text::views(parts@)[1] == parts@[1]@);
    assert(text::views(parts@)[2] == parts@[2]@);
    assert(text::views(parts@)[3] == parts@[3]@);
    if !text::same(parts[0].as_str(), "gptvoice") || !text::same(parts[1].as_str(), "member") {
        return None;
    }
    let word = parts[2].as_str();
    let action = if text::same(word, "join") {
        MemberPanelAction::Join
    } else if text::same(word, "leave") {
        MemberPanelAction::Leave
    } else if text::same(word, "mic") {
        MemberPanelAction::Mic
    } else if text::same(word, "reconnect") {
        MemberPanelAction::Reconnect
    } else {
        return None;
    };
    match text::parse_u64(parts[3].as_str()) {
        Some(guild) => Some((action, guild)),
        None => None,
    }
}

proof fn lemma_digits_are_colon_free(source: Seq<char>)
    requires
        text::all_digits(source),
    ensures
        !source.contains(':'),
{
    if source.contains(':') {
        let at = choose|i: int| 0 <= i < source.len() && source[i] == ':';
        assert(text::is_digit(source[at]));
    }
}

/// Every button reads back as the action and the server that it was made for: a panel belongs to
/// one server.
pub proof fn buttons_are_server_scoped(action: MemberPanelAction, guild_id: u64)
    ensures
        button_of(custom_id(action.word(), guild_id)) == Some((action, guild_id)),
{
    reveal_strlit("gptvoice:member:");
    reveal_strlit("gptvoice");
    reveal_strlit("member");
    reveal_strlit(":");
    reveal_strlit("join");
    reveal_strlit("leave");
    reveal_strlit("mic");
    reveal_strlit("reconnect");
    let digits = text::decimal(guild_id as nat);
    let word = action.word();
    text::lemma_decimal_reads_back(guild_id as nat);
    text::lemma_decimal_round_trip(guild_id);
    lemma_digits_are_colon_free(digits);
    let tail = word.push(':') + digits;
    let rest = "member"@.push(':') + tail;
    let id = custom_id(word, guild_id);
    assert(id =~= "gptvoice"@.push(':') + rest);
    text::lemma_fields_concat("gptvoice"@, rest, ':');
    text::lemma_fields_concat("member"@, tail, ':');
    text::lemma_fields_concat(word, digits, ':');
    text::lemma_fields_single("gptvoice"@, ':');
    text::lemma_fields_single("member"@, ':');
    text::lemma_fields_single(word, ':');
    text::lemma_fields_single(digits, ':');
    let parts = text::fields(id, ':');
    assert(parts =~= seq!["gptvoice"@, "member"@, word, digits]);
    assert(word.len() == 4 || word.len() == 5 || word.len() == 3 || word.len() == 9);
}

/// Everything about a session that the panel shows.
#[derive(Debug)]
pub struct MemberPanelSnapshot {
    pub connected: bool,
    pub browser_open: bool,
    pub logged_in: bool,
    pub auth_required: bool,
    pub voice_mode_active: bool,
    pub voice_limit_reached: bool,
    pub voice_limit_reset: Option<String>,
    pub microphone_permission_required: bool,
    pub chatgpt_mic_muted: Option<bool>,
    pub active_thread: Option<String>,
    pub voice: Option<String>,
    pub voice_description: Option<String>,
    pub intelligence: Option<String>,
    pub language: Option<String>,
}

/// The title of the active conversation.
pub open spec fn thread_title(status: BrowserStatus) -> Option<String> {
    match status.active_thread {
        Some(thread) => Some(thread.title),
        None => None,
    }
}

impl MemberPanelSnapshot {
    /// What the panel shows of a session; without a browser it shows nothing of one.
    pub open spec fn taken(connected: bool, browser: Option<&BrowserStatus>) -> MemberPanelSnapshot {
        match browser {
            Some(status) => MemberPanelSnapshot {
                connected,
                browser_open: status.open,
                logged_in: status.logged_in,
                auth_required: status.auth_required,
                voice_mode_active: status.voice_mode_active,
                voice_limit_reached: status.voice_limit_reached,
                voice_limit_reset: status.voice_limit_reset,
                microphone_permission_required: status.microphone_permission_required,
                chatgpt_mic_muted: status.chatgpt_mic_muted,
                active_thread: thread_title(*status),
                voice: status.voice,
                voice_description: status.voice_description,
                intelligence: status.intelligence,
                language: status.language,
            },
            None => MemberPanelSnapshot {
                connected,
                browser_open: false,
                logged_in: false,
                auth_required: false,
                voice_mode_active: false,
                voice_limit_reached: false,
                voice_limit_reset: None,
                microphone_permission_required: false,
                chatgpt_mic_muted: None,
                active_thread: None,
                voice: None,
                voice_description: None,
                intelligence: None,
                language: None,
            },
        }
    }

    /// Takes down what the panel shows of a session.
    pub fn new(connected: bool, browser: Option<&BrowserStatus>) -> (snapshot: Self)
        ensures
            snapshot == Self::taken(connected, browser),
    {
        match browser {
            Some(status) => MemberPanelSnapshot {
                connected,
                browser_open: status.open,
                logged_in: status.logged_in,
                auth_required: status.auth_required,
                voice_mode_active: status.voice_mode_active,
                voice_limit_reached: status.voice_limit_reached,
                voice_limit_reset: status.voice_limit_reset.clone(),
                microphone_permission_required: status.microphone_permission_required,
                chatgpt_mic_muted: status.chatgpt_mic_muted,
                active_thread: match &status.active_thread {
                    Some(thread) => Some(thread.title.clone()),
                    None => None,
                },
                voice: status.voice.clone(),
                voice_description: status.voice_description.clone(),
                intelligence: status.intelligence.clone(),
                language: status.language.clone(),
            },
            None => MemberPanelSnapshot {
                connected,
                browser_open: false,
                logged_in: false,
                auth_required: false,
                voice_mode_active: false,
                voice_limit_reached: false,
                voice_limit_reset: None,
                microphone_permission_required: false,
                chatgpt_mic_muted: None,
                active_thread: None,
                voice: None,
                voice_description: None,
                intelligence: None,
                language: None,
            },
        }
    }

    /// Two snapshots show the same.
    pub open spec fn shows_same(self, other: MemberPanelSnapshot) -> bool {
        &&& self.connected == other.connected
        &&& self.browser_open == other.browser_open
        &&& self.logged_in == other.logged_in
        &&& self.auth_required == other.auth_required
        &&& self.voice_mode_active == other.voice_mode_active
        &&& self.voice_limit_reached == other.voice_limit_reached
        &&& self.microphone_permission_required == other.microphone_permission_required
        &&& self.chatgpt_mic_muted == other.chatgpt_mic_muted
        &&& text::option_view(self.voice_limit_reset) == text::option_view(other.voice_limit_reset)
        &&& text::option_view(self.active_thread) == text::option_view(other.active_thread)
        &&& text::option_view(self.voice) == text::option_view(other.voice)
        &&& text::option_view(self.voice_description) == text::option_view(other.voice_description)
        &&& text::option_view(self.intelligence) == text::option_view(other.intelligence)
        &&& text::option_view(self.language) == text::option_view(other.language)
    }

    /// Whether two snapshots show the same.
    pub fn same(&self, other: &MemberPanelSnapshot) -> (equal: bool)
        ensures
            equal == self.shows_same(*other),
    {
        let muted_same = match (self.chatgpt_mic_muted, other.chatgpt_mic_muted) {
            (Some(left), Some(right)) => left == right,
            (None, None) => true,
            _ => false,
        };
        self.connected == other.connected && self.browser_open == other.browser_open
            && self.logged_in == other.logged_in && self.auth_required == other.auth_required
            && self.voice_mode_active == other.voice_mode_active && self.voice_limit_reached
            == other.voice_limit_reached && self.microphone_permission_required
            == other.microphone_permission_required && muted_same && text::same_option(
            &self.voice_limit_reset,
            &other.voice_limit_reset,
        ) && text::same_option(&self.active_thread, &other.active_thread) && text::same_option(
            &self.voice,
            &other.voice,
        ) && text::same_option(&self.voice_description, &other.voice_description)
            && text::same_option(&self.intelligence, &other.intelligence) && text::same_option(
            &self.language,
            &other.language,
        )
    }
}

/// What the panel says after a change that nobody asked for.
#[derive(Debug, Clone, Copy, PartialEq, Eq, Structural)]
pub enum PanelNews {
    LimitReached,
    VoiceEnded,
}

impl PanelNews {
    /// The news in words.
    pub open spec fn worded(self) -> Seq<char> {
        match self {
            PanelNews::LimitReached =>
            "ChatGPT Voice reached its daily limit. Reconnect after the reset time."@,
            PanelNews::VoiceEnded =>
            "ChatGPT Voice ended by itself. Press Reconnect to resume this thread."@,
        }
    }

    /// Puts the news into words.
    pub fn word(&self) -> (message: &'static str)
        ensures
            message@ == self.worded(),
    {
        match self {
            PanelNews::LimitReached =>
            "ChatGPT Voice reached its daily limit. Reconnect after the reset time.",
            PanelNews::VoiceEnded =>
            "ChatGPT Voice ended by itself. Press Reconnect to resume this thread.",
        }
    }
}

/// What a fresh snapshot means for a panel.
#[derive(Debug, Clone, Copy, PartialEq, Eq, Structural)]
pub enum Observation {
    /// The first one: the panel shows it already.
    First,
    /// Nothing changed.
    Unchanged,
    /// The panel has to be edited.
    Changed(Option<PanelNews>),
}

/// Voice stopped, and not because of the limit.
pub open spec fn voice_ended(before: MemberPanelSnapshot, after: MemberPanelSnapshot) -> bool {
    before.voice_mode_active && !after.voice_mode_active && !after.voice_limit_reached
}

/// The news between two snapshots.
pub open spec fn news(before: MemberPanelSnapshot, after: MemberPanelSnapshot) -> Option<PanelNews> {
    if !before.voice_limit_reached && after.voice_limit_reached {
        Some(PanelNews::LimitReached)
    } else if voice_ended(before, after) {
        Some(PanelNews::VoiceEnded)
    } else {
        None
    }
}

/// What a fresh snapshot means, given the one that the panel shows.
pub open spec fn observed(
    shown: Option<MemberPanelSnapshot>,
    fresh: MemberPanelSnapshot,
) -> Observation {
    match shown {
        None => Observation::First,
        Some(before) => if before.shows_same(fresh) {
            Observation::Unchanged
        } else {
            Observation::Changed(news(before, fresh))
        },
    }
}

/// What the panels show, server by server.
#[derive(Debug)]
pub struct PanelMonitor {
    pub shown: HashMap<u64, MemberPanelSnapshot>,
}

impl PanelMonitor {
    /// No panels.
    pub fn new() -> (monitor: Self)
        ensures
            monitor.shown@ == Map::<u64, MemberPanelSnapshot>::empty(),
    {
        PanelMonitor { shown: HashMap::new() }
    }

    /// Compares a fresh snapshot with what a server's panel shows.
    pub fn observe(&self, guild_id: u64, fresh: &MemberPanelSnapshot) -> (observation: Observation)
        ensures
            observation == observed(self.shown@.get(guild_id), *fresh),
    {
        broadcast use vstd::std_specs::hash::group_hash_axioms;

        match self.shown.get(&guild_id) {
            None => Observation::First,
            Some(before) => {
                if before.same(fresh) {
                    return Observation::Unchanged;
                }
                if !before.voice_limit_reached && fresh.voice_limit_reached {
                    Observation::Changed(Some(PanelNews::LimitReached))
                } else if before.voice_mode_active && !fresh.voice_mode_active
                    && !fresh.voice_limit_reached {
                    Observation::Changed(Some(PanelNews::VoiceEnded))
                } else {
                    Observation::Changed(None)
                }
            },
        }
    }

    /// Whether Voice ended by itself since the snapshot that a server's panel shows.
    pub fn has_voice_ended(&self, guild_id: u64, fresh: &MemberPanelSnapshot) -> (ended: bool)
        ensures
            ended == match self.shown@.get(guild_id) {
                Some(before) => voice_ended(before, *fresh),
                None => false,
            },
    {
        broadcast use vstd::std_specs::hash::group_hash_axioms;

        match self.shown.get(&guild_id) {
            None => false,
            Some(before) => {
                before.voice_mode_active && !fresh.voice_mode_active && !fresh.voice_limit_reached
            },
        }
    }

    /// Takes note of what a server's panel shows from now on.
    pub fn accept(&mut self, guild_id: u64, snapshot: MemberPanelSnapshot)
        ensures
            final(self).shown@ == old(self).shown@.insert(guild_id, snapshot),
    {
        broadcast use vstd::std_specs::hash::group_hash_axioms;

        self.shown.insert(guild_id, snapshot);
    }

    /// Forgets the servers that have no panel any more.
    pub fn retain(&mut self, guilds: &Vec<u64>)
        ensures
            final(self).shown@ == old(self).shown@.restrict(guilds@.to_set()),
    {
        broadcast use vstd::std_specs::hash::group_hash_axioms;

        let mut gone: Vec<u64> = Vec::new();
        let ghost before = self.shown@;
        let known = self.shown.keys();
        let ghost keys = vstd::std_specs::iter::IteratorSpec::remaining(&known);
        for key in it: known
            invariant
                it.seq() == keys,
                forall|i: int| 0 <= i < gone@.len() ==> !guilds@.contains(#[trigger] gone@[i]),
                forall|i: int|
                    0 <= i < it.index() ==> guilds@.contains(*(#[trigger] keys[i]))
                        || gone@.contains(*keys[i]),
        {
            let guild: u64 = *key;
            if !listed(guilds, guild) {
                let ghost earlier = gone@;
                gone.push(guild);
                proof {
                    assert(gone@[gone@.len() - 1] == guild);
                    assert forall|other: u64| earlier.contains(other) implies #[trigger] gone@.contains(
                        other,
                    ) by {
                        let at = choose|at: int| 0 <= at < earlier.len() && earlier[at] == other;
                        assert(gone@[at] == other);
                    }
                }
            }
        }
        proof {
            assert forall|guild: u64| #[trigger] before.contains_key(guild) implies guilds@.contains(
                guild,
            ) || gone@.contains(guild) by {
                assert(keys.unref().to_set().contains(guild));
                let at = choose|at: int| 0 <= at < keys.unref().len() && keys.unref()[at] == guild;
                assert(*keys[at] == guild);
            }
        }
        let mut next: usize = 0;
        while next < gone.len()
            invariant
                next <= gone@.len(),
                forall|i: int| 0 <= i < gone@.len() ==> !guilds@.contains(#[trigger] gone@[i]),
                forall|guild: u64|
                    #[trigger] self.shown@.contains_key(guild) <==> before.contains_key(guild)
                        && !gone@.take(next as int).contains(guild),
                forall|guild: u64| #[trigger]
                    self.shown@.contains_key(guild) ==> self.shown@[guild] == before[guild],
            decreases gone@.len() - next,
        {
            broadcast use vstd::std_specs::hash::group_hash_axioms;

            self.shown.remove(&gone[next]);
            proof {
                let done = gone@.take(next as int);
                let further = gone@.take(next as int + 1);
                assert(further =~= done.push(gone@[next as int]));
                assert forall|guild: u64| #[trigger] further.contains(guild) <==> done.contains(guild)
                    || guild == gone@[next as int] by {
                    if done.contains(guild) {
                        let at = choose|at: int| 0 <= at < done.len() && done[at] == guild;
                        assert(further[at] == guild);
                    }
                    assert(further[next as int] == gone@[next as int]);
                    if further.contains(guild) && guild != gone@[next as int] {
                        let at = choose|at: int| 0 <= at < further.len() && further[at] == guild;
                        assert(done[at] == guild);
                    }
                }
            }
            next = next + 1;
        }
        assert(gone@.take(next as int) =~= gone@);
        assert(self.shown@ =~= before.restrict(guilds@.to_set()));
    }
}

fn listed(guilds: &Vec<u64>, guild: u64) -> (found: bool)
    ensures
        found == guilds@.contains(guild),
{
    let mut next: usize = 0;
    while next < guilds.len()
        invariant
            next <= guilds@.len(),
            forall|i: int| 0 <= i < next ==> #[trigger] guilds@[i] != guild,
        decreases guilds@.len() - next,
    {
        if guilds[next] == guild {
            assert(guilds@[next as int] == guild);
            return true;
        }
        next = next + 1;
    }
    false
}

/// A panel is edited only when it would show something else, and says that Voice ended by itself
/// only when it did.
pub proof fn panel_news_are_true(before: MemberPanelSnapshot, fresh: MemberPanelSnapshot)
    ensures
        before.shows_same(fresh) <==> observed(Some(before), fresh) is Unchanged,
        observed(Some(before), fresh) == Observation::Changed(Some(PanelNews::VoiceEnded))
            ==> before.voice_mode_active && !fresh.voice_mode_active && !fresh.voice_limit_reached,
        observed(Some(before), fresh) == Observation::Changed(Some(PanelNews::LimitReached))
            ==> !before.voice_limit_reached && fresh.voice_limit_reached,
{
}

/// A value as the panel shows it: trimmed, with a fallback, and cut where it is too long.
pub open spec fn shown_value(value: Option<Seq<char>>, fallback: Seq<char>, maximum: nat) -> Seq<
    char,
> {
    let chosen = match value {
        Some(value) => if text::trimmed(value).len() > 0 {
            text::trimmed(value)
        } else {
            fallback
        },
        None => fallback,
    };
    if chosen.len() <= maximum {
        chosen
    } else if maximum < 3 {
        "..."@
    } else {
        chosen.take(maximum - 3) + "..."@
    }
}

/// Prepares a value for the panel.
pub fn panel_value(value: Option<&str>, fallback: &str, maximum: usize) -> (shown: String)
    ensures
        shown@ == shown_value(text::option_str_view(value), fallback@, maximum as nat),
{
    let chosen = match value {
        Some(value) => {
            let trimmed = text::trim(value);
            if trimmed.as_str().is_empty() {
                fallback.to_owned()
            } else {
                trimmed
            }
        },
        None => fallback.to_owned(),
    };
    let characters = text::chars_of(chosen.as_str());
    if characters.len() <= maximum {
        return chosen;
    }
    let kept: usize = if maximum < 3 {
        0
    } else {
        maximum - 3
    };
    let mut shown = text::text_of(&characters, 0, kept);
    assert(shown@ =~= chosen@.take(kept as int));
    shown.append("...");
    if maximum < 3 {
        assert(shown@ =~= "..."@);
    }
    shown
}

/// A value of the panel is never longer than its limit, as long as the limit has room for three
/// dots.
pub proof fn panel_values_fit(value: Option<Seq<char>>, fallback: Seq<char>, maximum: nat)
    requires
        maximum >= 3,
    ensures
        shown_value(value, fallback, maximum).len() <= maximum,
{
    reveal_strlit("...");
}

/// The panel as a message.
#[derive(Debug)]
pub struct PanelEmbed {
    pub title: String,
    pub description: String,
    pub color: u32,
    pub thread: String,
    pub voice: String,
    pub intelligence: String,
    pub language: String,
    pub footer: String,
}

/// The headline of the panel and its color: the limit comes first, then the connection, then the
/// browser, then Voice.
pub open spec fn headline(connected: bool, browser: Option<&BrowserStatus>) -> (Seq<char>, u32) {
    let snapshot = MemberPanelSnapshot::taken(connected, browser);
    if snapshot.voice_limit_reached {
        ("ChatGPT Voice daily limit reached"@, 0xED4245)
    } else if !connected {
        ("Not connected to a Discord voice channel"@, 0x5865F2)
    } else if !snapshot.browser_open || !snapshot.logged_in {
        ("Waiting for the dedicated ChatGPT browser"@, 0xFEE75C)
    } else if snapshot.voice_mode_active {
        (
            if snapshot.chatgpt_mic_muted == Some(true) {
                "Connected · ChatGPT mic muted"@
            } else {
                "Connected · ChatGPT Voice active"@
            },
            0x57F287,
        )
    } else {
        ("Connected · ChatGPT Voice is not active"@, 0xFEE75C)
    }
}

/// The voice as the panel shows it, with its description where there is one.
pub open spec fn voice_line(voice: Option<Seq<char>>, description: Option<Seq<char>>) -> Seq<char> {
    match (voice, description) {
        (Some(name), Some(about)) => if text::trimmed(about).len() > 0 {
            shown_value(Some(name), "Unknown"@, 80) + " — "@ + shown_value(Some(about), ""@, 150)
        } else {
            shown_value(voice, "Unknown"@, 150)
        },
        _ => shown_value(voice, "Unknown"@, 150),
    }
}

/// The description of the panel: the headline, what was done last, and what stands in the way.
pub open spec fn panel_text(
    connected: bool,
    browser: Option<&BrowserStatus>,
    last_action: Option<Seq<char>>,
) -> Seq<char> {
    let start = "**"@ + headline(connected, browser).0
        + "**\nThis panel controls the shared GPTVoice session for this server."@;
    let acted = match last_action {
        Some(action) => if text::trimmed(action).len() > 0 {
            start + "\n\n_"@ + text::trimmed(action) + "_"@
        } else {
            start
        },
        None => start,
    };
    let snapshot = MemberPanelSnapshot::taken(connected, browser);
    let signed = if snapshot.auth_required {
        acted + "\n\nThe server's dedicated ChatGPT browser needs sign-in."@
    } else {
        acted
    };
    let permitted = if snapshot.microphone_permission_required {
        signed
            + "\n\nChatGPT needs microphone permission; an administrator can open the browser and allow it."@
    } else {
        signed
    };
    match snapshot.voice_limit_reset {
        Some(reset) => if reset@.len() > 0 && snapshot.voice_limit_reached {
            permitted + "\nVoice limit resets at **"@ + reset@ + "**."@
        } else {
            permitted
        },
        None => permitted,
    }
}

fn slice(value: &Option<String>) -> (slice: Option<&str>)
    ensures
        text::option_str_view(slice) == text::option_view(*value),
{
    match value {
        Some(value) => Some(value.as_str()),
        None => None,
    }
}

fn panel_headline(connected: bool, snapshot: &MemberPanelSnapshot) -> (headline: (&'static str, u32))
    ensures
        forall|browser: Option<&BrowserStatus>|
            *snapshot == MemberPanelSnapshot::taken(connected, browser) ==> {
                let expected = #[trigger] self::headline(connected, browser);
                headline.0@ == expected.0 && headline.1 == expected.1
            },
{
    let muted = match snapshot.chatgpt_mic_muted {
        Some(muted) => muted,
        None => false,
    };
    if snapshot.voice_limit_reached {
        ("ChatGPT Voice daily limit reached", 0xED4245)
    } else if !connected {
        ("Not connected to a Discord voice channel", 0x5865F2)
    } else if !snapshot.browser_open || !snapshot.logged_in {
        ("Waiting for the dedicated ChatGPT browser", 0xFEE75C)
    } else if snapshot.voice_mode_active {
        if muted {
            ("Connected · ChatGPT mic muted", 0x57F287)
        } else {
            ("Connected · ChatGPT Voice active", 0x57F287)
        }
    } else {
        ("Connected · ChatGPT Voice is not active", 0xFEE75C)
    }
}

fn panel_voice(voice: &Option<String>, description: &Option<String>) -> (line: String)
    ensures
        line@ == voice_line(text::option_view(*voice), text::option_view(*description)),
{
    if let (Some(name), Some(about)) = (voice, description) {
        let trimmed = text::trim(about.as_str());
        if !trimmed.as_str().is_empty() {
            let mut line = panel_value(Some(name.as_str()), "Unknown", 80);
            line.append(" — ");
            line.append(panel_value(Some(about.as_str()), "", 150).as_str());
            return line;
        }
    }
    panel_value(slice(voice), "Unknown", 150)
}

impl PanelEmbed {
    /// The message is the panel of this server.
    pub open spec fn shows(
        self,
        guild_id: u64,
        connected: bool,
        browser: Option<&BrowserStatus>,
        last_action: Option<Seq<char>>,
    ) -> bool {
        let snapshot = MemberPanelSnapshot::taken(connected, browser);
        &&& self.title@ == "🎙️ GPTVoice"@
        &&& self.description@ == panel_text(connected, browser, last_action)
        &&& self.color == headline(connected, browser).1
        &&& self.thread@ == shown_value(
            text::option_view(snapshot.active_thread),
            "No thread selected"@,
            200,
        )
        &&& self.voice@ == voice_line(
            text::option_view(snapshot.voice),
            text::option_view(snapshot.voice_description),
        )
        &&& self.intelligence@ == shown_value(
            text::option_view(snapshot.intelligence),
            "Unknown"@,
            100,
        )
        &&& self.language@ == shown_value(text::option_view(snapshot.language), "Unknown"@, 100)
        &&& self.footer@ == "Server "@ + text::decimal(guild_id as nat)
    }
}

/// Writes the panel of a server.
pub fn member_panel_embed(
    guild_id: u64,
    connected: bool,
    browser: Option<&BrowserStatus>,
    last_action: Option<&str>,
) -> (embed: PanelEmbed)
    ensures
        embed.shows(guild_id, connected, browser, text::option_str_view(last_action)),
{
    let snapshot = MemberPanelSnapshot::new(connected, browser);
    let (state, color) = panel_headline(connected, &snapshot);
    assert(state@ == headline(connected, browser).0);
    let mut description = "**".to_owned();
    description.append(state);
    description.append("**\nThis panel controls the shared GPTVoice session for this server.");
    if let Some(action) = last_action {
        let action = text::trim(action);
        if !action.as_str().is_empty() {
            description.append("\n\n_");
            description.append(action.as_str());
            description.append("_");
        }
    }
    if snapshot.auth_required {
        description.append("\n\nThe server's dedicated ChatGPT browser needs sign-in.");
    }
    if snapshot.microphone_permission_required {
        description.append(
            "\n\nChatGPT needs microphone permission; an administrator can open the browser and allow it.",
        );
    }
    if let Some(reset) = &snapshot.voice_limit_reset {
        if !reset.as_str().is_empty() && snapshot.voice_limit_reached {
            description.append("\nVoice limit resets at **");
            description.append(reset.as_str());
            description.append("**.");
        }
    }
    PanelEmbed {
        title: "🎙️ GPTVoice".to_owned(),
        description,
        color,
        thread: panel_value(slice(&snapshot.active_thread), "No thread selected", 200),
        voice: panel_voice(&snapshot.voice, &snapshot.voice_description),
        intelligence: panel_value(slice(&snapshot.intelligence), "Unknown", 100),
        language: panel_value(slice(&snapshot.language), "Unknown", 100),
        footer: text::joined("Server ", text::decimal_text(guild_id).as_str()),
    }
}

/// How a button looks.
#[derive(Debug, Clone, Copy, PartialEq, Eq, Structural)]
pub enum ButtonLook {
    Success,
    Danger,
    Secondary,
    Primary,
}

/// A button of the panel.
#[derive(Debug)]
pub struct PanelButton {
    pub custom_id: String,
    pub label: String,
    pub look: ButtonLook,
    pub disabled: bool,
}

impl PanelButton {
    /// A button is as described.
    pub open spec fn reads(
        self,
        action: MemberPanelAction,
        guild_id: u64,
        label: Seq<char>,
        look: ButtonLook,
        disabled: bool,
    ) -> bool {
        &&& self.custom_id@ == custom_id(action.word(), guild_id)
        &&& self.label@ == label
        &&& self.look == look
        &&& self.disabled == disabled
    }
}

/// The buttons of a server's panel: one can join only while the relay is off, and use the other
/// buttons only while it is on. The microphone can be switched only where its state is known.
pub open spec fn panel_buttons(
    buttons: Seq<PanelButton>,
    guild_id: u64,
    connected: bool,
    mic_muted: Option<bool>,
) -> bool {
    &&& buttons.len() == 4
    &&& buttons[0].reads(
        MemberPanelAction::Join,
        guild_id,
        "Join voice"@,
        ButtonLook::Success,
        connected,
    )
    &&& buttons[1].reads(
        MemberPanelAction::Leave,
        guild_id,
        "Leave voice"@,
        ButtonLook::Danger,
        !connected,
    )
    &&& buttons[2].reads(
        MemberPanelAction::Mic,
        guild_id,
        if mic_muted == Some(true) {
            "Unmute input"@
        } else {
            "Mute input"@
        },
        if mic_muted == Some(true) {
            ButtonLook::Danger
        } else {
            ButtonLook::Secondary
        },
        !connected || mic_muted is None,
    )
    &&& buttons[3].reads(
        MemberPanelAction::Reconnect,
        guild_id,
        "Reconnect"@,
        ButtonLook::Primary,
        !connected,
    )
}

/// Lists the buttons of a server's panel.
pub fn member_panel_components(guild_id: u64, connected: bool, mic_muted: Option<bool>) -> (buttons:
    Vec<PanelButton>)
    ensures
        panel_buttons(buttons@, guild_id, connected, mic_muted),
{
    let muted = match mic_muted {
        Some(muted) => muted,
        None => false,
    };
    let mut buttons: Vec<PanelButton> = Vec::new();
    buttons.push(
        PanelButton {
            custom_id: member_panel_custom_id("join", guild_id),
            label: "Join voice".to_owned(),
            look: ButtonLook::Success,
            disabled: connected,
        },
    );
    buttons.push(
        PanelButton {
            custom_id: member_panel_custom_id("leave", guild_id),
            label: "Leave voice".to_owned(),
            look: ButtonLook::Danger,
            disabled: !connected,
        },
    );
    buttons.push(
        PanelButton {
            custom_id: member_panel_custom_id("mic", guild_id),
            label: if muted {
                "Unmute input".to_owned()
            } else {
                "Mute input".to_owned()
            },
            look: if muted {
                ButtonLook::Danger
            } else {
                ButtonLook::Secondary
            },
            disabled: !connected || mic_muted.is_none(),
        },
    );
    buttons.push(
        PanelButton {
            custom_id: member_panel_custom_id("reconnect", guild_id),
            label: "Reconnect".to_owned(),
            look: ButtonLook::Primary,
            disabled: !connected,
        },
    );
    buttons
}

/// A panel as it is written: the message and its buttons.
#[derive(Debug)]
pub struct WrittenPanel {
    pub embed: PanelEmbed,
    pub buttons: Vec<PanelButton>,
}

/// The microphone as a browser shows it.
pub open spec fn microphone_of(browser: Option<&BrowserStatus>) -> Option<bool> {
    match browser {
        Some(status) => status.chatgpt_mic_muted,
        None => None,
    }
}

impl WrittenPanel {
    /// The panel is the one of this server.
    pub open spec fn shows(
        self,
        guild_id: u64,
        connected: bool,
        browser: Option<&BrowserStatus>,
        last_action: Option<Seq<char>>,
    ) -> bool {
        &&& self.embed.shows(guild_id, connected, browser, last_action)
        &&& panel_buttons(self.buttons@, guild_id, connected, microphone_of(browser))
    }
}

/// Writes the panel of a server, with its buttons.
pub fn member_panel_response(
    guild_id: u64,
    connected: bool,
    browser: Option<&BrowserStatus>,
    last_action: Option<&str>,
) -> (panel: WrittenPanel)
    ensures
        panel.shows(guild_id, connected, browser, text::option_str_view(last_action)),
{
    let mic_muted = match browser {
        Some(status) => status.chatgpt_mic_muted,
        None => None,
    };
    WrittenPanel {
        embed: member_panel_embed(guild_id, connected, browser, last_action),
        buttons: member_panel_components(guild_id, connected, mic_muted),
    }
}

/// What is to happen next while a panel is kept up to date.
#[derive(Debug)]
pub enum RefreshAction {
    /// Look at the server's browser.
    ReadStatus,
    /// Edit the message.
    Edit(WrittenPanel),
    /// This panel is done; the note is for the log.
    Finish(Option<RefreshNote>),
}

/// What the log is told about a panel.
#[derive(Debug)]
pub enum RefreshNote {
    StatusFailed(u64, String),
    VoiceEnded(u64),
    EditFailed(u64, String),
}

impl RefreshNote {
    /// The note in words.
    pub open spec fn worded(self) -> Seq<char> {
        match self {
            RefreshNote::StatusFailed(guild_id, error) =>
            "Discord panel status refresh failed for guild "@ + text::decimal(guild_id as nat)
                + ": "@ + error@,
            RefreshNote::VoiceEnded(guild_id) => "ChatGPT Voice ended for guild "@ + text::decimal(
                guild_id as nat,
            ) + "; Discord member panel refreshed."@,
            RefreshNote::EditFailed(guild_id, error) =>
            "Discord member panel refresh failed for guild "@ + text::decimal(guild_id as nat)
                + ": "@ + error@,
        }
    }

    /// Puts the note into words.
    pub fn word(&self) -> (message: String)
        ensures
            message@ == self.worded(),
    {
        match self {
            RefreshNote::StatusFailed(guild_id, error) => {
                let mut message = "Discord panel status refresh failed for guild ".to_owned();
                message.append(text::decimal_text(*guild_id).as_str());
                message.append(": ");
                message.append(error.as_str());
                message
            },
            RefreshNote::VoiceEnded(guild_id) => {
                let mut message = "ChatGPT Voice ended for guild ".to_owned();
                message.append(text::decimal_text(*guild_id).as_str());
                message.append("; Discord member panel refreshed.");
                message
            },
            RefreshNote::EditFailed(guild_id, error) => {
                let mut message = "Discord member panel refresh failed for guild ".to_owned();
                message.append(text::decimal_text(*guild_id).as_str());
                message.append(": ");
                message.append(error.as_str());
                message
            },
        }
    }
}

/// What became of an edit.
#[derive(Debug)]
pub enum EditReply {
    /// There is no connection to edit with.
    Unavailable,
    Edited,
    Failed(String),
}

/// A panel that is being edited: what it will show.
#[derive(Debug)]
pub struct PanelEdit {
    pub guild_id: u64,
    pub snapshot: MemberPanelSnapshot,
    /// Voice has ended by itself.
    pub voice_ended: bool,
}

impl PanelMonitor {
    /// Begins to bring a server's panel up to date. Where the relay is off there is no browser to
    /// look at.
    pub fn refresh(&mut self, guild_id: u64, connected: bool) -> (begun: (
        Option<PanelEdit>,
        RefreshAction,
    ))
        ensures
            if connected {
                begun.0 is None && begun.1 is ReadStatus && *final(self) == *old(self)
            } else {
                compared(*old(self), *final(self), guild_id, false, None, begun)
            },
    {
        if connected {
            (None, RefreshAction::ReadStatus)
        } else {
            self.compare(guild_id, false, None)
        }
    }

    /// Goes on when the browser was looked at.
    pub fn status_read(&mut self, guild_id: u64, reply: Result<BrowserStatus, String>) -> (
    continued: (Option<PanelEdit>, RefreshAction))
        ensures
            match reply {
                Ok(status) => compared(
                    *old(self),
                    *final(self),
                    guild_id,
                    true,
                    Some(&status),
                    continued,
                ),
                Err(error) => continued.0 is None && continued.1 == RefreshAction::Finish(
                    Some(RefreshNote::StatusFailed(guild_id, error)),
                ) && *final(self) == *old(self),
            },
    {
        match reply {
            Ok(status) => self.compare(guild_id, true, Some(&status)),
            Err(error) => (
                None,
                RefreshAction::Finish(Some(RefreshNote::StatusFailed(guild_id, error))),
            ),
        }
    }

    fn compare(&mut self, guild_id: u64, connected: bool, browser: Option<&BrowserStatus>) -> (
    continued: (Option<PanelEdit>, RefreshAction))
        ensures
            compared(*old(self), *final(self), guild_id, connected, browser, continued),
    {
        let fresh = MemberPanelSnapshot::new(connected, browser);
        match self.observe(guild_id, &fresh) {
            Observation::First => {
                self.accept(guild_id, fresh);
                (None, RefreshAction::Finish(None))
            },
            Observation::Unchanged => (None, RefreshAction::Finish(None)),
            Observation::Changed(news) => {
                let voice_ended = self.has_voice_ended(guild_id, &fresh);
                let last_action = match news {
                    Some(news) => Some(news.word()),
                    None => None,
                };
                let panel = member_panel_response(guild_id, connected, browser, last_action);
                (
                    Some(PanelEdit { guild_id, snapshot: fresh, voice_ended }),
                    RefreshAction::Edit(panel),
                )
            },
        }
    }

    /// Ends when the message was edited, or could not be: only an edit that succeeded counts.
    pub fn edited(&mut self, edit: PanelEdit, reply: EditReply) -> (note: Option<RefreshNote>)
        ensures
            match reply {
                EditReply::Unavailable => note is None && *final(self) == *old(self),
                EditReply::Edited => {
                    &&& final(self).shown@ == old(self).shown@.insert(edit.guild_id, edit.snapshot)
                    &&& note == (if edit.voice_ended {
                        Some(RefreshNote::VoiceEnded(edit.guild_id))
                    } else {
                        None
                    })
                },
                EditReply::Failed(error) => note == Some(
                    RefreshNote::EditFailed(edit.guild_id, error),
                ) && *final(self) == *old(self),
            },
    {
        match reply {
            EditReply::Unavailable => None,
            EditReply::Edited => {
                let guild_id: u64 = edit.guild_id;
                self.accept(guild_id, edit.snapshot);
                if edit.voice_ended {
                    Some(RefreshNote::VoiceEnded(guild_id))
                } else {
                    None
                }
            },
            EditReply::Failed(error) => Some(RefreshNote::EditFailed(edit.guild_id, error)),
        }
    }
}

/// What comparing a server's panel with its session leads to: the first look is taken over, the
/// same look changes nothing, and another one asks for an edit that says what happened.
pub open spec fn compared(
    before: PanelMonitor,
    after: PanelMonitor,
    guild_id: u64,
    connected: bool,
    browser: Option<&BrowserStatus>,
    step: (Option<PanelEdit>, RefreshAction),
) -> bool {
    let fresh = MemberPanelSnapshot::taken(connected, browser);
    match before.shown@.get(guild_id) {
        None => {
            &&& step.0 is None
            &&& step.1 == RefreshAction::Finish(None)
            &&& after.shown@ == before.shown@.insert(guild_id, fresh)
        },
        Some(shown) => {
            &&& after == before
            &&& if shown.shows_same(fresh) {
                step.0 is None && step.1 == RefreshAction::Finish(None)
            } else {
                &&& step.0 == Some(
                    PanelEdit { guild_id, snapshot: fresh, voice_ended: voice_ended(shown, fresh) },
                )
                &&& step.1 matches RefreshAction::Edit(panel) && panel.shows(
                    guild_id,
                    connected,
                    browser,
                    match news(shown, fresh) {
                        Some(news) => Some(news.worded()),
                        None => None,
                    },
                )
            }
        },
    }
}

/// An edit that could not be made is made again: as long as the panel shows something else than
/// the session, the next look asks for an edit.
pub proof fn failed_edits_are_repeated(
    monitor: PanelMonitor,
    after: PanelMonitor,
    guild_id: u64,
    browser: BrowserStatus,
    shown: MemberPanelSnapshot,
    step: (Option<PanelEdit>, RefreshAction),
)
    requires
        monitor.shown@.get(guild_id) == Some(shown),
        !shown.shows_same(MemberPanelSnapshot::taken(true, Some(&browser))),
        compared(monitor, after, guild_id, true, Some(&browser), step),
    ensures
        step.1 is Edit,
        after == monitor,
{
}

/// What the panel shows of a session is what the browser reports, down to the title of the active
/// conversation; without a browser there is nothing to show.
pub proof fn snapshot_is_what_the_browser_reports(connected: bool, status: BrowserStatus)
    ensures
        ({
            let shown = MemberPanelSnapshot::taken(connected, Some(&status));
            &&& shown.connected == connected
            &&& shown.browser_open == status.open
            &&& shown.logged_in == status.logged_in
            &&& shown.auth_required == status.auth_required
            &&& shown.voice_mode_active == status.voice_mode_active
            &&& shown.voice_limit_reached == status.voice_limit_reached
            &&& shown.voice_limit_reset == status.voice_limit_reset
            &&& shown.microphone_permission_required == status.microphone_permission_required
            &&& shown.chatgpt_mic_muted == status.chatgpt_mic_muted
            &&& shown.voice == status.voice
            &&& shown.voice_description == status.voice_description
            &&& shown.intelligence == status.intelligence
            &&& shown.language == status.language
            &&& status.active_thread matches Some(thread) ==> shown.active_thread == Some(
                thread.title,
            )
            &&& status.active_thread is None ==> shown.active_thread is None
        }),
        ({
            let shown = MemberPanelSnapshot::taken(connected, None);
            &&& shown.connected == connected
            &&& !shown.browser_open && !shown.logged_in && !shown.auth_required
            &&& !shown.voice_mode_active && !shown.voice_limit_reached
            &&& !shown.microphone_permission_required
            &&& shown.voice_limit_reset is None && shown.chatgpt_mic_muted is None
            &&& shown.active_thread is None && shown.voice is None
            &&& shown.voice_description is None && shown.intelligence is None
            &&& shown.language is None
        }),
{
}

/// Whatever changes in the session, the panel is edited; as long as nothing changes, it is not.
pub proof fn every_change_is_seen(before: MemberPanelSnapshot, fresh: MemberPanelSnapshot)
    ensures
        observed(Some(before), before) is Unchanged,
        before.connected != fresh.connected ==> observed(Some(before), fresh) is Changed,
        before.browser_open != fresh.browser_open ==> observed(Some(before), fresh) is Changed,
        before.logged_in != fresh.logged_in ==> observed(Some(before), fresh) is Changed,
        before.auth_required != fresh.auth_required ==> observed(Some(before), fresh) is Changed,
        before.voice_mode_active != fresh.voice_mode_active ==> observed(Some(before), fresh)
            is Changed,
        before.voice_limit_reached != fresh.voice_limit_reached ==> observed(Some(before), fresh)
            is Changed,
        before.microphone_permission_required != fresh.microphone_permission_required ==> observed(
            Some(before),
            fresh,
        ) is Changed,
        before.chatgpt_mic_muted != fresh.chatgpt_mic_muted ==> observed(Some(before), fresh)
            is Changed,
        text::option_view(before.voice_limit_reset) != text::option_view(fresh.voice_limit_reset)
            ==> observed(Some(before), fresh) is Changed,
        text::option_view(before.active_thread) != text::option_view(fresh.active_thread)
            ==> observed(Some(before), fresh) is Changed,
        text::option_view(before.voice) != text::option_view(fresh.voice) ==> observed(
            Some(before),
            fresh,
        ) is Changed,
        text::option_view(before.voice_description) != text::option_view(fresh.voice_description)
            ==> observed(Some(before), fresh) is Changed,
        text::option_view(before.intelligence) != text::option_view(fresh.intelligence)
            ==> observed(Some(before), fresh) is Changed,
        text::option_view(before.language) != text::option_view(fresh.language) ==> observed(
            Some(before),
            fresh,
        ) is Changed,
        observed(None, fresh) is First,
{
}

/// The panel says that the limit is reached when it was not before, that Voice ended by itself
/// when it was active and the limit is not the reason, and nothing else.
pub proof fn panel_tells_the_news(before: MemberPanelSnapshot, fresh: MemberPanelSnapshot)
    ensures
        !before.voice_limit_reached && fresh.voice_limit_reached ==> observed(Some(before), fresh)
            == Observation::Changed(Some(PanelNews::LimitReached)),
        before.voice_mode_active && !fresh.voice_mode_active && !fresh.voice_limit_reached
            ==> observed(Some(before), fresh) == Observation::Changed(Some(PanelNews::VoiceEnded)),
        before.voice_limit_reached && fresh.voice_limit_reached && before.connected
            != fresh.connected ==> observed(Some(before), fresh) == Observation::Changed(None),
        !before.voice_mode_active && !fresh.voice_limit_reached && before.connected
            != fresh.connected ==> observed(Some(before), fresh) == Observation::Changed(None),
        PanelNews::LimitReached.worded()
            == "ChatGPT Voice reached its daily limit. Reconnect after the reset time."@,
        PanelNews::VoiceEnded.worded()
            == "ChatGPT Voice ended by itself. Press Reconnect to resume this thread."@,
{
}

/// A value that fits is shown as it is, a blank one or none gives its place to the fallback, and
/// one that is too long keeps its beginning and ends in three dots.
pub proof fn panel_values_are_shown(
    value: Seq<char>,
    blank: Seq<char>,
    fallback: Seq<char>,
    maximum: nat,
)
    requires
        maximum >= 3,
        forall|i: int| 0 <= i < blank.len() ==> text::white_space(#[trigger] blank[i]),
        value.len() > 0,
        !text::white_space(value[0]) && !text::white_space(value.last()),
    ensures
        value.len() <= maximum ==> shown_value(Some(value), fallback, maximum) == value,
        fallback.len() <= maximum ==> shown_value(None, fallback, maximum) == fallback,
        fallback.len() <= maximum ==> shown_value(Some(blank), fallback, maximum) == fallback,
        value.len() > maximum ==> {
            let shown = shown_value(Some(value), fallback, maximum);
            &&& shown.len() == maximum
            &&& forall|i: int| 0 <= i < maximum - 3 ==> #[trigger] shown[i] == value[i]
            &&& shown[maximum - 3] == '.' && shown[maximum - 2] == '.' && shown[maximum - 1] == '.'
        },
{
    reveal_strlit("...");
    text::lemma_trimmed_is_fixed(value);
    text::blank_texts_trim_to_nothing(blank);
}

/// The headline names what stands first in the way: the limit, the connection, the browser, and
/// then Voice. Its color goes with it: red, blue, yellow, and green where all is well.
pub proof fn headline_names_what_matters(connected: bool, status: BrowserStatus)
    ensures
        ({
            let shown = headline(connected, Some(&status));
            let ready = connected && status.open && status.logged_in;
            &&& status.voice_limit_reached ==> shown.0 == "ChatGPT Voice daily limit reached"@
                && shown.1 == 0xED4245
            &&& !status.voice_limit_reached ==> {
                &&& !connected ==> shown.0 == "Not connected to a Discord voice channel"@ && shown.1
                    == 0x5865F2
                &&& connected && !status.open ==> shown.0
                    == "Waiting for the dedicated ChatGPT browser"@ && shown.1 == 0xFEE75C
                &&& connected && !status.logged_in ==> shown.0
                    == "Waiting for the dedicated ChatGPT browser"@ && shown.1 == 0xFEE75C
                &&& ready && !status.voice_mode_active ==> shown.0
                    == "Connected · ChatGPT Voice is not active"@ && shown.1 == 0xFEE75C
                &&& ready && status.voice_mode_active && status.chatgpt_mic_muted == Some(true)
                    ==> shown.0 == "Connected · ChatGPT mic muted"@ && shown.1 == 0x57F287
                &&& ready && status.voice_mode_active && status.chatgpt_mic_muted != Some(true)
                    ==> shown.0 == "Connected · ChatGPT Voice active"@ && shown.1 == 0x57F287
            }
        }),
        !connected ==> headline(connected, None).0 == "Not connected to a Discord voice channel"@,
        connected ==> headline(connected, None).0 == "Waiting for the dedicated ChatGPT browser"@,
{
}

/// A voice is shown with its description; a voice without one is shown by its name.
pub proof fn voice_is_shown_with_its_description(name: Seq<char>, about: Seq<char>)
    requires
        0 < name.len() <= 80,
        !text::white_space(name[0]) && !text::white_space(name.last()),
        0 < about.len() <= 150,
        !text::white_space(about[0]) && !text::white_space(about.last()),
    ensures
        voice_line(Some(name), Some(about)) == name + " — "@ + about,
        voice_line(Some(name), None) == name,
        voice_line(None, None) == "Unknown"@,
        voice_line(None, Some(about)) == "Unknown"@,
{
    reveal_strlit("Unknown");
    text::lemma_trimmed_is_fixed(name);
    text::lemma_trimmed_is_fixed(about);
}

/// The panel says what was done last, that somebody has to sign in, that the microphone is not
/// permitted and when the limit resets: each in its turn, and each only where it is so.
pub proof fn panel_says_what_is_needed(
    connected: bool,
    status: BrowserStatus,
    action: Seq<char>,
    reset: String,
)
    requires
        action.len() > 0,
        !text::white_space(action[0]) && !text::white_space(action.last()),
        reset@.len() > 0,
    ensures
        ({
            let quiet = BrowserStatus {
                auth_required: false,
                microphone_permission_required: false,
                voice_limit_reset: None,
                ..status
            };
            let start = panel_text(connected, Some(&quiet), None);
            let signed_out = BrowserStatus { auth_required: true, ..quiet };
            let unheard = BrowserStatus { microphone_permission_required: true, ..quiet };
            let limited = BrowserStatus {
                voice_limit_reached: true,
                voice_limit_reset: Some(reset),
                ..quiet
            };
            let free = BrowserStatus {
                voice_limit_reached: false,
                voice_limit_reset: Some(reset),
                ..quiet
            };
            let all = BrowserStatus {
                auth_required: true,
                microphone_permission_required: true,
                voice_limit_reset: Some(reset),
                ..status
            };
            &&& start == "**"@ + headline(connected, Some(&status)).0
                + "**\nThis panel controls the shared GPTVoice session for this server."@
            &&& panel_text(connected, Some(&quiet), Some(action)) == start + "\n\n_"@ + action
                + "_"@
            &&& panel_text(connected, Some(&signed_out), None) == start
                + "\n\nThe server's dedicated ChatGPT browser needs sign-in."@
            &&& panel_text(connected, Some(&unheard), None) == start
                + "\n\nChatGPT needs microphone permission; an administrator can open the browser and allow it."@
            &&& status.voice_limit_reached ==> panel_text(connected, Some(&limited), None) == start
                + "\nVoice limit resets at **"@ + reset@ + "**."@
            &&& !status.voice_limit_reached ==> panel_text(connected, Some(&free), None) == start
            &&& status.voice_limit_reached ==> panel_text(connected, Some(&all), Some(action))
                == start + "\n\n_"@ + action + "_"@
                + "\n\nThe server's dedicated ChatGPT browser needs sign-in."@
                + "\n\nChatGPT needs microphone permission; an administrator can open the browser and allow it."@
                + "\nVoice limit resets at **"@ + reset@ + "**."@
        }),
{
    text::lemma_trimmed_is_fixed(action);
}

/// The buttons of a panel lead back to their actions in its server. Joining is open while the
/// relay is off, everything else while it is on, and the microphone only where its state is known.
pub proof fn buttons_offer_what_can_be_done(
    buttons: Seq<PanelButton>,
    guild_id: u64,
    connected: bool,
    mic_muted: Option<bool>,
)
    requires
        panel_buttons(buttons, guild_id, connected, mic_muted),
    ensures
        buttons.len() == 4,
        button_of(buttons[0].custom_id@) == Some((MemberPanelAction::Join, guild_id)),
        button_of(buttons[1].custom_id@) == Some((MemberPanelAction::Leave, guild_id)),
        button_of(buttons[2].custom_id@) == Some((MemberPanelAction::Mic, guild_id)),
        button_of(buttons[3].custom_id@) == Some((MemberPanelAction::Reconnect, guild_id)),
        buttons[0].disabled == connected,
        buttons[1].disabled == !connected,
        buttons[3].disabled == !connected,
        mic_muted is None ==> buttons[2].disabled,
        mic_muted is Some ==> buttons[2].disabled == !connected,
        mic_muted == Some(true) ==> buttons[2].label@ == "Unmute input"@,
        mic_muted == Some(false) ==> buttons[2].label@ == "Mute input"@,
        buttons[0].label@ == "Join voice"@,
        buttons[1].label@ == "Leave voice"@,
        buttons[3].label@ == "Reconnect"@,
{
    buttons_are_server_scoped(MemberPanelAction::Join, guild_id);
    buttons_are_server_scoped(MemberPanelAction::Leave, guild_id);
    buttons_are_server_scoped(MemberPanelAction::Mic, guild_id);
    buttons_are_server_scoped(MemberPanelAction::Reconnect, guild_id);
}

/// A panel is kept up to date: the first look at a session is taken over as it is, a session that
/// changed asks for an edit, and once the edit is made the same session asks for none.
pub proof fn panel_is_kept_up_to_date(
    monitor: PanelMonitor,
    looked: PanelMonitor,
    edited: PanelMonitor,
    again: PanelMonitor,
    guild_id: u64,
    status: BrowserStatus,
    step: (Option<PanelEdit>, RefreshAction),
    repeated: (Option<PanelEdit>, RefreshAction),
)
    requires
        compared(monitor, looked, guild_id, true, Some(&status), step),
        step.0 matches Some(edit) ==> edited.shown@ == looked.shown@.insert(
            edit.guild_id,
            edit.snapshot,
        ),
        step.0 is None ==> edited == looked,
        compared(edited, again, guild_id, true, Some(&status), repeated),
    ensures
        !monitor.shown@.contains_key(guild_id) ==> step.1 == RefreshAction::Finish(None),
        monitor.shown@.contains_key(guild_id) && monitor.shown@[guild_id].voice_mode_active
            != status.voice_mode_active ==> step.1 is Edit,
        monitor.shown@.contains_key(guild_id) && !monitor.shown@[guild_id].connected ==> step.1
            is Edit,
        step.1 is Edit <==> step.0 is Some,
        edited.shown@.contains_key(guild_id),
        repeated.1 == RefreshAction::Finish(None),
{
}

/// The note on a panel names the server and, where something failed, the error.
pub proof fn panel_notes_name_the_server(guild_id: u64, error: String)
    ensures
        RefreshNote::StatusFailed(guild_id, error).worded()
            == "Discord panel status refresh failed for guild "@ + text::decimal(guild_id as nat)
            + ": "@ + error@,
        RefreshNote::EditFailed(guild_id, error).worded()
            == "Discord member panel refresh failed for guild "@ + text::decimal(guild_id as nat)
            + ": "@ + error@,
        RefreshNote::VoiceEnded(guild_id).worded() == "ChatGPT Voice ended for guild "@
            + text::decimal(guild_id as nat) + "; Discord member panel refreshed."@,
{
}

/// The message of a panel shows the session: its color goes with the headline, the conversation,
/// the voice, the intelligence and the language stand in their fields, shortened to 200 and 100
/// characters, and the footer names the server.
pub proof fn panel_message_shows_the_session(
    embed: PanelEmbed,
    guild_id: u64,
    connected: bool,
    status: BrowserStatus,
    last_action: Option<Seq<char>>,
)
    requires
        embed.shows(guild_id, connected, Some(&status), last_action),
    ensures
        embed.title@ == "🎙️ GPTVoice"@,
        embed.footer@ == "Server "@ + text::decimal(guild_id as nat),
        embed.color == headline(connected, Some(&status)).1,
        embed.description@ == panel_text(connected, Some(&status), last_action),
        status.active_thread matches Some(thread) ==> embed.thread@ == shown_value(
            Some(thread.title@),
            "No thread selected"@,
            200,
        ),
        status.active_thread is None ==> embed.thread@ == "No thread selected"@,
        status.voice matches Some(voice) ==> status.voice_description is None ==> embed.voice@
            == shown_value(Some(voice@), "Unknown"@, 150),
        status.intelligence matches Some(level) ==> embed.intelligence@ == shown_value(
            Some(level@),
            "Unknown"@,
            100,
        ),
        status.intelligence is None ==> embed.intelligence@ == "Unknown"@,
        status.language matches Some(language) ==> embed.language@ == shown_value(
            Some(language@),
            "Unknown"@,
            100,
        ),
        status.language is None ==> embed.language@ == "Unknown"@,
{
    reveal_strlit("No thread selected");
    reveal_strlit("Unknown");
}

/// The buttons look as what they do: joining is green, leaving red, reconnecting blue, and the
/// microphone grey, or red while it is muted.
pub proof fn buttons_look_as_what_they_do(
    buttons: Seq<PanelButton>,
    guild_id: u64,
    connected: bool,
    mic_muted: Option<bool>,
)
    requires
        panel_buttons(buttons, guild_id, connected, mic_muted),
    ensures
        buttons[0].look is Success,
        buttons[1].look is Danger,
        mic_muted == Some(true) ==> buttons[2].look is Danger,
        mic_muted != Some(true) ==> buttons[2].look is Secondary && buttons[2].label@
            == "Mute input"@,
        buttons[3].look is Primary,
{
}

} // verus!
