//! The words in which a browser session and its surroundings talk to each other.
//!
//! Everything that takes time, such as a look at the page, a command to the browser or a pause,
//! happens outside. A flow decides what happens next: it hands out one action, gets the reply to
//! it, and goes on until it finishes.

use crate::browser::{ThreadSummary, VoiceOption, VoiceSettingOptions};
use crate::json;
use crate::text;
use serde_json::Value;
use vstd::prelude::*;

verus! {

/// A way to step through the voices.
#[derive(Debug, Clone, Copy, PartialEq, Eq, Structural)]
pub enum Direction {
    Next,
    Previous,
}

/// A script to run in the page.
#[derive(Debug)]
pub enum Script {
    /// Reads how far the page has loaded.
    ReadyState,
    /// Connects the page to the audio transport.
    Bridge,
    /// Opens a new conversation, or tells what stands in the way.
    NewChat,
    /// Opens the sidebar.
    OpenSidebar,
    /// Lists the recent conversations.
    ReadThreads,
    /// Tells whether the page is visible.
    PageVisible,
    /// Finds the control that starts Voice.
    VoicePoint,
    /// Attaches to the page's audio again.
    RecoverOutput,
    /// Clicks the control that opens the Voice settings.
    OpenSettings,
    /// Clicks the control that closes the Voice settings.
    CloseSettings,
    /// Tells whether the Voice settings are visible.
    SettingsVisible,
    /// Mutes or unmutes the microphone.
    SetMicrophone(bool),
    /// Opens the choices of a setting.
    OpenRow(String),
    /// Chooses a value of a setting.
    ChooseOption(String, String),
    /// Chooses a voice by its name.
    ChooseVoice(String),
    /// Steps to a neighbouring voice.
    StepVoice(Direction),
}

/// A mouse event.
#[derive(Debug, Clone, Copy, PartialEq, Eq, Structural)]
pub enum MouseStep {
    Move,
    Press,
    Release,
}

/// A command to the browser.
#[derive(Debug)]
pub enum Command {
    EnableRuntime,
    EnablePage,
    BypassContentPolicy,
    /// Runs the bridge script in every new document.
    InstallBridge,
    Navigate(String),
    /// Loads the page again without its cache.
    Reload,
    BringToFront,
    EmulateFocus,
    KeepActive,
    /// A mouse event at the given coordinates.
    Mouse(MouseStep, String, String),
}

/// What is to happen next.
#[derive(Debug)]
pub enum Action {
    /// Run a script in the page.
    Evaluate(Script),
    /// Send a command to the browser.
    Call(Command),
    /// Look at the page.
    Refresh,
    /// Pause for so many milliseconds.
    Wait(u64),
    /// Hide or show the browser's windows.
    SetWindow(bool),
    /// Go to an address.
    Navigate(String),
    /// Load the page again.
    Reload,
    /// List the recent conversations.
    ReadThreads,
    /// Start Voice, with the window shown for a moment where needed.
    StartVoice,
    /// Start Voice in the window as it is.
    ActivateVoice,
    /// Read the Voice settings once.
    PrefetchSettings,
    OpenSettings,
    CloseSettings,
    /// Read what the Voice settings offer.
    DiscoverOptions,
    /// Mute or unmute the microphone.
    SetMicrophone(bool),
    /// See to it that the microphone is live.
    EnsureMicrophone,
    /// Describe the chosen voice in the status.
    DescribeVoice(String),
    /// The flow is over.
    Finish(Result<(), Failure>),
    /// The list of conversations is there.
    FinishThreads(Result<Vec<ThreadSummary>, Failure>),
}

/// What a script that lists conversations gave.
#[derive(Debug)]
pub struct ThreadReply {
    /// The script gave a list with at least one entry.
    pub found: bool,
    /// The list, or why it could not be read.
    pub threads: Result<Vec<ThreadSummary>, String>,
}

/// What an action gave.
#[derive(Debug)]
pub enum Answer {
    /// Nothing but its success.
    Nothing,
    Flag(bool),
    Word(String),
    /// A point in the page: its two coordinates, written as floating point numbers.
    Point(String, String),
    Threads(ThreadReply),
    Options(VoiceSettingOptions),
    /// A value of another form.
    Other,
}

/// Why a flow failed.
#[derive(Debug)]
pub enum Failure {
    /// An outside step failed, with its message.
    Outside(String),
    NotConnected,
    NotRunning,
    PageNotLoaded,
    PageNotRefreshed,
    NewChatMissing,
    ThreadsUnreadable(String),
    ThreadsUnread,
    ThreadMissing,
    MicrophoneBlocked,
    VoiceControlMissing,
    VoiceNotStarted,
    VoiceInactive,
    SettingsControlMissing,
    SettingsNotShown,
    SettingsCloseMissing,
    SettingsNotClosed,
    MicrophoneNotToggled(bool),
    MicrophoneUnchanged(bool),
    IntelligenceUnavailable,
    RowMissing(String),
    OptionMissing(String, String),
    VoiceNameMissing,
    VoiceUnknown(String),
    CurrentVoiceUnknown,
    VoiceUnreadable,
    VoiceNotSwitched(String),
}

/// The labels of voices, separated by commas.
pub open spec fn labels(voices: Seq<VoiceOption>) -> Seq<char>
    decreases voices.len(),
{
    if voices.len() == 0 {
        Seq::empty()
    } else if voices.len() == 1 {
        voices[0].label@
    } else {
        labels(voices.drop_last()) + ", "@ + voices.last().label@
    }
}

fn label_list(voices: &Vec<VoiceOption>) -> (list: String)
    ensures
        list@ == labels(voices@),
{
    let mut list = String::new();
    let mut next: usize = 0;
    assert(voices@.take(0) =~= Seq::empty());
    assert(list@ =~= labels(voices@.take(0)));
    while next < voices.len()
        invariant
            next <= voices@.len(),
            list@ == labels(voices@.take(next as int)),
        decreases voices@.len() - next,
    {
        assert(voices@.take(next as int + 1).drop_last() =~= voices@.take(next as int));
        if next > 0 {
            list.append(", ");
        }
        list.append(voices[next].label.as_str());
        next = next + 1;
        assert(list@ =~= labels(voices@.take(next as int)));
    }
    assert(voices@.take(next as int) =~= voices@);
    list
}

/// The word for a change of the microphone.
pub open spec fn toggle_word(muted: bool) -> Seq<char> {
    if muted {
        "mute"@
    } else {
        "unmute"@
    }
}

impl Failure {
    /// The message of a failure; `voices` are the voices on offer.
    pub open spec fn explained(self, voices: Seq<VoiceOption>) -> Seq<char> {
        match self {
            Failure::Outside(message) => message@,
            Failure::NotConnected => "Browser CDP is not connected"@,
            Failure::NotRunning => "Browser is not running"@,
            Failure::PageNotLoaded => "ChatGPT page did not finish loading in time"@,
            Failure::PageNotRefreshed => "ChatGPT page did not finish refreshing in time"@,
            Failure::NewChatMissing =>
            "ChatGPT's New chat control is not ready after opening the home page. Show the browser once and retry."@,
            Failure::ThreadsUnreadable(error) => "Could not read recent ChatGPT threads: "@
                + error@,
            Failure::ThreadsUnread => "Could not read recent ChatGPT threads"@,
            Failure::ThreadMissing => "That ChatGPT thread is not visible in the recent list"@,
            Failure::MicrophoneBlocked =>
            "ChatGPT needs microphone access. Click Show browser, enable microphone access in Settings, then press Reconnect Voice."@,
            Failure::VoiceControlMissing =>
            "ChatGPT's Voice control is not visible. Show the browser and open a logged-in conversation."@,
            Failure::VoiceNotStarted =>
            "ChatGPT Voice was clicked, but the voice session did not become active. Use Show browser once to allow the browser microphone, then retry."@,
            Failure::VoiceInactive => "ChatGPT Voice is not active."@,
            Failure::SettingsControlMissing =>
            "ChatGPT's Voice settings control is not visible. Start Voice and try again."@,
            Failure::SettingsNotShown =>
            "ChatGPT Voice settings did not become visible. Show the browser once and retry."@,
            Failure::SettingsCloseMissing =>
            "ChatGPT Voice settings is open, but its close button could not be found."@,
            Failure::SettingsNotClosed => "ChatGPT Voice settings did not close."@,
            Failure::MicrophoneNotToggled(muted) => "ChatGPT's microphone could not be "@
                + toggle_word(muted) + "d."@,
            Failure::MicrophoneUnchanged(muted) => "ChatGPT's microphone did not become "@ + (
            if muted {
                "muted"@
            } else {
                "live"@
            }) + "."@,
            Failure::IntelligenceUnavailable =>
            "ChatGPT Intelligence is not available on this ChatGPT account."@,
            Failure::RowMissing(label) => "The ChatGPT "@ + label@
                + " setting could not be found."@,
            Failure::OptionMissing(label, target) => "The ChatGPT "@ + label@ + " option "@
                + target@ + " was not visible."@,
            Failure::VoiceNameMissing => "A ChatGPT Voice name is required"@,
            Failure::VoiceUnknown(requested) => if labels(voices).len() == 0 {
                "ChatGPT Voice "@ + requested@
                    + " was not found; live Voice options are not available yet."@
            } else {
                "ChatGPT Voice "@ + requested@ + " was not found. Available voices: "@ + labels(
                    voices,
                )
            },
            Failure::CurrentVoiceUnknown => "The current ChatGPT voice could not be identified."@,
            Failure::VoiceUnreadable =>
            "ChatGPT Voice changed, but the selected voice could not be read."@,
            Failure::VoiceNotSwitched(name) => "ChatGPT Voice did not switch to "@ + name@ + "."@,
        }
    }

    /// Puts a failure into words for the panel.
    pub fn explain(&self, voices: &Vec<VoiceOption>) -> (message: String)
        ensures
            message@ == self.explained(voices@),
    {
        match self {
            Failure::Outside(message) => message.clone(),
            Failure::NotConnected => "Browser CDP is not connected".to_owned(),
            Failure::NotRunning => "Browser is not running".to_owned(),
            Failure::PageNotLoaded => "ChatGPT page did not finish loading in time".to_owned(),
            Failure::PageNotRefreshed =>
            "ChatGPT page did not finish refreshing in time".to_owned(),
            Failure::NewChatMissing =>
            "ChatGPT's New chat control is not ready after opening the home page. Show the browser once and retry.".to_owned(),
            Failure::ThreadsUnreadable(error) => text::joined(
                "Could not read recent ChatGPT threads: ",
                error.as_str(),
            ),
            Failure::ThreadsUnread => "Could not read recent ChatGPT threads".to_owned(),
            Failure::ThreadMissing =>
            "That ChatGPT thread is not visible in the recent list".to_owned(),
            Failure::MicrophoneBlocked =>
            "ChatGPT needs microphone access. Click Show browser, enable microphone access in Settings, then press Reconnect Voice.".to_owned(),
            Failure::VoiceControlMissing =>
            "ChatGPT's Voice control is not visible. Show the browser and open a logged-in conversation.".to_owned(),
            Failure::VoiceNotStarted =>
            "ChatGPT Voice was clicked, but the voice session did not become active. Use Show browser once to allow the browser microphone, then retry.".to_owned(),
            Failure::VoiceInactive => "ChatGPT Voice is not active.".to_owned(),
            Failure::SettingsControlMissing =>
            "ChatGPT's Voice settings control is not visible. Start Voice and try again.".to_owned(),
            Failure::SettingsNotShown =>
            "ChatGPT Voice settings did not become visible. Show the browser once and retry.".to_owned(),
            Failure::SettingsCloseMissing =>
            "ChatGPT Voice settings is open, but its close button could not be found.".to_owned(),
            Failure::SettingsNotClosed => "ChatGPT Voice settings did not close.".to_owned(),
            Failure::MicrophoneNotToggled(muted) => {
                let mut message = "ChatGPT's microphone could not be ".to_owned();
                message.append(
                    if *muted {
                        "mute"
                    } else {
                        "unmute"
                    },
                );
                message.append("d.");
                message
            },
            Failure::MicrophoneUnchanged(muted) => {
                let mut message = "ChatGPT's microphone did not become ".to_owned();
                message.append(
                    if *muted {
                        "muted"
                    } else {
                        "live"
                    },
                );
                message.append(".");
                message
            },
            Failure::IntelligenceUnavailable =>
            "ChatGPT Intelligence is not available on this ChatGPT account.".to_owned(),
            Failure::RowMissing(label) => {
                let mut message = "The ChatGPT ".to_owned();
                message.append(label.as_str());
                message.append(" setting could not be found.");
                message
            },
            Failure::OptionMissing(label, target) => {
                let mut message = "The ChatGPT ".to_owned();
                message.append(label.as_str());
                message.append(" option ");
                message.append(target.as_str());
                message.append(" was not visible.");
                message
            },
            Failure::VoiceNameMissing => "A ChatGPT Voice name is required".to_owned(),
            Failure::VoiceUnknown(requested) => {
                let list = label_list(voices);
                let mut message = "ChatGPT Voice ".to_owned();
                message.append(requested.as_str());
                if list.as_str().is_empty() {
                    message.append(" was not found; live Voice options are not available yet.");
                } else {
                    message.append(" was not found. Available voices: ");
                    message.append(list.as_str());
                }
                message
            },
            Failure::CurrentVoiceUnknown =>
            "The current ChatGPT voice could not be identified.".to_owned(),
            Failure::VoiceUnreadable =>
            "ChatGPT Voice changed, but the selected voice could not be read.".to_owned(),
            Failure::VoiceNotSwitched(name) => {
                let mut message = "ChatGPT Voice did not switch to ".to_owned();
                message.append(name.as_str());
                message.append(".");
                message
            },
        }
    }
}

/// What a value that a script gave stands for.
pub open spec fn stands_for(value: json::Json, answer: Answer) -> bool {
    match value {
        json::Json::Flag(flag) => answer == Answer::Flag(flag),
        json::Json::Text(word) => answer matches Answer::Word(found) && found@ == word,
        _ => match (json::number_of(value, "x"@), json::number_of(value, "y"@)) {
            (Some(x), Some(y)) => {
                &&& answer matches Answer::Point(left, top)
                &&& left@ == json::float_text(x) && json::floats_to(x, left@)
                &&& top@ == json::float_text(y) && json::floats_to(y, top@)
            },
            _ => answer is Other,
        },
    }
}

/// Reads a value that a script gave.
pub fn read_answer(value: &Value) -> (answer: Answer)
    ensures
        stands_for(json::json(*value), answer),
{
    if let Some(flag) = value.as_bool() {
        return Answer::Flag(flag);
    }
    if let Some(word) = value.as_str() {
        return Answer::Word(word.to_owned());
    }
    match (json::read_float(value, "x"), json::read_float(value, "y")) {
        (Some(x), Some(y)) => Answer::Point(x, y),
        _ => Answer::Other,
    }
}

/// A script confirmed what it was to do.
pub open spec fn confirmed(reply: Result<Answer, String>) -> bool {
    reply matches Ok(Answer::Flag(true))
}

/// Whether a script confirmed what it was to do.
pub fn is_confirmed(reply: &Result<Answer, String>) -> (result: bool)
    ensures
        result == confirmed(*reply),
{
    match reply {
        Ok(Answer::Flag(flag)) => *flag,
        _ => false,
    }
}

/// A script denied what it was asked.
pub open spec fn denied(reply: Result<Answer, String>) -> bool {
    reply matches Ok(Answer::Flag(false))
}

/// Whether a script denied what it was asked.
pub fn is_denied(reply: &Result<Answer, String>) -> (result: bool)
    ensures
        result == denied(*reply),
{
    match reply {
        Ok(Answer::Flag(flag)) => !*flag,
        _ => false,
    }
}

/// A script gave this word.
pub open spec fn says(reply: Result<Answer, String>, expected: Seq<char>) -> bool {
    reply matches Ok(Answer::Word(word)) && word@ == expected
}

/// Whether a script gave this word.
pub fn does_say(reply: &Result<Answer, String>, expected: &str) -> (result: bool)
    ensures
        result == says(*reply, expected@),
{
    match reply {
        Ok(Answer::Word(word)) => text::same(word.as_str(), expected),
        _ => false,
    }
}

/// The end of a flow after an outside step failed.
pub open spec fn failed(message: String) -> Action {
    Action::Finish(Err(Failure::Outside(message)))
}

/// The end of a flow that succeeded.
pub open spec fn succeeded() -> Action {
    Action::Finish(Ok(()))
}

/// A script confirms by `true`, denies by `false` and says a word by that word alone: an error, or
/// a value of another form, is none of these.
pub proof fn replies_are_taken_literally(reply: Result<Answer, String>, expected: Seq<char>)
    ensures
        confirmed(reply) <==> reply == Ok::<Answer, String>(Answer::Flag(true)),
        denied(reply) <==> reply == Ok::<Answer, String>(Answer::Flag(false)),
        says(reply, expected) <==> (reply is Ok && reply->Ok_0 is Word && reply->Ok_0->Word_0@
            == expected),
        !(confirmed(reply) && denied(reply)),
        reply is Err ==> !confirmed(reply) && !denied(reply) && !says(reply, expected),
{
}

/// A script's value is read for what it is: a flag, a word, or a point where an object holds the
/// two coordinates as numbers. Whole coordinates get a decimal point. Anything else is none of
/// these.
pub proof fn script_values_are_read(
    value: json::Json,
    answer: Answer,
    flag: bool,
    word: Seq<char>,
    object: Map<Seq<char>, json::Json>,
    left: u32,
    top: u32,
)
    requires
        stands_for(value, answer),
    ensures
        value == json::Json::Flag(flag) ==> answer == Answer::Flag(flag),
        value == json::Json::Text(word) ==> answer is Word && answer->Word_0@ == word,
        value is Null ==> answer is Other,
        value == json::Json::Object(object) && !object.contains_key("x"@) ==> answer is Other,
        value == json::Json::Object(object) && !object.contains_key("y"@) ==> answer is Other,
        value == json::Json::Object(object) && object.contains_key("x"@) && object["x"@]
            == json::Json::Number(text::decimal(left as nat)) && object.contains_key("y"@)
            && object["y"@] == json::Json::Number(text::decimal(top as nat)) ==> {
            &&& answer matches Answer::Point(x, y)
            &&& x@ == text::decimal(left as nat) + seq!['.', '0']
            &&& y@ == text::decimal(top as nat) + seq!['.', '0']
        },
{
}

/// A list of voices names each of them once and in order, with a comma between two of them.
pub proof fn voices_are_listed(voices: Seq<VoiceOption>, another: VoiceOption)
    ensures
        labels(Seq::empty()) == Seq::<char>::empty(),
        labels(seq![another]) == another.label@,
        voices.len() > 0 ==> labels(voices.push(another)) == labels(voices) + ", "@
            + another.label@,
{
    assert(voices.push(another).drop_last() =~= voices);
}

/// A failure names what it is about: the message of an outside step word for word, the setting,
/// the option, the voice, and the voices that there are.
pub proof fn failures_name_their_subject(
    name: String,
    other: String,
    voices: Seq<VoiceOption>,
    muted: bool,
)
    ensures
        Failure::Outside(name).explained(voices) == name@,
        Failure::ThreadsUnreadable(name).explained(voices)
            == "Could not read recent ChatGPT threads: "@ + name@,
        Failure::RowMissing(name).explained(voices) == "The ChatGPT "@ + name@
            + " setting could not be found."@,
        Failure::OptionMissing(name, other).explained(voices) == "The ChatGPT "@ + name@
            + " option "@ + other@ + " was not visible."@,
        Failure::VoiceNotSwitched(name).explained(voices) == "ChatGPT Voice did not switch to "@
            + name@ + "."@,
        Failure::VoiceUnknown(name).explained(Seq::empty()) == "ChatGPT Voice "@ + name@
            + " was not found; live Voice options are not available yet."@,
        labels(voices).len() > 0 ==> Failure::VoiceUnknown(name).explained(voices)
            == "ChatGPT Voice "@ + name@ + " was not found. Available voices: "@ + labels(voices),
        Failure::MicrophoneNotToggled(true).explained(voices)
            == "ChatGPT's microphone could not be muted."@,
        Failure::MicrophoneNotToggled(false).explained(voices)
            == "ChatGPT's microphone could not be unmuted."@,
        Failure::MicrophoneUnchanged(true).explained(voices)
            == "ChatGPT's microphone did not become muted."@,
        Failure::MicrophoneUnchanged(false).explained(voices)
            == "ChatGPT's microphone did not become live."@,
{
    reveal_strlit("ChatGPT's microphone could not be ");
    reveal_strlit("mute");
    reveal_strlit("unmute");
    reveal_strlit("d.");
    reveal_strlit("ChatGPT's microphone could not be muted.");
    reveal_strlit("ChatGPT's microphone could not be unmuted.");
    reveal_strlit("ChatGPT's microphone did not become ");
    reveal_strlit("muted");
    reveal_strlit("live");
    reveal_strlit(".");
    reveal_strlit("ChatGPT's microphone did not become muted.");
    reveal_strlit("ChatGPT's microphone did not become live.");
    assert(Failure::MicrophoneNotToggled(true).explained(voices)
        =~= "ChatGPT's microphone could not be muted."@);
    assert(Failure::MicrophoneNotToggled(false).explained(voices)
        =~= "ChatGPT's microphone could not be unmuted."@);
    assert(Failure::MicrophoneUnchanged(true).explained(voices)
        =~= "ChatGPT's microphone did not become muted."@);
    assert(Failure::MicrophoneUnchanged(false).explained(voices)
        =~= "ChatGPT's microphone did not become live."@);
}

} // verus!
