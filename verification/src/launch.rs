//! Starting the dedicated browser and watching over it.

use crate::browser::{
    BrowserSession, BrowserStatus, CDP_FAILURES_BEFORE_RESTART,
};
use crate::flow::Command;
use crate::latency;
use crate::text;
use vstd::prelude::*;

verus! {

/// The shortest time between two looks at the page by the panel, in nanoseconds.
pub const STATUS_PROBE_MIN_INTERVAL: u64 = 1_000_000_000;

/// How long the browser may take to open its control endpoint, in seconds.
pub const CONTROL_TIMEOUT_SECONDS: u64 = 30;

/// A page, worker or other part of the browser that can be controlled.
#[derive(Debug)]
pub struct CdpTarget {
    pub id: String,
    pub target_type: String,
    pub websocket_url: Option<String>,
}

/// What the panel is told while the browser is started and watched.
#[derive(Debug)]
pub enum Note {
    Refreshing,
    SignInDetected,
    /// A failed look while the browser is being started.
    ProbeFailed(u32, String),
    /// A failed look while the browser is being watched.
    WatchFailed(u32, String),
    Unreachable(u32, String),
    WindowClosed,
    LookingForBrowser,
    FirstRun,
    Launching,
    EndpointReady,
    PageConnected,
    TransportStarted,
    BridgeInstalled,
    OpeningPage,
    SessionReady,
    SignInRequired,
    OutputEnded,
    VoiceEnded,
}

/// The text for a failed look that keeps the browser.
pub open spec fn kept_text(what: Seq<char>, failures: u32, error: Seq<char>) -> Seq<char> {
    "Browser status probe failed; keeping the dedicated browser "@ + what + "alive (failure "@
        + text::decimal(failures as nat) + "/"@ + text::decimal(CDP_FAILURES_BEFORE_RESTART as nat)
        + "): "@ + error
}

fn keep_text(what: &str, failures: u32, error: &str) -> (message: String)
    ensures
        message@ == kept_text(what@, failures, error@),
{
    let mut message = "Browser status probe failed; keeping the dedicated browser ".to_owned();
    message.append(what);
    message.append("alive (failure ");
    message.append(text::decimal_text(failures as u64).as_str());
    message.append("/");
    message.append(text::decimal_text(CDP_FAILURES_BEFORE_RESTART as u64).as_str());
    message.append("): ");
    message.append(error);
    message
}

impl Note {
    /// The note in words.
    pub open spec fn worded(self) -> Seq<char> {
        match self {
            Note::Refreshing => "Refreshing the existing browser session."@,
            Note::SignInDetected => "ChatGPT sign-in detected; the session is ready to use."@,
            Note::ProbeFailed(failures, error) => kept_text(""@, failures, error@),
            Note::WatchFailed(failures, error) => kept_text(
                "and Voice session "@,
                failures,
                error@,
            ),
            Note::Unreachable(failures, error) => "The browser session was unreachable after "@
                + text::decimal(failures as nat)
                + " consecutive status probe failures; restarting it ("@ + error@ + ")."@,
            Note::WindowClosed =>
            "The browser window was closed; restarting the dedicated session."@,
            Note::LookingForBrowser => "Looking for the configured browser."@,
            Note::FirstRun =>
            "First-run setup opened the dedicated browser. Sign in to your ChatGPT account at chatgpt.com; GPTVoice will detect the completed sign-in automatically."@,
            Note::Launching => "Launching the isolated browser with CDP enabled."@,
            Note::EndpointReady => "Browser control endpoint is ready."@,
            Note::PageConnected => "Connected to the browser page."@,
            Note::TransportStarted => "Started the local browser audio transport."@,
            Note::BridgeInstalled => "Installed the continuous media bridge."@,
            Note::OpeningPage => "Opening ChatGPT in the dedicated profile."@,
            Note::SessionReady => "ChatGPT session is ready."@,
            Note::SignInRequired =>
            "ChatGPT sign-in is required. Sign in to your account in the dedicated GPTVoice browser window; GPTVoice will continue automatically."@,
            Note::OutputEnded =>
            "ChatGPT Voice output track ended; checking the hidden Voice session state."@,
            Note::VoiceEnded =>
            "ChatGPT Voice ended; the active thread is available for recovery."@,
        }
    }

    /// Puts the note into words.
    pub fn word(&self) -> (message: String)
        ensures
            message@ == self.worded(),
    {
        match self {
            Note::Refreshing => "Refreshing the existing browser session.".to_owned(),
            Note::SignInDetected =>
            "ChatGPT sign-in detected; the session is ready to use.".to_owned(),
            Note::ProbeFailed(failures, error) => keep_text("", *failures, error.as_str()),
            Note::WatchFailed(failures, error) => keep_text(
                "and Voice session ",
                *failures,
                error.as_str(),
            ),
            Note::Unreachable(failures, error) => {
                let mut message = "The browser session was unreachable after ".to_owned();
                message.append(text::decimal_text(*failures as u64).as_str());
                message.append(" consecutive status probe failures; restarting it (");
                message.append(error.as_str());
                message.append(").");
                message
            },
            Note::WindowClosed =>
            "The browser window was closed; restarting the dedicated session.".to_owned(),
            Note::LookingForBrowser => "Looking for the configured browser.".to_owned(),
            Note::FirstRun =>
            "First-run setup opened the dedicated browser. Sign in to your ChatGPT account at chatgpt.com; GPTVoice will detect the completed sign-in automatically.".to_owned(),
            Note::Launching => "Launching the isolated browser with CDP enabled.".to_owned(),
            Note::EndpointReady => "Browser control endpoint is ready.".to_owned(),
            Note::PageConnected => "Connected to the browser page.".to_owned(),
            Note::TransportStarted => "Started the local browser audio transport.".to_owned(),
            Note::BridgeInstalled => "Installed the continuous media bridge.".to_owned(),
            Note::OpeningPage => "Opening ChatGPT in the dedicated profile.".to_owned(),
            Note::SessionReady => "ChatGPT session is ready.".to_owned(),
            Note::SignInRequired =>
            "ChatGPT sign-in is required. Sign in to your account in the dedicated GPTVoice browser window; GPTVoice will continue automatically.".to_owned(),
            Note::OutputEnded =>
            "ChatGPT Voice output track ended; checking the hidden Voice session state.".to_owned(),
            Note::VoiceEnded =>
            "ChatGPT Voice ended; the active thread is available for recovery.".to_owned(),
        }
    }
}

/// Why the browser could not be started.
#[derive(Debug)]
pub enum LaunchFailure {
    Outside(String),
    NoBrowser,
    NoPage,
    BridgeMissing,
}

impl LaunchFailure {
    /// The failure in words.
    pub open spec fn explained(self) -> Seq<char> {
        match self {
            LaunchFailure::Outside(message) => message@,
            LaunchFailure::NoBrowser =>
            "Could not find Brave, Chrome, Edge, or a managed Chromium browser"@,
            LaunchFailure::NoPage => "Browser CDP exposed no controllable page"@,
            LaunchFailure::BridgeMissing =>
            "The embedded browser media bridge could not be loaded"@,
        }
    }

    /// Puts the failure into words.
    pub fn explain(&self) -> (message: String)
        ensures
            message@ == self.explained(),
    {
        match self {
            LaunchFailure::Outside(message) => message.clone(),
            LaunchFailure::NoBrowser =>
            "Could not find Brave, Chrome, Edge, or a managed Chromium browser".to_owned(),
            LaunchFailure::NoPage => "Browser CDP exposed no controllable page".to_owned(),
            LaunchFailure::BridgeMissing =>
            "The embedded browser media bridge could not be loaded".to_owned(),
        }
    }
}

/// What is to happen next.
#[derive(Debug)]
pub enum LaunchAction {
    /// Create the profile directory and tell whether it was ever signed in.
    PrepareProfile,
    /// Tell whether the browser runs.
    CheckProcess,
    /// Look at the page.
    Refresh,
    /// Tell whether the profile was ever signed in.
    CheckMarker,
    /// Take note in the profile that it is signed in.
    WriteMarker,
    /// End the browser and forget about it.
    Stop,
    /// Tell whether a browser is installed.
    FindBrowser,
    /// Launch the browser.
    Launch,
    /// Wait for the control endpoint.
    AwaitControl,
    /// List what can be controlled.
    ReadTargets,
    /// Connect to a page.
    Connect(String),
    /// Send a command to the browser.
    Call(Command),
    /// Start the audio transport and tell whether its script is there.
    StartTransport,
    /// Go to an address.
    Navigate(String),
    /// Run the bridge script in the page.
    RunBridge,
    /// Hide or show the windows.
    SetWindow(bool),
    /// Start the browser from the beginning.
    Start,
    /// The flow is over.
    Finish(Result<(), LaunchFailure>),
}

/// What an action gave.
#[derive(Debug)]
pub enum LaunchAnswer {
    Nothing,
    Flag(bool),
    Process(u32),
    Targets(Vec<CdpTarget>),
}

/// A step: what the panel is told first, and then what is to happen.
#[derive(Debug)]
pub struct LaunchStep {
    pub first: Option<Note>,
    pub second: Option<Note>,
    pub action: LaunchAction,
}

/// A step without a note.
pub open spec fn quiet(action: LaunchAction) -> LaunchStep {
    LaunchStep { first: None, second: None, action }
}

/// A step with one note.
pub open spec fn noted(note: Note, action: LaunchAction) -> LaunchStep {
    LaunchStep { first: Some(note), second: None, action }
}

fn silently(action: LaunchAction) -> (step: LaunchStep)
    ensures
        step == quiet(action),
{
    LaunchStep { first: None, second: None, action }
}

fn telling(note: Note, action: LaunchAction) -> (step: LaunchStep)
    ensures
        step == noted(note, action),
{
    LaunchStep { first: Some(note), second: None, action }
}

/// The first page in a list that can be controlled.
pub open spec fn controllable(targets: Seq<CdpTarget>) -> Option<CdpTarget>
    decreases targets.len(),
{
    if targets.len() == 0 {
        None
    } else if targets[0].target_type@ == "page"@ && targets[0].websocket_url is Some {
        Some(targets[0])
    } else {
        controllable(targets.skip(1))
    }
}

fn find_page(targets: &Vec<CdpTarget>) -> (found: Option<(String, String)>)
    ensures
        match found {
            Some((id, url)) => controllable(targets@) matches Some(target) && target.id == id
                && target.websocket_url == Some(url),
            None => controllable(targets@) is None,
        },
{
    let mut next: usize = 0;
    assert(targets@.skip(0) =~= targets@);
    while next < targets.len()
        invariant
            next <= targets@.len(),
            controllable(targets@) == controllable(targets@.skip(next as int)),
        decreases targets@.len() - next,
    {
        assert(targets@.skip(next as int)[0] == targets@[next as int]);
        assert(targets@.skip(next as int).skip(1) =~= targets@.skip(next as int + 1));
        if text::same(targets[next].target_type.as_str(), "page") {
            if let Some(url) = &targets[next].websocket_url {
                return Some((targets[next].id.clone(), url.clone()));
            }
        }
        next = next + 1;
    }
    None
}

/// A failed look is counted, in the session and in its status.
pub open spec fn with_failure(session: BrowserSession) -> BrowserSession {
    let failures = crate::browser::saturated(session.cdp_status_failures);
    BrowserSession {
        cdp_status_failures: failures,
        status: BrowserStatus { cdp_status_failures: failures, ..session.status },
        ..session
    }
}

/// A restart is counted.
pub open spec fn with_restart(session: BrowserSession) -> BrowserSession {
    BrowserSession {
        cdp_restarts: if session.cdp_restarts == u64::MAX {
            u64::MAX
        } else {
            (session.cdp_restarts + 1) as u64
        },
        ..session
    }
}

fn count_failure(session: &mut BrowserSession)
    ensures
        *final(session) == with_failure(*old(session)),
{
    if session.cdp_status_failures < u32::MAX {
        session.cdp_status_failures = session.cdp_status_failures + 1;
    }
    session.status.cdp_status_failures = session.cdp_status_failures;
}

fn count_restart(session: &mut BrowserSession)
    ensures
        *final(session) == with_restart(*old(session)),
{
    if session.cdp_restarts < u64::MAX {
        session.cdp_restarts = session.cdp_restarts + 1;
    }
}

/// How far starting the browser has got.
#[derive(Debug)]
pub enum LaunchStage {
    Preparing,
    Inspecting,
    Refreshing,
    CheckingMarker,
    MarkingKnown,
    Clearing,
    Finding,
    Launching,
    AwaitingControl,
    ReadingTargets,
    Connecting,
    EnablingRuntime,
    EnablingPage,
    Bypassing,
    StartingTransport,
    InstallingBridge,
    Navigating,
    Bridging,
    LookingAtPage,
    Marking,
    Hiding,
    Failing(LaunchFailure),
}

/// Starting the dedicated browser, or making sure that it still works.
#[derive(Debug)]
pub struct Launch {
    pub stage: LaunchStage,
    pub first_run: bool,
    pub target_id: Option<String>,
}

impl Launch {
    /// Begins with the profile.
    pub fn begin() -> (begun: (Self, LaunchStep))
        ensures
            begun.0 == (Launch { stage: LaunchStage::Preparing, first_run: false, target_id: None }),
            begun.1 == quiet(LaunchAction::PrepareProfile),
    {
        (
            Launch { stage: LaunchStage::Preparing, first_run: false, target_id: None },
            silently(LaunchAction::PrepareProfile),
        )
    }

    /// A start that fails ends the browser before it reports the failure.
    pub open spec fn failing(self, failure: LaunchFailure) -> (Launch, LaunchStep) {
        (
            Launch { stage: LaunchStage::Failing(failure), ..self },
            quiet(LaunchAction::Stop),
        )
    }

    /// The search for an installed browser.
    pub open spec fn finding(self) -> (Launch, LaunchStep) {
        (
            Launch { stage: LaunchStage::Finding, ..self },
            noted(Note::LookingForBrowser, LaunchAction::FindBrowser),
        )
    }

    /// The flow moves on to the next stage.
    pub open spec fn on(self, stage: LaunchStage, step: LaunchStep) -> (Launch, LaunchStep) {
        (Launch { stage, ..self }, step)
    }

    /// The step after an outside step that succeeded.
    pub open spec fn advanced(self, session: BrowserSession, answer: LaunchAnswer) -> (
        Launch,
        BrowserSession,
        LaunchStep,
    ) {
        let flag = answer == LaunchAnswer::Flag(true);
        let next = match self.stage {
            LaunchStage::Preparing => {
                let known = Launch { first_run: !flag, ..self };
                if session.controlled {
                    known.on(LaunchStage::Inspecting, quiet(LaunchAction::CheckProcess))
                } else {
                    known.finding()
                }
            },
            LaunchStage::Inspecting => if flag {
                self.on(
                    LaunchStage::Refreshing,
                    noted(Note::Refreshing, LaunchAction::Refresh),
                )
            } else {
                self.on(LaunchStage::Clearing, noted(Note::WindowClosed, LaunchAction::Stop))
            },
            LaunchStage::Refreshing => if session.status.logged_in {
                self.on(LaunchStage::CheckingMarker, quiet(LaunchAction::CheckMarker))
            } else {
                (self, quiet(LaunchAction::Finish(Ok(()))))
            },
            LaunchStage::CheckingMarker => if flag {
                (self, quiet(LaunchAction::Finish(Ok(()))))
            } else {
                self.on(LaunchStage::MarkingKnown, quiet(LaunchAction::WriteMarker))
            },
            LaunchStage::MarkingKnown => (
                self,
                noted(Note::SignInDetected, LaunchAction::Finish(Ok(()))),
            ),
            LaunchStage::Clearing => self.finding(),
            LaunchStage::Finding => if flag {
                self.on(
                    LaunchStage::Launching,
                    if self.first_run {
                        LaunchStep {
                            first: Some(Note::FirstRun),
                            second: Some(Note::Launching),
                            action: LaunchAction::Launch,
                        }
                    } else {
                        noted(Note::Launching, LaunchAction::Launch)
                    },
                )
            } else {
                self.failing(LaunchFailure::NoBrowser)
            },
            LaunchStage::Launching => self.on(
                LaunchStage::AwaitingControl,
                quiet(LaunchAction::AwaitControl),
            ),
            LaunchStage::AwaitingControl => self.on(
                LaunchStage::ReadingTargets,
                noted(Note::EndpointReady, LaunchAction::ReadTargets),
            ),
            LaunchStage::ReadingTargets => {
                let page = match answer {
                    LaunchAnswer::Targets(targets) => controllable(targets@),
                    _ => None,
                };
                match page {
                    Some(target) => (Launch { target_id: Some(target.id), ..self }).on(
                        LaunchStage::Connecting,
                        quiet(LaunchAction::Connect(target.websocket_url.unwrap())),
                    ),
                    None => self.failing(LaunchFailure::NoPage),
                }
            },
            LaunchStage::Connecting => self.on(
                LaunchStage::EnablingRuntime,
                noted(Note::PageConnected, LaunchAction::Call(Command::EnableRuntime)),
            ),
            LaunchStage::EnablingRuntime => self.on(
                LaunchStage::EnablingPage,
                quiet(LaunchAction::Call(Command::EnablePage)),
            ),
            LaunchStage::EnablingPage => self.on(
                LaunchStage::Bypassing,
                quiet(LaunchAction::Call(Command::BypassContentPolicy)),
            ),
            LaunchStage::Bypassing => self.on(
                LaunchStage::StartingTransport,
                quiet(LaunchAction::StartTransport),
            ),
            LaunchStage::StartingTransport => if flag {
                self.on(
                    LaunchStage::InstallingBridge,
                    noted(Note::TransportStarted, LaunchAction::Call(Command::InstallBridge)),
                )
            } else {
                self.on(
                    LaunchStage::Failing(LaunchFailure::BridgeMissing),
                    noted(Note::TransportStarted, LaunchAction::Stop),
                )
            },
            LaunchStage::InstallingBridge => (Launch { target_id: None, ..self }).on(
                LaunchStage::Navigating,
                LaunchStep {
                    first: Some(Note::BridgeInstalled),
                    second: Some(Note::OpeningPage),
                    action: LaunchAction::Navigate(session.url),
                },
            ),
            LaunchStage::Navigating => self.on(
                LaunchStage::Bridging,
                quiet(LaunchAction::RunBridge),
            ),
            LaunchStage::Bridging => self.on(
                LaunchStage::LookingAtPage,
                quiet(LaunchAction::Refresh),
            ),
            LaunchStage::LookingAtPage => if session.status.logged_in {
                self.on(
                    LaunchStage::Marking,
                    noted(Note::SessionReady, LaunchAction::WriteMarker),
                )
            } else {
                (self, noted(Note::SignInRequired, LaunchAction::Finish(Ok(()))))
            },
            LaunchStage::Marking => self.on(
                LaunchStage::Hiding,
                quiet(LaunchAction::SetWindow(session.hide_when_ready)),
            ),
            LaunchStage::Hiding => (self, quiet(LaunchAction::Finish(Ok(())))),
            LaunchStage::Failing(failure) => (
                Launch { stage: LaunchStage::Preparing, ..self },
                quiet(LaunchAction::Finish(Err(failure))),
            ),
        };
        (next.0, self.recorded(session, answer), next.1)
    }

    /// What the session takes note of on the way: the launched process, and the page once it is
    /// under control with its audio attached.
    pub open spec fn recorded(self, session: BrowserSession, answer: LaunchAnswer) -> BrowserSession {
        match self.stage {
            LaunchStage::Launching => match answer {
                LaunchAnswer::Process(process) => BrowserSession {
                    browser_process_id: Some(process),
                    child: Some(process),
                    ..session
                },
                _ => session,
            },
            LaunchStage::InstallingBridge => BrowserSession {
                page_target_id: self.target_id,
                controlled: true,
                media: true,
                ..session
            },
            _ => session,
        }
    }

    /// These steps are done as well as they can be: their failure changes nothing.
    pub open spec fn optional(self) -> bool {
        match self.stage {
            LaunchStage::MarkingKnown => true,
            LaunchStage::Clearing => true,
            LaunchStage::Bridging => true,
            LaunchStage::Marking => true,
            LaunchStage::Hiding => true,
            LaunchStage::Failing(_) => true,
            LaunchStage::Inspecting => true,
            LaunchStage::CheckingMarker => true,
            LaunchStage::Finding => true,
            _ => false,
        }
    }

    /// The step after a failed look at a browser that runs: it is kept at first, and restarted
    /// when it fails too often.
    pub open spec fn probe_failed(self, session: BrowserSession, error: String) -> (
        Launch,
        BrowserSession,
        LaunchStep,
    ) {
        let counted = with_failure(session);
        if counted.cdp_status_failures < CDP_FAILURES_BEFORE_RESTART {
            (
                self,
                counted,
                noted(
                    Note::ProbeFailed(counted.cdp_status_failures, error),
                    LaunchAction::Finish(Ok(())),
                ),
            )
        } else {
            (
                Launch { stage: LaunchStage::Clearing, ..self },
                with_restart(counted),
                noted(
                    Note::Unreachable(counted.cdp_status_failures, error),
                    LaunchAction::Stop,
                ),
            )
        }
    }

    /// The step after a reply.
    pub open spec fn after(self, session: BrowserSession, reply: Result<LaunchAnswer, String>) -> (
        Launch,
        BrowserSession,
        LaunchStep,
    ) {
        match reply {
            Ok(answer) => self.advanced(session, answer),
            Err(error) => if self.stage is Refreshing {
                self.probe_failed(session, error)
            } else if self.optional() {
                self.advanced(session, LaunchAnswer::Nothing)
            } else {
                let failed = self.failing(LaunchFailure::Outside(error));
                (failed.0, session, failed.1)
            },
        }
    }

    fn fail(self, failure: LaunchFailure) -> (continued: (Self, LaunchStep))
        ensures
            continued == self.failing(failure),
    {
        (
            Launch {
                stage: LaunchStage::Failing(failure),
                first_run: self.first_run,
                target_id: self.target_id,
            },
            silently(LaunchAction::Stop),
        )
    }

    fn find(self) -> (continued: (Self, LaunchStep))
        ensures
            continued == self.finding(),
    {
        let mut launch = self;
        launch.stage = LaunchStage::Finding;
        (launch, telling(Note::LookingForBrowser, LaunchAction::FindBrowser))
    }

    fn go(self, stage: LaunchStage, step: LaunchStep) -> (continued: (Self, LaunchStep))
        ensures
            continued == self.on(stage, step),
    {
        let mut launch = self;
        launch.stage = stage;
        (launch, step)
    }

    fn known_browser(self, session: &BrowserSession, flag: bool) -> (continued: (Self, LaunchStep))
        requires
            self.stage is Inspecting || self.stage is Refreshing || self.stage is CheckingMarker
                || self.stage is MarkingKnown || self.stage is Clearing,
        ensures
            forall|answer: LaunchAnswer|
                (answer == LaunchAnswer::Flag(true)) == flag ==> {
                    let next = #[trigger] self.advanced(*session, answer);
                    next.1 == *session && continued == (next.0, next.2)
                },
    {
        match self.stage {
            LaunchStage::Inspecting => {
                if flag {
                    self.go(
                        LaunchStage::Refreshing,
                        telling(Note::Refreshing, LaunchAction::Refresh),
                    )
                } else {
                    self.go(
                        LaunchStage::Clearing,
                        telling(Note::WindowClosed, LaunchAction::Stop),
                    )
                }
            },
            LaunchStage::Refreshing => {
                if session.status.logged_in {
                    self.go(LaunchStage::CheckingMarker, silently(LaunchAction::CheckMarker))
                } else {
                    (self, silently(LaunchAction::Finish(Ok(()))))
                }
            },
            LaunchStage::CheckingMarker => {
                if flag {
                    (self, silently(LaunchAction::Finish(Ok(()))))
                } else {
                    self.go(LaunchStage::MarkingKnown, silently(LaunchAction::WriteMarker))
                }
            },
            LaunchStage::MarkingKnown => (
                self,
                telling(Note::SignInDetected, LaunchAction::Finish(Ok(()))),
            ),
            _ => self.find(),
        }
    }

    fn advance(self, session: &mut BrowserSession, answer: LaunchAnswer) -> (continued: (
        Self,
        LaunchStep,
    ))
        ensures
            (continued.0, *final(session), continued.1) == self.advanced(*old(session), answer),
    {
        let flag = match answer {
            LaunchAnswer::Flag(flag) => flag,
            _ => false,
        };
        match self.stage {
            LaunchStage::Preparing => {
                let mut launch = self;
                launch.first_run = !flag;
                if session.controlled {
                    launch.go(LaunchStage::Inspecting, silently(LaunchAction::CheckProcess))
                } else {
                    launch.find()
                }
            },
            LaunchStage::Finding => {
                if !flag {
                    return self.fail(LaunchFailure::NoBrowser);
                }
                let step = if self.first_run {
                    LaunchStep {
                        first: Some(Note::FirstRun),
                        second: Some(Note::Launching),
                        action: LaunchAction::Launch,
                    }
                } else {
                    telling(Note::Launching, LaunchAction::Launch)
                };
                self.go(LaunchStage::Launching, step)
            },
            LaunchStage::Launching => {
                if let LaunchAnswer::Process(process) = answer {
                    session.browser_process_id = Some(process);
                    session.child = Some(process);
                }
                self.go(LaunchStage::AwaitingControl, silently(LaunchAction::AwaitControl))
            },
            LaunchStage::AwaitingControl => self.go(
                LaunchStage::ReadingTargets,
                telling(Note::EndpointReady, LaunchAction::ReadTargets),
            ),
            LaunchStage::ReadingTargets => {
                let page = match &answer {
                    LaunchAnswer::Targets(targets) => find_page(targets),
                    _ => None,
                };
                match page {
                    Some((id, url)) => {
                        let mut launch = self;
                        launch.target_id = Some(id);
                        launch.go(LaunchStage::Connecting, silently(LaunchAction::Connect(url)))
                    },
                    None => self.fail(LaunchFailure::NoPage),
                }
            },
            LaunchStage::Connecting => self.go(
                LaunchStage::EnablingRuntime,
                telling(Note::PageConnected, LaunchAction::Call(Command::EnableRuntime)),
            ),
            LaunchStage::EnablingRuntime => self.go(
                LaunchStage::EnablingPage,
                silently(LaunchAction::Call(Command::EnablePage)),
            ),
            LaunchStage::EnablingPage => self.go(
                LaunchStage::Bypassing,
                silently(LaunchAction::Call(Command::BypassContentPolicy)),
            ),
            LaunchStage::Bypassing => self.go(
                LaunchStage::StartingTransport,
                silently(LaunchAction::StartTransport),
            ),
            LaunchStage::StartingTransport => {
                if flag {
                    self.go(
                        LaunchStage::InstallingBridge,
                        telling(Note::TransportStarted, LaunchAction::Call(Command::InstallBridge)),
                    )
                } else {
                    self.go(
                        LaunchStage::Failing(LaunchFailure::BridgeMissing),
                        telling(Note::TransportStarted, LaunchAction::Stop),
                    )
                }
            },
            LaunchStage::InstallingBridge => {
                let Launch { stage, first_run, target_id } = self;
                session.page_target_id = target_id;
                session.controlled = true;
                session.media = true;
                (
                    Launch { stage: LaunchStage::Navigating, first_run, target_id: None },
                    LaunchStep {
                        first: Some(Note::BridgeInstalled),
                        second: Some(Note::OpeningPage),
                        action: LaunchAction::Navigate(session.url.clone()),
                    },
                )
            },
            LaunchStage::Navigating => self.go(
                LaunchStage::Bridging,
                silently(LaunchAction::RunBridge),
            ),
            LaunchStage::Bridging => self.go(
                LaunchStage::LookingAtPage,
                silently(LaunchAction::Refresh),
            ),
            LaunchStage::LookingAtPage => {
                if session.status.logged_in {
                    self.go(
                        LaunchStage::Marking,
                        telling(Note::SessionReady, LaunchAction::WriteMarker),
                    )
                } else {
                    (self, telling(Note::SignInRequired, LaunchAction::Finish(Ok(()))))
                }
            },
            LaunchStage::Marking => self.go(
                LaunchStage::Hiding,
                silently(LaunchAction::SetWindow(session.hide_when_ready)),
            ),
            LaunchStage::Hiding => (self, silently(LaunchAction::Finish(Ok(())))),
            LaunchStage::Failing(failure) => (
                Launch {
                    stage: LaunchStage::Preparing,
                    first_run: self.first_run,
                    target_id: self.target_id,
                },
                silently(LaunchAction::Finish(Err(failure))),
            ),
            _ => self.known_browser(session, flag),
        }
    }

    /// Goes on with starting the browser.
    pub fn next(self, session: &mut BrowserSession, reply: Result<LaunchAnswer, String>) -> (
    continued: (Self, LaunchStep))
        ensures
            (continued.0, *final(session), continued.1) == self.after(*old(session), reply),
    {
        let error = match reply {
            Ok(answer) => {
                return self.advance(session, answer);
            },
            Err(error) => error,
        };
        match self.stage {
            LaunchStage::Refreshing => {
                count_failure(session);
                let failures: u32 = session.cdp_status_failures;
                if failures < CDP_FAILURES_BEFORE_RESTART {
                    (
                        self,
                        telling(Note::ProbeFailed(failures, error), LaunchAction::Finish(Ok(()))),
                    )
                } else {
                    count_restart(session);
                    self.go(
                        LaunchStage::Clearing,
                        telling(Note::Unreachable(failures, error), LaunchAction::Stop),
                    )
                }
            },
            LaunchStage::MarkingKnown => self.advance(session, LaunchAnswer::Nothing),
            LaunchStage::Clearing => self.advance(session, LaunchAnswer::Nothing),
            LaunchStage::Bridging => self.advance(session, LaunchAnswer::Nothing),
            LaunchStage::Marking => self.advance(session, LaunchAnswer::Nothing),
            LaunchStage::Hiding => self.advance(session, LaunchAnswer::Nothing),
            LaunchStage::Failing(_) => self.advance(session, LaunchAnswer::Nothing),
            LaunchStage::Inspecting => self.advance(session, LaunchAnswer::Nothing),
            LaunchStage::CheckingMarker => self.advance(session, LaunchAnswer::Nothing),
            LaunchStage::Finding => self.advance(session, LaunchAnswer::Nothing),
            _ => self.fail(LaunchFailure::Outside(error)),
        }
    }
}

/// A start that reports a failure has ended the browser before: the step before the report is
/// always the end of the browser.
pub proof fn failed_start_ends_the_browser(
    launch: Launch,
    session: BrowserSession,
    reply: Result<LaunchAnswer, String>,
)
    ensures
        launch.after(session, reply).2.action matches LaunchAction::Finish(Err(_))
            ==> launch.stage is Failing,
        launch.after(session, reply).0.stage is Failing ==> launch.after(
            session,
            reply,
        ).2.action is Stop,
{
}

/// How many steps a start takes at most from here.
pub open spec fn steps_to_start(stage: LaunchStage) -> nat {
    match stage {
        LaunchStage::Preparing => 22,
        LaunchStage::Inspecting => 21,
        LaunchStage::Refreshing => 20,
        LaunchStage::CheckingMarker => 19,
        LaunchStage::MarkingKnown => 18,
        LaunchStage::Clearing => 17,
        LaunchStage::Finding => 16,
        LaunchStage::Launching => 15,
        LaunchStage::AwaitingControl => 14,
        LaunchStage::ReadingTargets => 13,
        LaunchStage::Connecting => 12,
        LaunchStage::EnablingRuntime => 11,
        LaunchStage::EnablingPage => 10,
        LaunchStage::Bypassing => 9,
        LaunchStage::StartingTransport => 8,
        LaunchStage::InstallingBridge => 7,
        LaunchStage::Navigating => 6,
        LaunchStage::Bridging => 5,
        LaunchStage::LookingAtPage => 4,
        LaunchStage::Marking => 3,
        LaunchStage::Hiding => 2,
        LaunchStage::Failing(_) => 1,
    }
}

/// Every start of the browser ends: whatever the outside replies, each step ends it or leaves
/// fewer steps.
pub proof fn starts_end(launch: Launch, session: BrowserSession, reply: Result<LaunchAnswer, String>)
    ensures
        launch.after(session, reply).2.action is Finish || steps_to_start(
            launch.after(session, reply).0.stage,
        ) < steps_to_start(launch.stage),
{
}

/// The page counts as controlled only when its bridge is installed, and then its audio is attached.
pub proof fn control_comes_with_audio(
    launch: Launch,
    session: BrowserSession,
    reply: Result<LaunchAnswer, String>,
)
    requires
        !session.controlled,
        launch.after(session, reply).1.controlled,
    ensures
        launch.stage is InstallingBridge,
        reply is Ok,
        launch.after(session, reply).1.media,
{
}

/// A running browser survives two failed looks in a row and is restarted at the third.
pub proof fn third_failed_look_restarts(launch: Launch, session: BrowserSession, error: String)
    requires
        launch.stage is Refreshing,
    ensures
        session.cdp_status_failures < 2 ==> {
            let (after, kept, step) = launch.after(session, Err(error));
            &&& step.action == LaunchAction::Finish(Ok(()))
            &&& kept.cdp_status_failures == session.cdp_status_failures + 1
            &&& kept.cdp_restarts == session.cdp_restarts
        },
        session.cdp_status_failures == 2 && session.cdp_restarts < u64::MAX ==> {
            let (after, restarted, step) = launch.after(session, Err(error));
            &&& step.action is Stop
            &&& restarted.cdp_restarts == session.cdp_restarts + 1
        },
{
}

/// How far watching the browser has got.
#[derive(Debug, Clone, Copy, PartialEq, Eq, Structural)]
pub enum ProbeStage {
    Inspecting,
    ToFront,
    Focusing,
    KeepingActive,
    Refreshing,
    Clearing,
    Starting,
}

/// Watching over a browser that was started.
#[derive(Debug)]
pub struct StatusProbe {
    pub stage: ProbeStage,
    pub voice_was_active: bool,
    pub tracks_before: u64,
}

/// The page was looked at a moment ago.
pub open spec fn looked_recently(session: BrowserSession, now: u64) -> bool {
    session.last_status_refresh_at matches Some(at) && latency::elapsed(now, at)
        < STATUS_PROBE_MIN_INTERVAL
}

impl StatusProbe {
    /// Begins to watch: a browser that is not under control is left alone.
    pub fn status_probe(session: &BrowserSession) -> (begun: (Self, LaunchStep))
        ensures
            begun.0 == (StatusProbe {
                stage: ProbeStage::Inspecting,
                voice_was_active: false,
                tracks_before: 0,
            }),
            begun.1 == quiet(
                if session.controlled {
                    LaunchAction::CheckProcess
                } else {
                    LaunchAction::Finish(Ok(()))
                },
            ),
    {
        let probe = StatusProbe {
            stage: ProbeStage::Inspecting,
            voice_was_active: false,
            tracks_before: 0,
        };
        if session.controlled {
            (probe, silently(LaunchAction::CheckProcess))
        } else {
            (probe, silently(LaunchAction::Finish(Ok(()))))
        }
    }

    /// A look at the page, unless there was one a moment ago.
    pub open spec fn looking(self, session: BrowserSession, now: u64) -> (StatusProbe, LaunchStep) {
        if looked_recently(session, now) {
            (self, quiet(LaunchAction::Finish(Ok(()))))
        } else {
            (
                StatusProbe {
                    stage: ProbeStage::Refreshing,
                    voice_was_active: session.status.voice_mode_active,
                    tracks_before: session.status.media.output_track_count,
                },
                quiet(LaunchAction::Refresh),
            )
        }
    }

    /// What the panel is told after a look: that the audio ended, and that Voice ended by itself.
    pub open spec fn looked(self, session: BrowserSession) -> LaunchStep {
        LaunchStep {
            first: if self.tracks_before > 0 && session.status.media.output_track_count == 0 {
                Some(Note::OutputEnded)
            } else {
                None
            },
            second: if self.voice_was_active && !session.status.voice_mode_active
                && !session.status.voice_limit_reached {
                Some(Note::VoiceEnded)
            } else {
                None
            },
            action: LaunchAction::Finish(Ok(())),
        }
    }

    /// The step after a reply. A hidden window is kept awake, so that its page goes on reporting.
    pub open spec fn after(
        self,
        session: BrowserSession,
        reply: Result<LaunchAnswer, String>,
        now: u64,
    ) -> (StatusProbe, BrowserSession, LaunchStep) {
        match self.stage {
            ProbeStage::Inspecting => if reply matches Ok(answer) && answer == LaunchAnswer::Flag(
                true,
            ) {
                if session.status.window_hidden {
                    (
                        StatusProbe { stage: ProbeStage::ToFront, ..self },
                        session,
                        quiet(LaunchAction::Call(Command::BringToFront)),
                    )
                } else {
                    (self.looking(session, now).0, session, self.looking(session, now).1)
                }
            } else {
                (
                    StatusProbe { stage: ProbeStage::Clearing, ..self },
                    session,
                    noted(Note::WindowClosed, LaunchAction::Stop),
                )
            },
            ProbeStage::ToFront => (
                StatusProbe { stage: ProbeStage::Focusing, ..self },
                session,
                quiet(LaunchAction::Call(Command::EmulateFocus)),
            ),
            ProbeStage::Focusing => (
                StatusProbe { stage: ProbeStage::KeepingActive, ..self },
                session,
                quiet(LaunchAction::Call(Command::KeepActive)),
            ),
            ProbeStage::KeepingActive => (
                self.looking(session, now).0,
                session,
                self.looking(session, now).1,
            ),
            ProbeStage::Refreshing => match reply {
                Ok(_) => (self, session, self.looked(session)),
                Err(error) => {
                    let counted = with_failure(session);
                    if counted.cdp_status_failures < CDP_FAILURES_BEFORE_RESTART {
                        (
                            self,
                            counted,
                            noted(
                                Note::WatchFailed(counted.cdp_status_failures, error),
                                LaunchAction::Finish(Ok(())),
                            ),
                        )
                    } else {
                        (
                            StatusProbe { stage: ProbeStage::Clearing, ..self },
                            with_restart(counted),
                            noted(
                                Note::Unreachable(counted.cdp_status_failures, error),
                                LaunchAction::Stop,
                            ),
                        )
                    }
                },
            },
            ProbeStage::Clearing => (
                StatusProbe { stage: ProbeStage::Starting, ..self },
                session,
                quiet(LaunchAction::Start),
            ),
            ProbeStage::Starting => match reply {
                Ok(_) => (self, session, quiet(LaunchAction::Finish(Ok(())))),
                Err(error) => (
                    self,
                    session,
                    quiet(LaunchAction::Finish(Err(LaunchFailure::Outside(error)))),
                ),
            },
        }
    }

    fn look(self, session: &BrowserSession, now: u64) -> (continued: (Self, LaunchStep))
        ensures
            continued == self.looking(*session, now),
    {
        let recent = match session.last_status_refresh_at {
            Some(at) => latency::since(now, at) < STATUS_PROBE_MIN_INTERVAL,
            None => false,
        };
        if recent {
            (self, silently(LaunchAction::Finish(Ok(()))))
        } else {
            (
                StatusProbe {
                    stage: ProbeStage::Refreshing,
                    voice_was_active: session.status.voice_mode_active,
                    tracks_before: session.status.media.output_track_count,
                },
                silently(LaunchAction::Refresh),
            )
        }
    }

    /// Goes on with watching.
    pub fn next(
        self,
        session: &mut BrowserSession,
        reply: Result<LaunchAnswer, String>,
        now: u64,
    ) -> (continued: (Self, LaunchStep))
        ensures
            (continued.0, *final(session), continued.1) == self.after(*old(session), reply, now),
    {
        let mut probe = self;
        match probe.stage {
            ProbeStage::Inspecting => {
                let running = match reply {
                    Ok(LaunchAnswer::Flag(flag)) => flag,
                    _ => false,
                };
                if !running {
                    probe.stage = ProbeStage::Clearing;
                    (probe, telling(Note::WindowClosed, LaunchAction::Stop))
                } else if session.status.window_hidden {
                    probe.stage = ProbeStage::ToFront;
                    (probe, silently(LaunchAction::Call(Command::BringToFront)))
                } else {
                    probe.look(session, now)
                }
            },
            ProbeStage::ToFront => {
                probe.stage = ProbeStage::Focusing;
                (probe, silently(LaunchAction::Call(Command::EmulateFocus)))
            },
            ProbeStage::Focusing => {
                probe.stage = ProbeStage::KeepingActive;
                (probe, silently(LaunchAction::Call(Command::KeepActive)))
            },
            ProbeStage::KeepingActive => probe.look(session, now),
            ProbeStage::Refreshing => match reply {
                Ok(_) => {
                    let first = if probe.tracks_before > 0
                        && session.status.media.output_track_count == 0 {
                        Some(Note::OutputEnded)
                    } else {
                        None
                    };
                    let second = if probe.voice_was_active && !session.status.voice_mode_active
                        && !session.status.voice_limit_reached {
                        Some(Note::VoiceEnded)
                    } else {
                        None
                    };
                    (probe, LaunchStep { first, second, action: LaunchAction::Finish(Ok(())) })
                },
                Err(error) => {
                    count_failure(session);
                    let failures: u32 = session.cdp_status_failures;
                    if failures < CDP_FAILURES_BEFORE_RESTART {
                        (
                            probe,
                            telling(
                                Note::WatchFailed(failures, error),
                                LaunchAction::Finish(Ok(())),
                            ),
                        )
                    } else {
                        count_restart(session);
                        probe.stage = ProbeStage::Clearing;
                        (probe, telling(Note::Unreachable(failures, error), LaunchAction::Stop))
                    }
                },
            },
            ProbeStage::Clearing => {
                probe.stage = ProbeStage::Starting;
                (probe, silently(LaunchAction::Start))
            },
            ProbeStage::Starting => match reply {
                Ok(_) => (probe, silently(LaunchAction::Finish(Ok(())))),
                Err(error) => (
                    probe,
                    silently(LaunchAction::Finish(Err(LaunchFailure::Outside(error)))),
                ),
            },
        }
    }
}

/// How many steps a watch takes at most from here.
pub open spec fn steps_to_watch(stage: ProbeStage) -> nat {
    match stage {
        ProbeStage::Inspecting => 7,
        ProbeStage::ToFront => 6,
        ProbeStage::Focusing => 5,
        ProbeStage::KeepingActive => 4,
        ProbeStage::Refreshing => 3,
        ProbeStage::Clearing => 2,
        ProbeStage::Starting => 1,
    }
}

/// Every watch over the browser ends: whatever the outside replies, each step ends it or leaves
/// fewer steps.
pub proof fn watches_end(
    probe: StatusProbe,
    session: BrowserSession,
    reply: Result<LaunchAnswer, String>,
    now: u64,
)
    ensures
        probe.after(session, reply, now).2.action is Finish || steps_to_watch(
            probe.after(session, reply, now).0.stage,
        ) < steps_to_watch(probe.stage),
{
}

/// A browser that is watched survives two failed looks in a row and is restarted at the third;
/// one that is gone is restarted at once.
pub proof fn watched_browser_is_restarted(
    probe: StatusProbe,
    session: BrowserSession,
    error: String,
    now: u64,
)
    ensures
        probe.stage is Refreshing && session.cdp_status_failures < 2 ==> probe.after(
            session,
            Err(error),
            now,
        ).2.action == LaunchAction::Finish(Ok(())),
        probe.stage is Refreshing && session.cdp_status_failures == 2 ==> probe.after(
            session,
            Err(error),
            now,
        ).2.action is Stop,
        probe.stage is Inspecting ==> probe.after(
            session,
            Ok(LaunchAnswer::Flag(false)),
            now,
        ).2.action is Stop,
        probe.stage is Clearing ==> probe.after(
            session,
            Ok(LaunchAnswer::Nothing),
            now,
        ).2.action is Start,
{
}

/// What the state of a launched process and its control endpoint mean for the wait.
#[derive(Debug)]
pub enum ControlReply {
    /// The process cannot be asked.
    Uninspectable(String),
    /// The process is gone, with its exit status.
    Exited(String),
    /// The process runs.
    Running,
    /// The endpoint answered, and its answer was read.
    Answered,
    /// The endpoint answered with something unreadable.
    Unreadable(String),
    /// The endpoint does not answer yet.
    Refused(String),
    /// The pause is over.
    Waited,
}

/// What is to happen next in the wait.
#[derive(Debug)]
pub enum ControlAction {
    CheckProcess,
    Request,
    Pause,
    Finish(Result<(), String>),
}

/// Waiting for the control endpoint of a launched browser.
#[derive(Debug)]
pub struct ControlWait {
    pub started_at: u64,
    pub last_error: Option<String>,
}

/// The message when the endpoint did not come up in time.
pub open spec fn timed_out_message(last_error: Option<Seq<char>>) -> Seq<char> {
    "Browser did not expose CDP within "@ + text::decimal(CONTROL_TIMEOUT_SECONDS as nat)
        + " seconds"@ + match last_error {
        Some(error) => ": "@ + error,
        None => Seq::empty(),
    }
}

impl ControlWait {
    /// Begins to wait.
    pub fn wait_for_json(now: u64) -> (begun: (Self, ControlAction))
        ensures
            begun.0 == (ControlWait { started_at: now, last_error: None }),
            begun.1 == ControlAction::CheckProcess,
    {
        (ControlWait { started_at: now, last_error: None }, ControlAction::CheckProcess)
    }

    /// The time of the wait is up.
    pub open spec fn expired(self, now: u64) -> bool {
        latency::elapsed(now, self.started_at) >= CONTROL_TIMEOUT_SECONDS * 1_000_000_000
    }

    /// Goes on with waiting.
    pub fn next(self, reply: ControlReply, now: u64) -> (continued: (Self, ControlAction))
        ensures
            continued.0.started_at == self.started_at,
            match reply {
                ControlReply::Uninspectable(error) => continued.1 matches ControlAction::Finish(
                    Err(message),
                ) && message@ == "Could not inspect browser process: "@ + error@,
                ControlReply::Exited(status) => continued.1 matches ControlAction::Finish(
                    Err(message),
                ) && message@ == "The browser exited before CDP was ready ("@ + status@ + ")"@,
                ControlReply::Running => continued == (self, ControlAction::Request),
                ControlReply::Answered => continued == (self, ControlAction::Finish(Ok(()))),
                ControlReply::Unreadable(error) => continued.1 matches ControlAction::Finish(
                    Err(message),
                ) && message@ == "Could not parse browser CDP response: "@ + error@,
                ControlReply::Refused(error) => continued == (
                    ControlWait { last_error: Some(error), ..self },
                    ControlAction::Pause,
                ),
                ControlReply::Waited => if self.expired(now) {
                    continued.1 matches ControlAction::Finish(Err(message)) && message@
                        == timed_out_message(text::option_view(self.last_error))
                } else {
                    continued == (self, ControlAction::CheckProcess)
                },
            },
    {
        match reply {
            ControlReply::Uninspectable(error) => {
                let message = text::joined("Could not inspect browser process: ", error.as_str());
                (self, ControlAction::Finish(Err(message)))
            },
            ControlReply::Exited(status) => {
                let mut message = "The browser exited before CDP was ready (".to_owned();
                message.append(status.as_str());
                message.append(")");
                (self, ControlAction::Finish(Err(message)))
            },
            ControlReply::Running => (self, ControlAction::Request),
            ControlReply::Answered => (self, ControlAction::Finish(Ok(()))),
            ControlReply::Unreadable(error) => {
                let message = text::joined(
                    "Could not parse browser CDP response: ",
                    error.as_str(),
                );
                (self, ControlAction::Finish(Err(message)))
            },
            ControlReply::Refused(error) => (
                ControlWait { started_at: self.started_at, last_error: Some(error) },
                ControlAction::Pause,
            ),
            ControlReply::Waited => {
                if latency::since(now, self.started_at) < CONTROL_TIMEOUT_SECONDS * 1_000_000_000 {
                    return (self, ControlAction::CheckProcess);
                }
                let mut message = "Browser did not expose CDP within ".to_owned();
                message.append(text::decimal_text(CONTROL_TIMEOUT_SECONDS).as_str());
                message.append(" seconds");
                if let Some(error) = &self.last_error {
                    message.append(": ");
                    message.append(error.as_str());
                }
                assert(message@ =~= timed_out_message(text::option_view(self.last_error)));
                (self, ControlAction::Finish(Err(message)))
            },
        }
    }
}

// ---------------------------------------------------------------------------
// What starting and watching are for
// ---------------------------------------------------------------------------

/// The replies to the steps that prepare a page, none of which failed.
pub struct PageReplies {
    pub endpoint: LaunchAnswer,
    pub connected: LaunchAnswer,
    pub runtime: LaunchAnswer,
    pub page: LaunchAnswer,
    pub bypass: LaunchAnswer,
    pub bridge: LaunchAnswer,
    pub navigated: LaunchAnswer,
    pub refreshed: LaunchAnswer,
}

/// A browser that does not run yet is found and launched; a profile that was never signed in is
/// announced as a first run.
pub proof fn installed_browser_is_launched(
    launch: Launch,
    session: BrowserSession,
    signed_in_before: bool,
    process: u32,
)
    requires
        launch.stage is Preparing,
        !session.controlled,
    ensures
        ({
            let (finding, kept, find) = launch.after(
                session,
                Ok(LaunchAnswer::Flag(signed_in_before)),
            );
            let (launching, kept, step) = finding.after(kept, Ok(LaunchAnswer::Flag(true)));
            let (waiting, running, wait) = launching.after(kept, Ok(LaunchAnswer::Process(process)));
            &&& find.action == LaunchAction::FindBrowser
            &&& step.action == LaunchAction::Launch
            &&& step.first == Some(Note::FirstRun) <==> !signed_in_before
            &&& signed_in_before ==> step.first == Some(Note::Launching)
            &&& !signed_in_before ==> step.second == Some(Note::Launching)
            &&& kept == session
            &&& wait.action == LaunchAction::AwaitControl
            &&& waiting.stage is AwaitingControl
            &&& running.browser_process_id == Some(process)
            &&& running.child == Some(process)
        }),
{
}

proof fn lemma_first_page(targets: Seq<CdpTarget>, at: int)
    requires
        0 <= at < targets.len(),
        targets[at].target_type@ == "page"@,
        targets[at].websocket_url is Some,
        forall|i: int|
            0 <= i < at ==> !((#[trigger] targets[i]).target_type@ == "page"@
                && targets[i].websocket_url is Some),
    ensures
        controllable(targets) == Some(targets[at]),
    decreases targets.len(),
{
    if at > 0 {
        assert(!(targets[0].target_type@ == "page"@ && targets[0].websocket_url is Some));
        assert(targets.skip(1)[at - 1] == targets[at]);
        assert forall|i: int| 0 <= i < at - 1 implies !((
        #[trigger] targets.skip(1)[i]).target_type@ == "page"@ && targets.skip(
            1,
        )[i].websocket_url is Some) by {
            assert(targets.skip(1)[i] == targets[i + 1]);
        }
        lemma_first_page(targets.skip(1), at - 1);
    }
}

proof fn lemma_no_page(targets: Seq<CdpTarget>)
    requires
        forall|i: int|
            0 <= i < targets.len() ==> !((#[trigger] targets[i]).target_type@ == "page"@
                && targets[i].websocket_url is Some),
    ensures
        controllable(targets) is None,
    decreases targets.len(),
{
    if targets.len() > 0 {
        assert(!(targets[0].target_type@ == "page"@ && targets[0].websocket_url is Some));
        assert forall|i: int| 0 <= i < targets.skip(1).len() implies !((
        #[trigger] targets.skip(1)[i]).target_type@ == "page"@ && targets.skip(
            1,
        )[i].websocket_url is Some) by {
            assert(targets.skip(1)[i] == targets[i + 1]);
        }
        lemma_no_page(targets.skip(1));
    }
}

/// A launched browser comes under control: the first page that it offers is connected to and
/// prepared, the audio bridge is installed before the page is opened, and the page goes to ChatGPT.
pub proof fn launched_browser_comes_under_control(
    launch: Launch,
    session: BrowserSession,
    targets: Vec<CdpTarget>,
    at: int,
    replies: PageReplies,
)
    requires
        launch.stage is AwaitingControl,
        0 <= at < targets@.len(),
        targets@[at].target_type@ == "page"@,
        targets@[at].websocket_url is Some,
        forall|i: int|
            0 <= i < at ==> !((#[trigger] targets@[i]).target_type@ == "page"@
                && targets@[i].websocket_url is Some),
    ensures
        ({
            let (reading, kept, read) = launch.after(session, Ok(replies.endpoint));
            let (connecting, kept, connect) = reading.after(
                kept,
                Ok(LaunchAnswer::Targets(targets)),
            );
            let (second, kept, enable) = connecting.after(kept, Ok(replies.connected));
            let (third, kept, enable_page) = second.after(kept, Ok(replies.runtime));
            let (fourth, kept, bypass) = third.after(kept, Ok(replies.page));
            let (fifth, kept, transport) = fourth.after(kept, Ok(replies.bypass));
            let (sixth, kept, install) = fifth.after(kept, Ok(LaunchAnswer::Flag(true)));
            let (seventh, ready, navigate) = sixth.after(kept, Ok(replies.bridge));
            &&& read.action == LaunchAction::ReadTargets
            &&& connect.action == LaunchAction::Connect(targets@[at].websocket_url.unwrap())
            &&& enable.action == LaunchAction::Call(Command::EnableRuntime)
            &&& enable_page.action == LaunchAction::Call(Command::EnablePage)
            &&& bypass.action == LaunchAction::Call(Command::BypassContentPolicy)
            &&& transport.action == LaunchAction::StartTransport
            &&& install.action == LaunchAction::Call(Command::InstallBridge)
            &&& navigate.action == LaunchAction::Navigate(session.url)
            &&& read.first == Some(Note::EndpointReady)
            &&& enable.first == Some(Note::PageConnected)
            &&& install.first == Some(Note::TransportStarted)
            &&& navigate.first == Some(Note::BridgeInstalled)
            &&& navigate.second == Some(Note::OpeningPage)
            &&& kept == session
            &&& ready.controlled
            &&& ready.media
            &&& ready.page_target_id == Some(targets@[at].id)
            &&& seventh.stage is Navigating
        }),
{
    lemma_first_page(targets@, at);
}

/// A page that was opened ends the start: a signed-in session is marked and hidden as the setup
/// says, and one that is not signed in stays visible. What the marking and the hiding reply makes
/// no difference.
pub proof fn opened_page_ends_the_start(
    launch: Launch,
    session: BrowserSession,
    navigated: LaunchAnswer,
    looked: LaunchAnswer,
    replies: (
        Result<LaunchAnswer, String>,
        Result<LaunchAnswer, String>,
        Result<LaunchAnswer, String>,
    ),
)
    requires
        launch.stage is Navigating,
    ensures
        ({
            let (bridging, kept, bridge) = launch.after(session, Ok(navigated));
            let (looking, kept, look) = bridging.after(kept, replies.0);
            let (marking, kept, step) = looking.after(kept, Ok(looked));
            let (hiding, kept, hide) = marking.after(kept, replies.1);
            let (_, last, end) = hiding.after(kept, replies.2);
            &&& bridge.action == LaunchAction::RunBridge
            &&& look.action == LaunchAction::Refresh
            &&& !session.status.logged_in ==> step == (LaunchStep {
                first: Some(Note::SignInRequired),
                second: None,
                action: LaunchAction::Finish(Ok(())),
            })
            &&& session.status.logged_in ==> {
                &&& step.action == LaunchAction::WriteMarker
                &&& step.first == Some(Note::SessionReady)
                &&& hide.action == LaunchAction::SetWindow(session.hide_when_ready)
                &&& end.action == LaunchAction::Finish(Ok(()))
                &&& last == session
            }
        }),
{
}

/// A start that cannot go on ends with what stood in its way, after the browser was stopped: no
/// browser, no page, no bridge, or an error of one of the steps that are needed.
pub proof fn failed_start_names_its_reason(
    launch: Launch,
    session: BrowserSession,
    targets: Vec<CdpTarget>,
    error: String,
    stopped: Result<LaunchAnswer, String>,
)
    ensures
        launch.stage is Finding ==> ({
            let (failing, kept, stop) = launch.after(session, Ok(LaunchAnswer::Flag(false)));
            stop.action is Stop && failing.after(kept, stopped).2.action == LaunchAction::Finish(
                Err(LaunchFailure::NoBrowser),
            )
        }),
        launch.stage is ReadingTargets && (forall|i: int|
            0 <= i < targets@.len() ==> !((#[trigger] targets@[i]).target_type@ == "page"@
                && targets@[i].websocket_url is Some)) ==> ({
            let (failing, kept, stop) = launch.after(session, Ok(LaunchAnswer::Targets(targets)));
            stop.action is Stop && failing.after(kept, stopped).2.action == LaunchAction::Finish(
                Err(LaunchFailure::NoPage),
            )
        }),
        launch.stage is StartingTransport ==> ({
            let (failing, kept, stop) = launch.after(session, Ok(LaunchAnswer::Flag(false)));
            stop.action is Stop && failing.after(kept, stopped).2.action == LaunchAction::Finish(
                Err(LaunchFailure::BridgeMissing),
            )
        }),
        launch.stage is Preparing || launch.stage is Launching || launch.stage is AwaitingControl
            || launch.stage is ReadingTargets || launch.stage is Connecting
            || launch.stage is EnablingRuntime || launch.stage is EnablingPage
            || launch.stage is Bypassing || launch.stage is StartingTransport
            || launch.stage is InstallingBridge || launch.stage is Navigating
            || launch.stage is LookingAtPage ==> ({
            let (failing, kept, stop) = launch.after(session, Err(error));
            stop.action is Stop && failing.after(kept, stopped).2.action == LaunchAction::Finish(
                Err(LaunchFailure::Outside(error)),
            )
        }),
{
    if forall|i: int|
        0 <= i < targets@.len() ==> !((#[trigger] targets@[i]).target_type@ == "page"@
            && targets@[i].websocket_url is Some) {
        lemma_no_page(targets@);
    }
}

/// A browser that runs under control is not launched again: it is looked at, and a sign-in that is
/// new is marked.
pub proof fn running_browser_is_kept(
    launch: Launch,
    session: BrowserSession,
    signed_in_before: bool,
    looked: LaunchAnswer,
    marked: bool,
    written: Result<LaunchAnswer, String>,
)
    requires
        launch.stage is Preparing,
        session.controlled,
    ensures
        ({
            let (inspecting, kept, inspect) = launch.after(
                session,
                Ok(LaunchAnswer::Flag(signed_in_before)),
            );
            let (refreshing, kept, refresh) = inspecting.after(kept, Ok(LaunchAnswer::Flag(true)));
            let (third, kept, step) = refreshing.after(kept, Ok(looked));
            let (fourth, kept, marker) = third.after(kept, Ok(LaunchAnswer::Flag(marked)));
            let (_, last, end) = fourth.after(kept, written);
            &&& inspect.action == LaunchAction::CheckProcess
            &&& refresh.action == LaunchAction::Refresh
            &&& !session.status.logged_in ==> step.action == LaunchAction::Finish(Ok(()))
            &&& session.status.logged_in ==> {
                &&& step.action == LaunchAction::CheckMarker
                &&& marked ==> marker.action == LaunchAction::Finish(Ok(()))
                &&& !marked ==> marker.action == LaunchAction::WriteMarker && end.action
                    == LaunchAction::Finish(Ok(())) && end.first == Some(Note::SignInDetected)
                &&& last == session
            }
        }),
{
}

/// A browser that is gone is cleared away and started anew.
pub proof fn closed_browser_is_started_anew(
    launch: Launch,
    session: BrowserSession,
    cleared: Result<LaunchAnswer, String>,
)
    requires
        launch.stage is Inspecting,
    ensures
        ({
            let (clearing, kept, stop) = launch.after(session, Ok(LaunchAnswer::Flag(false)));
            let (finding, kept, find) = clearing.after(kept, cleared);
            &&& stop.action is Stop
            &&& stop.first == Some(Note::WindowClosed)
            &&& find.action == LaunchAction::FindBrowser
            &&& finding.stage is Finding
            &&& kept == session
        }),
{
}

/// A browser that is watched is looked at unless it was within the last second; a hidden one is
/// brought forward, given the focus and kept awake first, whatever these steps reply.
pub proof fn watched_browser_is_looked_at(
    probe: StatusProbe,
    session: BrowserSession,
    replies: (
        Result<LaunchAnswer, String>,
        Result<LaunchAnswer, String>,
        Result<LaunchAnswer, String>,
    ),
    now: u64,
)
    requires
        probe.stage is Inspecting,
    ensures
        ({
            let recent = session.last_status_refresh_at matches Some(at) && now < at
                + 1_000_000_000;
            let (first, kept, step) = probe.after(session, Ok(LaunchAnswer::Flag(true)), now);
            let (second, kept, focus) = first.after(kept, replies.0, now);
            let (third, kept, wake) = second.after(kept, replies.1, now);
            let (fourth, kept, look) = third.after(kept, replies.2, now);
            let last = if session.status.window_hidden {
                look
            } else {
                step
            };
            let watching = if session.status.window_hidden {
                fourth
            } else {
                first
            };
            &&& session.status.window_hidden ==> {
                &&& step.action == LaunchAction::Call(Command::BringToFront)
                &&& focus.action == LaunchAction::Call(Command::EmulateFocus)
                &&& wake.action == LaunchAction::Call(Command::KeepActive)
                &&& kept == session
            }
            &&& recent ==> last.action == LaunchAction::Finish(Ok(()))
            &&& !recent ==> {
                &&& last.action == LaunchAction::Refresh
                &&& watching.stage is Refreshing
                &&& watching.voice_was_active == session.status.voice_mode_active
                &&& watching.tracks_before == session.status.media.output_track_count
            }
        }),
{
}

/// The panel is told what a look shows to have ended: the audio, where there was some, and Voice,
/// where it was active and did not run into its limit. Nothing else is told.
pub proof fn ends_are_told(probe: StatusProbe, session: BrowserSession, answer: LaunchAnswer, now: u64)
    requires
        probe.stage is Refreshing,
    ensures
        ({
            let step = probe.after(session, Ok(answer), now).2;
            &&& step.action == LaunchAction::Finish(Ok(()))
            &&& step.first is Some ==> step.first == Some(Note::OutputEnded)
            &&& step.first is Some <==> probe.tracks_before > 0
                && session.status.media.output_track_count == 0
            &&& step.second is Some ==> step.second == Some(Note::VoiceEnded)
            &&& step.second is Some <==> probe.voice_was_active && !session.status.voice_mode_active
                && !session.status.voice_limit_reached
            &&& probe.after(session, Ok(answer), now).1 == session
        }),
{
}

/// A watched browser that was cleared away is started again, and the watch ends as that start.
pub proof fn watch_ends_as_the_restart(
    probe: StatusProbe,
    session: BrowserSession,
    cleared: Result<LaunchAnswer, String>,
    started: LaunchAnswer,
    error: String,
    now: u64,
)
    requires
        probe.stage is Clearing,
    ensures
        ({
            let (starting, kept, start) = probe.after(session, cleared, now);
            &&& start.action == LaunchAction::Start
            &&& kept == session
            &&& starting.after(kept, Ok(started), now).2.action == LaunchAction::Finish(Ok(()))
            &&& starting.after(kept, Err(error), now).2.action == LaunchAction::Finish(
                Err(LaunchFailure::Outside(error)),
            )
        }),
{
}

/// Failed looks are counted one by one, in the session and in its status, and so are restarts.
pub proof fn failed_looks_are_counted(
    probe: StatusProbe,
    session: BrowserSession,
    error: String,
    now: u64,
)
    requires
        probe.stage is Refreshing,
        session.cdp_status_failures < u32::MAX,
        session.cdp_restarts < u64::MAX,
    ensures
        ({
            let (_, counted, step) = probe.after(session, Err(error), now);
            &&& counted.cdp_status_failures == session.cdp_status_failures + 1
            &&& counted.status.cdp_status_failures == counted.cdp_status_failures
            &&& session.cdp_status_failures >= 2 ==> counted.cdp_restarts == session.cdp_restarts + 1
                && step.first == Some(Note::Unreachable(counted.cdp_status_failures, error))
            &&& session.cdp_status_failures < 2 ==> counted.cdp_restarts == session.cdp_restarts
                && step.first == Some(Note::WatchFailed(counted.cdp_status_failures, error))
        }),
{
}

/// The control endpoint is waited for until thirty seconds have passed, and no longer.
pub proof fn endpoint_has_thirty_seconds(wait: ControlWait, now: u64)
    ensures
        wait.expired(now) <==> now >= wait.started_at + 30_000_000_000,
{
}

/// The page that is controlled is the first one in the list that is a page and has an address;
/// without one there is none.
pub proof fn first_page_is_controlled(targets: Seq<CdpTarget>, at: int)
    requires
        0 <= at < targets.len(),
        targets[at].target_type@ == "page"@ && targets[at].websocket_url is Some,
        forall|i: int|
            0 <= i < at ==> !((#[trigger] targets[i]).target_type@ == "page"@
                && targets[i].websocket_url is Some),
    ensures
        controllable(targets) == Some(targets[at]),
        controllable(targets.take(at)) is None,
    decreases targets.len(),
{
    if at > 0 {
        let rest = targets.skip(1);
        assert(rest[at - 1] == targets[at]);
        assert forall|i: int| 0 <= i < at - 1 implies !((#[trigger] rest[i]).target_type@
            == "page"@ && rest[i].websocket_url is Some) by {
            assert(rest[i] == targets[i + 1]);
        }
        first_page_is_controlled(rest, at - 1);
        assert(targets.take(at)[0] == targets[0]);
        assert(targets.take(at).skip(1) =~= rest.take(at - 1));
    } else {
        assert(targets.take(0) =~= Seq::empty());
    }
}

/// A browser that could not be looked at for the third time in a row is stopped and started anew,
/// and the watch ends as the start did.
pub proof fn unreachable_browser_is_started_anew(
    probe: StatusProbe,
    session: BrowserSession,
    error: String,
    stopped: Result<LaunchAnswer, String>,
    started: LaunchAnswer,
    failure: String,
    now: u64,
)
    requires
        probe.stage is Refreshing,
        session.cdp_status_failures == 2,
        session.cdp_restarts < u64::MAX,
    ensures
        ({
            let (clearing, counted, stop) = probe.after(session, Err(error), now);
            let (starting, kept, start) = clearing.after(counted, stopped, now);
            &&& stop.action is Stop
            &&& stop.first == Some(Note::Unreachable(3, error))
            &&& counted.cdp_restarts == session.cdp_restarts + 1
            &&& start.action is Start
            &&& starting.after(kept, Ok(started), now).2.action == LaunchAction::Finish(Ok(()))
            &&& starting.after(kept, Err(failure), now).2.action == LaunchAction::Finish(
                Err(LaunchFailure::Outside(failure)),
            )
        }),
{
}

/// The notes on failed looks count them and give the error word for word.
pub proof fn notes_count_the_failures(failures: u32, error: String)
    ensures
        Note::ProbeFailed(failures, error).worded()
            == "Browser status probe failed; keeping the dedicated browser "@ + ""@
            + "alive (failure "@ + text::decimal(failures as nat) + "/"@ + text::decimal(3) + "): "@
            + error@,
        Note::WatchFailed(failures, error).worded()
            == "Browser status probe failed; keeping the dedicated browser "@
            + "and Voice session "@ + "alive (failure "@ + text::decimal(failures as nat) + "/"@
            + text::decimal(3) + "): "@ + error@,
        Note::Unreachable(failures, error).worded() == "The browser session was unreachable after "@
            + text::decimal(failures as nat)
            + " consecutive status probe failures; restarting it ("@ + error@ + ")."@,
{
}

} // verus!
