//! Starting ChatGPT Voice and keeping its microphone live.

use crate::browser::{BrowserSession, VoiceSettingOptions};
use crate::flow;
use crate::flow::{Action, Answer, Command, Failure, MouseStep, Script};
use crate::latency;
use vstd::prelude::*;

verus! {

/// How long the page may take to become visible, in nanoseconds.
pub const VISIBILITY_TIMEOUT: u64 = 3_000_000_000;

/// How long the control that starts Voice may take to appear, in nanoseconds.
pub const VOICE_CONTROL_TIMEOUT: u64 = 20_000_000_000;

/// How long Voice may take to become active, in nanoseconds.
pub const VOICE_ACTIVE_TIMEOUT: u64 = 15_000_000_000;

/// How long the settings may take to appear or to go away, in nanoseconds.
pub const VOICE_SETTINGS_WAIT_TIMEOUT: u64 = 3_000_000_000;

/// How long the options that the settings offered stay known, in nanoseconds.
pub const OPTIONS_CACHE_TTL: u64 = 600_000_000_000;

/// How often the microphone is looked after before it is given up.
pub const MICROPHONE_ATTEMPTS: u32 = 5;

// ---------------------------------------------------------------------------
// Showing the window while Voice starts
// ---------------------------------------------------------------------------

/// How far starting Voice has got.
#[derive(Debug, Clone, Copy, PartialEq, Eq, Structural)]
pub enum StartVoiceStage {
    Showing,
    ToFront,
    Waking,
    Looking,
    LookingPause,
    Appearing,
    Activating,
    Hiding,
    KeepingActive,
    Recovering,
}

/// Starting Voice. A hidden window is shown for as long as that takes.
#[derive(Debug)]
pub struct StartVoice {
    pub temporarily_shown: bool,
    pub stage: StartVoiceStage,
    pub started_at: u64,
    pub outcome: Result<(), String>,
}

impl StartVoice {
    /// The first step: a hidden window is shown, and held open until Voice has started.
    pub open spec fn first(session: BrowserSession) -> (StartVoice, BrowserSession, Action) {
        if session.status.window_hidden {
            (
                StartVoice {
                    temporarily_shown: true,
                    stage: StartVoiceStage::Showing,
                    started_at: 0,
                    outcome: Ok(()),
                },
                BrowserSession { visibility_hold: true, ..session },
                Action::SetWindow(false),
            )
        } else {
            (
                StartVoice {
                    temporarily_shown: false,
                    stage: StartVoiceStage::Activating,
                    started_at: 0,
                    outcome: Ok(()),
                },
                session,
                Action::ActivateVoice,
            )
        }
    }

    /// Begins to start Voice.
    pub fn begin(session: &mut BrowserSession) -> (begun: (Self, Action))
        ensures
            (begun.0, *final(session), begun.1) == Self::first(*old(session)),
    {
        if session.status.window_hidden {
            session.visibility_hold = true;
            (
                StartVoice {
                    temporarily_shown: true,
                    stage: StartVoiceStage::Showing,
                    started_at: 0,
                    outcome: Ok(()),
                },
                Action::SetWindow(false),
            )
        } else {
            (
                StartVoice {
                    temporarily_shown: false,
                    stage: StartVoiceStage::Activating,
                    started_at: 0,
                    outcome: Ok(()),
                },
                Action::ActivateVoice,
            )
        }
    }

    /// How the flow ends: with the outcome of starting Voice.
    pub open spec fn ended(outcome: Result<(), String>) -> Action {
        match outcome {
            Ok(_) => flow::succeeded(),
            Err(error) => flow::failed(error),
        }
    }

    /// The step after a reply.
    pub open spec fn after(
        self,
        session: BrowserSession,
        reply: Result<Answer, String>,
        now: u64,
    ) -> (StartVoice, BrowserSession, Action) {
        match self.stage {
            StartVoiceStage::Showing => if session.controlled {
                (
                    StartVoice { stage: StartVoiceStage::ToFront, ..self },
                    session,
                    Action::Call(Command::BringToFront),
                )
            } else {
                (
                    StartVoice { stage: StartVoiceStage::Appearing, ..self },
                    session,
                    Action::Wait(700),
                )
            },
            StartVoiceStage::ToFront => (
                StartVoice { stage: StartVoiceStage::Waking, ..self },
                session,
                Action::Call(Command::KeepActive),
            ),
            StartVoiceStage::Waking => (
                StartVoice { stage: StartVoiceStage::Looking, started_at: now, ..self },
                session,
                Action::Evaluate(Script::PageVisible),
            ),
            StartVoiceStage::Looking => if flow::confirmed(reply) {
                (
                    StartVoice { stage: StartVoiceStage::Appearing, ..self },
                    session,
                    Action::Wait(700),
                )
            } else {
                (
                    StartVoice { stage: StartVoiceStage::LookingPause, ..self },
                    session,
                    Action::Wait(100),
                )
            },
            StartVoiceStage::LookingPause => if latency::elapsed(now, self.started_at)
                < VISIBILITY_TIMEOUT {
                (
                    StartVoice { stage: StartVoiceStage::Looking, ..self },
                    session,
                    Action::Evaluate(Script::PageVisible),
                )
            } else {
                (
                    StartVoice { stage: StartVoiceStage::Appearing, ..self },
                    session,
                    Action::Wait(700),
                )
            },
            StartVoiceStage::Appearing => (
                StartVoice { stage: StartVoiceStage::Activating, ..self },
                session,
                Action::ActivateVoice,
            ),
            StartVoiceStage::Activating => {
                let outcome = match reply {
                    Ok(_) => Ok(()),
                    Err(error) => Err(error),
                };
                if self.temporarily_shown {
                    (
                        StartVoice { stage: StartVoiceStage::Hiding, outcome, ..self },
                        BrowserSession { visibility_hold: false, ..session },
                        Action::SetWindow(true),
                    )
                } else {
                    (self, session, Self::ended(outcome))
                }
            },
            StartVoiceStage::Hiding => if session.controlled {
                (
                    StartVoice { stage: StartVoiceStage::KeepingActive, ..self },
                    session,
                    Action::Call(Command::KeepActive),
                )
            } else {
                (StartVoice { outcome: Ok(()), ..self }, session, Self::ended(self.outcome))
            },
            StartVoiceStage::KeepingActive => (
                StartVoice { stage: StartVoiceStage::Recovering, ..self },
                session,
                Action::Evaluate(Script::RecoverOutput),
            ),
            StartVoiceStage::Recovering => (
                StartVoice { outcome: Ok(()), ..self },
                session,
                Self::ended(self.outcome),
            ),
        }
    }

    fn end(self) -> (ended: (Self, Action))
        ensures
            ended == (StartVoice { outcome: Ok(()), ..self }, Self::ended(self.outcome)),
    {
        let StartVoice { temporarily_shown, stage, started_at, outcome } = self;
        let flow = StartVoice { temporarily_shown, stage, started_at, outcome: Ok(()) };
        match outcome {
            Ok(_) => (flow, Action::Finish(Ok(()))),
            Err(error) => (flow, Action::Finish(Err(Failure::Outside(error)))),
        }
    }

    /// Goes on with starting Voice.
    pub fn next(
        self,
        session: &mut BrowserSession,
        reply: Result<Answer, String>,
        now: u64,
    ) -> (continued: (Self, Action))
        ensures
            (continued.0, *final(session), continued.1) == self.after(*old(session), reply, now),
    {
        let mut start = self;
        match start.stage {
            StartVoiceStage::Showing => {
                if session.controlled {
                    start.stage = StartVoiceStage::ToFront;
                    (start, Action::Call(Command::BringToFront))
                } else {
                    start.stage = StartVoiceStage::Appearing;
                    (start, Action::Wait(700))
                }
            },
            StartVoiceStage::ToFront => {
                start.stage = StartVoiceStage::Waking;
                (start, Action::Call(Command::KeepActive))
            },
            StartVoiceStage::Waking => {
                start.stage = StartVoiceStage::Looking;
                start.started_at = now;
                (start, Action::Evaluate(Script::PageVisible))
            },
            StartVoiceStage::Looking => {
                if flow::is_confirmed(&reply) {
                    start.stage = StartVoiceStage::Appearing;
                    (start, Action::Wait(700))
                } else {
                    start.stage = StartVoiceStage::LookingPause;
                    (start, Action::Wait(100))
                }
            },
            StartVoiceStage::LookingPause => {
                if latency::since(now, start.started_at) < VISIBILITY_TIMEOUT {
                    start.stage = StartVoiceStage::Looking;
                    (start, Action::Evaluate(Script::PageVisible))
                } else {
                    start.stage = StartVoiceStage::Appearing;
                    (start, Action::Wait(700))
                }
            },
            StartVoiceStage::Appearing => {
                start.stage = StartVoiceStage::Activating;
                (start, Action::ActivateVoice)
            },
            StartVoiceStage::Activating => {
                let outcome = match reply {
                    Ok(_) => Ok(()),
                    Err(error) => Err(error),
                };
                if start.temporarily_shown {
                    session.visibility_hold = false;
                    start.stage = StartVoiceStage::Hiding;
                    start.outcome = outcome;
                    (start, Action::SetWindow(true))
                } else {
                    match outcome {
                        Ok(_) => (start, Action::Finish(Ok(()))),
                        Err(error) => (start, Action::Finish(Err(Failure::Outside(error)))),
                    }
                }
            },
            StartVoiceStage::Hiding => {
                if session.controlled {
                    start.stage = StartVoiceStage::KeepingActive;
                    (start, Action::Call(Command::KeepActive))
                } else {
                    start.end()
                }
            },
            StartVoiceStage::KeepingActive => {
                start.stage = StartVoiceStage::Recovering;
                (start, Action::Evaluate(Script::RecoverOutput))
            },
            StartVoiceStage::Recovering => start.end(),
        }
    }
}

/// A window that was shown for starting Voice is hidden again when Voice has started or failed to,
/// and nothing holds it open any more.
pub proof fn shown_window_is_hidden_again(
    start: StartVoice,
    session: BrowserSession,
    reply: Result<Answer, String>,
    now: u64,
)
    requires
        start.stage is Activating,
        start.temporarily_shown,
    ensures
        start.after(session, reply, now).2 == Action::SetWindow(true),
        !start.after(session, reply, now).1.visibility_hold,
{
}

// ---------------------------------------------------------------------------
// Activating Voice
// ---------------------------------------------------------------------------

/// How far activating Voice has got. The click carries the point at which the control was found.
#[derive(Debug)]
pub enum ActivateStage {
    Looking,
    Finding,
    FindingPause,
    Moving(String, String),
    Pressing(String, String),
    Releasing,
    Watching,
    WatchingPause,
    Settling,
    Prefetching,
    Unmuting,
    Recovering,
    LastLook,
}

/// Activating Voice: clicking its control and waiting until it is on.
#[derive(Debug)]
pub struct ActivateVoice {
    pub stage: ActivateStage,
    pub started_at: u64,
}

/// The point that an answer names.
pub open spec fn point_of(answer: Answer) -> Option<(String, String)> {
    match answer {
        Answer::Point(x, y) => Some((x, y)),
        _ => None,
    }
}

impl ActivateVoice {
    /// Begins with a look at the page.
    pub fn begin() -> (begun: (Self, Action))
        ensures
            begun.0 == (ActivateVoice { stage: ActivateStage::Looking, started_at: 0 }),
            begun.1 == Action::Refresh,
    {
        (ActivateVoice { stage: ActivateStage::Looking, started_at: 0 }, Action::Refresh)
    }

    /// The step after a reply, where an outside step did not fail for good.
    pub open spec fn advanced(
        self,
        session: BrowserSession,
        found: Option<(String, String)>,
        now: u64,
    ) -> (ActivateVoice, Action) {
        let blocked = Action::Finish(Err(Failure::MicrophoneBlocked));
        match self.stage {
            ActivateStage::Looking => if session.status.microphone_permission_required {
                (self, blocked)
            } else if !session.controlled {
                (self, Action::Finish(Err(Failure::NotRunning)))
            } else {
                (
                    ActivateVoice { stage: ActivateStage::Finding, started_at: now },
                    Action::Evaluate(Script::VoicePoint),
                )
            },
            ActivateStage::Finding => match found {
                Some((x, y)) => (
                    ActivateVoice { stage: ActivateStage::Moving(x, y), ..self },
                    Action::Call(Command::Mouse(MouseStep::Move, x, y)),
                ),
                None => (
                    ActivateVoice { stage: ActivateStage::FindingPause, ..self },
                    Action::Wait(250),
                ),
            },
            ActivateStage::FindingPause => if latency::elapsed(now, self.started_at)
                >= VOICE_CONTROL_TIMEOUT {
                (self, Action::Finish(Err(Failure::VoiceControlMissing)))
            } else if session.status.microphone_permission_required {
                (self, blocked)
            } else {
                (
                    ActivateVoice { stage: ActivateStage::Finding, ..self },
                    Action::Evaluate(Script::VoicePoint),
                )
            },
            ActivateStage::Moving(x, y) => (
                ActivateVoice { stage: ActivateStage::Pressing(x, y), ..self },
                Action::Call(Command::Mouse(MouseStep::Press, x, y)),
            ),
            ActivateStage::Pressing(x, y) => (
                ActivateVoice { stage: ActivateStage::Releasing, ..self },
                Action::Call(Command::Mouse(MouseStep::Release, x, y)),
            ),
            ActivateStage::Releasing => (
                ActivateVoice { stage: ActivateStage::Watching, started_at: now },
                Action::Refresh,
            ),
            ActivateStage::Watching => if session.status.microphone_permission_required {
                (self, blocked)
            } else if session.status.voice_mode_active {
                (ActivateVoice { stage: ActivateStage::Settling, ..self }, Action::Wait(500))
            } else {
                (ActivateVoice { stage: ActivateStage::WatchingPause, ..self }, Action::Wait(250))
            },
            ActivateStage::WatchingPause => if latency::elapsed(now, self.started_at)
                < VOICE_ACTIVE_TIMEOUT {
                (ActivateVoice { stage: ActivateStage::Watching, ..self }, Action::Refresh)
            } else {
                (ActivateVoice { stage: ActivateStage::LastLook, ..self }, Action::Refresh)
            },
            ActivateStage::Settling => (
                ActivateVoice { stage: ActivateStage::Prefetching, ..self },
                Action::PrefetchSettings,
            ),
            ActivateStage::Prefetching => (
                ActivateVoice { stage: ActivateStage::Unmuting, ..self },
                Action::EnsureMicrophone,
            ),
            ActivateStage::Unmuting => (
                ActivateVoice { stage: ActivateStage::Recovering, ..self },
                Action::Evaluate(Script::RecoverOutput),
            ),
            ActivateStage::Recovering => (self, flow::succeeded()),
            ActivateStage::LastLook => if session.status.microphone_permission_required {
                (self, blocked)
            } else if session.status.voice_mode_active {
                (self, flow::succeeded())
            } else {
                (self, Action::Finish(Err(Failure::VoiceNotStarted)))
            },
        }
    }

    /// A failed outside step ends the flow: a look, the search for the control, a click. Failing to
    /// read the settings or to attach to the audio again does not.
    pub open spec fn needs_success(self) -> bool {
        match self.stage {
            ActivateStage::Looking => true,
            ActivateStage::Finding => true,
            ActivateStage::Moving(_, _) => true,
            ActivateStage::Pressing(_, _) => true,
            ActivateStage::Releasing => true,
            ActivateStage::Watching => true,
            ActivateStage::LastLook => true,
            _ => false,
        }
    }

    /// The step after a reply.
    pub open spec fn after(
        self,
        session: BrowserSession,
        reply: Result<Answer, String>,
        now: u64,
    ) -> (ActivateVoice, Action) {
        match reply {
            Err(error) => if self.needs_success() {
                (self, flow::failed(error))
            } else {
                self.advanced(session, None, now)
            },
            Ok(answer) => self.advanced(session, point_of(answer), now),
        }
    }

    fn advance(self, session: &BrowserSession, found: Option<(String, String)>, now: u64) -> (
    continued: (Self, Action))
        ensures
            continued == self.advanced(*session, found, now),
    {
        let ActivateVoice { stage, started_at } = self;
        match stage {
            ActivateStage::Looking => {
                let looking = ActivateVoice { stage: ActivateStage::Looking, started_at };
                if session.status.microphone_permission_required {
                    (looking, Action::Finish(Err(Failure::MicrophoneBlocked)))
                } else if !session.controlled {
                    (looking, Action::Finish(Err(Failure::NotRunning)))
                } else {
                    (
                        ActivateVoice { stage: ActivateStage::Finding, started_at: now },
                        Action::Evaluate(Script::VoicePoint),
                    )
                }
            },
            ActivateStage::Finding => match found {
                Some((x, y)) => {
                    let action = Action::Call(Command::Mouse(MouseStep::Move, x.clone(), y.clone()));
                    (ActivateVoice { stage: ActivateStage::Moving(x, y), started_at }, action)
                },
                None => (
                    ActivateVoice { stage: ActivateStage::FindingPause, started_at },
                    Action::Wait(250),
                ),
            },
            ActivateStage::FindingPause => {
                let pausing = ActivateVoice { stage: ActivateStage::FindingPause, started_at };
                if latency::since(now, started_at) >= VOICE_CONTROL_TIMEOUT {
                    (pausing, Action::Finish(Err(Failure::VoiceControlMissing)))
                } else if session.status.microphone_permission_required {
                    (pausing, Action::Finish(Err(Failure::MicrophoneBlocked)))
                } else {
                    (
                        ActivateVoice { stage: ActivateStage::Finding, started_at },
                        Action::Evaluate(Script::VoicePoint),
                    )
                }
            },
            ActivateStage::Moving(x, y) => {
                let action = Action::Call(Command::Mouse(MouseStep::Press, x.clone(), y.clone()));
                (ActivateVoice { stage: ActivateStage::Pressing(x, y), started_at }, action)
            },
            ActivateStage::Pressing(x, y) => (
                ActivateVoice { stage: ActivateStage::Releasing, started_at },
                Action::Call(Command::Mouse(MouseStep::Release, x, y)),
            ),
            ActivateStage::Releasing => (
                ActivateVoice { stage: ActivateStage::Watching, started_at: now },
                Action::Refresh,
            ),
            ActivateStage::Watching => {
                if session.status.microphone_permission_required {
                    (
                        ActivateVoice { stage: ActivateStage::Watching, started_at },
                        Action::Finish(Err(Failure::MicrophoneBlocked)),
                    )
                } else if session.status.voice_mode_active {
                    (ActivateVoice { stage: ActivateStage::Settling, started_at }, Action::Wait(500))
                } else {
                    (
                        ActivateVoice { stage: ActivateStage::WatchingPause, started_at },
                        Action::Wait(250),
                    )
                }
            },
            ActivateStage::WatchingPause => {
                if latency::since(now, started_at) < VOICE_ACTIVE_TIMEOUT {
                    (ActivateVoice { stage: ActivateStage::Watching, started_at }, Action::Refresh)
                } else {
                    (ActivateVoice { stage: ActivateStage::LastLook, started_at }, Action::Refresh)
                }
            },
            ActivateStage::Settling => (
                ActivateVoice { stage: ActivateStage::Prefetching, started_at },
                Action::PrefetchSettings,
            ),
            ActivateStage::Prefetching => (
                ActivateVoice { stage: ActivateStage::Unmuting, started_at },
                Action::EnsureMicrophone,
            ),
            ActivateStage::Unmuting => (
                ActivateVoice { stage: ActivateStage::Recovering, started_at },
                Action::Evaluate(Script::RecoverOutput),
            ),
            ActivateStage::Recovering => (
                ActivateVoice { stage: ActivateStage::Recovering, started_at },
                Action::Finish(Ok(())),
            ),
            ActivateStage::LastLook => {
                let last = ActivateVoice { stage: ActivateStage::LastLook, started_at };
                if session.status.microphone_permission_required {
                    (last, Action::Finish(Err(Failure::MicrophoneBlocked)))
                } else if session.status.voice_mode_active {
                    (last, Action::Finish(Ok(())))
                } else {
                    (last, Action::Finish(Err(Failure::VoiceNotStarted)))
                }
            },
        }
    }

    /// Goes on with activating Voice.
    pub fn next(self, session: &BrowserSession, reply: Result<Answer, String>, now: u64) -> (
    continued: (Self, Action))
        ensures
            continued == self.after(*session, reply, now),
    {
        match reply {
            Err(error) => {
                let ends = match self.stage {
                    ActivateStage::Looking => true,
                    ActivateStage::Finding => true,
                    ActivateStage::Moving(_, _) => true,
                    ActivateStage::Pressing(_, _) => true,
                    ActivateStage::Releasing => true,
                    ActivateStage::Watching => true,
                    ActivateStage::LastLook => true,
                    _ => false,
                };
                if ends {
                    (self, Action::Finish(Err(Failure::Outside(error))))
                } else {
                    self.advance(session, None, now)
                }
            },
            Ok(answer) => {
                let found = match answer {
                    Answer::Point(x, y) => Some((x, y)),
                    _ => None,
                };
                self.advance(session, found, now)
            },
        }
    }
}

/// Voice is reported as started only after the page showed it active: either it was found active
/// and everything that follows was done, or the last look found it so.
pub proof fn voice_starts_only_when_active(
    activation: ActivateVoice,
    session: BrowserSession,
    reply: Result<Answer, String>,
    now: u64,
)
    requires
        activation.after(session, reply, now).1 == flow::succeeded(),
    ensures
        activation.stage is Recovering || (activation.stage is LastLook
            && session.status.voice_mode_active),
{
}

/// Voice is not awaited for ever: a control that does not show up in time is given up, and when
/// the time for Voice itself is up, one last look decides.
pub proof fn voice_is_awaited_for_a_time(
    activation: ActivateVoice,
    session: BrowserSession,
    reply: Result<Answer, String>,
    now: u64,
)
    ensures
        activation.stage is FindingPause && latency::elapsed(now, activation.started_at)
            >= VOICE_CONTROL_TIMEOUT ==> activation.after(session, reply, now).1 == Action::Finish(
            Err(Failure::VoiceControlMissing),
        ),
        activation.stage is WatchingPause && latency::elapsed(now, activation.started_at)
            >= VOICE_ACTIVE_TIMEOUT ==> activation.after(session, reply, now).0.stage is LastLook,
        activation.stage is LastLook ==> activation.after(session, reply, now).1 is Finish,
{
}

/// The whole click goes to the point at which the page showed the control of Voice.
pub proof fn click_hits_the_control(
    activation: ActivateVoice,
    session: BrowserSession,
    x: String,
    y: String,
    replies: (Answer, Answer),
    now: u64,
)
    requires
        activation.stage is Finding,
    ensures
        ({
            let (moving, first) = activation.after(session, Ok(Answer::Point(x, y)), now);
            let (pressing, second) = moving.after(session, Ok(replies.0), now);
            let (releasing, third) = pressing.after(session, Ok(replies.1), now);
            &&& first == Action::Call(Command::Mouse(MouseStep::Move, x, y))
            &&& second == Action::Call(Command::Mouse(MouseStep::Press, x, y))
            &&& third == Action::Call(Command::Mouse(MouseStep::Release, x, y))
        }),
{
}

/// The steps that follow on active Voice are reached in one way only.
pub proof fn settling_needs_active_voice(
    activation: ActivateVoice,
    session: BrowserSession,
    reply: Result<Answer, String>,
    now: u64,
)
    requires
        activation.after(session, reply, now).0.stage is Settling,
        activation.stage !is Settling,
    ensures
        activation.stage is Watching,
        session.status.voice_mode_active,
        !session.status.microphone_permission_required,
{
}

// ---------------------------------------------------------------------------
// The settings dialog
// ---------------------------------------------------------------------------

/// How far opening or closing the settings has got.
#[derive(Debug, Clone, Copy, PartialEq, Eq, Structural)]
pub enum DialogStage {
    Clicking,
    Checking,
    Refreshing,
    Pausing,
}

/// Opening or closing the Voice settings.
#[derive(Debug)]
pub struct SettingsDialog {
    pub open: bool,
    pub stage: DialogStage,
    pub started_at: u64,
}

impl SettingsDialog {
    fn begin(open: bool, session: &BrowserSession) -> (begun: (Self, Action))
        ensures
            begun.0 == (SettingsDialog { open, stage: DialogStage::Clicking, started_at: 0 }),
            begun.1 == Self::first(open, *session),
    {
        let dialog = SettingsDialog { open, stage: DialogStage::Clicking, started_at: 0 };
        if !session.controlled {
            (dialog, Action::Finish(Err(Failure::NotRunning)))
        } else if open {
            (dialog, Action::Evaluate(Script::OpenSettings))
        } else {
            (dialog, Action::Evaluate(Script::CloseSettings))
        }
    }

    /// The first step: the click.
    pub open spec fn first(open: bool, session: BrowserSession) -> Action {
        if !session.controlled {
            Action::Finish(Err(Failure::NotRunning))
        } else if open {
            Action::Evaluate(Script::OpenSettings)
        } else {
            Action::Evaluate(Script::CloseSettings)
        }
    }

    /// Begins to open the settings.
    pub fn open_voice_settings(session: &BrowserSession) -> (begun: (Self, Action))
        ensures
            begun.0 == (SettingsDialog { open: true, stage: DialogStage::Clicking, started_at: 0 }),
            begun.1 == Self::first(true, *session),
    {
        SettingsDialog::begin(true, session)
    }

    /// Begins to close the settings.
    pub fn close_voice_settings(session: &BrowserSession) -> (begun: (Self, Action))
        ensures
            begun.0 == (SettingsDialog { open: false, stage: DialogStage::Clicking, started_at: 0 }),
            begun.1 == Self::first(false, *session),
    {
        SettingsDialog::begin(false, session)
    }

    /// The step after a reply. Both the settings themselves and a look at the page have to agree
    /// that they are open or closed.
    pub open spec fn after(
        self,
        session: BrowserSession,
        reply: Result<Answer, String>,
        now: u64,
    ) -> (SettingsDialog, Action) {
        match self.stage {
            DialogStage::Clicking => match reply {
                Err(error) => (self, flow::failed(error)),
                Ok(_) => if flow::confirmed(reply) {
                    (
                        SettingsDialog { stage: DialogStage::Checking, started_at: now, ..self },
                        Action::Evaluate(Script::SettingsVisible),
                    )
                } else {
                    (
                        self,
                        Action::Finish(
                            Err(
                                if self.open {
                                    Failure::SettingsControlMissing
                                } else {
                                    Failure::SettingsCloseMissing
                                },
                            ),
                        ),
                    )
                },
            },
            DialogStage::Checking => match reply {
                Err(error) => (self, flow::failed(error)),
                Ok(_) => if (self.open && flow::confirmed(reply)) || (!self.open && flow::denied(
                    reply,
                )) {
                    (SettingsDialog { stage: DialogStage::Refreshing, ..self }, Action::Refresh)
                } else {
                    (SettingsDialog { stage: DialogStage::Pausing, ..self }, Action::Wait(50))
                },
            },
            DialogStage::Refreshing => match reply {
                Err(error) => (self, flow::failed(error)),
                Ok(_) => if session.status.voice_settings_open == self.open {
                    (self, flow::succeeded())
                } else {
                    (SettingsDialog { stage: DialogStage::Pausing, ..self }, Action::Wait(50))
                },
            },
            DialogStage::Pausing => if latency::elapsed(now, self.started_at)
                < VOICE_SETTINGS_WAIT_TIMEOUT {
                (
                    SettingsDialog { stage: DialogStage::Checking, ..self },
                    Action::Evaluate(Script::SettingsVisible),
                )
            } else {
                (
                    self,
                    Action::Finish(
                        Err(
                            if self.open {
                                Failure::SettingsNotShown
                            } else {
                                Failure::SettingsNotClosed
                            },
                        ),
                    ),
                )
            },
        }
    }

    /// Goes on with opening or closing the settings.
    pub fn next(self, session: &BrowserSession, reply: Result<Answer, String>, now: u64) -> (
    continued: (Self, Action))
        ensures
            continued == self.after(*session, reply, now),
    {
        let mut dialog = self;
        let confirmed = flow::is_confirmed(&reply);
        let denied = flow::is_denied(&reply);
        match dialog.stage {
            DialogStage::Pausing => {
                if latency::since(now, dialog.started_at) < VOICE_SETTINGS_WAIT_TIMEOUT {
                    dialog.stage = DialogStage::Checking;
                    return (dialog, Action::Evaluate(Script::SettingsVisible));
                }
                if dialog.open {
                    return (dialog, Action::Finish(Err(Failure::SettingsNotShown)));
                }
                return (dialog, Action::Finish(Err(Failure::SettingsNotClosed)));
            },
            _ => {},
        }
        if let Err(error) = reply {
            return (dialog, Action::Finish(Err(Failure::Outside(error))));
        }
        match dialog.stage {
            DialogStage::Clicking => {
                if confirmed {
                    dialog.stage = DialogStage::Checking;
                    dialog.started_at = now;
                    (dialog, Action::Evaluate(Script::SettingsVisible))
                } else if dialog.open {
                    (dialog, Action::Finish(Err(Failure::SettingsControlMissing)))
                } else {
                    (dialog, Action::Finish(Err(Failure::SettingsCloseMissing)))
                }
            },
            DialogStage::Checking => {
                if (dialog.open && confirmed) || (!dialog.open && denied) {
                    dialog.stage = DialogStage::Refreshing;
                    (dialog, Action::Refresh)
                } else {
                    dialog.stage = DialogStage::Pausing;
                    (dialog, Action::Wait(50))
                }
            },
            _ => {
                if session.status.voice_settings_open == dialog.open {
                    (dialog, Action::Finish(Ok(())))
                } else {
                    dialog.stage = DialogStage::Pausing;
                    (dialog, Action::Wait(50))
                }
            },
        }
    }
}

/// Settings that have not opened or closed when the time is up are given up.
pub proof fn dialog_ends_in_time(
    dialog: SettingsDialog,
    session: BrowserSession,
    reply: Result<Answer, String>,
    now: u64,
)
    requires
        dialog.stage is Pausing,
        latency::elapsed(now, dialog.started_at) >= VOICE_SETTINGS_WAIT_TIMEOUT,
    ensures
        dialog.after(session, reply, now).1 == Action::Finish(
            Err(
                if dialog.open {
                    Failure::SettingsNotShown
                } else {
                    Failure::SettingsNotClosed
                },
            ),
        ),
{
}

/// Opening succeeds only with open settings, closing only with closed ones.
pub proof fn dialog_ends_as_asked(
    dialog: SettingsDialog,
    session: BrowserSession,
    reply: Result<Answer, String>,
    now: u64,
)
    requires
        dialog.after(session, reply, now).1 == flow::succeeded(),
    ensures
        session.status.voice_settings_open == dialog.open,
{
}

// ---------------------------------------------------------------------------
// Reading the settings once
// ---------------------------------------------------------------------------

/// How far reading the settings has got.
#[derive(Debug, Clone, Copy, PartialEq, Eq, Structural)]
pub enum PrefetchStage {
    Opening,
    Discovering,
    Closing,
    Settling,
    Refreshing,
}

/// Reading the Voice settings: one dialog is opened, read and closed.
#[derive(Debug)]
pub struct Prefetch {
    pub stage: PrefetchStage,
    pub refresh_options: bool,
}

/// What the settings offer is not known, or not recently.
pub open spec fn options_stale(session: BrowserSession, now: u64) -> bool {
    match session.options_fetched_at {
        Some(fetched_at) => latency::elapsed(now, fetched_at) >= OPTIONS_CACHE_TTL,
        None => true,
    }
}

/// The settings offer anything at all.
pub open spec fn offers_anything(options: VoiceSettingOptions) -> bool {
    options.voices@.len() > 0 || options.intelligence@.len() > 0 || options.languages@.len() > 0
}

impl Prefetch {
    /// Begins to read the settings.
    pub fn begin(session: &BrowserSession, now: u64) -> (begun: (Self, Action))
        ensures
            begun.0 == (Prefetch {
                stage: PrefetchStage::Opening,
                refresh_options: options_stale(*session, now),
            }),
            begun.1 == Action::OpenSettings,
    {
        let refresh_options = match session.options_fetched_at {
            Some(fetched_at) => latency::since(now, fetched_at) >= OPTIONS_CACHE_TTL,
            None => true,
        };
        (Prefetch { stage: PrefetchStage::Opening, refresh_options }, Action::OpenSettings)
    }

    /// The step after a reply. Options that cannot be read are left alone; an empty offer is taken
    /// over but does not count as known.
    pub open spec fn after(
        self,
        session: BrowserSession,
        reply: Result<Answer, String>,
        now: u64,
    ) -> (Prefetch, BrowserSession, Action) {
        match self.stage {
            PrefetchStage::Opening => match reply {
                Err(error) => (self, session, flow::failed(error)),
                Ok(_) => if self.refresh_options {
                    (
                        Prefetch { stage: PrefetchStage::Discovering, ..self },
                        session,
                        Action::DiscoverOptions,
                    )
                } else {
                    (
                        Prefetch { stage: PrefetchStage::Closing, ..self },
                        session,
                        Action::CloseSettings,
                    )
                },
            },
            PrefetchStage::Discovering => {
                let read = match reply {
                    Ok(Answer::Options(options)) => if offers_anything(options) {
                        BrowserSession {
                            options_fetched_at: Some(now),
                            ..session.with_options(options)
                        }
                    } else {
                        session.with_options(options)
                    },
                    _ => session,
                };
                (
                    Prefetch { stage: PrefetchStage::Closing, ..self },
                    read,
                    Action::CloseSettings,
                )
            },
            PrefetchStage::Closing => match reply {
                Err(error) => (self, session, flow::failed(error)),
                Ok(_) => if session.status.voice is None {
                    (
                        Prefetch { stage: PrefetchStage::Settling, ..self },
                        session,
                        Action::Wait(100),
                    )
                } else {
                    (self, session, flow::succeeded())
                },
            },
            PrefetchStage::Settling => (
                Prefetch { stage: PrefetchStage::Refreshing, ..self },
                session,
                Action::Refresh,
            ),
            PrefetchStage::Refreshing => match reply {
                Err(error) => (self, session, flow::failed(error)),
                Ok(_) => (self, session, flow::succeeded()),
            },
        }
    }

    /// Goes on with reading the settings.
    pub fn next(
        self,
        session: &mut BrowserSession,
        reply: Result<Answer, String>,
        now: u64,
    ) -> (continued: (Self, Action))
        ensures
            (continued.0, *final(session), continued.1) == self.after(*old(session), reply, now),
    {
        let mut prefetch = self;
        match prefetch.stage {
            PrefetchStage::Opening => match reply {
                Err(error) => (prefetch, Action::Finish(Err(Failure::Outside(error)))),
                Ok(_) => {
                    if prefetch.refresh_options {
                        prefetch.stage = PrefetchStage::Discovering;
                        (prefetch, Action::DiscoverOptions)
                    } else {
                        prefetch.stage = PrefetchStage::Closing;
                        (prefetch, Action::CloseSettings)
                    }
                },
            },
            PrefetchStage::Discovering => {
                if let Ok(Answer::Options(options)) = reply {
                    let discovered = options.voices.len() > 0 || options.intelligence.len() > 0
                        || options.languages.len() > 0;
                    session.apply_options(options);
                    if discovered {
                        session.options_fetched_at = Some(now);
                    }
                }
                prefetch.stage = PrefetchStage::Closing;
                (prefetch, Action::CloseSettings)
            },
            PrefetchStage::Closing => match reply {
                Err(error) => (prefetch, Action::Finish(Err(Failure::Outside(error)))),
                Ok(_) => {
                    if session.status.voice.is_none() {
                        prefetch.stage = PrefetchStage::Settling;
                        (prefetch, Action::Wait(100))
                    } else {
                        (prefetch, Action::Finish(Ok(())))
                    }
                },
            },
            PrefetchStage::Settling => {
                prefetch.stage = PrefetchStage::Refreshing;
                (prefetch, Action::Refresh)
            },
            PrefetchStage::Refreshing => match reply {
                Err(error) => (prefetch, Action::Finish(Err(Failure::Outside(error)))),
                Ok(_) => (prefetch, Action::Finish(Ok(()))),
            },
        }
    }
}

/// Reading the settings opens one dialog only: after the first step it never asks for another.
pub proof fn settings_are_opened_once(
    prefetch: Prefetch,
    session: BrowserSession,
    reply: Result<Answer, String>,
    now: u64,
)
    ensures
        prefetch.after(session, reply, now).2 !is OpenSettings,
{
}

// ---------------------------------------------------------------------------
// Reconnecting
// ---------------------------------------------------------------------------

/// How far reconnecting Voice has got.
#[derive(Debug, Clone, Copy, PartialEq, Eq, Structural)]
pub enum ReconnectStage {
    Reloading,
    Starting,
}

/// Reconnecting Voice: the page is loaded again, and then Voice is started.
#[derive(Debug)]
pub struct ReconnectVoice {
    pub stage: ReconnectStage,
}

impl ReconnectVoice {
    /// Begins with the page.
    pub fn reconnect_voice() -> (begun: (Self, Action))
        ensures
            begun.0 == (ReconnectVoice { stage: ReconnectStage::Reloading }),
            begun.1 == Action::Reload,
    {
        (ReconnectVoice { stage: ReconnectStage::Reloading }, Action::Reload)
    }

    /// The step after a reply.
    pub open spec fn after(self, reply: Result<Answer, String>) -> (ReconnectVoice, Action) {
        match reply {
            Err(error) => (self, flow::failed(error)),
            Ok(_) => match self.stage {
                ReconnectStage::Reloading => (
                    ReconnectVoice { stage: ReconnectStage::Starting },
                    Action::StartVoice,
                ),
                ReconnectStage::Starting => (self, flow::succeeded()),
            },
        }
    }

    /// Goes on with reconnecting.
    pub fn next(self, reply: Result<Answer, String>) -> (continued: (Self, Action))
        ensures
            continued == self.after(reply),
    {
        match reply {
            Err(error) => (self, Action::Finish(Err(Failure::Outside(error)))),
            Ok(_) => match self.stage {
                ReconnectStage::Reloading => (
                    ReconnectVoice { stage: ReconnectStage::Starting },
                    Action::StartVoice,
                ),
                ReconnectStage::Starting => (self, Action::Finish(Ok(()))),
            },
        }
    }
}

/// Voice is reconnected on a fresh page only: it is started after the page was loaded again, and
/// where that fails nothing is started.
pub proof fn voice_is_reconnected_on_a_fresh_page(
    reconnect: ReconnectVoice,
    reply: Result<Answer, String>,
)
    ensures
        reconnect.after(reply).1 is StartVoice <==> reconnect.stage is Reloading && reply is Ok,
        reconnect.after(reply).1 == flow::succeeded() ==> reconnect.stage is Starting && reply is Ok,
{
}

// ---------------------------------------------------------------------------
// The microphone
// ---------------------------------------------------------------------------

/// How far muting or unmuting has got.
#[derive(Debug, Clone, Copy, PartialEq, Eq, Structural)]
pub enum MicrophoneStage {
    Looking,
    Closing,
    Clicking,
    Settling,
    Confirming,
}

/// Muting or unmuting the microphone of Voice.
#[derive(Debug)]
pub struct SetMicrophone {
    pub muted: bool,
    pub stage: MicrophoneStage,
}

impl SetMicrophone {
    /// The click, as soon as nothing stands in its way.
    pub open spec fn ready(self, session: BrowserSession) -> (SetMicrophone, Action) {
        if !session.status.voice_mode_active {
            (self, Action::Finish(Err(Failure::VoiceInactive)))
        } else if session.status.voice_settings_open {
            (
                SetMicrophone { stage: MicrophoneStage::Closing, ..self },
                Action::CloseSettings,
            )
        } else {
            self.clicked(session)
        }
    }

    /// The click itself.
    pub open spec fn clicked(self, session: BrowserSession) -> (SetMicrophone, Action) {
        if session.controlled {
            (
                SetMicrophone { stage: MicrophoneStage::Clicking, ..self },
                Action::Evaluate(Script::SetMicrophone(self.muted)),
            )
        } else {
            (self, Action::Finish(Err(Failure::NotRunning)))
        }
    }

    /// The first step: where Voice is not known to be active, a look at the page.
    pub open spec fn first(muted: bool, session: BrowserSession) -> (SetMicrophone, Action) {
        let start = SetMicrophone { muted, stage: MicrophoneStage::Looking };
        if session.status.voice_mode_active {
            start.ready(session)
        } else {
            (start, Action::Refresh)
        }
    }

    fn make_ready(self, session: &BrowserSession) -> (continued: (Self, Action))
        ensures
            continued == self.ready(*session),
    {
        if !session.status.voice_mode_active {
            (self, Action::Finish(Err(Failure::VoiceInactive)))
        } else if session.status.voice_settings_open {
            (
                SetMicrophone { muted: self.muted, stage: MicrophoneStage::Closing },
                Action::CloseSettings,
            )
        } else {
            self.click(session)
        }
    }

    fn click(self, session: &BrowserSession) -> (continued: (Self, Action))
        ensures
            continued == self.clicked(*session),
    {
        if session.controlled {
            (
                SetMicrophone { muted: self.muted, stage: MicrophoneStage::Clicking },
                Action::Evaluate(Script::SetMicrophone(self.muted)),
            )
        } else {
            (self, Action::Finish(Err(Failure::NotRunning)))
        }
    }

    /// Begins to mute or unmute.
    pub fn begin(muted: bool, session: &BrowserSession) -> (begun: (Self, Action))
        ensures
            begun == Self::first(muted, *session),
    {
        let start = SetMicrophone { muted, stage: MicrophoneStage::Looking };
        if session.status.voice_mode_active {
            start.make_ready(session)
        } else {
            (start, Action::Refresh)
        }
    }

    /// The step after a reply.
    pub open spec fn after(self, session: BrowserSession, reply: Result<Answer, String>) -> (
        SetMicrophone,
        Action,
    ) {
        match self.stage {
            MicrophoneStage::Settling => (
                SetMicrophone { stage: MicrophoneStage::Confirming, ..self },
                Action::Refresh,
            ),
            _ => match reply {
                Err(error) => (self, flow::failed(error)),
                Ok(_) => match self.stage {
                    MicrophoneStage::Looking => self.ready(session),
                    MicrophoneStage::Closing => self.clicked(session),
                    MicrophoneStage::Clicking => if flow::confirmed(reply) {
                        (
                            SetMicrophone { stage: MicrophoneStage::Settling, ..self },
                            Action::Wait(250),
                        )
                    } else {
                        (self, Action::Finish(Err(Failure::MicrophoneNotToggled(self.muted))))
                    },
                    _ => if session.status.chatgpt_mic_muted == Some(self.muted) {
                        (self, flow::succeeded())
                    } else {
                        (self, Action::Finish(Err(Failure::MicrophoneUnchanged(self.muted))))
                    },
                },
            },
        }
    }

    /// Goes on with muting or unmuting.
    pub fn next(self, session: &BrowserSession, reply: Result<Answer, String>) -> (continued: (
        Self,
        Action,
    ))
        ensures
            continued == self.after(*session, reply),
    {
        let muted = self.muted;
        let confirmed = flow::is_confirmed(&reply);
        match self.stage {
            MicrophoneStage::Settling => {
                return (
                    SetMicrophone { muted, stage: MicrophoneStage::Confirming },
                    Action::Refresh,
                );
            },
            _ => {},
        }
        if let Err(error) = reply {
            return (self, Action::Finish(Err(Failure::Outside(error))));
        }
        match self.stage {
            MicrophoneStage::Looking => self.make_ready(session),
            MicrophoneStage::Closing => self.click(session),
            MicrophoneStage::Clicking => {
                if confirmed {
                    (SetMicrophone { muted, stage: MicrophoneStage::Settling }, Action::Wait(250))
                } else {
                    (self, Action::Finish(Err(Failure::MicrophoneNotToggled(muted))))
                }
            },
            _ => {
                let reached = match session.status.chatgpt_mic_muted {
                    Some(current) => current == muted,
                    None => false,
                };
                if reached {
                    (self, Action::Finish(Ok(())))
                } else {
                    (self, Action::Finish(Err(Failure::MicrophoneUnchanged(muted))))
                }
            },
        }
    }
}

/// Muting or unmuting succeeds only when the page shows the microphone as asked.
pub proof fn microphone_ends_as_asked(
    change: SetMicrophone,
    session: BrowserSession,
    reply: Result<Answer, String>,
)
    requires
        change.after(session, reply).1 == flow::succeeded(),
    ensures
        session.status.chatgpt_mic_muted == Some(change.muted),
{
}

/// How far seeing to the microphone has got.
#[derive(Debug, Clone, Copy, PartialEq, Eq, Structural)]
pub enum EnsureStage {
    Looking,
    Unmuting,
    Pausing,
}

/// Seeing to it that the microphone is live: a few attempts, and no failure.
#[derive(Debug)]
pub struct EnsureMicrophone {
    pub stage: EnsureStage,
    pub attempt: u32,
}

impl EnsureMicrophone {
    /// Begins with a look at the page.
    pub fn begin() -> (begun: (Self, Action))
        ensures
            begun.0 == (EnsureMicrophone { stage: EnsureStage::Looking, attempt: 0 }),
            begun.1 == Action::Refresh,
    {
        (EnsureMicrophone { stage: EnsureStage::Looking, attempt: 0 }, Action::Refresh)
    }

    /// The step after a reply.
    pub open spec fn after(self, session: BrowserSession, reply: Result<Answer, String>) -> (
        EnsureMicrophone,
        Action,
    ) {
        let live = session.status.chatgpt_mic_muted == Some(false);
        let pause = (EnsureMicrophone { stage: EnsureStage::Pausing, ..self }, Action::Wait(250));
        match self.stage {
            EnsureStage::Looking => if reply is Err || !session.status.voice_mode_active {
                pause
            } else if live {
                (self, flow::succeeded())
            } else {
                (
                    EnsureMicrophone { stage: EnsureStage::Unmuting, ..self },
                    Action::SetMicrophone(false),
                )
            },
            EnsureStage::Unmuting => if reply is Ok && live {
                (self, flow::succeeded())
            } else {
                pause
            },
            EnsureStage::Pausing => if self.attempt + 1 < MICROPHONE_ATTEMPTS {
                (
                    EnsureMicrophone {
                        stage: EnsureStage::Looking,
                        attempt: (self.attempt + 1) as u32,
                    },
                    Action::Refresh,
                )
            } else {
                (self, flow::succeeded())
            },
        }
    }

    /// Goes on with seeing to the microphone.
    pub fn next(self, session: &BrowserSession, reply: Result<Answer, String>) -> (continued: (
        Self,
        Action,
    ))
        ensures
            continued == self.after(*session, reply),
    {
        let mut ensure = self;
        let live = match session.status.chatgpt_mic_muted {
            Some(muted) => !muted,
            None => false,
        };
        match ensure.stage {
            EnsureStage::Looking => {
                if reply.is_err() || !session.status.voice_mode_active {
                    ensure.stage = EnsureStage::Pausing;
                    (ensure, Action::Wait(250))
                } else if live {
                    (ensure, Action::Finish(Ok(())))
                } else {
                    ensure.stage = EnsureStage::Unmuting;
                    (ensure, Action::SetMicrophone(false))
                }
            },
            EnsureStage::Unmuting => {
                if reply.is_ok() && live {
                    (ensure, Action::Finish(Ok(())))
                } else {
                    ensure.stage = EnsureStage::Pausing;
                    (ensure, Action::Wait(250))
                }
            },
            EnsureStage::Pausing => {
                if ensure.attempt < MICROPHONE_ATTEMPTS - 1 {
                    ensure.stage = EnsureStage::Looking;
                    ensure.attempt = ensure.attempt + 1;
                    (ensure, Action::Refresh)
                } else {
                    (ensure, Action::Finish(Ok(())))
                }
            },
        }
    }
}

/// How many further steps the flow can take at most.
pub open spec fn attempts_left(ensure: EnsureMicrophone) -> int {
    3 * (MICROPHONE_ATTEMPTS - ensure.attempt) + match ensure.stage {
        EnsureStage::Looking => 2int,
        EnsureStage::Unmuting => 1int,
        EnsureStage::Pausing => 0int,
    }
}

/// Seeing to the microphone never fails and always ends: each step either finishes the flow with
/// success or leaves fewer steps.
pub proof fn microphone_attempts_end(
    ensure: EnsureMicrophone,
    session: BrowserSession,
    reply: Result<Answer, String>,
)
    requires
        ensure.attempt < MICROPHONE_ATTEMPTS,
    ensures
        ({
            let (after, action) = ensure.after(session, reply);
            action == flow::succeeded() || (0 <= attempts_left(after) < attempts_left(ensure)
                && after.attempt < MICROPHONE_ATTEMPTS && action !is Finish)
        }),
{
}

// ---------------------------------------------------------------------------
// What the flows are for
// ---------------------------------------------------------------------------

/// A hidden window is shown, brought to the front and woken before Voice starts, whatever is
/// replied; a visible page goes on to Voice after 700 ms.
pub proof fn hidden_window_is_shown_for_voice(
    session: BrowserSession,
    replies: (Result<Answer, String>, Result<Answer, String>, Result<Answer, String>),
    last: Result<Answer, String>,
    times: (u64, u64, u64, u64, u64),
)
    requires
        session.status.window_hidden,
        session.controlled,
    ensures
        ({
            let (start, held, show) = StartVoice::first(session);
            let (front, held, to_front) = start.after(held, replies.0, times.0);
            let (waking, held, wake) = front.after(held, replies.1, times.1);
            let (looking, held, look) = waking.after(held, replies.2, times.2);
            let (appearing, held, wait) = looking.after(held, Ok(Answer::Flag(true)), times.3);
            let (activating, held, activate) = appearing.after(held, last, times.4);
            &&& show == Action::SetWindow(false)
            &&& to_front == Action::Call(Command::BringToFront)
            &&& wake == Action::Call(Command::KeepActive)
            &&& look == Action::Evaluate(Script::PageVisible)
            &&& wait == Action::Wait(700)
            &&& activate == Action::ActivateVoice
            &&& held.visibility_hold
            &&& activating.stage is Activating
            &&& activating.temporarily_shown
        }),
{
}

/// A page that is not visible yet is looked at again every 100 ms, for three seconds; then Voice
/// starts all the same.
pub proof fn invisible_page_is_looked_at_again(
    start: StartVoice,
    session: BrowserSession,
    unseen: Result<Answer, String>,
    waited: Result<Answer, String>,
    times: (u64, u64),
)
    requires
        start.stage is Looking,
        unseen != Ok::<Answer, String>(Answer::Flag(true)),
    ensures
        ({
            let (pausing, after, pause) = start.after(session, unseen, times.0);
            let (next, after, action) = pausing.after(after, waited, times.1);
            &&& pause == Action::Wait(100)
            &&& times.1 < start.started_at + 3_000_000_000 ==> action == Action::Evaluate(
                Script::PageVisible,
            ) && next == start
            &&& times.1 >= start.started_at + 3_000_000_000 ==> action == Action::Wait(700)
                && next.stage is Appearing
        }),
{
}

/// A window that is visible already, or is not under control, does not keep Voice from starting.
pub proof fn visible_window_starts_voice_at_once(
    session: BrowserSession,
    start: StartVoice,
    reply: Result<Answer, String>,
    now: u64,
)
    ensures
        !session.status.window_hidden ==> StartVoice::first(session).2 == Action::ActivateVoice
            && StartVoice::first(session).1 == session,
        start.stage is Showing && !session.controlled ==> start.after(session, reply, now).2
            == Action::Wait(700) && start.after(session, reply, now).0.stage is Appearing,
{
}

/// How starting Voice ends is how activating it ended, whether or not the window was shown for it
/// and whatever the steps in between reply.
pub proof fn starting_voice_ends_as_activating_it(
    start: StartVoice,
    session: BrowserSession,
    reply: Result<Answer, String>,
    replies: (Result<Answer, String>, Result<Answer, String>, Result<Answer, String>),
    times: (u64, u64, u64, u64),
)
    requires
        start.stage is Activating,
    ensures
        ({
            let end = match reply {
                Ok(_) => Action::Finish(Ok(())),
                Err(error) => Action::Finish(Err(Failure::Outside(error))),
            };
            let (hiding, released, hide) = start.after(session, reply, times.0);
            let (keeping, kept, second) = hiding.after(released, replies.0, times.1);
            let (recovering, kept, third) = keeping.after(kept, replies.1, times.2);
            let (_, _, fourth) = recovering.after(kept, replies.2, times.3);
            &&& !start.temporarily_shown ==> hide == end
            &&& start.temporarily_shown && !session.controlled ==> second == end
            &&& start.temporarily_shown && session.controlled ==> second == Action::Call(
                Command::KeepActive,
            ) && third == Action::Evaluate(Script::RecoverOutput) && fourth == end
        }),
{
}

/// Activating Voice begins with the search for its control, as long as the page is under control
/// and the microphone is permitted.
pub proof fn voice_control_is_searched_for(
    activation: ActivateVoice,
    session: BrowserSession,
    answer: Answer,
    now: u64,
)
    requires
        activation.stage is Looking,
    ensures
        ({
            let (next, action) = activation.after(session, Ok(answer), now);
            if session.status.microphone_permission_required {
                action == Action::Finish(Err(Failure::MicrophoneBlocked))
            } else if !session.controlled {
                action == Action::Finish(Err(Failure::NotRunning))
            } else {
                &&& action == Action::Evaluate(Script::VoicePoint)
                &&& next == (ActivateVoice { stage: ActivateStage::Finding, started_at: now })
            }
        }),
{
}

/// The search goes on: a page that does not show the control yet is searched again after 250 ms,
/// for twenty seconds from the first search, as long as the microphone is permitted.
pub proof fn search_for_the_control_goes_on(
    activation: ActivateVoice,
    session: BrowserSession,
    later: BrowserSession,
    answer: Answer,
    waited: Result<Answer, String>,
    times: (u64, u64),
)
    requires
        activation.stage is Finding,
        answer !is Point,
    ensures
        ({
            let (pausing, pause) = activation.after(session, Ok(answer), times.0);
            let (next, action) = pausing.after(later, waited, times.1);
            &&& pause == Action::Wait(250)
            &&& times.1 < activation.started_at + 20_000_000_000
                && !later.status.microphone_permission_required ==> action == Action::Evaluate(
                Script::VoicePoint,
            ) && next == activation
            &&& times.1 < activation.started_at + 20_000_000_000
                && later.status.microphone_permission_required ==> action == Action::Finish(
                Err(Failure::MicrophoneBlocked),
            )
            &&& times.1 >= activation.started_at + 20_000_000_000 ==> action == Action::Finish(
                Err(Failure::VoiceControlMissing),
            )
        }),
{
}

/// After the click the page is looked at until Voice is active: every 250 ms, for fifteen seconds
/// from the click.
pub proof fn active_voice_is_waited_for(
    activation: ActivateVoice,
    session: BrowserSession,
    later: BrowserSession,
    answers: (Answer, Answer),
    waited: Result<Answer, String>,
    times: (u64, u64, u64),
)
    requires
        activation.stage is Releasing,
        !session.status.microphone_permission_required,
        !session.status.voice_mode_active,
    ensures
        ({
            let (watching, look) = activation.after(session, Ok(answers.0), times.0);
            let (pausing, pause) = watching.after(session, Ok(answers.1), times.1);
            let (next, action) = pausing.after(later, waited, times.2);
            &&& look == Action::Refresh
            &&& pause == Action::Wait(250)
            &&& action == Action::Refresh
            &&& times.2 < times.0 + 15_000_000_000 ==> next == watching
            &&& times.2 >= times.0 + 15_000_000_000 ==> next.stage is LastLook
        }),
{
}

/// Voice that is active succeeds: the settings are read, the microphone is made live and the audio
/// is attached again, and none of these can fail the start any more.
pub proof fn active_voice_is_a_success(
    activation: ActivateVoice,
    session: BrowserSession,
    later: BrowserSession,
    answer: Answer,
    replies: (
        Result<Answer, String>,
        Result<Answer, String>,
        Result<Answer, String>,
        Result<Answer, String>,
    ),
    times: (u64, u64, u64, u64, u64),
)
    requires
        activation.stage is Watching,
        session.status.voice_mode_active,
        !session.status.microphone_permission_required,
    ensures
        ({
            let (settling, wait) = activation.after(session, Ok(answer), times.0);
            let (prefetching, read) = settling.after(later, replies.0, times.1);
            let (unmuting, unmute) = prefetching.after(later, replies.1, times.2);
            let (recovering, recover) = unmuting.after(later, replies.2, times.3);
            let (_, end) = recovering.after(later, replies.3, times.4);
            &&& wait == Action::Wait(500)
            &&& read == Action::PrefetchSettings
            &&& unmute == Action::EnsureMicrophone
            &&& recover == Action::Evaluate(Script::RecoverOutput)
            &&& end == Action::Finish(Ok(()))
        }),
{
}

/// The last look decides: active Voice is a success, a microphone that is not permitted is named,
/// and anything else is a failure. A failed look, search or click ends the start with its error.
pub proof fn last_look_decides(
    activation: ActivateVoice,
    session: BrowserSession,
    answer: Answer,
    error: String,
    now: u64,
)
    ensures
        activation.stage is LastLook ==> activation.after(session, Ok(answer), now).1
            == Action::Finish(
            if session.status.microphone_permission_required {
                Err(Failure::MicrophoneBlocked)
            } else if session.status.voice_mode_active {
                Ok(())
            } else {
                Err(Failure::VoiceNotStarted)
            },
        ),
        activation.stage is Watching && session.status.microphone_permission_required
            ==> activation.after(session, Ok(answer), now).1 == Action::Finish(
            Err(Failure::MicrophoneBlocked),
        ),
        activation.stage is Looking || activation.stage is Finding || activation.stage is Moving
            || activation.stage is Pressing || activation.stage is Releasing
            || activation.stage is Watching || activation.stage is LastLook ==> activation.after(
            session,
            Err(error),
            now,
        ).1 == Action::Finish(Err(Failure::Outside(error))),
{
}

/// Opening and closing the settings works: after a click that counted, settings that show as asked
/// are a success, and others are looked at again every 50 ms, for three seconds from the click.
pub proof fn settings_are_opened_and_closed(
    dialog: SettingsDialog,
    session: BrowserSession,
    visible: bool,
    answer: Answer,
    waited: Result<Answer, String>,
    times: (u64, u64, u64, u64),
)
    requires
        dialog.stage is Clicking,
    ensures
        ({
            let (checking, check) = dialog.after(session, Ok(Answer::Flag(true)), times.0);
            let (second, look) = checking.after(session, Ok(Answer::Flag(visible)), times.1);
            let (third, end) = second.after(session, Ok(answer), times.2);
            let agrees = session.status.voice_settings_open == dialog.open;
            let pausing = if visible == dialog.open {
                third
            } else {
                second
            };
            let (again, action) = pausing.after(session, waited, times.3);
            &&& check == Action::Evaluate(Script::SettingsVisible)
            &&& visible == dialog.open ==> look == Action::Refresh
            &&& visible == dialog.open && agrees ==> end == Action::Finish(Ok(()))
            &&& visible == dialog.open && !agrees ==> end == Action::Wait(50)
            &&& visible != dialog.open ==> look == Action::Wait(50)
            &&& (visible != dialog.open || !agrees) && times.3 < times.0 + 3_000_000_000 ==> action
                == Action::Evaluate(Script::SettingsVisible) && again == checking
            &&& (visible != dialog.open || !agrees) && times.3 >= times.0 + 3_000_000_000 ==> action
                is Finish && action != Action::Finish(Ok(()))
        }),
{
}

/// The settings are opened and closed by their own scripts; a click that did not count is named,
/// and an error is passed on.
pub proof fn settings_clicks_are_named(
    open: bool,
    session: BrowserSession,
    dialog: SettingsDialog,
    answer: Answer,
    error: String,
    now: u64,
)
    ensures
        session.controlled ==> SettingsDialog::first(open, session) == Action::Evaluate(
            if open {
                Script::OpenSettings
            } else {
                Script::CloseSettings
            },
        ),
        !session.controlled ==> SettingsDialog::first(open, session) == Action::Finish(
            Err(Failure::NotRunning),
        ),
        dialog.stage is Clicking && answer != Answer::Flag(true) ==> dialog.after(
            session,
            Ok(answer),
            now,
        ).1 == Action::Finish(
            Err(
                if dialog.open {
                    Failure::SettingsControlMissing
                } else {
                    Failure::SettingsCloseMissing
                },
            ),
        ),
        dialog.stage !is Pausing ==> dialog.after(session, Err(error), now).1 == Action::Finish(
            Err(Failure::Outside(error)),
        ),
{
}

/// What the settings offer is read where it is not known or ten minutes old, and kept; the dialog
/// is closed again in any case.
pub proof fn options_are_read_and_kept(
    session: BrowserSession,
    options: VoiceSettingOptions,
    opened: Answer,
    closed: Answer,
    fresh: bool,
    now: u64,
)
    ensures
        options_stale(session, now) <==> (session.options_fetched_at is None || now
            >= session.options_fetched_at->0 + 600_000_000_000),
        ({
            let start = Prefetch { stage: PrefetchStage::Opening, refresh_options: !fresh };
            let (second, kept, action) = start.after(session, Ok(opened), now);
            let (third, read, close) = second.after(kept, Ok(Answer::Options(options)), now);
            let (_, _, end) = third.after(read, Ok(closed), now);
            &&& kept == session
            &&& fresh ==> action == Action::CloseSettings
            &&& !fresh ==> {
                &&& action == Action::DiscoverOptions
                &&& close == Action::CloseSettings
                &&& options.voices@.len() > 0 || options.intelligence@.len() > 0
                    || options.languages@.len() > 0 ==> read.options_fetched_at == Some(now)
                &&& read.status.available_voices == options.voices
                &&& read.status.available_intelligence == options.intelligence
                &&& read.status.available_languages == options.languages
                &&& options.current_voice is Some ==> read.status.voice == options.current_voice
                &&& read.status.voice is Some ==> end == Action::Finish(Ok(()))
                &&& read.status.voice is None ==> end == Action::Wait(100)
            }
        }),
{
}

/// Reading the settings ends: without a known voice there is one more look after 100 ms, and a
/// failure to discover the options does not keep the dialog open.
pub proof fn reading_the_settings_ends(
    prefetch: Prefetch,
    session: BrowserSession,
    waited: Result<Answer, String>,
    answer: Answer,
    error: String,
    now: u64,
)
    ensures
        prefetch.stage is Settling ==> ({
            let (refreshing, after, look) = prefetch.after(session, waited, now);
            &&& look == Action::Refresh
            &&& refreshing.after(after, Ok(answer), now).2 == Action::Finish(Ok(()))
            &&& refreshing.after(after, Err(error), now).2 == Action::Finish(
                Err(Failure::Outside(error)),
            )
        }),
        prefetch.stage is Discovering ==> prefetch.after(session, Err(error), now).2
            == Action::CloseSettings && prefetch.after(session, Err(error), now).1 == session,
        prefetch.stage is Opening || prefetch.stage is Closing ==> prefetch.after(
            session,
            Err(error),
            now,
        ).2 == Action::Finish(Err(Failure::Outside(error))),
{
}

/// Reconnecting ends when Voice has started again, and with the error of the step that failed.
pub proof fn reconnecting_ends_as_its_steps(
    reconnect: ReconnectVoice,
    answers: (Answer, Answer),
    error: String,
)
    requires
        reconnect.stage is Reloading,
    ensures
        ({
            let (starting, start) = reconnect.after(Ok(answers.0));
            &&& start == Action::StartVoice
            &&& starting.after(Ok(answers.1)).1 == Action::Finish(Ok(()))
            &&& starting.after(Err(error)).1 == Action::Finish(Err(Failure::Outside(error)))
            &&& reconnect.after(Err(error)).1 == Action::Finish(Err(Failure::Outside(error)))
        }),
{
}

/// The microphone is switched where Voice is active: open settings are closed first, a click that
/// counted is followed by a look after 250 ms, and the look decides.
pub proof fn microphone_is_switched(
    muted: bool,
    session: BrowserSession,
    later: BrowserSession,
    answers: (Answer, Answer),
    waited: Result<Answer, String>,
)
    requires
        session.status.voice_mode_active,
        session.controlled,
    ensures
        ({
            let (start, first) = SetMicrophone::first(muted, session);
            let (clicking, click) = if session.status.voice_settings_open {
                start.after(session, Ok(answers.0))
            } else {
                (start, first)
            };
            let (settling, wait) = clicking.after(session, Ok(Answer::Flag(true)));
            let (confirming, look) = settling.after(session, waited);
            let (_, end) = confirming.after(later, Ok(answers.1));
            &&& session.status.voice_settings_open ==> first == Action::CloseSettings
            &&& click == Action::Evaluate(Script::SetMicrophone(muted))
            &&& wait == Action::Wait(250)
            &&& look == Action::Refresh
            &&& later.status.chatgpt_mic_muted == Some(muted) ==> end == Action::Finish(Ok(()))
            &&& later.status.chatgpt_mic_muted != Some(muted) ==> end == Action::Finish(
                Err(Failure::MicrophoneUnchanged(muted)),
            )
        }),
{
}

/// Where Voice is not known to be active, the page is looked at first; Voice that is found active
/// then makes no difference to Voice that was known to be.
pub proof fn microphone_waits_for_a_look(
    muted: bool,
    session: BrowserSession,
    later: BrowserSession,
    answer: Answer,
    error: String,
    clicking: SetMicrophone,
)
    requires
        !session.status.voice_mode_active,
    ensures
        ({
            let (looking, look) = SetMicrophone::first(muted, session);
            &&& look == Action::Refresh
            &&& later.status.voice_mode_active ==> looking.after(later, Ok(answer))
                == SetMicrophone::first(muted, later)
            &&& !later.status.voice_mode_active ==> looking.after(later, Ok(answer)).1
                == Action::Finish(Err(Failure::VoiceInactive))
            &&& looking.after(later, Err(error)).1 == Action::Finish(Err(Failure::Outside(error)))
        }),
        clicking.stage is Clicking && answer != Answer::Flag(true) ==> clicking.after(
            session,
            Ok(answer),
        ).1 == Action::Finish(Err(Failure::MicrophoneNotToggled(clicking.muted))),
{
}

/// A muted microphone is unmuted: an active page whose microphone is not live is asked to unmute,
/// and a live one ends the flow. Anything else is tried again after 250 ms, five times in all.
pub proof fn microphone_is_made_live(
    ensure: EnsureMicrophone,
    session: BrowserSession,
    later: BrowserSession,
    answer: Answer,
    reply: Result<Answer, String>,
    waited: Result<Answer, String>,
)
    requires
        ensure.stage is Looking,
        ensure.attempt < 5,
    ensures
        ({
            let live = session.status.chatgpt_mic_muted == Some(false);
            let (next, action) = ensure.after(session, Ok(answer));
            let (unmuted, second) = next.after(later, reply);
            &&& session.status.voice_mode_active && live ==> action == Action::Finish(Ok(()))
            &&& session.status.voice_mode_active && !live ==> {
                &&& action == Action::SetMicrophone(false)
                &&& reply is Ok && later.status.chatgpt_mic_muted == Some(false) ==> second
                    == Action::Finish(Ok(()))
                &&& !(reply is Ok && later.status.chatgpt_mic_muted == Some(false)) ==> second
                    == Action::Wait(250) && unmuted.stage is Pausing
            }
            &&& !session.status.voice_mode_active ==> {
                &&& action == Action::Wait(250)
                &&& ensure.attempt < 4 ==> next.after(later, waited).1 == Action::Refresh
                    && next.after(later, waited).0 == (EnsureMicrophone {
                    stage: EnsureStage::Looking,
                    attempt: (ensure.attempt + 1) as u32,
                })
                &&& ensure.attempt == 4 ==> next.after(later, waited).1 == Action::Finish(Ok(()))
            }
        }),
{
}

/// Where the settings did not show the voice, the page is looked at once more after 100 ms, and
/// reading the settings ends as that look; where they did, it is over at once.
pub proof fn missing_voice_is_looked_at_again(
    prefetch: Prefetch,
    session: BrowserSession,
    closed: Answer,
    waited: Result<Answer, String>,
    seen: Answer,
    error: String,
    now: u64,
)
    requires
        prefetch.stage is Closing,
    ensures
        session.status.voice is Some ==> prefetch.after(session, Ok(closed), now).2
            == Action::Finish(Ok(())),
        session.status.voice is None ==> {
            let (settling, kept, wait) = prefetch.after(session, Ok(closed), now);
            let (looking, still, look) = settling.after(kept, waited, now);
            &&& wait == Action::Wait(100)
            &&& look is Refresh
            &&& looking.after(still, Ok(seen), now).2 == Action::Finish(Ok(()))
            &&& looking.after(still, Err(error), now).2 == Action::Finish(
                Err(Failure::Outside(error)),
            )
        },
{
}

} // verus!
