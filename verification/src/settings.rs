//! Changing the settings of ChatGPT Voice.

use crate::browser;
use crate::browser::{BrowserSession, BrowserStatus};
use crate::flow;
use crate::flow::{Action, Answer, Direction, Failure, Script};
use crate::text;
use vstd::prelude::*;

verus! {

/// How often a value is looked for before it counts as missing.
pub const OPTION_ATTEMPTS: u32 = 20;

/// The longest list of voices that is walked through.
pub const MAX_DISCOVERED_VOICES: usize = 32;

/// How far changing a setting has got.
#[derive(Debug, Clone, Copy, PartialEq, Eq, Structural)]
pub enum RowStage {
    Opening,
    OpeningRow,
    Choosing,
    Pausing,
    Settling,
    Closing,
    Restoring,
    Ensuring,
}

/// Changing the intelligence or the language.
#[derive(Debug)]
pub struct SetRow {
    pub label: String,
    pub target: String,
    pub stage: RowStage,
    pub tries: u32,
    pub outcome: Result<(), Failure>,
}

/// The setting is the intelligence, and the account is known not to offer it.
pub open spec fn unavailable(label: Seq<char>, session: BrowserSession) -> bool {
    text::same_ignoring_case(label, "Intelligence"@) && session.options_fetched_at is Some
        && session.status.available_intelligence@.len() == 0
}

impl SetRow {
    /// Begins to change a setting.
    pub fn set_voice_setting_row(label: String, target: String, session: &BrowserSession) -> (
    begun: (Self, Action))
        ensures
            begun.0 == (SetRow {
                label,
                target,
                stage: RowStage::Opening,
                tries: 0,
                outcome: Ok(()),
            }),
            begun.1 == (if unavailable(label@, *session) {
                Action::Finish(Err(Failure::IntelligenceUnavailable))
            } else {
                Action::OpenSettings
            }),
    {
        let missing = text::eq_ignore_ascii_case(label.as_str(), "Intelligence")
            && session.options_fetched_at.is_some() && session.status.available_intelligence.len()
            == 0;
        let change = SetRow { label, target, stage: RowStage::Opening, tries: 0, outcome: Ok(()) };
        if missing {
            (change, Action::Finish(Err(Failure::IntelligenceUnavailable)))
        } else {
            (change, Action::OpenSettings)
        }
    }

    /// The settings are closed whatever the outcome is.
    pub open spec fn closing(self, outcome: Result<(), Failure>) -> (SetRow, Action) {
        (SetRow { stage: RowStage::Closing, outcome, ..self }, Action::CloseSettings)
    }

    /// The status with the new value of the setting.
    pub open spec fn applied(self, session: BrowserSession) -> BrowserSession {
        if text::same_ignoring_case(self.label@, "Intelligence"@) {
            BrowserSession {
                status: BrowserStatus { intelligence: Some(self.target), ..session.status },
                ..session
            }
        } else if text::same_ignoring_case(self.label@, "Language"@) {
            BrowserSession {
                status: BrowserStatus { language: Some(self.target), ..session.status },
                ..session
            }
        } else {
            session
        }
    }

    /// The step after a reply while the settings are open.
    pub open spec fn advanced(self, session: BrowserSession, reply: Result<Answer, String>) -> (
        SetRow,
        Action,
    ) {
        match self.stage {
            RowStage::Opening => match reply {
                Err(error) => (self, flow::failed(error)),
                Ok(_) => if session.controlled {
                    (
                        SetRow { stage: RowStage::OpeningRow, ..self },
                        Action::Evaluate(Script::OpenRow(self.label)),
                    )
                } else {
                    (self, Action::Finish(Err(Failure::NotRunning)))
                },
            },
            RowStage::OpeningRow => match reply {
                Err(error) => self.closing(Err(Failure::Outside(error))),
                Ok(_) => if flow::confirmed(reply) {
                    (
                        SetRow { stage: RowStage::Choosing, tries: 0, ..self },
                        Action::Evaluate(Script::ChooseOption(self.label, self.target)),
                    )
                } else {
                    self.closing(Err(Failure::RowMissing(self.label)))
                },
            },
            RowStage::Choosing => match reply {
                Err(error) => self.closing(Err(Failure::Outside(error))),
                Ok(_) => if flow::confirmed(reply) {
                    (SetRow { stage: RowStage::Settling, ..self }, Action::Wait(150))
                } else {
                    (SetRow { stage: RowStage::Pausing, ..self }, Action::Wait(50))
                },
            },
            RowStage::Pausing => if self.tries + 1 < OPTION_ATTEMPTS {
                (
                    SetRow {
                        stage: RowStage::Choosing,
                        tries: (self.tries + 1) as u32,
                        ..self
                    },
                    Action::Evaluate(Script::ChooseOption(self.label, self.target)),
                )
            } else {
                self.closing(Err(Failure::OptionMissing(self.label, self.target)))
            },
            RowStage::Settling => self.closing(Ok(())),
            RowStage::Restoring => (
                SetRow { stage: RowStage::Ensuring, ..self },
                Action::EnsureMicrophone,
            ),
            _ => (self, flow::succeeded()),
        }
    }

    /// The step after a reply. The value is taken over into the status once it was chosen and the
    /// settings are closed; the microphone, which a change can mute, is made live again.
    pub open spec fn after(self, session: BrowserSession, reply: Result<Answer, String>) -> (
        SetRow,
        BrowserSession,
        Action,
    ) {
        if self.stage is Closing {
            match (self.outcome, reply) {
                (Err(failure), _) => (
                    SetRow { outcome: Ok(()), ..self },
                    session,
                    Action::Finish(Err(failure)),
                ),
                (Ok(_), Err(error)) => (self, session, flow::failed(error)),
                (Ok(_), Ok(_)) => (
                    SetRow { stage: RowStage::Restoring, ..self },
                    self.applied(session),
                    Action::Wait(150),
                ),
            }
        } else {
            (
                self.advanced(session, reply).0,
                session,
                self.advanced(session, reply).1,
            )
        }
    }

    fn close(self, outcome: Result<(), Failure>) -> (continued: (Self, Action))
        ensures
            continued == self.closing(outcome),
    {
        let mut change = self;
        change.stage = RowStage::Closing;
        change.outcome = outcome;
        (change, Action::CloseSettings)
    }

    fn advance(self, session: &BrowserSession, reply: Result<Answer, String>) -> (continued: (
        Self,
        Action,
    ))
        requires
            self.tries < OPTION_ATTEMPTS,
        ensures
            continued == self.advanced(*session, reply),
    {
        let mut change = self;
        let confirmed = flow::is_confirmed(&reply);
        match change.stage {
            RowStage::Opening => match reply {
                Err(error) => (change, Action::Finish(Err(Failure::Outside(error)))),
                Ok(_) => {
                    if session.controlled {
                        change.stage = RowStage::OpeningRow;
                        let label = change.label.clone();
                        (change, Action::Evaluate(Script::OpenRow(label)))
                    } else {
                        (change, Action::Finish(Err(Failure::NotRunning)))
                    }
                },
            },
            RowStage::OpeningRow => match reply {
                Err(error) => change.close(Err(Failure::Outside(error))),
                Ok(_) => {
                    let label = change.label.clone();
                    if confirmed {
                        change.stage = RowStage::Choosing;
                        change.tries = 0;
                        let target = change.target.clone();
                        (change, Action::Evaluate(Script::ChooseOption(label, target)))
                    } else {
                        change.close(Err(Failure::RowMissing(label)))
                    }
                },
            },
            RowStage::Choosing => match reply {
                Err(error) => change.close(Err(Failure::Outside(error))),
                Ok(_) => {
                    if confirmed {
                        change.stage = RowStage::Settling;
                        (change, Action::Wait(150))
                    } else {
                        change.stage = RowStage::Pausing;
                        (change, Action::Wait(50))
                    }
                },
            },
            RowStage::Pausing => {
                let label = change.label.clone();
                let target = change.target.clone();
                if change.tries + 1 < OPTION_ATTEMPTS {
                    change.stage = RowStage::Choosing;
                    change.tries = change.tries + 1;
                    (change, Action::Evaluate(Script::ChooseOption(label, target)))
                } else {
                    change.close(Err(Failure::OptionMissing(label, target)))
                }
            },
            RowStage::Settling => change.close(Ok(())),
            RowStage::Restoring => {
                change.stage = RowStage::Ensuring;
                (change, Action::EnsureMicrophone)
            },
            _ => (change, Action::Finish(Ok(()))),
        }
    }

    fn apply(&self, session: &mut BrowserSession)
        ensures
            *final(session) == self.applied(*old(session)),
    {
        if text::eq_ignore_ascii_case(self.label.as_str(), "Intelligence") {
            session.status.intelligence = Some(self.target.clone());
        } else if text::eq_ignore_ascii_case(self.label.as_str(), "Language") {
            session.status.language = Some(self.target.clone());
        }
    }

    /// Goes on with changing the setting.
    pub fn next(self, session: &mut BrowserSession, reply: Result<Answer, String>) -> (continued: (
        Self,
        Action,
    ))
        requires
            self.tries < OPTION_ATTEMPTS,
        ensures
            (continued.0, *final(session), continued.1) == self.after(*old(session), reply),
            continued.0.tries < OPTION_ATTEMPTS,
    {
        match self.stage {
            RowStage::Closing => {
                let SetRow { label, target, stage, tries, outcome } = self;
                match outcome {
                    Err(failure) => (
                        SetRow { label, target, stage, tries, outcome: Ok(()) },
                        Action::Finish(Err(failure)),
                    ),
                    Ok(done) => {
                        let mut change = SetRow { label, target, stage, tries, outcome: Ok(done) };
                        match reply {
                            Err(error) => (change, Action::Finish(Err(Failure::Outside(error)))),
                            Ok(_) => {
                                change.apply(session);
                                change.stage = RowStage::Restoring;
                                (change, Action::Wait(150))
                            },
                        }
                    },
                }
            },
            _ => self.advance(session, reply),
        }
    }
}

/// A change that fails after the settings were opened closes them before it ends.
pub proof fn settings_are_closed_before_a_change_ends(
    change: SetRow,
    session: BrowserSession,
    reply: Result<Answer, String>,
)
    requires
        change.stage is OpeningRow || change.stage is Choosing || change.stage is Pausing
            || change.stage is Settling,
    ensures
        change.after(session, reply).2 !is Finish,
        change.after(session, reply).1 == session,
{
}

/// How far changing the voice has got.
#[derive(Debug, Clone, Copy, PartialEq, Eq, Structural)]
pub enum VoiceStage {
    Opening,
    Looking,
    Discovering,
    Describing,
    Clicking,
    ClickSettling,
    ClickLooking,
    Stepping,
    StepSettling,
    StepLooking,
    Closing,
    Restoring,
    Ensuring,
}

/// Changing the voice: by choosing it from a list, or by stepping through the voices in one
/// direction and then the other.
#[derive(Debug)]
pub struct SetVoice {
    pub requested: String,
    pub target: String,
    pub current: String,
    pub before: String,
    pub direction: Direction,
    pub maximum: usize,
    pub remaining: usize,
    pub stage: VoiceStage,
    pub outcome: Result<(), Failure>,
}

/// How many steps one direction gets: as many as there are voices, within limits, and one more.
pub open spec fn step_limit(voices: nat) -> nat {
    if voices < 2 {
        3
    } else if voices > MAX_DISCOVERED_VOICES {
        (MAX_DISCOVERED_VOICES + 1) as nat
    } else {
        voices + 1
    }
}

fn limit_steps(voices: usize) -> (limit: usize)
    ensures
        limit == step_limit(voices as nat),
{
    if voices < 2 {
        3
    } else if voices > MAX_DISCOVERED_VOICES {
        MAX_DISCOVERED_VOICES + 1
    } else {
        voices + 1
    }
}

impl SetVoice {
    /// Begins to change the voice; a name is needed.
    pub fn set_voice(target: &str) -> (begun: (Self, Action))
        ensures
            begun.0.requested@ == text::trimmed(target@),
            begun.0.stage is Opening,
            begun.0.outcome is Ok,
            begun.0.aims_right(),
            begun.1 == (if text::trimmed(target@).len() == 0 {
                Action::Finish(Err(Failure::VoiceNameMissing))
            } else {
                Action::OpenSettings
            }),
    {
        let requested = text::trim(target);
        let empty = requested.as_str().is_empty();
        let change = SetVoice {
            requested,
            target: String::new(),
            current: String::new(),
            before: String::new(),
            direction: Direction::Next,
            maximum: 0,
            remaining: 0,
            stage: VoiceStage::Opening,
            outcome: Ok(()),
        };
        if empty {
            (change, Action::Finish(Err(Failure::VoiceNameMissing)))
        } else {
            (change, Action::OpenSettings)
        }
    }

    /// The settings are closed whatever the outcome is.
    pub open spec fn closing(self, outcome: Result<(), Failure>) -> (SetVoice, Action) {
        (SetVoice { stage: VoiceStage::Closing, outcome, ..self }, Action::CloseSettings)
    }

    /// The voice is the wanted one: it is described, and the change is done.
    pub open spec fn reached(self) -> (SetVoice, Action) {
        (
            SetVoice { stage: VoiceStage::Describing, ..self },
            Action::DescribeVoice(self.target),
        )
    }

    /// Another step in the same direction.
    pub open spec fn stepped(self, session: BrowserSession) -> (SetVoice, Action) {
        if !session.controlled {
            self.closing(Err(Failure::NotRunning))
        } else {
            (
                SetVoice {
                    before: self.current,
                    remaining: (self.remaining - 1) as usize,
                    stage: VoiceStage::Stepping,
                    ..self
                },
                Action::Evaluate(Script::StepVoice(self.direction)),
            )
        }
    }

    /// The first step in a direction.
    pub open spec fn walked(self, session: BrowserSession, direction: Direction) -> (
        SetVoice,
        Action,
    ) {
        let maximum = step_limit(session.status.available_voices@.len()) as usize;
        (SetVoice { direction, maximum, remaining: maximum, ..self }).stepped(session)
    }

    /// One direction is exhausted: the other one follows, and then the change has failed.
    pub open spec fn turned(self, session: BrowserSession) -> (SetVoice, Action) {
        match self.direction {
            Direction::Next => self.walked(session, Direction::Previous),
            Direction::Previous => self.closing(Err(Failure::VoiceNotSwitched(self.target))),
        }
    }

    /// The wanted voice is on offer under this name.
    pub open spec fn chosen(self, session: BrowserSession, name: String) -> (SetVoice, Action) {
        match session.status.voice {
            None => (SetVoice { target: name, ..self }).closing(Err(Failure::CurrentVoiceUnknown)),
            Some(current) => {
                let named = SetVoice { target: name, current, ..self };
                if text::same_ignoring_case(current@, name@) {
                    named.reached()
                } else if session.controlled {
                    (
                        SetVoice { stage: VoiceStage::Clicking, ..named },
                        Action::Evaluate(Script::ChooseVoice(name)),
                    )
                } else {
                    named.closing(Err(Failure::NotRunning))
                }
            },
        }
    }

    /// The wanted voice is looked up among those on offer; `known` tells that the offer is as
    /// fresh as it can be.
    pub open spec fn looked_up(self, session: BrowserSession, known: bool) -> (SetVoice, Action) {
        match browser::matching_voice(session.status.available_voices@, self.requested@) {
            Some(voice) => self.chosen(session, voice.value),
            None => if known {
                self.closing(Err(Failure::VoiceUnknown(self.requested)))
            } else {
                (
                    SetVoice { stage: VoiceStage::Discovering, ..self },
                    Action::DiscoverOptions,
                )
            },
        }
    }

    /// What a look at the page after a click or a step leads to.
    pub open spec fn looked(self, session: BrowserSession) -> (SetVoice, Action) {
        match session.status.voice {
            None => self.closing(Err(Failure::VoiceUnreadable)),
            Some(current) => {
                let seen = SetVoice { current, ..self };
                if text::same_ignoring_case(current@, self.target@) {
                    seen.reached()
                } else if self.stage is ClickLooking {
                    seen.walked(session, Direction::Next)
                } else if text::same_ignoring_case(current@, self.before@) || self.remaining == 0 {
                    seen.turned(session)
                } else {
                    seen.stepped(session)
                }
            },
        }
    }

    /// The step after a reply that did not fail.
    pub open spec fn advanced(self, session: BrowserSession, confirmed: bool) -> (
        SetVoice,
        Action,
    ) {
        match self.stage {
            VoiceStage::Opening => (
                SetVoice { stage: VoiceStage::Looking, ..self },
                Action::Refresh,
            ),
            VoiceStage::Looking => self.looked_up(session, false),
            VoiceStage::Discovering => self.looked_up(session, true),
            VoiceStage::Describing => self.closing(Ok(())),
            VoiceStage::Clicking => if confirmed {
                (SetVoice { stage: VoiceStage::ClickSettling, ..self }, Action::Wait(350))
            } else {
                self.walked(session, Direction::Next)
            },
            VoiceStage::ClickSettling => (
                SetVoice { stage: VoiceStage::ClickLooking, ..self },
                Action::Refresh,
            ),
            VoiceStage::ClickLooking => self.looked(session),
            VoiceStage::Stepping => if confirmed {
                (SetVoice { stage: VoiceStage::StepSettling, ..self }, Action::Wait(450))
            } else {
                self.turned(session)
            },
            VoiceStage::StepSettling => (
                SetVoice { stage: VoiceStage::StepLooking, ..self },
                Action::Refresh,
            ),
            VoiceStage::StepLooking => self.looked(session),
            VoiceStage::Restoring => (
                SetVoice { stage: VoiceStage::Ensuring, ..self },
                Action::EnsureMicrophone,
            ),
            _ => (self, flow::succeeded()),
        }
    }

    /// The session after options were read, where they could be.
    pub open spec fn informed(
        self,
        session: BrowserSession,
        reply: Result<Answer, String>,
        now: u64,
    ) -> BrowserSession {
        if self.stage is Discovering {
            match reply {
                Ok(Answer::Options(options)) => BrowserSession {
                    options_fetched_at: Some(now),
                    ..session.with_options(options)
                },
                _ => session,
            }
        } else {
            session
        }
    }

    /// A failed outside step is the outcome of the change in these stages.
    pub open spec fn may_fail(self) -> bool {
        match self.stage {
            VoiceStage::Looking => true,
            VoiceStage::Clicking => true,
            VoiceStage::ClickLooking => true,
            VoiceStage::Stepping => true,
            VoiceStage::StepLooking => true,
            _ => false,
        }
    }

    /// The step after a reply.
    pub open spec fn after(
        self,
        session: BrowserSession,
        reply: Result<Answer, String>,
        now: u64,
    ) -> (SetVoice, BrowserSession, Action) {
        let informed = self.informed(session, reply, now);
        match reply {
            Err(error) => if self.stage is Opening {
                (self, session, flow::failed(error))
            } else if self.stage is Closing {
                match self.outcome {
                    Err(failure) => (
                        SetVoice { outcome: Ok(()), ..self },
                        session,
                        Action::Finish(Err(failure)),
                    ),
                    Ok(_) => (self, session, flow::failed(error)),
                }
            } else if self.may_fail() {
                (
                    self.closing(Err(Failure::Outside(error))).0,
                    session,
                    Action::CloseSettings,
                )
            } else {
                (
                    self.advanced(informed, false).0,
                    informed,
                    self.advanced(informed, false).1,
                )
            },
            Ok(_) => if self.stage is Closing {
                match self.outcome {
                    Err(failure) => (
                        SetVoice { outcome: Ok(()), ..self },
                        session,
                        Action::Finish(Err(failure)),
                    ),
                    Ok(_) => (
                        SetVoice { stage: VoiceStage::Restoring, ..self },
                        session,
                        Action::Wait(150),
                    ),
                }
            } else {
                (
                    self.advanced(informed, flow::confirmed(reply)).0,
                    informed,
                    self.advanced(informed, flow::confirmed(reply)).1,
                )
            },
        }
    }

    /// The voice that is aimed at is the requested one, whatever the case of its letters, and a
    /// walk has steps left where it goes on.
    pub open spec fn aims_right(self) -> bool {
        match self.stage {
            VoiceStage::Opening => true,
            VoiceStage::Looking => true,
            VoiceStage::Discovering => true,
            VoiceStage::Closing => true,
            VoiceStage::Restoring => true,
            VoiceStage::Ensuring => true,
            _ => text::same_ignoring_case(self.target@, self.requested@),
        }
    }

    fn close(self, outcome: Result<(), Failure>) -> (continued: (Self, Action))
        ensures
            continued == self.closing(outcome),
    {
        let mut change = self;
        change.stage = VoiceStage::Closing;
        change.outcome = outcome;
        (change, Action::CloseSettings)
    }

    fn reach(self) -> (continued: (Self, Action))
        ensures
            continued == self.reached(),
    {
        let mut change = self;
        change.stage = VoiceStage::Describing;
        let name = change.target.clone();
        (change, Action::DescribeVoice(name))
    }

    fn step(self, session: &BrowserSession) -> (continued: (Self, Action))
        requires
            self.remaining > 0,
        ensures
            continued == self.stepped(*session),
    {
        if !session.controlled {
            return self.close(Err(Failure::NotRunning));
        }
        let mut change = self;
        change.before = change.current.clone();
        change.remaining = change.remaining - 1;
        change.stage = VoiceStage::Stepping;
        let direction = change.direction;
        (change, Action::Evaluate(Script::StepVoice(direction)))
    }

    fn walk(self, session: &BrowserSession, direction: Direction) -> (continued: (Self, Action))
        ensures
            continued == self.walked(*session, direction),
    {
        let mut change = self;
        let maximum: usize = limit_steps(session.status.available_voices.len());
        change.direction = direction;
        change.maximum = maximum;
        change.remaining = maximum;
        change.step(session)
    }

    fn turn(self, session: &BrowserSession) -> (continued: (Self, Action))
        ensures
            continued == self.turned(*session),
    {
        match self.direction {
            Direction::Next => self.walk(session, Direction::Previous),
            Direction::Previous => {
                let name = self.target.clone();
                self.close(Err(Failure::VoiceNotSwitched(name)))
            },
        }
    }

    fn choose_voice(self, session: &BrowserSession, name: String) -> (continued: (Self, Action))
        ensures
            continued == self.chosen(*session, name),
    {
        let mut change = self;
        match &session.status.voice {
            None => {
                change.target = name;
                change.close(Err(Failure::CurrentVoiceUnknown))
            },
            Some(current) => {
                change.target = name.clone();
                change.current = current.clone();
                if text::eq_ignore_ascii_case(current.as_str(), name.as_str()) {
                    change.reach()
                } else if session.controlled {
                    change.stage = VoiceStage::Clicking;
                    (change, Action::Evaluate(Script::ChooseVoice(name)))
                } else {
                    change.close(Err(Failure::NotRunning))
                }
            },
        }
    }

    fn look_up(self, session: &BrowserSession, known: bool) -> (continued: (Self, Action))
        ensures
            continued == self.looked_up(*session, known),
    {
        match browser::find_voice(&session.status.available_voices, self.requested.as_str()) {
            Some(voice) => self.choose_voice(session, voice.value.clone()),
            None => {
                let mut change = self;
                if known {
                    let requested = change.requested.clone();
                    change.close(Err(Failure::VoiceUnknown(requested)))
                } else {
                    change.stage = VoiceStage::Discovering;
                    (change, Action::DiscoverOptions)
                }
            },
        }
    }

    fn look(self, session: &BrowserSession) -> (continued: (Self, Action))
        ensures
            continued == self.looked(*session),
    {
        let mut change = self;
        match &session.status.voice {
            None => change.close(Err(Failure::VoiceUnreadable)),
            Some(current) => {
                change.current = current.clone();
                if text::eq_ignore_ascii_case(current.as_str(), change.target.as_str()) {
                    return change.reach();
                }
                match change.stage {
                    VoiceStage::ClickLooking => change.walk(session, Direction::Next),
                    _ => {
                        if text::eq_ignore_ascii_case(current.as_str(), change.before.as_str())
                            || change.remaining == 0 {
                            change.turn(session)
                        } else {
                            change.step(session)
                        }
                    },
                }
            },
        }
    }

    fn advance(self, session: &BrowserSession, confirmed: bool) -> (continued: (Self, Action))
        ensures
            continued == self.advanced(*session, confirmed),
    {
        let mut change = self;
        match change.stage {
            VoiceStage::Opening => {
                change.stage = VoiceStage::Looking;
                (change, Action::Refresh)
            },
            VoiceStage::Looking => change.look_up(session, false),
            VoiceStage::Discovering => change.look_up(session, true),
            VoiceStage::Describing => change.close(Ok(())),
            VoiceStage::Clicking => {
                if confirmed {
                    change.stage = VoiceStage::ClickSettling;
                    (change, Action::Wait(350))
                } else {
                    change.walk(session, Direction::Next)
                }
            },
            VoiceStage::ClickSettling => {
                change.stage = VoiceStage::ClickLooking;
                (change, Action::Refresh)
            },
            VoiceStage::ClickLooking => change.look(session),
            VoiceStage::Stepping => {
                if confirmed {
                    change.stage = VoiceStage::StepSettling;
                    (change, Action::Wait(450))
                } else {
                    change.turn(session)
                }
            },
            VoiceStage::StepSettling => {
                change.stage = VoiceStage::StepLooking;
                (change, Action::Refresh)
            },
            VoiceStage::StepLooking => change.look(session),
            VoiceStage::Restoring => {
                change.stage = VoiceStage::Ensuring;
                (change, Action::EnsureMicrophone)
            },
            _ => (change, Action::Finish(Ok(()))),
        }
    }

    fn finish(self, reply: Result<Answer, String>) -> (continued: (Self, Action))
        ensures
            continued == (match (self.outcome, reply) {
                (Err(failure), _) => (
                    SetVoice { outcome: Ok(()), ..self },
                    Action::Finish(Err(failure)),
                ),
                (Ok(_), Err(error)) => (self, flow::failed(error)),
                (Ok(_), Ok(_)) => (
                    SetVoice { stage: VoiceStage::Restoring, ..self },
                    Action::Wait(150),
                ),
            }),
    {
        let SetVoice {
            requested,
            target,
            current,
            before,
            direction,
            maximum,
            remaining,
            stage,
            outcome,
        } = self;
        match outcome {
            Err(failure) => (
                SetVoice {
                    requested,
                    target,
                    current,
                    before,
                    direction,
                    maximum,
                    remaining,
                    stage,
                    outcome: Ok(()),
                },
                Action::Finish(Err(failure)),
            ),
            Ok(done) => {
                let mut change = SetVoice {
                    requested,
                    target,
                    current,
                    before,
                    direction,
                    maximum,
                    remaining,
                    stage,
                    outcome: Ok(done),
                };
                match reply {
                    Err(error) => (change, Action::Finish(Err(Failure::Outside(error)))),
                    Ok(_) => {
                        change.stage = VoiceStage::Restoring;
                        (change, Action::Wait(150))
                    },
                }
            },
        }
    }

    /// Goes on with changing the voice.
    pub fn next(
        self,
        session: &mut BrowserSession,
        reply: Result<Answer, String>,
        now: u64,
    ) -> (continued: (Self, Action))
        ensures
            (continued.0, *final(session), continued.1) == self.after(*old(session), reply, now),
    {
        let confirmed = flow::is_confirmed(&reply);
        match self.stage {
            VoiceStage::Closing => {
                return self.finish(reply);
            },
            VoiceStage::Discovering => {
                if let Ok(Answer::Options(options)) = reply {
                    session.apply_options(options);
                    session.options_fetched_at = Some(now);
                }
                return self.advance(session, confirmed);
            },
            _ => {},
        }
        if let Err(error) = reply {
            match self.stage {
                VoiceStage::Opening => {
                    return (self, Action::Finish(Err(Failure::Outside(error))));
                },
                VoiceStage::Looking => {
                    return self.close(Err(Failure::Outside(error)));
                },
                VoiceStage::Clicking => {
                    return self.close(Err(Failure::Outside(error)));
                },
                VoiceStage::ClickLooking => {
                    return self.close(Err(Failure::Outside(error)));
                },
                VoiceStage::Stepping => {
                    return self.close(Err(Failure::Outside(error)));
                },
                VoiceStage::StepLooking => {
                    return self.close(Err(Failure::Outside(error)));
                },
                _ => {
                    return self.advance(session, false);
                },
            }
        }
        self.advance(session, confirmed)
    }
}

proof fn lemma_matching_voice(voices: Seq<browser::VoiceOption>, name: Seq<char>)
    ensures
        browser::matching_voice(voices, name) matches Some(voice) ==> text::same_ignoring_case(
            voice.value@,
            name,
        ),
    decreases voices.len(),
{
    if voices.len() > 0 && !text::same_ignoring_case(voices[0].value@, name) {
        lemma_matching_voice(voices.skip(1), name);
    }
}

/// A change of the voice aims at the requested voice from beginning to end.
pub proof fn voice_change_aims_right(
    change: SetVoice,
    session: BrowserSession,
    reply: Result<Answer, String>,
    now: u64,
)
    requires
        change.aims_right(),
    ensures
        change.after(session, reply, now).0.aims_right(),
        change.after(session, reply, now).0.requested == change.requested,
{
    let informed = change.informed(session, reply, now);
    lemma_matching_voice(informed.status.available_voices@, change.requested@);
}

/// A change of the voice counts as done only when the page shows the voice that it aims at.
pub proof fn changed_voice_is_shown(
    change: SetVoice,
    session: BrowserSession,
    reply: Result<Answer, String>,
    now: u64,
)
    requires
        change.aims_right(),
        change.after(session, reply, now).2 is DescribeVoice,
    ensures
        ({
            let (after, informed, action) = change.after(session, reply, now);
            &&& action == Action::DescribeVoice(after.target)
            &&& informed.status.voice matches Some(voice) && text::same_ignoring_case(
                voice@,
                change.requested@,
            )
        }),
{
    let informed = change.informed(session, reply, now);
    lemma_matching_voice(informed.status.available_voices@, change.requested@);
}

/// How many further steps the walk through the voices can take at most.
pub open spec fn walk_left(change: SetVoice) -> int {
    let turns = match change.direction {
        Direction::Next => 1int,
        Direction::Previous => 0int,
    };
    match change.stage {
        VoiceStage::Stepping => 200 * turns + 4 * change.remaining + 3,
        VoiceStage::StepSettling => 200 * turns + 4 * change.remaining + 2,
        VoiceStage::StepLooking => 200 * turns + 4 * change.remaining + 1,
        _ => 0,
    }
}

/// The walk through the voices ends: each of its steps leaves the walk or leaves fewer steps.
pub proof fn walk_through_voices_ends(
    change: SetVoice,
    session: BrowserSession,
    reply: Result<Answer, String>,
    now: u64,
)
    requires
        change.stage is Stepping || change.stage is StepSettling || change.stage is StepLooking,
        change.remaining <= MAX_DISCOVERED_VOICES + 1,
    ensures
        ({
            let after = change.after(session, reply, now).0;
            ||| after.stage is Closing || after.stage is Describing
            ||| 0 <= walk_left(after) < walk_left(change) && after.remaining
                <= MAX_DISCOVERED_VOICES + 1
        }),
{
}

// ---------------------------------------------------------------------------
// What the changes are for
// ---------------------------------------------------------------------------

/// A setting that the page offers is changed: its row is opened, the value is chosen, the settings
/// are closed, the new value is shown, and the microphone is made live again.
pub proof fn offered_value_is_set(
    change: SetRow,
    session: BrowserSession,
    answers: (Answer, Answer),
    waits: (Result<Answer, String>, Result<Answer, String>, Result<Answer, String>),
)
    requires
        change.stage is Opening,
        change.outcome is Ok,
        session.controlled,
        change.label@ == "Intelligence"@ || change.label@ == "Language"@,
    ensures
        ({
            let yes = Ok::<Answer, String>(Answer::Flag(true));
            let (row, kept, open) = change.after(session, Ok(answers.0));
            let (choosing, kept, choose) = row.after(kept, yes);
            let (settling, kept, settle) = choosing.after(kept, yes);
            let (closing, kept, close) = settling.after(kept, waits.0);
            let (restoring, changed, wait) = closing.after(kept, Ok(answers.1));
            let (ensuring, done, ensure) = restoring.after(changed, waits.1);
            let (_, last, end) = ensuring.after(done, waits.2);
            &&& open == Action::Evaluate(Script::OpenRow(change.label))
            &&& choose == Action::Evaluate(Script::ChooseOption(change.label, change.target))
            &&& settle == Action::Wait(150)
            &&& close == Action::CloseSettings
            &&& wait == Action::Wait(150)
            &&& ensure == Action::EnsureMicrophone
            &&& end == Action::Finish(Ok(()))
            &&& kept == session
            &&& last == changed
            &&& change.label@ == "Intelligence"@ ==> changed.status.intelligence == Some(
                change.target,
            ) && changed.status.language == session.status.language
            &&& change.label@ == "Language"@ ==> changed.status.language == Some(change.target)
                && changed.status.intelligence == session.status.intelligence
        }),
{
    reveal_strlit("Intelligence");
    reveal_strlit("Language");
    assert(text::ascii_lowered("Intelligence"@).len() == 12);
    assert(text::ascii_lowered("Language"@).len() == 8);
}

/// A value that does not show up at once is looked for again after 50 ms, twenty times in all; then
/// the settings are closed and the change fails.
pub proof fn value_is_looked_for_again(
    change: SetRow,
    session: BrowserSession,
    answer: Answer,
    waited: Result<Answer, String>,
    closed: Result<Answer, String>,
)
    requires
        change.stage is Choosing,
        change.tries < 20,
        answer != Answer::Flag(true),
    ensures
        ({
            let (pausing, kept, pause) = change.after(session, Ok(answer));
            let (next, kept, action) = pausing.after(kept, waited);
            &&& pause == Action::Wait(50)
            &&& kept == session
            &&& change.tries < 19 ==> action == Action::Evaluate(
                Script::ChooseOption(change.label, change.target),
            ) && next == (SetRow { tries: (change.tries + 1) as u32, ..change })
            &&& change.tries == 19 ==> action == Action::CloseSettings && next.after(
                session,
                closed,
            ).2 == Action::Finish(Err(Failure::OptionMissing(change.label, change.target)))
        }),
{
}

/// A change that cannot be made ends with what stood in its way, after the settings were closed,
/// and changes nothing that is shown.
pub proof fn failed_change_names_its_reason(
    change: SetRow,
    session: BrowserSession,
    answer: Answer,
    error: String,
    closed: Result<Answer, String>,
)
    ensures
        change.stage is OpeningRow && answer != Answer::Flag(true) ==> ({
            let (closing, kept, close) = change.after(session, Ok(answer));
            &&& close == Action::CloseSettings
            &&& closing.after(kept, closed).2 == Action::Finish(Err(Failure::RowMissing(change.label)))
            &&& closing.after(kept, closed).1 == session
        }),
        change.stage is OpeningRow || change.stage is Choosing ==> ({
            let (closing, kept, close) = change.after(session, Err(error));
            &&& close == Action::CloseSettings
            &&& closing.after(kept, closed).2 == Action::Finish(Err(Failure::Outside(error)))
            &&& closing.after(kept, closed).1 == session
        }),
        change.stage is Opening ==> change.after(session, Err(error)).2 == Action::Finish(
            Err(Failure::Outside(error)),
        ),
        change.stage is Opening && !session.controlled ==> change.after(session, Ok(answer)).2
            == Action::Finish(Err(Failure::NotRunning)),
        change.stage is Closing && change.outcome is Ok ==> change.after(session, Err(error)).2
            == Action::Finish(Err(Failure::Outside(error))),
{
}

/// A session whose page shows a voice.
pub open spec fn showing(session: BrowserSession, voice: String) -> BrowserSession {
    BrowserSession {
        status: BrowserStatus { voice: Some(voice), ..session.status },
        ..session
    }
}

/// A click on an arrow that counts, after which the page shows a voice.
pub open spec fn clicked(change: SetVoice, session: BrowserSession, voice: String, now: u64) -> (
    SetVoice,
    Action,
) {
    let (settling, kept, _) = change.after(session, Ok(Answer::Flag(true)), now);
    let (looking, kept, _) = settling.after(kept, Ok(Answer::Nothing), now);
    let (next, _, action) = looking.after(showing(kept, voice), Ok(Answer::Nothing), now);
    (next, action)
}

/// Clicks on an arrow, after each of which the page shows the next of these voices.
pub open spec fn clicked_through(
    change: SetVoice,
    session: BrowserSession,
    voices: Seq<String>,
    now: u64,
) -> (SetVoice, Action)
    recommends
        voices.len() > 0,
    decreases voices.len(),
{
    if voices.len() <= 1 {
        clicked(change, session, voices[0], now)
    } else {
        clicked(
            clicked_through(change, session, voices.drop_last(), now).0,
            session,
            voices.last(),
            now,
        )
    }
}

/// The voices that the page shows move on with each click, and the wanted one comes last.
pub open spec fn leads_to(current: Seq<char>, voices: Seq<String>, wanted: Seq<char>) -> bool {
    &&& voices.len() > 0
    &&& text::same_ignoring_case(voices.last()@, wanted)
    &&& forall|i: int|
        0 <= i < voices.len() - 1 ==> !text::same_ignoring_case(
            (#[trigger] voices[i])@,
            wanted,
        )
    &&& forall|i: int|
        0 <= i < voices.len() ==> !text::same_ignoring_case(
            (#[trigger] voices[i])@,
            if i == 0 {
                current
            } else {
                voices[i - 1]@
            },
        )
}

proof fn lemma_walk(
    change: SetVoice,
    session: BrowserSession,
    voices: Seq<String>,
    wanted: Seq<char>,
    count: nat,
    now: u64,
)
    requires
        change.stage is Stepping,
        change.before == change.current,
        change.target@ == wanted,
        session.controlled,
        leads_to(change.current@, voices, wanted),
        0 < count < voices.len(),
        voices.len() <= change.remaining + 1,
    ensures
        ({
            let (after, action) = clicked_through(change, session, voices.take(count as int), now);
            &&& after.stage is Stepping
            &&& after.target == change.target
            &&& after.direction == change.direction
            &&& after.current == voices[count - 1]
            &&& after.before == voices[count - 1]
            &&& after.remaining == change.remaining - count
            &&& action == Action::Evaluate(Script::StepVoice(change.direction))
        }),
    decreases count,
{
    let part = voices.take(count as int);
    assert(part.last() == voices[count - 1]);
    assert(!text::same_ignoring_case(voices[count - 1]@, wanted));
    if count > 1 {
        lemma_walk(change, session, voices, wanted, (count - 1) as nat, now);
        assert(part.drop_last() =~= voices.take(count - 1));
    } else {
        assert(part[0] == voices[0]);
    }
}

proof fn lemma_walk_arrives(
    change: SetVoice,
    session: BrowserSession,
    voices: Seq<String>,
    now: u64,
)
    requires
        change.stage is Stepping,
        change.before == change.current,
        session.controlled,
        leads_to(change.current@, voices, change.target@),
        voices.len() <= change.remaining + 1,
    ensures
        clicked_through(change, session, voices, now).0.stage is Describing,
        clicked_through(change, session, voices, now).1 == Action::DescribeVoice(change.target),
{
    let count = (voices.len() - 1) as nat;
    if count > 0 {
        lemma_walk(change, session, voices, change.target@, count, now);
        assert(voices.drop_last() =~= voices.take(count as int));
    }
}

/// A voice that the arrows lead to is reached: where it cannot be chosen from a list, the arrow to
/// the next voice is clicked, and a page that shows a new voice with each click is followed for as
/// many clicks as there are voices on offer, and one more (at most 32 voices are followed, and at
/// least three clicks are made).
pub proof fn arrows_lead_to_the_voice(
    change: SetVoice,
    session: BrowserSession,
    voices: Seq<String>,
    answer: Answer,
    now: u64,
)
    requires
        change.stage is Clicking,
        session.controlled,
        answer != Answer::Flag(true),
        leads_to(change.current@, voices, change.target@),
        voices.len() <= session.status.available_voices@.len() + 1 || voices.len() <= 3,
        voices.len() <= 33,
    ensures
        ({
            let (walking, kept, first) = change.after(session, Ok(answer), now);
            &&& first == Action::Evaluate(Script::StepVoice(Direction::Next))
            &&& kept == session
            &&& clicked_through(walking, session, voices, now).0.stage is Describing
            &&& clicked_through(walking, session, voices, now).1 == Action::DescribeVoice(
                change.target,
            )
        }),
{
    let (walking, _, _) = change.after(session, Ok(answer), now);
    lemma_walk_arrives(walking, session, voices, now);
}

/// Where the arrow to the next voice does nothing, or leads nowhere new, the other arrow is tried
/// for as many clicks again; only when that one does nothing either has the change failed.
pub proof fn other_arrow_leads_to_the_voice(
    change: SetVoice,
    session: BrowserSession,
    voices: Seq<String>,
    answer: Answer,
    now: u64,
)
    requires
        change.stage is Stepping,
        change.before == change.current,
        session.controlled,
        answer != Answer::Flag(true),
    ensures
        ({
            let (walking, kept, action) = change.after(session, Ok(answer), now);
            &&& change.direction is Next ==> {
                &&& action == Action::Evaluate(Script::StepVoice(Direction::Previous))
                &&& leads_to(change.current@, voices, change.target@) && (voices.len()
                    <= session.status.available_voices@.len() + 1 || voices.len() <= 3)
                    && voices.len() <= 33 ==> clicked_through(
                    walking,
                    session,
                    voices,
                    now,
                ).1 == Action::DescribeVoice(change.target)
            }
            &&& change.direction is Previous ==> action == Action::CloseSettings && walking.outcome
                == Err::<(), Failure>(Failure::VoiceNotSwitched(change.target))
        }),
{
    let (walking, _, _) = change.after(session, Ok(answer), now);
    if change.direction is Next && leads_to(change.current@, voices, change.target@) && (
    voices.len() <= session.status.available_voices@.len() + 1 || voices.len() <= 3)
        && voices.len() <= 33 {
        lemma_walk_arrives(walking, session, voices, now);
    }
}

/// A click that leaves the page with the same voice ends the walk in that direction.
pub proof fn walk_turns_at_the_end(change: SetVoice, session: BrowserSession, now: u64)
    requires
        change.stage is StepLooking,
        session.controlled,
        session.status.voice matches Some(voice) && text::same_ignoring_case(
            voice@,
            change.before@,
        ) && !text::same_ignoring_case(voice@, change.target@),
    ensures
        change.direction is Next ==> change.after(session, Ok(Answer::Nothing), now).2
            == Action::Evaluate(Script::StepVoice(Direction::Previous)),
        change.direction is Previous ==> change.after(session, Ok(Answer::Nothing), now).2
            == Action::CloseSettings,
{
}

proof fn lemma_offered(voices: Seq<browser::VoiceOption>, name: Seq<char>, at: int)
    requires
        0 <= at < voices.len(),
        text::same_ignoring_case(voices[at].value@, name),
    ensures
        browser::matching_voice(voices, name) is Some,
    decreases voices.len(),
{
    if !text::same_ignoring_case(voices[0].value@, name) {
        assert(voices.skip(1)[at - 1] == voices[at]);
        lemma_offered(voices.skip(1), name, at - 1);
    }
}

proof fn lemma_not_offered(voices: Seq<browser::VoiceOption>, name: Seq<char>)
    requires
        forall|i: int|
            0 <= i < voices.len() ==> !text::same_ignoring_case(
                (#[trigger] voices[i]).value@,
                name,
            ),
    ensures
        browser::matching_voice(voices, name) is None,
    decreases voices.len(),
{
    if voices.len() > 0 {
        assert forall|i: int| 0 <= i < voices.skip(1).len() implies !text::same_ignoring_case(
            (#[trigger] voices.skip(1)[i]).value@,
            name,
        ) by {
            assert(voices.skip(1)[i] == voices[i + 1]);
        }
        lemma_not_offered(voices.skip(1), name);
    }
}

/// A voice on offer is chosen by a click, in whatever letters it was asked for; the one that the
/// page shows already needs none.
pub proof fn offered_voice_is_chosen(
    change: SetVoice,
    session: BrowserSession,
    at: int,
    answer: Answer,
    now: u64,
)
    requires
        change.stage is Looking || (change.stage is Discovering && answer !is Options),
        session.controlled,
        0 <= at < session.status.available_voices@.len(),
        text::same_ignoring_case(session.status.available_voices@[at].value@, change.requested@),
    ensures
        ({
            let (next, kept, action) = change.after(session, Ok(answer), now);
            match session.status.voice {
                None => action == Action::CloseSettings && next.outcome == Err::<(), Failure>(
                    Failure::CurrentVoiceUnknown,
                ),
                Some(current) => if text::same_ignoring_case(current@, change.requested@) {
                    action is DescribeVoice
                } else {
                    &&& next.stage is Clicking
                    &&& action == Action::Evaluate(Script::ChooseVoice(next.target))
                    &&& text::same_ignoring_case(next.target@, change.requested@)
                    &&& next.current == current
                },
            }
        }),
{
    lemma_offered(session.status.available_voices@, change.requested@, at);
    lemma_matching_voice(session.status.available_voices@, change.requested@);
}

/// A voice that is not known is looked for among the options of the page, once; what they offer is
/// kept, and a voice that they do not offer either is refused by its name.
pub proof fn unknown_voice_is_looked_up(
    change: SetVoice,
    session: BrowserSession,
    options: browser::VoiceSettingOptions,
    answer: Answer,
    times: (u64, u64),
)
    requires
        change.stage is Looking,
        forall|i: int|
            0 <= i < session.status.available_voices@.len() ==> !text::same_ignoring_case(
                (#[trigger] session.status.available_voices@[i]).value@,
                change.requested@,
            ),
    ensures
        ({
            let (discovering, kept, discover) = change.after(session, Ok(answer), times.0);
            let (next, informed, action) = discovering.after(
                kept,
                Ok(Answer::Options(options)),
                times.1,
            );
            &&& discover == Action::DiscoverOptions
            &&& discovering.stage is Discovering
            &&& kept == session
            &&& informed.status.available_voices == options.voices
            &&& informed.options_fetched_at == Some(times.1)
            &&& (forall|i: int|
                0 <= i < options.voices@.len() ==> !text::same_ignoring_case(
                    (#[trigger] options.voices@[i]).value@,
                    change.requested@,
                )) ==> action == Action::CloseSettings && next.outcome == Err::<(), Failure>(
                Failure::VoiceUnknown(change.requested),
            )
            &&& (exists|i: int|
                0 <= i < options.voices@.len() && text::same_ignoring_case(
                    (#[trigger] options.voices@[i]).value@,
                    change.requested@,
                )) && session.controlled && informed.status.voice is Some ==> next.stage is Clicking
                || next.stage is Describing
        }),
{
    lemma_not_offered(session.status.available_voices@, change.requested@);
    if forall|i: int|
        0 <= i < options.voices@.len() ==> !text::same_ignoring_case(
            (#[trigger] options.voices@[i]).value@,
            change.requested@,
        ) {
        lemma_not_offered(options.voices@, change.requested@);
    } else {
        let at = choose|i: int|
            0 <= i < options.voices@.len() && text::same_ignoring_case(
                (#[trigger] options.voices@[i]).value@,
                change.requested@,
            );
        lemma_offered(options.voices@, change.requested@, at);
    }
}

/// A voice that was chosen is looked at after 350 ms: the wanted one ends the search, and another
/// one begins the walk with the arrows.
pub proof fn chosen_voice_is_looked_at(
    change: SetVoice,
    session: BrowserSession,
    shown: String,
    waited: Result<Answer, String>,
    answer: Answer,
    now: u64,
)
    requires
        change.stage is Clicking,
        session.controlled,
    ensures
        ({
            let (settling, kept, settle) = change.after(session, Ok(Answer::Flag(true)), now);
            let (looking, kept, look) = settling.after(kept, waited, now);
            let (next, _, action) = looking.after(showing(kept, shown), Ok(answer), now);
            &&& settle == Action::Wait(350)
            &&& look == Action::Refresh
            &&& text::same_ignoring_case(shown@, change.target@) ==> action
                == Action::DescribeVoice(change.target)
            &&& !text::same_ignoring_case(shown@, change.target@) ==> action == Action::Evaluate(
                Script::StepVoice(Direction::Next),
            )
        }),
{
}

/// A click on an arrow that counts is followed by a look after 450 ms.
pub proof fn step_is_looked_at(
    change: SetVoice,
    session: BrowserSession,
    waited: Result<Answer, String>,
    now: u64,
)
    requires
        change.stage is Stepping,
    ensures
        ({
            let (settling, kept, settle) = change.after(session, Ok(Answer::Flag(true)), now);
            &&& settle == Action::Wait(450)
            &&& settling.after(kept, waited, now).2 == Action::Refresh
            &&& settling.after(kept, waited, now).0.stage is StepLooking
        }),
{
}

/// A voice that was reached is a success: it is described, the settings are closed, and the
/// microphone is made live again. A failure that came before closing is what the change ends with.
pub proof fn reached_voice_is_a_success(
    change: SetVoice,
    session: BrowserSession,
    answer: Answer,
    replies: (Result<Answer, String>, Result<Answer, String>, Result<Answer, String>),
    closed: Result<Answer, String>,
    now: u64,
)
    ensures
        change.stage is Describing ==> ({
            let (closing, kept, close) = change.after(session, replies.0, now);
            let (restoring, kept, wait) = closing.after(kept, Ok(answer), now);
            let (ensuring, kept, ensure) = restoring.after(kept, replies.1, now);
            let (_, _, end) = ensuring.after(kept, replies.2, now);
            &&& close == Action::CloseSettings
            &&& wait == Action::Wait(150)
            &&& ensure == Action::EnsureMicrophone
            &&& end == Action::Finish(Ok(()))
        }),
        change.stage is Closing ==> (change.outcome matches Err(failure) ==> change.after(
            session,
            closed,
            now,
        ).2 == Action::Finish(Err(failure))),
        change.stage is Opening ==> change.after(session, Ok(answer), now).2 == Action::Refresh
            && change.after(session, Ok(answer), now).0.stage is Looking,
{
}

/// An error while the settings are open closes them and is what the change ends with.
pub proof fn failed_voice_change_names_its_error(
    change: SetVoice,
    session: BrowserSession,
    error: String,
    closed: Result<Answer, String>,
    now: u64,
)
    requires
        change.stage is Looking || change.stage is Clicking || change.stage is ClickLooking
            || change.stage is Stepping || change.stage is StepLooking,
    ensures
        ({
            let (closing, kept, close) = change.after(session, Err(error), now);
            &&& close == Action::CloseSettings
            &&& closing.after(kept, closed, now).2 == Action::Finish(Err(Failure::Outside(error)))
        }),
{
}

/// The language can always be asked for, and the intelligence unless the options were read and
/// offer none.
pub proof fn settings_can_be_asked_for(label: Seq<char>, session: BrowserSession)
    ensures
        label == "Language"@ ==> !unavailable(label, session),
        session.options_fetched_at is None || session.status.available_intelligence@.len() > 0
            ==> !unavailable(label, session),
        label == "Intelligence"@ && session.options_fetched_at is Some
            && session.status.available_intelligence@.len() == 0 ==> unavailable(label, session),
{
    reveal_strlit("Intelligence");
    reveal_strlit("Language");
    assert(text::ascii_lowered("Intelligence"@).len() == 12);
    assert(text::ascii_lowered("Language"@).len() == 8);
}

/// A walk through the voices has one step more than there are voices on offer, three at least and
/// 33 at most.
pub proof fn walks_are_as_long_as_the_offer(voices: nat)
    ensures
        voices < 2 ==> step_limit(voices) == 3,
        2 <= voices <= 32 ==> step_limit(voices) == voices + 1,
        voices > 32 ==> step_limit(voices) == 33,
{
}

/// A browser that is not controlled is not clicked: the settings are closed, and the change fails
/// because the browser is not running.
pub proof fn voice_change_needs_control(
    change: SetVoice,
    session: BrowserSession,
    current: String,
    name: String,
    direction: Direction,
)
    requires
        !session.controlled,
        session.status.voice == Some(current),
        !text::same_ignoring_case(current@, name@),
    ensures
        change.chosen(session, name).1 == Action::CloseSettings,
        change.chosen(session, name).0.outcome == Err::<(), Failure>(Failure::NotRunning),
        change.walked(session, direction).1 == Action::CloseSettings,
        change.walked(session, direction).0.outcome == Err::<(), Failure>(Failure::NotRunning),
{
}

} // verus!
