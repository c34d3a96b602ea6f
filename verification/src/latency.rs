//! How long a spoken turn takes from Discord through ChatGPT and back.
//!
//! The tracker watches three events: speech from Discord, speech from the browser, and browser
//! speech handed to Discord. It numbers the turns, notices interruptions, and reports each answer
//! once. Moments are nanoseconds on one clock.

use crate::signal;
use crate::text;
use vstd::prelude::*;

verus! {

/// Silence after which Discord speech begins a new turn: 350 ms.
pub const LATENCY_NEW_TURN_GAP: u64 = 350_000_000;

/// Silence after which browser speech is over: 1 s.
pub const LATENCY_RESPONSE_QUIET_GAP: u64 = 1_000_000_000;

/// The longest wait in which browser speech answers a turn: 15 s.
pub const LATENCY_RESPONSE_MATCH_WINDOW: u64 = 15_000_000_000;

/// Nanoseconds in a millisecond.
pub const NANOS_PER_MILLI: u64 = 1_000_000;

/// Why the browser speaks.
#[derive(Debug, Clone, Copy, PartialEq, Eq, Structural)]
pub enum LatencyOutputKind {
    /// It answers a turn.
    Response,
    /// It speaks of its own accord.
    Autonomous,
}

/// A turn spoken in Discord.
#[derive(Debug, Clone, Copy, PartialEq, Eq, Structural)]
pub struct LatencyInputTurn {
    pub turn: u64,
    pub first_at: u64,
    pub last_at: u64,
    pub response_started: bool,
    pub interrupted: bool,
}

/// A stretch of browser speech.
#[derive(Debug, Clone, Copy, PartialEq, Eq, Structural)]
pub struct LatencyOutput {
    pub kind: LatencyOutputKind,
    pub turn: Option<u64>,
    pub first_input_at: Option<u64>,
    pub last_input_at: Option<u64>,
    pub started_at: u64,
    pub last_at: u64,
    pub discord_output_at: Option<u64>,
    pub interrupted: bool,
    pub interruption_turn: Option<u64>,
}

/// Where the conversation stands.
#[derive(Debug, Clone, Copy)]
pub struct Conversation {
    pub turn: u64,
    pub input: Option<LatencyInputTurn>,
    pub output: Option<LatencyOutput>,
}

/// The time from `then` to `now`, and zero where the order is reversed.
pub open spec fn elapsed(now: u64, then: u64) -> nat {
    if now >= then {
        (now - then) as nat
    } else {
        0
    }
}

/// The time from `then` to `now` in whole milliseconds.
pub open spec fn elapsed_ms(now: u64, then: u64) -> nat {
    elapsed(now, then) / NANOS_PER_MILLI as nat
}

/// Measures the time from `then` to `now`.
pub fn since(now: u64, then: u64) -> (duration: u64)
    ensures
        duration == elapsed(now, then),
{
    if now >= then {
        now - then
    } else {
        0
    }
}

impl Conversation {
    /// The browser spoke a moment ago.
    pub open spec fn output_active(self, now: u64) -> bool {
        self.output matches Some(output) && elapsed(now, output.last_at)
            <= LATENCY_RESPONSE_QUIET_GAP
    }

    /// Discord speech now cuts into browser speech that nobody has interrupted yet.
    pub open spec fn interrupts(self, now: u64) -> bool {
        self.output_active(now) && self.output->0.interruption_turn is None
    }

    /// Discord speech now begins a turn in a pause.
    pub open spec fn opens_turn(self, now: u64) -> bool {
        !self.output_active(now) && (self.input matches Some(input) ==> elapsed(now, input.last_at)
            > LATENCY_NEW_TURN_GAP)
    }

    /// The turn that begins now.
    pub open spec fn fresh_turn(self, now: u64, interrupted: bool) -> LatencyInputTurn {
        LatencyInputTurn {
            turn: (self.turn + 1) as u64,
            first_at: now,
            last_at: now,
            response_started: false,
            interrupted,
        }
    }

    /// The conversation after speech from Discord.
    pub open spec fn heard(self, now: u64) -> Conversation {
        if self.interrupts(now) {
            Conversation {
                turn: (self.turn + 1) as u64,
                input: Some(self.fresh_turn(now, true)),
                output: Some(
                    LatencyOutput {
                        interruption_turn: Some((self.turn + 1) as u64),
                        interrupted: true,
                        ..self.output->0
                    },
                ),
            }
        } else if self.opens_turn(now) {
            Conversation {
                turn: (self.turn + 1) as u64,
                input: Some(self.fresh_turn(now, false)),
                output: self.output,
            }
        } else {
            Conversation {
                input: match self.input {
                    Some(input) => Some(LatencyInputTurn { last_at: now, ..input }),
                    None => None,
                },
                ..self
            }
        }
    }

    /// Browser speech now answers the current turn.
    pub open spec fn answers(self, now: u64) -> bool {
        self.input matches Some(input) && !input.response_started && elapsed(now, input.last_at)
            <= LATENCY_RESPONSE_MATCH_WINDOW
    }

    /// The conversation after speech from the browser.
    pub open spec fn spoken(self, now: u64) -> Conversation {
        if self.output_active(now) {
            Conversation {
                output: Some(LatencyOutput { last_at: now, ..self.output->0 }),
                ..self
            }
        } else if self.answers(now) {
            let input = self.input->0;
            Conversation {
                input: Some(LatencyInputTurn { response_started: true, ..input }),
                output: Some(
                    LatencyOutput {
                        kind: LatencyOutputKind::Response,
                        turn: Some(input.turn),
                        first_input_at: Some(input.first_at),
                        last_input_at: Some(input.last_at),
                        started_at: now,
                        last_at: now,
                        discord_output_at: None,
                        interrupted: input.interrupted,
                        interruption_turn: None,
                    },
                ),
                ..self
            }
        } else {
            Conversation {
                output: Some(
                    LatencyOutput {
                        kind: LatencyOutputKind::Autonomous,
                        turn: None,
                        first_input_at: None,
                        last_input_at: None,
                        started_at: now,
                        last_at: now,
                        discord_output_at: None,
                        interrupted: false,
                        interruption_turn: None,
                    },
                ),
                ..self
            }
        }
    }

    /// Browser speech waits to be reported as handed to Discord.
    pub open spec fn unreported(self) -> bool {
        self.output matches Some(output) && output.discord_output_at is None
    }

    /// The conversation after browser speech was handed to Discord.
    pub open spec fn relayed(self, now: u64) -> Conversation {
        if self.unreported() {
            Conversation {
                output: Some(LatencyOutput { discord_output_at: Some(now), ..self.output->0 }),
                ..self
            }
        } else {
            self
        }
    }

    /// What is reported when browser speech is handed to Discord.
    pub open spec fn relay_report(self, now: u64) -> Option<Seq<char>> {
        if !self.unreported() {
            None
        } else {
            let output = self.output->0;
            match output.kind {
                LatencyOutputKind::Response => if output.first_input_at is None
                    || output.last_input_at is None {
                    None
                } else {
                    Some(response_report(output, now))
                },
                LatencyOutputKind::Autonomous => Some(
                    "autonomous ChatGPT speech: ChatGPT audio -> Discord relay handoff "@ + text::decimal(
                        elapsed_ms(now, output.started_at),
                    ) + " ms"@,
                ),
            }
        }
    }
}

/// The report on an answer.
pub open spec fn response_report(output: LatencyOutput, now: u64) -> Seq<char> {
    let turn: u64 = match output.turn {
        Some(turn) => turn,
        None => 0,
    };
    "turn "@ + text::decimal(turn as nat) + " ("@ + (if output.interrupted {
        "response after interruption"@
    } else {
        "response"@
    }) + "): first Discord speech -> ChatGPT audio "@ + text::decimal(
        elapsed_ms(output.started_at, output.first_input_at->0),
    ) + " ms; last Discord speech -> ChatGPT audio "@ + text::decimal(
        elapsed_ms(output.started_at, output.last_input_at->0),
    ) + " ms; ChatGPT audio -> Discord relay handoff "@ + text::decimal(
        elapsed_ms(now, output.started_at),
    ) + " ms; first speech -> Discord relay handoff "@ + text::decimal(
        elapsed_ms(now, output.first_input_at->0),
    ) + " ms"@
}

/// The report that speech interrupts the browser.
pub open spec fn interruption(conversation: Conversation) -> Seq<char> {
    "turn "@ + text::decimal(conversation.turn as nat + 1)
        + ": Discord speech interrupted ChatGPT output"@
}

/// The latency tracker of one transport.
#[derive(Debug)]
pub struct LatencyState {
    pub guild_id: String,
    pub conversation: Conversation,
}

fn append_elapsed(report: &mut String, now: u64, then: u64)
    ensures
        final(report)@ == old(report)@ + text::decimal(elapsed_ms(now, then)),
{
    let milliseconds: u64 = since(now, then) / NANOS_PER_MILLI;
    report.append(text::decimal_text(milliseconds).as_str());
}

fn response_text(output: &LatencyOutput, first: u64, last: u64, now: u64) -> (report: String)
    requires
        output.first_input_at == Some(first),
        output.last_input_at == Some(last),
    ensures
        report@ == response_report(*output, now),
{
    let turn: u64 = match output.turn {
        Some(turn) => turn,
        None => 0,
    };
    let mut report = "turn ".to_owned();
    report.append(text::decimal_text(turn).as_str());
    report.append(" (");
    report.append(
        if output.interrupted {
            "response after interruption"
        } else {
            "response"
        },
    );
    report.append("): first Discord speech -> ChatGPT audio ");
    append_elapsed(&mut report, output.started_at, first);
    report.append(" ms; last Discord speech -> ChatGPT audio ");
    append_elapsed(&mut report, output.started_at, last);
    report.append(" ms; ChatGPT audio -> Discord relay handoff ");
    append_elapsed(&mut report, now, output.started_at);
    report.append(" ms; first speech -> Discord relay handoff ");
    append_elapsed(&mut report, now, first);
    report.append(" ms");
    report
}

impl LatencyState {
    /// A tracker that has heard nothing.
    pub fn new() -> (state: Self)
        ensures
            state.guild_id@ == Seq::<char>::empty(),
            state.conversation == (Conversation { turn: 0, input: None, output: None }),
    {
        LatencyState {
            guild_id: String::new(),
            conversation: Conversation { turn: 0, input: None, output: None },
        }
    }

    /// Takes note of audio from Discord. Speech that interrupts the browser is reported.
    pub fn record_input_pcm(&mut self, samples: &[i16], now: u64) -> (event: Option<String>)
        requires
            old(self).conversation.turn < u64::MAX,
        ensures
            final(self).guild_id == old(self).guild_id,
            final(self).conversation == (if signal::has_signal(samples@) {
                old(self).conversation.heard(now)
            } else {
                old(self).conversation
            }),
            text::option_view(event) == (if signal::has_signal(samples@)
                && old(self).conversation.interrupts(now) {
                Some(interruption(old(self).conversation))
            } else {
                None
            }),
    {
        if !signal::has_i16_signal(samples) {
            return None;
        }
        let before = self.conversation;
        let output_active = match before.output {
            Some(output) => since(now, output.last_at) <= LATENCY_RESPONSE_QUIET_GAP,
            None => false,
        };
        if output_active {
            if let Some(output) = before.output {
                if output.interruption_turn.is_none() {
                    let turn: u64 = before.turn + 1;
                    let mut changed = output;
                    changed.interruption_turn = Some(turn);
                    changed.interrupted = true;
                    self.conversation = Conversation {
                        turn,
                        input: Some(
                            LatencyInputTurn {
                                turn,
                                first_at: now,
                                last_at: now,
                                response_started: false,
                                interrupted: true,
                            },
                        ),
                        output: Some(changed),
                    };
                    let mut event = "turn ".to_owned();
                    event.append(text::decimal_text(turn).as_str());
                    event.append(": Discord speech interrupted ChatGPT output");
                    return Some(event);
                }
            }
        } else {
            let starts_new_turn = match before.input {
                Some(input) => since(now, input.last_at) > LATENCY_NEW_TURN_GAP,
                None => true,
            };
            if starts_new_turn {
                let turn: u64 = before.turn + 1;
                self.conversation.turn = turn;
                self.conversation.input = Some(
                    LatencyInputTurn {
                        turn,
                        first_at: now,
                        last_at: now,
                        response_started: false,
                        interrupted: false,
                    },
                );
                return None;
            }
        }
        if let Some(input) = before.input {
            let mut changed = input;
            changed.last_at = now;
            self.conversation.input = Some(changed);
        }
        None
    }

    /// Takes note of audio from the browser. Speech that answers nobody is reported.
    pub fn record_browser_output_packet(&mut self, packet: &[u8], now: u64) -> (event: Option<
        String,
    >)
        ensures
            final(self).guild_id == old(self).guild_id,
            final(self).conversation == (if signal::has_byte_signal(packet@) {
                old(self).conversation.spoken(now)
            } else {
                old(self).conversation
            }),
            match event {
                Some(event) => signal::has_byte_signal(packet@) && !old(self).conversation.output_active(
                    now,
                ) && !old(self).conversation.answers(now) && event@
                    == "ChatGPT initiated autonomous speech"@,
                None => !signal::has_byte_signal(packet@) || old(self).conversation.output_active(now)
                    || old(self).conversation.answers(now),
            },
    {
        if !signal::has_i16_byte_signal(packet) {
            return None;
        }
        let before = self.conversation;
        if let Some(output) = before.output {
            if since(now, output.last_at) <= LATENCY_RESPONSE_QUIET_GAP {
                let mut changed = output;
                changed.last_at = now;
                self.conversation.output = Some(changed);
                return None;
            }
        }
        if let Some(input) = before.input {
            if !input.response_started && since(now, input.last_at)
                <= LATENCY_RESPONSE_MATCH_WINDOW {
                let mut changed = input;
                changed.response_started = true;
                self.conversation.input = Some(changed);
                self.conversation.output = Some(
                    LatencyOutput {
                        kind: LatencyOutputKind::Response,
                        turn: Some(input.turn),
                        first_input_at: Some(input.first_at),
                        last_input_at: Some(input.last_at),
                        started_at: now,
                        last_at: now,
                        discord_output_at: None,
                        interrupted: input.interrupted,
                        interruption_turn: None,
                    },
                );
                return None;
            }
        }
        self.conversation.output = Some(
            LatencyOutput {
                kind: LatencyOutputKind::Autonomous,
                turn: None,
                first_input_at: None,
                last_input_at: None,
                started_at: now,
                last_at: now,
                discord_output_at: None,
                interrupted: false,
                interruption_turn: None,
            },
        );
        Some("ChatGPT initiated autonomous speech".to_owned())
    }

    /// Takes note that browser speech was handed to Discord, and reports on it the first time.
    pub fn record_discord_output(&mut self, now: u64) -> (report: Option<String>)
        ensures
            final(self).guild_id == old(self).guild_id,
            final(self).conversation == old(self).conversation.relayed(now),
            text::option_view(report) == old(self).conversation.relay_report(now),
    {
        let output = match self.conversation.output {
            Some(output) => output,
            None => {
                return None;
            },
        };
        if output.discord_output_at.is_some() {
            return None;
        }
        let mut changed = output;
        changed.discord_output_at = Some(now);
        self.conversation.output = Some(changed);
        match output.kind {
            LatencyOutputKind::Response => {
                let first: u64 = match output.first_input_at {
                    Some(first) => first,
                    None => {
                        return None;
                    },
                };
                let last: u64 = match output.last_input_at {
                    Some(last) => last,
                    None => {
                        return None;
                    },
                };
                Some(response_text(&output, first, last, now))
            },
            LatencyOutputKind::Autonomous => {
                let mut report =
                    "autonomous ChatGPT speech: ChatGPT audio -> Discord relay handoff ".to_owned();
                append_elapsed(&mut report, now, output.started_at);
                report.append(" ms");
                Some(report)
            },
        }
    }

    /// The log line for a report: it names the guild that the transport belongs to.
    pub fn emit_latency_report(&self, message: &str) -> (line: String)
        ensures
            line@ == "[latency:"@ + (if self.guild_id@.len() == 0 {
                "unknown"@
            } else {
                self.guild_id@
            }) + "] "@ + message@,
    {
        let mut line = "[latency:".to_owned();
        if self.guild_id.as_str().is_empty() {
            line.append("unknown");
        } else {
            line.append(self.guild_id.as_str());
        }
        line.append("] ");
        line.append(message);
        line
    }
}

/// Speech from Discord never lowers the number of the turn, raises it by at most one, and gives
/// the raised number to the turn that it begins.
pub proof fn turns_are_numbered_in_order(conversation: Conversation, now: u64)
    requires
        conversation.turn < u64::MAX,
    ensures
        conversation.turn <= conversation.heard(now).turn <= conversation.turn + 1,
        conversation.heard(now).turn > conversation.turn ==> (conversation.heard(now).input
            matches Some(input) && input.turn == conversation.heard(now).turn && input.first_at
            == now),
{
}

/// A stretch of browser speech is interrupted at most once: speech that goes on after an
/// interruption belongs to the turn that interrupted.
pub proof fn interruption_is_noticed_once(conversation: Conversation, first: u64, second: u64)
    requires
        conversation.turn < u64::MAX - 1,
        conversation.interrupts(first),
    ensures
        !conversation.heard(first).interrupts(second),
{
}

/// A turn is answered at most once: after the browser began to answer it, later browser speech
/// counts as its own.
pub proof fn turn_is_answered_once(conversation: Conversation, first: u64, second: u64)
    requires
        conversation.answers(first),
        !conversation.output_active(first),
    ensures
        !conversation.spoken(first).answers(second),
{
}

/// Each stretch of browser speech is reported as handed over at most once.
pub proof fn handoff_is_reported_once(conversation: Conversation, first: u64, second: u64)
    ensures
        conversation.relayed(first).relay_report(second) is None,
{
}

/// An answered turn is timed from end to end: somebody speaks after a pause in which the browser
/// is silent, goes on speaking until `last`, the browser speaks within 15 s of that, and its
/// speech is handed to Discord. The report then names the turn and gives the four waits in
/// milliseconds.
pub proof fn answered_turn_is_timed(
    conversation: Conversation,
    first: u64,
    last: u64,
    spoken: u64,
    relayed: u64,
)
    requires
        conversation.turn < u64::MAX,
        conversation.output matches Some(output) ==> first > output.last_at + 1_000_000_000,
        conversation.input matches Some(input) ==> first > input.last_at + 350_000_000,
        first <= last <= first + 350_000_000,
        last <= spoken <= last + 15_000_000_000,
        spoken <= relayed,
    ensures
        conversation.heard(first).heard(last).spoken(spoken).relay_report(relayed) == Some(
            "turn "@ + text::decimal((conversation.turn + 1) as nat) + " ("@ + "response"@
                + "): first Discord speech -> ChatGPT audio "@ + text::decimal(
                ((spoken - first) / 1_000_000) as nat,
            ) + " ms; last Discord speech -> ChatGPT audio "@ + text::decimal(
                ((spoken - last) / 1_000_000) as nat,
            ) + " ms; ChatGPT audio -> Discord relay handoff "@ + text::decimal(
                ((relayed - spoken) / 1_000_000) as nat,
            ) + " ms; first speech -> Discord relay handoff "@ + text::decimal(
                ((relayed - first) / 1_000_000) as nat,
            ) + " ms"@,
        ),
{
}

/// The answer to an interruption is timed as such: somebody speaks within a second of the
/// browser's speech, the browser falls silent for more than a second and then answers within
/// 15 s.
pub proof fn answer_to_an_interruption_is_timed(
    conversation: Conversation,
    output: LatencyOutput,
    first: u64,
    spoken: u64,
    relayed: u64,
)
    requires
        conversation.turn < u64::MAX,
        conversation.output == Some(output),
        output.interruption_turn is None,
        output.last_at <= first <= output.last_at + 1_000_000_000,
        output.last_at + 1_000_000_000 < spoken,
        first <= spoken <= first + 15_000_000_000,
        spoken <= relayed,
    ensures
        conversation.heard(first).spoken(spoken).relay_report(relayed) == Some(
            "turn "@ + text::decimal((conversation.turn + 1) as nat) + " ("@
                + "response after interruption"@ + "): first Discord speech -> ChatGPT audio "@
                + text::decimal(((spoken - first) / 1_000_000) as nat)
                + " ms; last Discord speech -> ChatGPT audio "@ + text::decimal(
                ((spoken - first) / 1_000_000) as nat,
            ) + " ms; ChatGPT audio -> Discord relay handoff "@ + text::decimal(
                ((relayed - spoken) / 1_000_000) as nat,
            ) + " ms; first speech -> Discord relay handoff "@ + text::decimal(
                ((relayed - first) / 1_000_000) as nat,
            ) + " ms"@,
        ),
{
}

/// Browser speech that answers nobody is its own: nobody spoke in the last 15 s, and the browser
/// was silent for more than a second. Its report gives the wait until it was handed over.
pub proof fn unasked_speech_is_its_own(conversation: Conversation, spoken: u64, relayed: u64)
    requires
        conversation.output matches Some(output) ==> spoken > output.last_at + 1_000_000_000,
        conversation.input matches Some(input) ==> input.response_started || spoken
            > input.last_at + 15_000_000_000,
        spoken <= relayed,
    ensures
        conversation.spoken(spoken).turn == conversation.turn,
        conversation.spoken(spoken).input == conversation.input,
        conversation.spoken(spoken).relay_report(relayed) == Some(
            "autonomous ChatGPT speech: ChatGPT audio -> Discord relay handoff "@ + text::decimal(
                ((relayed - spoken) / 1_000_000) as nat,
            ) + " ms"@,
        ),
{
}

/// Speech goes on: the browser's within a second and Discord's within 350 ms prolong what was
/// said, and keep its beginning and its number.
pub proof fn speech_goes_on(conversation: Conversation, now: u64)
    ensures
        conversation.output matches Some(output) ==> output.last_at <= now <= output.last_at
            + 1_000_000_000 ==> {
            let after = conversation.spoken(now);
            &&& after.turn == conversation.turn
            &&& after.input == conversation.input
            &&& after.output matches Some(longer)
            &&& longer.started_at == output.started_at
            &&& longer.turn == output.turn
            &&& longer.kind == output.kind
            &&& longer.discord_output_at == output.discord_output_at
            &&& longer.last_at == now
        },
        conversation.output is None ==> (conversation.input matches Some(input) ==> input.last_at
            <= now <= input.last_at + 350_000_000 ==> {
            let after = conversation.heard(now);
            &&& after.turn == conversation.turn
            &&& after.output is None
            &&& after.input matches Some(longer)
            &&& longer.turn == input.turn
            &&& longer.first_at == input.first_at
            &&& longer.response_started == input.response_started
            &&& longer.last_at == now
        }),
{
}

/// Speech within a second of the browser's interrupts it, and speech after more than a second
/// does not: a new turn then begins after more than 350 ms of silence in Discord.
pub proof fn speech_interrupts_within_a_second(
    conversation: Conversation,
    output: LatencyOutput,
    now: u64,
)
    requires
        conversation.output == Some(output),
        output.interruption_turn is None,
        output.last_at <= now,
    ensures
        conversation.interrupts(now) == (now - output.last_at <= 1_000_000_000),
        now - output.last_at > 1_000_000_000 ==> conversation.heard(now).output == Some(output),
        now - output.last_at > 1_000_000_000 ==> (conversation.heard(now).turn
            == conversation.turn + 1 <==> conversation.turn < u64::MAX && (conversation.input
            matches Some(input) ==> now > input.last_at + 350_000_000)),
{
}

/// Time is counted forwards: from an earlier moment to a later one it is their difference, in whole
/// milliseconds where it is reported, and from a later one to an earlier one it is nothing.
pub proof fn time_is_counted_forwards(earlier: u64, later: u64)
    requires
        earlier <= later,
    ensures
        elapsed(later, earlier) == later - earlier,
        elapsed(earlier, later) == 0,
        elapsed_ms(later, earlier) == (later - earlier) / 1_000_000,
{
}

} // verus!
