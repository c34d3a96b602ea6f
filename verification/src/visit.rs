//! What is done with the browser of one guild, from beginning to end.
//!
//! Whoever wants something of a guild's browser visits its session. Almost every visit first makes
//! sure that the browser works.

use crate::browser::{BrowserSession, BrowserStatus, ThreadSummary};
use crate::latency;
use crate::runtime::BrowserRuntime;
use crate::text;
use vstd::prelude::*;

verus! {

/// How long a list of conversations stays fresh, in nanoseconds.
pub const THREAD_CACHE_TTL: u64 = 30_000_000_000;

/// What is wanted of a browser that works.
#[derive(Debug)]
pub enum Errand {
    /// The audio transport.
    Transport,
    /// The reader of the page's audio.
    Reader,
    Visibility(bool),
    OpenSettings,
    CloseSettings,
    Voice(String),
    Intelligence(String),
    Language(String),
    Microphone(bool),
    Reconnect,
    NewThread,
    ResumeThread(String),
}

impl Errand {
    /// The errand is about the page's audio.
    pub open spec fn needs_audio(self) -> bool {
        self is Transport || self is Reader
    }

    fn is_about_audio(&self) -> (result: bool)
        ensures
            result == self.needs_audio(),
    {
        match self {
            Errand::Transport => true,
            Errand::Reader => true,
            _ => false,
        }
    }
}

/// What is to happen next.
#[derive(Debug)]
pub enum VisitAction {
    /// Wait until nobody else uses the session.
    Enter,
    /// Start the browser, or make sure that it works.
    Start,
    /// Watch over the browser.
    Probe,
    /// End the browser.
    Stop,
    /// List the recent conversations.
    ListThreads,
    /// Do what the visit is for.
    Perform(Errand),
    /// The visit is over.
    Finish(VisitEnd),
}

/// How a visit ends.
#[derive(Debug)]
pub enum VisitEnd {
    /// With the status of the session.
    Status,
    /// With a call to sign in, as nobody ever did.
    SignInRequired,
    /// With an error.
    Failed(String),
    /// Without audio, as there is no transport.
    NoTransport,
}

/// The message where the audio transport is missing.
pub const NO_TRANSPORT: &'static str = "Browser media transport is not available";

/// What an action gave.
#[derive(Debug)]
pub enum VisitReply {
    Done,
    Failed(String),
    Threads(Vec<ThreadSummary>),
}

/// What the panel is told on the way.
#[derive(Debug)]
pub enum VisitNote {
    Prefetched(usize),
    PrefetchFailed(String),
}

impl VisitNote {
    /// The note in words.
    pub open spec fn worded(self) -> Seq<char> {
        match self {
            VisitNote::Prefetched(count) => "Prefetched "@ + text::decimal(count as nat)
                + " recent ChatGPT thread(s)."@,
            VisitNote::PrefetchFailed(error) => "Could not prefetch recent ChatGPT threads: "@
                + error@,
        }
    }

    /// Puts the note into words.
    pub fn word(&self) -> (message: String)
        ensures
            message@ == self.worded(),
    {
        match self {
            VisitNote::Prefetched(count) => {
                let mut message = "Prefetched ".to_owned();
                message.append(text::decimal_text(*count as u64).as_str());
                message.append(" recent ChatGPT thread(s).");
                message
            },
            VisitNote::PrefetchFailed(error) => text::joined(
                "Could not prefetch recent ChatGPT threads: ",
                error.as_str(),
            ),
        }
    }
}

/// A step: what the panel is told first, and then what is to happen.
#[derive(Debug)]
pub struct VisitStep {
    pub note: Option<VisitNote>,
    pub action: VisitAction,
}

/// How far a visit has got.
#[derive(Debug)]
pub enum Visit {
    /// The browser is started and its conversations are listed.
    StartingUp,
    Prefetching,
    /// The browser is started for an errand.
    Starting(Errand),
    Performing,
    Entering,
    Probing,
    Relisting,
    Stopping,
    Over,
}

/// A step without a note.
pub open spec fn quietly(action: VisitAction) -> VisitStep {
    VisitStep { note: None, action }
}

/// The end of a visit.
pub open spec fn ended(end: VisitEnd) -> (Visit, VisitStep) {
    (Visit::Over, quietly(VisitAction::Finish(end)))
}

fn end(outcome: VisitEnd) -> (over: (Visit, VisitStep))
    ensures
        over == ended(outcome),
{
    (Visit::Over, VisitStep { note: None, action: VisitAction::Finish(outcome) })
}

/// The session with a list of conversations.
pub open spec fn with_threads(
    session: BrowserSession,
    threads: Vec<ThreadSummary>,
    fetched_at: Option<u64>,
) -> BrowserSession {
    BrowserSession {
        recent_threads_fetched_at: fetched_at,
        status: BrowserStatus { recent_threads: threads, ..session.status },
        ..session
    }
}

/// When a list of conversations was fetched; an empty one does not count.
pub open spec fn fetched(threads: Vec<ThreadSummary>, now: u64) -> Option<u64> {
    if threads@.len() > 0 {
        Some(now)
    } else {
        None
    }
}

/// The list of conversations is old or missing, and Voice, which must not be disturbed, is off.
pub open spec fn threads_due(session: BrowserSession, now: u64) -> bool {
    &&& !session.status.voice_mode_active
    &&& match session.recent_threads_fetched_at {
        Some(fetched_at) => latency::elapsed(now, fetched_at) >= THREAD_CACHE_TTL,
        None => true,
    }
}

fn are_threads_due(session: &BrowserSession, now: u64) -> (due: bool)
    ensures
        due == threads_due(*session, now),
{
    if session.status.voice_mode_active {
        return false;
    }
    match session.recent_threads_fetched_at {
        Some(fetched_at) => latency::since(now, fetched_at) >= THREAD_CACHE_TTL,
        None => true,
    }
}

/// The conversations that are kept when they are listed again: neither an empty list nor a failure
/// replaces a list that is known.
pub open spec fn kept_threads(known: Vec<ThreadSummary>, reply: VisitReply) -> Vec<ThreadSummary> {
    match reply {
        VisitReply::Threads(listed) => if listed@.len() > 0 || known@.len() == 0 {
            listed
        } else {
            known
        },
        _ => known,
    }
}

fn keep(session: &mut BrowserSession, threads: Vec<ThreadSummary>, now: u64)
    ensures
        *final(session) == with_threads(*old(session), threads, fetched(threads, now)),
{
    session.recent_threads_fetched_at = if threads.len() > 0 {
        Some(now)
    } else {
        None
    };
    session.status.recent_threads = threads;
}

fn keep_relisted(session: &mut BrowserSession, reply: VisitReply, now: u64)
    ensures
        ({
            let kept = kept_threads(old(session).status.recent_threads, reply);
            *final(session) == with_threads(*old(session), kept, fetched(kept, now))
        }),
{
    if let VisitReply::Threads(threads) = reply {
        if threads.len() > 0 || session.status.recent_threads.len() == 0 {
            keep(session, threads, now);
            return;
        }
    }
    session.recent_threads_fetched_at = if session.status.recent_threads.len() == 0 {
        None
    } else {
        Some(now)
    };
}

impl BrowserRuntime {
    /// Begins to start a guild's browser and to list its conversations.
    pub fn start_guild() -> (begun: (Visit, VisitStep))
        ensures
            begun == (Visit::StartingUp, quietly(VisitAction::Start)),
    {
        (Visit::StartingUp, VisitStep { note: None, action: VisitAction::Start })
    }

    /// Begins to look after a guild's browser. Where nobody ever signed in (`signed_in_before`)
    /// and the browser is not seen to be under control, the panel is told at once: the session may
    /// be busy with the first start.
    pub fn status_guild(signed_in_before: bool, seen_controlled: bool) -> (begun: (
        Visit,
        VisitStep,
    ))
        ensures
            begun == (if !signed_in_before && !seen_controlled {
                ended(VisitEnd::SignInRequired)
            } else {
                (Visit::Entering, quietly(VisitAction::Enter))
            }),
    {
        if !signed_in_before && !seen_controlled {
            end(VisitEnd::SignInRequired)
        } else {
            (Visit::Entering, VisitStep { note: None, action: VisitAction::Enter })
        }
    }

    /// Begins to end a guild's browser.
    pub fn stop_guild() -> (begun: (Visit, VisitStep))
        ensures
            begun == (Visit::Stopping, quietly(VisitAction::Stop)),
    {
        (Visit::Stopping, VisitStep { note: None, action: VisitAction::Stop })
    }

    fn run_errand(errand: Errand) -> (begun: (Visit, VisitStep))
        ensures
            begun == (Visit::Starting(errand), quietly(VisitAction::Start)),
    {
        (Visit::Starting(errand), VisitStep { note: None, action: VisitAction::Start })
    }

    /// Begins to fetch the reader of the page's audio.
    pub fn take_media_reader() -> (begun: (Visit, VisitStep))
        ensures
            begun == (Visit::Starting(Errand::Reader), quietly(VisitAction::Start)),
    {
        Self::run_errand(Errand::Reader)
    }

    /// Begins to fetch the audio transport.
    pub fn media_for_guild() -> (begun: (Visit, VisitStep))
        ensures
            begun == (Visit::Starting(Errand::Transport), quietly(VisitAction::Start)),
    {
        Self::run_errand(Errand::Transport)
    }

    /// Begins to show or hide the windows.
    pub fn set_visibility_guild(hidden: bool) -> (begun: (Visit, VisitStep))
        ensures
            begun == (Visit::Starting(Errand::Visibility(hidden)), quietly(VisitAction::Start)),
    {
        Self::run_errand(Errand::Visibility(hidden))
    }

    /// Begins to open the Voice settings.
    pub fn open_voice_settings_guild() -> (begun: (Visit, VisitStep))
        ensures
            begun == (Visit::Starting(Errand::OpenSettings), quietly(VisitAction::Start)),
    {
        Self::run_errand(Errand::OpenSettings)
    }

    /// Begins to close the Voice settings.
    pub fn close_voice_settings_guild() -> (begun: (Visit, VisitStep))
        ensures
            begun == (Visit::Starting(Errand::CloseSettings), quietly(VisitAction::Start)),
    {
        Self::run_errand(Errand::CloseSettings)
    }

    /// Begins to change the voice.
    pub fn set_voice_guild(voice: String) -> (begun: (Visit, VisitStep))
        ensures
            begun == (Visit::Starting(Errand::Voice(voice)), quietly(VisitAction::Start)),
    {
        Self::run_errand(Errand::Voice(voice))
    }

    /// Begins to change the intelligence.
    pub fn set_intelligence_guild(intelligence: String) -> (begun: (Visit, VisitStep))
        ensures
            begun == (
                Visit::Starting(Errand::Intelligence(intelligence)),
                quietly(VisitAction::Start),
            ),
    {
        Self::run_errand(Errand::Intelligence(intelligence))
    }

    /// Begins to change the language.
    pub fn set_language_guild(language: String) -> (begun: (Visit, VisitStep))
        ensures
            begun == (Visit::Starting(Errand::Language(language)), quietly(VisitAction::Start)),
    {
        Self::run_errand(Errand::Language(language))
    }

    /// Begins to mute or unmute the microphone.
    pub fn set_mic_muted_guild(muted: bool) -> (begun: (Visit, VisitStep))
        ensures
            begun == (Visit::Starting(Errand::Microphone(muted)), quietly(VisitAction::Start)),
    {
        Self::run_errand(Errand::Microphone(muted))
    }

    /// Begins to reconnect Voice.
    pub fn reconnect_voice_guild() -> (begun: (Visit, VisitStep))
        ensures
            begun == (Visit::Starting(Errand::Reconnect), quietly(VisitAction::Start)),
    {
        Self::run_errand(Errand::Reconnect)
    }
}

/// Begins to open a new conversation.
pub fn new_thread() -> (begun: (Visit, VisitStep))
    ensures
        begun == (Visit::Starting(Errand::NewThread), quietly(VisitAction::Start)),
{
    BrowserRuntime::run_errand(Errand::NewThread)
}

/// Begins to go back to a conversation; white space around its identifier does not count.
pub fn resume_thread(thread_id: &str) -> (begun: (Visit, VisitStep))
    ensures
        begun.0 matches Visit::Starting(Errand::ResumeThread(id)) && id@ == text::trimmed(
            thread_id@,
        ),
        begun.1 == quietly(VisitAction::Start),
{
    BrowserRuntime::run_errand(Errand::ResumeThread(text::trim(thread_id)))
}

impl Visit {
    /// The step after a reply. A failed start or watch ends the visit; conversations that cannot
    /// be listed do not.
    pub open spec fn after(self, session: BrowserSession, reply: VisitReply, now: u64) -> (
        Visit,
        BrowserSession,
        VisitStep,
    ) {
        match self {
            Visit::StartingUp => match reply {
                VisitReply::Failed(error) => (
                    Visit::Over,
                    session,
                    quietly(VisitAction::Finish(VisitEnd::Failed(error))),
                ),
                _ => if session.status.logged_in {
                    (Visit::Prefetching, session, quietly(VisitAction::ListThreads))
                } else {
                    (Visit::Over, session, quietly(VisitAction::Finish(VisitEnd::Status)))
                },
            },
            Visit::Prefetching => {
                let note = match reply {
                    VisitReply::Threads(threads) => Some(VisitNote::Prefetched(threads.len())),
                    VisitReply::Failed(error) => Some(VisitNote::PrefetchFailed(error)),
                    VisitReply::Done => None,
                };
                let kept = match reply {
                    VisitReply::Threads(threads) => with_threads(
                        session,
                        threads,
                        fetched(threads, now),
                    ),
                    _ => session,
                };
                (
                    Visit::Over,
                    kept,
                    VisitStep { note, action: VisitAction::Finish(VisitEnd::Status) },
                )
            },
            Visit::Starting(errand) => match reply {
                VisitReply::Failed(error) => (
                    Visit::Over,
                    session,
                    quietly(VisitAction::Finish(VisitEnd::Failed(error))),
                ),
                _ => if errand.needs_audio() && !session.media {
                    (Visit::Over, session, quietly(VisitAction::Finish(VisitEnd::NoTransport)))
                } else {
                    (Visit::Performing, session, quietly(VisitAction::Perform(errand)))
                },
            },
            Visit::Entering => if session.controlled {
                (Visit::Probing, session, quietly(VisitAction::Probe))
            } else {
                (Visit::Over, session, quietly(VisitAction::Finish(VisitEnd::Status)))
            },
            Visit::Probing => match reply {
                VisitReply::Failed(error) => (
                    Visit::Over,
                    session,
                    quietly(VisitAction::Finish(VisitEnd::Failed(error))),
                ),
                _ => if threads_due(session, now) {
                    (Visit::Relisting, session, quietly(VisitAction::ListThreads))
                } else {
                    (Visit::Over, session, quietly(VisitAction::Finish(VisitEnd::Status)))
                },
            },
            Visit::Relisting => {
                let kept = kept_threads(session.status.recent_threads, reply);
                (
                    Visit::Over,
                    with_threads(session, kept, fetched(kept, now)),
                    quietly(VisitAction::Finish(VisitEnd::Status)),
                )
            },
            _ => (
                Visit::Over,
                session,
                quietly(
                    VisitAction::Finish(
                        match reply {
                            VisitReply::Failed(error) => VisitEnd::Failed(error),
                            _ => VisitEnd::Status,
                        },
                    ),
                ),
            ),
        }
    }

    /// Goes on with a visit.
    pub fn next(self, session: &mut BrowserSession, reply: VisitReply, now: u64) -> (continued: (
        Self,
        VisitStep,
    ))
        ensures
            (continued.0, *final(session), continued.1) == self.after(*old(session), reply, now),
    {
        match self {
            Visit::StartingUp => match reply {
                VisitReply::Failed(error) => end(VisitEnd::Failed(error)),
                _ => {
                    if session.status.logged_in {
                        (
                            Visit::Prefetching,
                            VisitStep { note: None, action: VisitAction::ListThreads },
                        )
                    } else {
                        end(VisitEnd::Status)
                    }
                },
            },
            Visit::Prefetching => {
                let note = match reply {
                    VisitReply::Threads(threads) => {
                        let count: usize = threads.len();
                        keep(session, threads, now);
                        Some(VisitNote::Prefetched(count))
                    },
                    VisitReply::Failed(error) => Some(VisitNote::PrefetchFailed(error)),
                    VisitReply::Done => None,
                };
                (Visit::Over, VisitStep { note, action: VisitAction::Finish(VisitEnd::Status) })
            },
            Visit::Starting(errand) => match reply {
                VisitReply::Failed(error) => end(VisitEnd::Failed(error)),
                _ => {
                    if errand.is_about_audio() && !session.media {
                        end(VisitEnd::NoTransport)
                    } else {
                        (
                            Visit::Performing,
                            VisitStep { note: None, action: VisitAction::Perform(errand) },
                        )
                    }
                },
            },
            Visit::Entering => {
                if session.controlled {
                    (Visit::Probing, VisitStep { note: None, action: VisitAction::Probe })
                } else {
                    end(VisitEnd::Status)
                }
            },
            Visit::Probing => match reply {
                VisitReply::Failed(error) => end(VisitEnd::Failed(error)),
                _ => {
                    if are_threads_due(session, now) {
                        (
                            Visit::Relisting,
                            VisitStep { note: None, action: VisitAction::ListThreads },
                        )
                    } else {
                        end(VisitEnd::Status)
                    }
                },
            },
            Visit::Relisting => {
                keep_relisted(session, reply, now);
                end(VisitEnd::Status)
            },
            _ => match reply {
                VisitReply::Failed(error) => end(VisitEnd::Failed(error)),
                _ => end(VisitEnd::Status),
            },
        }
    }
}

/// An errand is only done with a browser that was started, or found working, just before; where
/// that fails, the visit ends with the error and nothing else happens.
pub proof fn errands_need_a_working_browser(
    visit: Visit,
    session: BrowserSession,
    reply: VisitReply,
    now: u64,
)
    ensures
        visit.after(session, reply, now).2.action matches VisitAction::Perform(errand)
            ==> visit == Visit::Starting(errand) && reply !is Failed,
        visit matches Visit::Starting(_) ==> (reply matches VisitReply::Failed(error)
            ==> visit.after(session, reply, now) == (
            Visit::Over,
            session,
            quietly(VisitAction::Finish(VisitEnd::Failed(error))),
        )),
{
}

/// Conversations that are known are not lost while the browser is watched.
pub proof fn known_threads_are_kept(known: Vec<ThreadSummary>, reply: VisitReply)
    requires
        known@.len() > 0,
    ensures
        kept_threads(known, reply)@.len() > 0,
{
}

/// Voice is never disturbed by a search for conversations while the browser is watched.
pub proof fn watching_leaves_voice_alone(session: BrowserSession, reply: VisitReply, now: u64)
    requires
        session.status.voice_mode_active,
    ensures
        Visit::Probing.after(session, reply, now).2.action is Finish,
{
}

/// How many steps a visit takes at most.
pub open spec fn steps_left(visit: Visit) -> nat {
    match visit {
        Visit::StartingUp => 2,
        Visit::Starting(_) => 2,
        Visit::Entering => 3,
        Visit::Probing => 2,
        Visit::Over => 0,
        _ => 1,
    }
}

/// Every visit ends: each step ends it or leaves fewer steps.
pub proof fn visits_end(visit: Visit, session: BrowserSession, reply: VisitReply, now: u64)
    requires
        visit !is Over,
    ensures
        steps_left(visit.after(session, reply, now).0) < steps_left(visit),
        visit.after(session, reply, now).0 is Over <==> visit.after(
            session,
            reply,
            now,
        ).2.action is Finish,
{
}

// ---------------------------------------------------------------------------
// What visits are for
// ---------------------------------------------------------------------------

/// A browser that was started lists the conversations of a signed-in account, keeps them with the
/// time, and tells how many there are; the visit ends with the status also where they could not be
/// listed.
pub proof fn started_browser_lists_its_threads(
    session: BrowserSession,
    reply: VisitReply,
    threads: Vec<ThreadSummary>,
    error: String,
    now: u64,
)
    requires
        reply !is Failed,
    ensures
        ({
            let (second, kept, step) = Visit::StartingUp.after(session, reply, now);
            let (_, listed, end) = second.after(kept, VisitReply::Threads(threads), now);
            let (_, unlisted, failed) = second.after(kept, VisitReply::Failed(error), now);
            &&& !session.status.logged_in ==> step.action == VisitAction::Finish(VisitEnd::Status)
            &&& session.status.logged_in ==> {
                &&& step.action == VisitAction::ListThreads
                &&& kept == session
                &&& end.action == VisitAction::Finish(VisitEnd::Status)
                &&& end.note == Some(VisitNote::Prefetched(threads.len()))
                &&& listed.status.recent_threads == threads
                &&& threads@.len() > 0 ==> listed.recent_threads_fetched_at == Some(now)
                &&& threads@.len() == 0 ==> listed.recent_threads_fetched_at is None
                &&& failed.action == VisitAction::Finish(VisitEnd::Status)
                &&& failed.note == Some(VisitNote::PrefetchFailed(error))
                &&& unlisted == session
            }
        }),
{
}

/// An errand is done with a browser that works, and the visit ends as the errand does. Only errands
/// about the audio need the transport, and without it they end for want of it.
pub proof fn errands_are_done(
    errand: Errand,
    session: BrowserSession,
    reply: VisitReply,
    done: VisitReply,
    error: String,
    now: u64,
)
    requires
        reply !is Failed,
        done !is Failed,
    ensures
        ({
            let (performing, kept, step) = Visit::Starting(errand).after(session, reply, now);
            let audio = errand is Transport || errand is Reader;
            &&& kept == session
            &&& audio && !session.media ==> step.action == VisitAction::Finish(
                VisitEnd::NoTransport,
            )
            &&& !audio || session.media ==> {
                &&& step.action == VisitAction::Perform(errand)
                &&& performing.after(session, done, now).2.action == VisitAction::Finish(
                    VisitEnd::Status,
                )
                &&& performing.after(session, VisitReply::Failed(error), now).2.action
                    == VisitAction::Finish(VisitEnd::Failed(error))
                &&& performing.after(session, done, now).1 == session
            }
        }),
{
}

/// A browser under control is watched, and one that is not ends the visit with its status. An error
/// of a start or a watch is what the visit ends with.
pub proof fn controlled_browser_is_watched(
    session: BrowserSession,
    entered: VisitReply,
    error: String,
    now: u64,
)
    ensures
        Visit::Entering.after(session, entered, now).2.action == (if session.controlled {
            VisitAction::Probe
        } else {
            VisitAction::Finish(VisitEnd::Status)
        }),
        Visit::Probing.after(session, VisitReply::Failed(error), now).2.action
            == VisitAction::Finish(VisitEnd::Failed(error)),
        Visit::StartingUp.after(session, VisitReply::Failed(error), now).2.action
            == VisitAction::Finish(VisitEnd::Failed(error)),
        Visit::Stopping.after(session, VisitReply::Done, now).2.action == VisitAction::Finish(
            VisitEnd::Status,
        ),
{
}

/// While Voice is off, a list of conversations that is missing or thirty seconds old is made anew;
/// a list with entries is taken over, and a known one stays where the new one is empty or fails.
pub proof fn old_thread_list_is_renewed(
    session: BrowserSession,
    probed: VisitReply,
    threads: Vec<ThreadSummary>,
    error: String,
    now: u64,
)
    requires
        probed !is Failed,
    ensures
        ({
            let due = !session.status.voice_mode_active && (session.recent_threads_fetched_at is None
                || now >= session.recent_threads_fetched_at->0 + 30_000_000_000);
            let (second, kept, step) = Visit::Probing.after(session, probed, now);
            let (_, listed, end) = second.after(kept, VisitReply::Threads(threads), now);
            let (_, unlisted, failed) = second.after(kept, VisitReply::Failed(error), now);
            &&& kept == session
            &&& !due ==> step.action == VisitAction::Finish(VisitEnd::Status)
            &&& due ==> {
                &&& step.action == VisitAction::ListThreads
                &&& end.action == VisitAction::Finish(VisitEnd::Status)
                &&& failed.action == VisitAction::Finish(VisitEnd::Status)
                &&& threads@.len() > 0 ==> listed.status.recent_threads == threads
                    && listed.recent_threads_fetched_at == Some(now)
                &&& threads@.len() == 0 && session.status.recent_threads@.len() > 0
                    ==> listed.status.recent_threads == session.status.recent_threads
                    && listed.recent_threads_fetched_at == Some(now)
                &&& unlisted.status.recent_threads == session.status.recent_threads
            }
        }),
{
}

/// The notes of a visit say how many conversations were listed, or why none were.
pub proof fn visits_tell_what_was_listed(count: usize, error: String)
    ensures
        VisitNote::Prefetched(count).worded() == "Prefetched "@ + text::decimal(count as nat)
            + " recent ChatGPT thread(s)."@,
        VisitNote::PrefetchFailed(error).worded() == "Could not prefetch recent ChatGPT threads: "@
            + error@,
{
}

} // verus!
