//! Loading pages and opening conversations.

use crate::browser::{BrowserSession, BrowserStatus, ThreadSummary};
use crate::flow;
use crate::flow::{Action, Answer, Command, Failure, Script, ThreadReply};
use crate::latency;
use crate::text;
use vstd::prelude::*;

verus! {

/// How long a page may take to load, in nanoseconds.
pub const START_TIMEOUT: u64 = 30_000_000_000;

/// How long the control for a new conversation may take to appear, in nanoseconds.
pub const NEW_CHAT_TIMEOUT: u64 = 8_000_000_000;

/// How long the list of conversations may take to appear, in nanoseconds.
pub const THREAD_DISCOVERY_TIMEOUT: u64 = 3_000_000_000;

/// How far a page has loaded.
#[derive(Debug, Clone, Copy, PartialEq, Eq, Structural)]
pub enum LoadStage {
    Calling,
    Checking,
    Pausing,
    Settling,
    Bridging,
    Refreshing,
}

/// Going to an address, or loading the page again.
#[derive(Debug)]
pub struct PageLoad {
    pub reload: bool,
    pub stage: LoadStage,
    pub started_at: u64,
}

/// The page has loaded far enough to be used.
pub open spec fn page_ready(reply: Result<Answer, String>) -> bool {
    flow::says(reply, "complete"@) || flow::says(reply, "interactive"@)
}

impl PageLoad {
    /// How loading begins: with a command, as long as the page is under control.
    pub open spec fn first(reload: bool, url: String, session: BrowserSession) -> Action {
        if !session.controlled {
            Action::Finish(
                Err(
                    if reload {
                        Failure::NotRunning
                    } else {
                        Failure::NotConnected
                    },
                ),
            )
        } else if reload {
            Action::Call(Command::Reload)
        } else {
            Action::Call(Command::Navigate(url))
        }
    }

    /// Begins to go to an address.
    pub fn navigate(url: String, session: &BrowserSession) -> (begun: (Self, Action))
        ensures
            begun.0 == (PageLoad { reload: false, stage: LoadStage::Calling, started_at: 0 }),
            begun.1 == Self::first(false, url, *session),
    {
        let load = PageLoad { reload: false, stage: LoadStage::Calling, started_at: 0 };
        if session.controlled {
            (load, Action::Call(Command::Navigate(url)))
        } else {
            (load, Action::Finish(Err(Failure::NotConnected)))
        }
    }

    /// Begins to load the page again.
    pub fn reload_page(session: &BrowserSession) -> (begun: (Self, Action))
        ensures
            begun.0 == (PageLoad { reload: true, stage: LoadStage::Calling, started_at: 0 }),
            begun.1 == Self::first(true, session.url, *session),
    {
        let load = PageLoad { reload: true, stage: LoadStage::Calling, started_at: 0 };
        if session.controlled {
            (load, Action::Call(Command::Reload))
        } else {
            (load, Action::Finish(Err(Failure::NotRunning)))
        }
    }

    /// The step after a reply. A page that was loaded again gets its bridge back and is looked at,
    /// and what its settings offered is forgotten.
    pub open spec fn after(
        self,
        session: BrowserSession,
        reply: Result<Answer, String>,
        now: u64,
    ) -> (PageLoad, BrowserSession, Action) {
        let forgotten = BrowserSession { options_fetched_at: None, ..session };
        match self.stage {
            LoadStage::Calling => match reply {
                Err(error) => (self, session, flow::failed(error)),
                Ok(_) => (
                    PageLoad { stage: LoadStage::Checking, started_at: now, ..self },
                    session,
                    Action::Evaluate(Script::ReadyState),
                ),
            },
            LoadStage::Checking => if page_ready(reply) {
                (
                    PageLoad { stage: LoadStage::Settling, ..self },
                    session,
                    Action::Wait(
                        if self.reload {
                            500
                        } else {
                            100
                        },
                    ),
                )
            } else {
                (PageLoad { stage: LoadStage::Pausing, ..self }, session, Action::Wait(100))
            },
            LoadStage::Pausing => if latency::elapsed(now, self.started_at) < START_TIMEOUT {
                (
                    PageLoad { stage: LoadStage::Checking, ..self },
                    session,
                    Action::Evaluate(Script::ReadyState),
                )
            } else {
                (
                    self,
                    session,
                    Action::Finish(
                        Err(
                            if self.reload {
                                Failure::PageNotRefreshed
                            } else {
                                Failure::PageNotLoaded
                            },
                        ),
                    ),
                )
            },
            LoadStage::Settling => if !self.reload {
                (self, session, flow::succeeded())
            } else if session.media {
                (
                    PageLoad { stage: LoadStage::Bridging, ..self },
                    session,
                    Action::Evaluate(Script::Bridge),
                )
            } else {
                (
                    PageLoad { stage: LoadStage::Refreshing, ..self },
                    forgotten,
                    Action::Refresh,
                )
            },
            LoadStage::Bridging => (
                PageLoad { stage: LoadStage::Refreshing, ..self },
                forgotten,
                Action::Refresh,
            ),
            LoadStage::Refreshing => match reply {
                Err(error) => (self, session, flow::failed(error)),
                Ok(_) => (self, session, flow::succeeded()),
            },
        }
    }

    /// Goes on with loading.
    pub fn next(
        self,
        session: &mut BrowserSession,
        reply: Result<Answer, String>,
        now: u64,
    ) -> (continued: (Self, Action))
        ensures
            (continued.0, *final(session), continued.1) == self.after(*old(session), reply, now),
    {
        let mut load = self;
        match load.stage {
            LoadStage::Calling => match reply {
                Err(error) => (load, Action::Finish(Err(Failure::Outside(error)))),
                Ok(_) => {
                    load.stage = LoadStage::Checking;
                    load.started_at = now;
                    (load, Action::Evaluate(Script::ReadyState))
                },
            },
            LoadStage::Checking => {
                if flow::does_say(&reply, "complete") || flow::does_say(&reply, "interactive") {
                    load.stage = LoadStage::Settling;
                    let pause: u64 = if load.reload {
                        500
                    } else {
                        100
                    };
                    (load, Action::Wait(pause))
                } else {
                    load.stage = LoadStage::Pausing;
                    (load, Action::Wait(100))
                }
            },
            LoadStage::Pausing => {
                if latency::since(now, load.started_at) < START_TIMEOUT {
                    load.stage = LoadStage::Checking;
                    (load, Action::Evaluate(Script::ReadyState))
                } else if load.reload {
                    (load, Action::Finish(Err(Failure::PageNotRefreshed)))
                } else {
                    (load, Action::Finish(Err(Failure::PageNotLoaded)))
                }
            },
            LoadStage::Settling => {
                if !load.reload {
                    (load, Action::Finish(Ok(())))
                } else if session.media {
                    load.stage = LoadStage::Bridging;
                    (load, Action::Evaluate(Script::Bridge))
                } else {
                    session.options_fetched_at = None;
                    load.stage = LoadStage::Refreshing;
                    (load, Action::Refresh)
                }
            },
            LoadStage::Bridging => {
                session.options_fetched_at = None;
                load.stage = LoadStage::Refreshing;
                (load, Action::Refresh)
            },
            LoadStage::Refreshing => match reply {
                Err(error) => (load, Action::Finish(Err(Failure::Outside(error)))),
                Ok(_) => (load, Action::Finish(Ok(()))),
            },
        }
    }
}

/// A page that is not ready when its time is up is given up at the next step.
pub proof fn loading_ends_in_time(
    load: PageLoad,
    session: BrowserSession,
    reply: Result<Answer, String>,
    now: u64,
)
    requires
        load.stage is Pausing,
        latency::elapsed(now, load.started_at) >= START_TIMEOUT,
    ensures
        load.after(session, reply, now).2 matches Action::Finish(Err(_)),
{
}

/// How many conversations are listed at most.
pub const RECENT_THREADS: usize = 5;

/// A list holds a conversation with this identifier.
pub open spec fn lists_thread(threads: Seq<ThreadSummary>, id: Seq<char>) -> bool {
    exists|i: int| 0 <= i < threads.len() && (#[trigger] threads[i]).id@ == id
}

/// A list with each conversation once, where it stands first.
pub open spec fn listed_once(threads: Seq<ThreadSummary>) -> Seq<ThreadSummary>
    decreases threads.len(),
{
    if threads.len() == 0 {
        threads
    } else {
        let before = listed_once(threads.drop_last());
        if lists_thread(before, threads.last().id@) {
            before
        } else {
            before.push(threads.last())
        }
    }
}

/// The recent conversations of a page: the first five different ones, in the order of the page.
pub open spec fn recent(threads: Seq<ThreadSummary>) -> Seq<ThreadSummary> {
    let once = listed_once(threads);
    if once.len() <= RECENT_THREADS {
        once
    } else {
        once.take(RECENT_THREADS as int)
    }
}

fn is_listed(threads: &Vec<ThreadSummary>, id: &str) -> (listed: bool)
    ensures
        listed == lists_thread(threads@, id@),
{
    let mut next: usize = 0;
    while next < threads.len()
        invariant
            next <= threads@.len(),
            forall|i: int| 0 <= i < next ==> (#[trigger] threads@[i]).id@ != id@,
        decreases threads@.len() - next,
    {
        if text::same(threads[next].id.as_str(), id) {
            assert(threads@[next as int].id@ == id@);
            return true;
        }
        next = next + 1;
    }
    false
}

/// Picks the recent conversations out of all that a page links to.
pub fn most_recent(threads: &Vec<ThreadSummary>) -> (kept: Vec<ThreadSummary>)
    ensures
        kept@ == recent(threads@),
{
    let mut kept: Vec<ThreadSummary> = Vec::new();
    let mut next: usize = 0;
    assert(threads@.take(0) =~= Seq::<ThreadSummary>::empty());
    assert(kept@ =~= recent(threads@.take(0)));
    while next < threads.len()
        invariant
            next <= threads@.len(),
            kept@ == recent(threads@.take(next as int)),
        decreases threads@.len() - next,
    {
        let ghost seen = threads@.take(next as int);
        let ghost further = threads@.take(next as int + 1);
        assert(further.drop_last() =~= seen);
        assert(further.last() == threads@[next as int]);
        if kept.len() < RECENT_THREADS {
            assert(kept@ == listed_once(seen));
            if !is_listed(&kept, threads[next].id.as_str()) {
                kept.push(threads[next].copy());
            }
            assert(kept@ =~= recent(further));
        } else {
            assert(listed_once(further).take(RECENT_THREADS as int) =~= listed_once(seen).take(
                RECENT_THREADS as int,
            ));
            assert(listed_once(seen).take(RECENT_THREADS as int) =~= kept@);
            assert(recent(further) =~= kept@);
        }
        next = next + 1;
    }
    assert(threads@.take(next as int) =~= threads@);
    kept
}

/// A list of at most five conversations, each once.
pub open spec fn few_and_different(threads: Seq<ThreadSummary>) -> bool {
    &&& threads.len() <= RECENT_THREADS
    &&& forall|i: int, j: int|
        0 <= i < j < threads.len() ==> (#[trigger] threads[i]).id@ != (#[trigger] threads[j]).id@
}

proof fn lemma_listed_once(threads: Seq<ThreadSummary>)
    ensures
        ({
            let once = listed_once(threads);
            &&& once.len() <= threads.len()
            &&& forall|i: int, j: int|
                0 <= i < j < once.len() ==> (#[trigger] once[i]).id@ != (#[trigger] once[j]).id@
            &&& forall|i: int| 0 <= i < once.len() ==> threads.contains(#[trigger] once[i])
            &&& forall|i: int|
                0 <= i < threads.len() ==> lists_thread(once, (#[trigger] threads[i]).id@)
        }),
    decreases threads.len(),
{
    if threads.len() > 0 {
        let front = threads.drop_last();
        let before = listed_once(front);
        let once = listed_once(threads);
        lemma_listed_once(front);
        assert forall|i: int| 0 <= i < once.len() implies threads.contains(#[trigger] once[i]) by {
            if i < before.len() {
                assert(once[i] == before[i]);
                let at = choose|at: int| 0 <= at < front.len() && front[at] == before[i];
                assert(threads[at] == before[i]);
            } else {
                assert(threads[threads.len() - 1] == once[i]);
            }
        }
        assert forall|i: int| 0 <= i < threads.len() implies lists_thread(
            once,
            (#[trigger] threads[i]).id@,
        ) by {
            if i < front.len() {
                assert(front[i] == threads[i]);
                assert(lists_thread(before, front[i].id@));
                let at = choose|at: int|
                    0 <= at < before.len() && (#[trigger] before[at]).id@ == front[i].id@;
                assert(once[at] == before[at]);
            } else if !lists_thread(before, threads.last().id@) {
                assert(once[once.len() - 1] == threads[i]);
            }
        }
        assert forall|i: int, j: int| 0 <= i < j < once.len() implies (#[trigger] once[i]).id@ != (
        #[trigger] once[j]).id@ by {
            assert(once[i] == before[i]);
            if j < before.len() {
                assert(once[j] == before[j]);
            }
        }
    }
}

/// At most five conversations are listed, each once and each from the page; a conversation of the
/// page is missing only where five others are listed.
pub proof fn five_different_threads_are_listed(threads: Seq<ThreadSummary>, at: int)
    requires
        0 <= at < threads.len(),
    ensures
        few_and_different(recent(threads)),
        forall|i: int|
            0 <= i < recent(threads).len() ==> threads.contains(#[trigger] recent(threads)[i]),
        recent(threads).len() > 0,
        lists_thread(recent(threads), threads[at].id@) || recent(threads).len() == RECENT_THREADS,
{
    let once = listed_once(threads);
    let kept = recent(threads);
    lemma_listed_once(threads);
    assert forall|i: int| 0 <= i < kept.len() implies #[trigger] kept[i] == once[i] by {
    }
    assert(lists_thread(once, threads[at].id@));
}

/// How far the search for conversations has got.
#[derive(Debug)]
pub enum ThreadStage {
    Reading,
    Opening,
    Settling,
    Polling,
    Pausing,
}

/// Listing the recent conversations: where none are visible, the sidebar is opened first.
#[derive(Debug)]
pub struct RecentThreads {
    pub stage: ThreadStage,
    pub started_at: u64,
    pub latest: Option<ThreadReply>,
}

/// The end of a search with the list that was read last.
pub open spec fn concluded(latest: Option<ThreadReply>) -> Action {
    Action::FinishThreads(
        match latest {
            Some(reply) => match reply.threads {
                Ok(threads) => Ok(threads),
                Err(error) => Err(Failure::ThreadsUnreadable(error)),
            },
            None => Err(Failure::ThreadsUnread),
        },
    )
}

fn conclude(latest: Option<ThreadReply>) -> (action: Action)
    ensures
        action == concluded(latest),
{
    match latest {
        Some(reply) => match reply.threads {
            Ok(threads) => Action::FinishThreads(Ok(threads)),
            Err(error) => Action::FinishThreads(Err(Failure::ThreadsUnreadable(error))),
        },
        None => Action::FinishThreads(Err(Failure::ThreadsUnread)),
    }
}

/// What is known after another reading: a reply without a list adds nothing.
pub open spec fn updated(latest: Option<ThreadReply>, answer: Answer) -> Option<ThreadReply> {
    match answer {
        Answer::Threads(reply) => Some(reply),
        _ => latest,
    }
}

/// The reading found conversations.
pub open spec fn found_threads(answer: Answer) -> bool {
    answer matches Answer::Threads(reply) && reply.found
}

impl RecentThreads {
    /// Begins the search.
    pub fn begin(session: &BrowserSession) -> (begun: (Self, Action))
        ensures
            begun.0 == (RecentThreads { stage: ThreadStage::Reading, started_at: 0, latest: None }),
            begun.1 == (if session.controlled {
                Action::Evaluate(Script::ReadThreads)
            } else {
                Action::FinishThreads(Err(Failure::NotRunning))
            }),
    {
        let search = RecentThreads { stage: ThreadStage::Reading, started_at: 0, latest: None };
        if session.controlled {
            (search, Action::Evaluate(Script::ReadThreads))
        } else {
            (search, Action::FinishThreads(Err(Failure::NotRunning)))
        }
    }

    /// The step after a reply.
    pub open spec fn after(self, reply: Result<Answer, String>, now: u64) -> (
        RecentThreads,
        Action,
    ) {
        match reply {
            Err(error) => match self.stage {
                ThreadStage::Settling => self.polled(now),
                ThreadStage::Pausing => self.paused(now),
                _ => (self, Action::FinishThreads(Err(Failure::Outside(error)))),
            },
            Ok(answer) => match self.stage {
                ThreadStage::Reading => if found_threads(answer) {
                    (
                        RecentThreads { latest: None, ..self },
                        concluded(updated(self.latest, answer)),
                    )
                } else {
                    (
                        RecentThreads {
                            stage: ThreadStage::Opening,
                            latest: updated(self.latest, answer),
                            ..self
                        },
                        Action::Evaluate(Script::OpenSidebar),
                    )
                },
                ThreadStage::Opening => (
                    RecentThreads { stage: ThreadStage::Settling, ..self },
                    Action::Wait(120),
                ),
                ThreadStage::Settling => self.polled(now),
                ThreadStage::Polling => if found_threads(answer) {
                    (
                        RecentThreads { latest: None, ..self },
                        concluded(updated(self.latest, answer)),
                    )
                } else {
                    (
                        RecentThreads {
                            stage: ThreadStage::Pausing,
                            latest: updated(self.latest, answer),
                            ..self
                        },
                        Action::Wait(75),
                    )
                },
                ThreadStage::Pausing => self.paused(now),
            },
        }
    }

    /// The first reading after the sidebar was opened.
    pub open spec fn polled(self, now: u64) -> (RecentThreads, Action) {
        (
            RecentThreads { stage: ThreadStage::Polling, started_at: now, ..self },
            Action::Evaluate(Script::ReadThreads),
        )
    }

    /// Another reading, as long as there is time.
    pub open spec fn paused(self, now: u64) -> (RecentThreads, Action) {
        if latency::elapsed(now, self.started_at) < THREAD_DISCOVERY_TIMEOUT {
            (
                RecentThreads { stage: ThreadStage::Polling, ..self },
                Action::Evaluate(Script::ReadThreads),
            )
        } else {
            (RecentThreads { latest: None, ..self }, concluded(self.latest))
        }
    }

    fn read(self, answer: Answer, stage: ThreadStage, action: Action) -> (continued: (Self, Action))
        ensures
            continued == (if found_threads(answer) {
                (
                    RecentThreads { latest: None, ..self },
                    concluded(updated(self.latest, answer)),
                )
            } else {
                (RecentThreads { stage, latest: updated(self.latest, answer), ..self }, action)
            }),
    {
        let mut search = self;
        match answer {
            Answer::Threads(reply) => {
                if reply.found {
                    search.latest = None;
                    (search, conclude(Some(reply)))
                } else {
                    search.latest = Some(reply);
                    search.stage = stage;
                    (search, action)
                }
            },
            _ => {
                search.stage = stage;
                (search, action)
            },
        }
    }

    fn poll(self, now: u64) -> (continued: (Self, Action))
        ensures
            continued == self.polled(now),
    {
        let mut search = self;
        search.stage = ThreadStage::Polling;
        search.started_at = now;
        (search, Action::Evaluate(Script::ReadThreads))
    }

    fn go_on(self, now: u64) -> (continued: (Self, Action))
        ensures
            continued == self.paused(now),
    {
        if latency::since(now, self.started_at) < THREAD_DISCOVERY_TIMEOUT {
            let mut search = self;
            search.stage = ThreadStage::Polling;
            (search, Action::Evaluate(Script::ReadThreads))
        } else {
            let action = conclude(self.latest);
            (RecentThreads { stage: self.stage, started_at: self.started_at, latest: None }, action)
        }
    }

    /// Goes on with the search.
    pub fn next(self, reply: Result<Answer, String>, now: u64) -> (continued: (Self, Action))
        ensures
            continued == self.after(reply, now),
    {
        match self.stage {
            ThreadStage::Settling => {
                return self.poll(now);
            },
            ThreadStage::Pausing => {
                return self.go_on(now);
            },
            _ => {},
        }
        match reply {
            Err(error) => (self, Action::FinishThreads(Err(Failure::Outside(error)))),
            Ok(answer) => match self.stage {
                ThreadStage::Reading => self.read(
                    answer,
                    ThreadStage::Opening,
                    Action::Evaluate(Script::OpenSidebar),
                ),
                ThreadStage::Opening => {
                    let mut search = self;
                    search.stage = ThreadStage::Settling;
                    (search, Action::Wait(120))
                },
                _ => self.read(answer, ThreadStage::Pausing, Action::Wait(75)),
            },
        }
    }
}

/// The list of a reply is one that `most_recent` gives, as far as there is a list.
pub open spec fn keeps_to_five(reply: ThreadReply) -> bool {
    reply.threads matches Ok(threads) ==> few_and_different(threads@)
}

/// A search whose readings list at most five conversations, each once, ends with such a list.
pub proof fn search_lists_five_threads(
    search: RecentThreads,
    reply: Result<Answer, String>,
    now: u64,
)
    requires
        search.latest matches Some(latest) ==> keeps_to_five(latest),
        reply matches Ok(Answer::Threads(read)) ==> keeps_to_five(read),
    ensures
        search.after(reply, now).0.latest matches Some(latest) ==> keeps_to_five(latest),
        search.after(reply, now).1 matches Action::FinishThreads(Ok(threads)) ==> few_and_different(
            threads@,
        ),
{
}

/// A search that has found nothing when its time is up ends with what was read last.
pub proof fn search_ends_in_time(search: RecentThreads, reply: Result<Answer, String>, now: u64)
    requires
        search.stage is Pausing,
        latency::elapsed(now, search.started_at) >= THREAD_DISCOVERY_TIMEOUT,
    ensures
        search.after(reply, now).1 == concluded(search.latest),
        search.after(reply, now).1 is FinishThreads,
{
}

/// How far opening a new conversation has got.
#[derive(Debug, Clone, Copy, PartialEq, Eq, Structural)]
pub enum NewThreadStage {
    Navigating,
    Arriving,
    Clicking,
    Pausing,
    Settling,
    Starting,
}

/// Opening a new conversation and starting Voice in it.
#[derive(Debug)]
pub struct NewThread {
    pub stage: NewThreadStage,
    pub started_at: u64,
}

impl NewThread {
    /// Begins at the home page.
    pub fn begin(session: &BrowserSession) -> (begun: (Self, Action))
        ensures
            begun.0 == (NewThread { stage: NewThreadStage::Navigating, started_at: 0 }),
            begun.1 == Action::Navigate(session.url),
    {
        (
            NewThread { stage: NewThreadStage::Navigating, started_at: 0 },
            Action::Navigate(session.url.clone()),
        )
    }

    /// The step after a reply.
    pub open spec fn after(
        self,
        session: BrowserSession,
        reply: Result<Answer, String>,
        now: u64,
    ) -> (NewThread, BrowserSession, Action) {
        match self.stage {
            NewThreadStage::Navigating => match reply {
                Err(error) => (self, session, flow::failed(error)),
                Ok(_) => (
                    NewThread { stage: NewThreadStage::Arriving, ..self },
                    session,
                    Action::Wait(500),
                ),
            },
            NewThreadStage::Arriving => if session.controlled {
                (
                    NewThread { stage: NewThreadStage::Clicking, started_at: now },
                    session,
                    Action::Evaluate(Script::NewChat),
                )
            } else {
                (self, session, Action::Finish(Err(Failure::NotRunning)))
            },
            NewThreadStage::Clicking => match reply {
                Err(error) => (self, session, flow::failed(error)),
                Ok(_) => if flow::confirmed(reply) || flow::says(reply, "ready"@) {
                    (
                        NewThread { stage: NewThreadStage::Settling, ..self },
                        BrowserSession {
                            recent_threads_fetched_at: None,
                            status: BrowserStatus { active_thread: None, ..session.status },
                            ..session
                        },
                        Action::Wait(800),
                    )
                } else {
                    (
                        NewThread { stage: NewThreadStage::Pausing, ..self },
                        session,
                        Action::Wait(
                            if flow::says(reply, "sidebar"@) {
                                350
                            } else {
                                200
                            },
                        ),
                    )
                },
            },
            NewThreadStage::Pausing => if latency::elapsed(now, self.started_at)
                < NEW_CHAT_TIMEOUT {
                (
                    NewThread { stage: NewThreadStage::Clicking, ..self },
                    session,
                    Action::Evaluate(Script::NewChat),
                )
            } else {
                (self, session, Action::Finish(Err(Failure::NewChatMissing)))
            },
            NewThreadStage::Settling => (
                NewThread { stage: NewThreadStage::Starting, ..self },
                session,
                Action::StartVoice,
            ),
            NewThreadStage::Starting => match reply {
                Err(error) => (self, session, flow::failed(error)),
                Ok(_) => (self, session, flow::succeeded()),
            },
        }
    }

    /// Goes on with opening the conversation.
    pub fn next(
        self,
        session: &mut BrowserSession,
        reply: Result<Answer, String>,
        now: u64,
    ) -> (continued: (Self, Action))
        ensures
            (continued.0, *final(session), continued.1) == self.after(*old(session), reply, now),
    {
        let mut opening = self;
        match opening.stage {
            NewThreadStage::Navigating => match reply {
                Err(error) => (opening, Action::Finish(Err(Failure::Outside(error)))),
                Ok(_) => {
                    opening.stage = NewThreadStage::Arriving;
                    (opening, Action::Wait(500))
                },
            },
            NewThreadStage::Arriving => {
                if session.controlled {
                    opening.stage = NewThreadStage::Clicking;
                    opening.started_at = now;
                    (opening, Action::Evaluate(Script::NewChat))
                } else {
                    (opening, Action::Finish(Err(Failure::NotRunning)))
                }
            },
            NewThreadStage::Clicking => {
                if flow::is_confirmed(&reply) || flow::does_say(&reply, "ready") {
                    session.status.active_thread = None;
                    session.recent_threads_fetched_at = None;
                    opening.stage = NewThreadStage::Settling;
                    return (opening, Action::Wait(800));
                }
                let pause: u64 = if flow::does_say(&reply, "sidebar") {
                    350
                } else {
                    200
                };
                match reply {
                    Err(error) => (opening, Action::Finish(Err(Failure::Outside(error)))),
                    Ok(_) => {
                        opening.stage = NewThreadStage::Pausing;
                        (opening, Action::Wait(pause))
                    },
                }
            },
            NewThreadStage::Pausing => {
                if latency::since(now, opening.started_at) < NEW_CHAT_TIMEOUT {
                    opening.stage = NewThreadStage::Clicking;
                    (opening, Action::Evaluate(Script::NewChat))
                } else {
                    (opening, Action::Finish(Err(Failure::NewChatMissing)))
                }
            },
            NewThreadStage::Settling => {
                opening.stage = NewThreadStage::Starting;
                (opening, Action::StartVoice)
            },
            NewThreadStage::Starting => match reply {
                Err(error) => (opening, Action::Finish(Err(Failure::Outside(error)))),
                Ok(_) => (opening, Action::Finish(Ok(()))),
            },
        }
    }
}

/// A control for new conversations that does not show up in time is given up.
pub proof fn new_chat_is_given_up_in_time(
    opening: NewThread,
    session: BrowserSession,
    reply: Result<Answer, String>,
    now: u64,
)
    requires
        opening.stage is Pausing,
        latency::elapsed(now, opening.started_at) >= NEW_CHAT_TIMEOUT,
    ensures
        opening.after(session, reply, now).2 == Action::Finish(Err(Failure::NewChatMissing)),
{
}

/// How far going back to a conversation has got.
#[derive(Debug)]
pub enum ResumeStage {
    Listing,
    Navigating(ThreadSummary),
    Starting,
}

/// Going back to a conversation and starting Voice in it.
#[derive(Debug)]
pub struct ResumeThread {
    pub thread_id: String,
    pub stage: ResumeStage,
}

/// The first conversation in a list with this identifier.
pub open spec fn thread_with(threads: Seq<ThreadSummary>, id: Seq<char>) -> Option<ThreadSummary>
    decreases threads.len(),
{
    if threads.len() == 0 {
        None
    } else if threads[0].id@ == id {
        Some(threads[0])
    } else {
        thread_with(threads.skip(1), id)
    }
}

fn find_thread(threads: &Vec<ThreadSummary>, id: &str) -> (found: Option<ThreadSummary>)
    ensures
        found == thread_with(threads@, id@),
{
    let mut next: usize = 0;
    assert(threads@.skip(0) =~= threads@);
    while next < threads.len()
        invariant
            next <= threads@.len(),
            thread_with(threads@, id@) == thread_with(threads@.skip(next as int), id@),
        decreases threads@.len() - next,
    {
        assert(threads@.skip(next as int)[0] == threads@[next as int]);
        assert(threads@.skip(next as int).skip(1) =~= threads@.skip(next as int + 1));
        if text::same(threads[next].id.as_str(), id) {
            return Some(threads[next].copy());
        }
        next = next + 1;
    }
    None
}

impl ResumeThread {
    /// Begins with the list of conversations.
    pub fn begin(thread_id: String) -> (begun: (Self, Action))
        ensures
            begun.0 == (ResumeThread { thread_id, stage: ResumeStage::Listing }),
            begun.1 == Action::ReadThreads,
    {
        (ResumeThread { thread_id, stage: ResumeStage::Listing }, Action::ReadThreads)
    }

    /// The step after a reply.
    pub open spec fn after(self, session: BrowserSession, reply: Result<Answer, String>) -> (
        ResumeThread,
        BrowserSession,
        Action,
    ) {
        match reply {
            Err(error) => (self, session, flow::failed(error)),
            Ok(answer) => match self.stage {
                ResumeStage::Listing => {
                    let found = match answer {
                        Answer::Threads(list) => match list.threads {
                            Ok(threads) => thread_with(threads@, self.thread_id@),
                            Err(_) => None,
                        },
                        _ => None,
                    };
                    match found {
                        Some(thread) => (
                            ResumeThread { stage: ResumeStage::Navigating(thread), ..self },
                            session,
                            Action::Navigate(thread.url),
                        ),
                        None => (self, session, Action::Finish(Err(Failure::ThreadMissing))),
                    }
                },
                ResumeStage::Navigating(thread) => (
                    ResumeThread { stage: ResumeStage::Starting, ..self },
                    BrowserSession {
                        status: BrowserStatus { active_thread: Some(thread), ..session.status },
                        ..session
                    },
                    Action::StartVoice,
                ),
                ResumeStage::Starting => (self, session, flow::succeeded()),
            },
        }
    }

    /// Goes on with going back to the conversation.
    pub fn next(self, session: &mut BrowserSession, reply: Result<Answer, String>) -> (continued: (
        Self,
        Action,
    ))
        ensures
            (continued.0, *final(session), continued.1) == self.after(*old(session), reply),
    {
        let answer = match reply {
            Err(error) => {
                return (self, Action::Finish(Err(Failure::Outside(error))));
            },
            Ok(answer) => answer,
        };
        match self.stage {
            ResumeStage::Listing => {
                let found = match &answer {
                    Answer::Threads(list) => match &list.threads {
                        Ok(threads) => find_thread(threads, self.thread_id.as_str()),
                        Err(_) => None,
                    },
                    _ => None,
                };
                match found {
                    Some(thread) => {
                        let url = thread.url.clone();
                        (
                            ResumeThread {
                                thread_id: self.thread_id,
                                stage: ResumeStage::Navigating(thread),
                            },
                            Action::Navigate(url),
                        )
                    },
                    None => (
                        ResumeThread { thread_id: self.thread_id, stage: ResumeStage::Listing },
                        Action::Finish(Err(Failure::ThreadMissing)),
                    ),
                }
            },
            ResumeStage::Navigating(thread) => {
                session.status.active_thread = Some(thread);
                (
                    ResumeThread { thread_id: self.thread_id, stage: ResumeStage::Starting },
                    Action::StartVoice,
                )
            },
            ResumeStage::Starting => (
                ResumeThread { thread_id: self.thread_id, stage: ResumeStage::Starting },
                Action::Finish(Ok(())),
            ),
        }
    }
}

/// Going back only ever leads to the conversation that was asked for: the page goes to its
/// address, and it becomes the active one when the page is there.
pub proof fn resumed_thread_is_the_requested_one(
    resume: ResumeThread,
    session: BrowserSession,
    reply: Result<Answer, String>,
)
    requires
        resume.stage is Listing,
        resume.after(session, reply).2 is Navigate,
    ensures
        ({
            let (going, unchanged, action) = resume.after(session, reply);
            &&& going.stage matches ResumeStage::Navigating(thread) && thread.id@
                == resume.thread_id@ && action == Action::Navigate(thread.url)
            &&& unchanged == session
        }),
{
    if let Ok(Answer::Threads(list)) = reply {
        if let Ok(threads) = list.threads {
            lemma_thread_with(threads@, resume.thread_id@);
        }
    }
}

proof fn lemma_thread_with(threads: Seq<ThreadSummary>, id: Seq<char>)
    ensures
        thread_with(threads, id) matches Some(thread) ==> thread.id@ == id,
    decreases threads.len(),
{
    if threads.len() > 0 && threads[0].id@ != id {
        lemma_thread_with(threads.skip(1), id);
    }
}

// ---------------------------------------------------------------------------
// What the flows are for
// ---------------------------------------------------------------------------

/// A page that is ready has loaded: going to an address ends 100 ms later, and a page that was
/// loaded again gets its audio bridge back after 500 ms, is looked at, and then counts as loaded.
pub proof fn ready_page_has_loaded(
    load: PageLoad,
    session: BrowserSession,
    word: String,
    answers: (Answer, Answer),
    waits: (Result<Answer, String>, Result<Answer, String>),
    error: String,
    times: (u64, u64, u64, u64, u64),
)
    requires
        load.stage is Calling,
        word@ == "complete"@ || word@ == "interactive"@,
    ensures
        ({
            let (checking, kept, check) = load.after(session, Ok(answers.0), times.0);
            let (settling, kept, settle) = checking.after(kept, Ok(Answer::Word(word)), times.1);
            let (third, after, action) = settling.after(kept, waits.0, times.2);
            let (fourth, looked, look) = if session.media {
                third.after(after, waits.1, times.3)
            } else {
                (third, after, action)
            };
            &&& check == Action::Evaluate(Script::ReadyState)
            &&& checking.started_at == times.0
            &&& kept == session
            &&& !load.reload ==> settle == Action::Wait(100) && action == Action::Finish(Ok(()))
                && after == session
            &&& load.reload ==> {
                &&& settle == Action::Wait(500)
                &&& session.media ==> action == Action::Evaluate(Script::Bridge)
                &&& look == Action::Refresh
                &&& looked == (BrowserSession { options_fetched_at: None, ..session })
                &&& fourth.after(looked, Ok(answers.1), times.4).2 == Action::Finish(Ok(()))
                &&& fourth.after(looked, Err(error), times.4).2 == Action::Finish(
                    Err(Failure::Outside(error)),
                )
            }
        }),
{
}

/// A page that is not ready yet is asked again after 100 ms, for thirty seconds; then loading has
/// failed. A question that fails counts as not ready.
pub proof fn loading_page_is_asked_again(
    load: PageLoad,
    session: BrowserSession,
    reply: Result<Answer, String>,
    waited: Result<Answer, String>,
    times: (u64, u64),
)
    requires
        load.stage is Checking,
        !(reply matches Ok(Answer::Word(word)) && (word@ == "complete"@ || word@
            == "interactive"@)),
    ensures
        ({
            let (pausing, kept, pause) = load.after(session, reply, times.0);
            let (next, after, action) = pausing.after(kept, waited, times.1);
            &&& pause == Action::Wait(100)
            &&& after == session
            &&& times.1 < load.started_at + 30_000_000_000 ==> action == Action::Evaluate(
                Script::ReadyState,
            ) && next == load
            &&& times.1 >= load.started_at + 30_000_000_000 ==> action == Action::Finish(
                Err(
                    if load.reload {
                        Failure::PageNotRefreshed
                    } else {
                        Failure::PageNotLoaded
                    },
                ),
            )
        }),
{
}

/// Loading begins with the command for it, and fails where the page is not under control.
pub proof fn loading_begins_with_its_command(url: String, session: BrowserSession)
    ensures
        session.controlled ==> PageLoad::first(false, url, session) == Action::Call(
            Command::Navigate(url),
        ) && PageLoad::first(true, url, session) == Action::Call(Command::Reload),
        !session.controlled ==> PageLoad::first(false, url, session) == Action::Finish(
            Err(Failure::NotConnected),
        ) && PageLoad::first(true, url, session) == Action::Finish(Err(Failure::NotRunning)),
{
}

/// Conversations that the page shows at once are what the search gives.
pub proof fn shown_threads_are_given(
    search: RecentThreads,
    threads: Vec<ThreadSummary>,
    error: String,
    now: u64,
)
    requires
        search.stage is Reading || search.stage is Polling,
    ensures
        search.after(
            Ok(Answer::Threads(ThreadReply { found: true, threads: Ok(threads) })),
            now,
        ).1 == Action::FinishThreads(Ok(threads)),
        search.after(
            Ok(Answer::Threads(ThreadReply { found: true, threads: Err(error) })),
            now,
        ).1 == Action::FinishThreads(Err(Failure::ThreadsUnreadable(error))),
        search.after(Err(error), now).1 == Action::FinishThreads(Err(Failure::Outside(error))),
{
}

/// Where no conversations are visible, the sidebar is opened and the page is read again every
/// 75 ms, for three seconds from the first of these readings.
pub proof fn hidden_threads_are_looked_for(
    search: RecentThreads,
    empty: ThreadReply,
    opened: Answer,
    waits: (Result<Answer, String>, Result<Answer, String>),
    still_empty: ThreadReply,
    times: (u64, u64, u64, u64, u64),
)
    requires
        search.stage is Reading,
        !empty.found,
        !still_empty.found,
    ensures
        ({
            let (opening, open) = search.after(Ok(Answer::Threads(empty)), times.0);
            let (settling, settle) = opening.after(Ok(opened), times.1);
            let (polling, read) = settling.after(waits.0, times.2);
            let (pausing, pause) = polling.after(Ok(Answer::Threads(still_empty)), times.3);
            let (next, action) = pausing.after(waits.1, times.4);
            &&& open == Action::Evaluate(Script::OpenSidebar)
            &&& settle == Action::Wait(120)
            &&& read == Action::Evaluate(Script::ReadThreads)
            &&& pause == Action::Wait(75)
            &&& times.4 < times.2 + 3_000_000_000 ==> action == Action::Evaluate(
                Script::ReadThreads,
            ) && next.stage is Polling && next.started_at == times.2
            &&& times.4 >= times.2 + 3_000_000_000 ==> match still_empty.threads {
                Ok(threads) => action == Action::FinishThreads(Ok(threads)),
                Err(error) => action == Action::FinishThreads(
                    Err(Failure::ThreadsUnreadable(error)),
                ),
            }
        }),
{
}

/// A new conversation is opened from the home page: after 500 ms the control for it is clicked, a
/// click that counted (or a page that is ready for a new conversation) forgets the active one, and
/// 800 ms later Voice starts, with whose outcome the flow ends.
pub proof fn new_conversation_is_opened(
    opening: NewThread,
    session: BrowserSession,
    reply: Answer,
    answers: (Answer, Answer),
    waits: (Result<Answer, String>, Result<Answer, String>),
    error: String,
    times: (u64, u64, u64, u64, u64),
)
    requires
        opening.stage is Navigating,
        session.controlled,
        reply == Answer::Flag(true) || (reply matches Answer::Word(word) && word@ == "ready"@),
    ensures
        ({
            let (arriving, kept, wait) = opening.after(session, Ok(answers.0), times.0);
            let (clicking, kept, click) = arriving.after(kept, waits.0, times.1);
            let (settling, opened, settle) = clicking.after(kept, Ok(reply), times.2);
            let (starting, after, start) = settling.after(opened, waits.1, times.3);
            &&& wait == Action::Wait(500)
            &&& click == Action::Evaluate(Script::NewChat)
            &&& kept == session
            &&& settle == Action::Wait(800)
            &&& settling.stage is Settling
            &&& opened.status.active_thread is None
            &&& opened.recent_threads_fetched_at is None
            &&& start == Action::StartVoice
            &&& after == opened
            &&& starting.after(after, Ok(answers.1), times.4).2 == Action::Finish(Ok(()))
            &&& starting.after(after, Err(error), times.4).2 == Action::Finish(
                Err(Failure::Outside(error)),
            )
        }),
{
}

/// A click that did not count is made again, for eight seconds from the first one: 350 ms after
/// the sidebar was opened for it, and otherwise after 200 ms. The active conversation stays.
pub proof fn new_conversation_is_tried_again(
    opening: NewThread,
    session: BrowserSession,
    reply: Answer,
    waited: Result<Answer, String>,
    times: (u64, u64),
)
    requires
        opening.stage is Clicking,
        reply != Answer::Flag(true),
        !(reply matches Answer::Word(word) && word@ == "ready"@),
    ensures
        ({
            let (pausing, kept, pause) = opening.after(session, Ok(reply), times.0);
            let (next, after, action) = pausing.after(kept, waited, times.1);
            let sidebar = reply matches Answer::Word(word) && word@ == "sidebar"@;
            &&& pause == Action::Wait(
                if sidebar {
                    350
                } else {
                    200
                },
            )
            &&& after == session
            &&& times.1 < opening.started_at + 8_000_000_000 ==> action == Action::Evaluate(
                Script::NewChat,
            ) && next == opening
            &&& times.1 >= opening.started_at + 8_000_000_000 ==> action == Action::Finish(
                Err(Failure::NewChatMissing),
            )
        }),
{
}

/// A new conversation is not opened without control of the page, and an error is passed on.
pub proof fn new_conversation_needs_control(
    opening: NewThread,
    session: BrowserSession,
    reply: Result<Answer, String>,
    error: String,
    now: u64,
)
    ensures
        opening.stage is Arriving && !session.controlled ==> opening.after(session, reply, now).2
            == Action::Finish(Err(Failure::NotRunning)),
        opening.stage is Navigating || opening.stage is Clicking ==> opening.after(
            session,
            Err(error),
            now,
        ).2 == Action::Finish(Err(Failure::Outside(error))),
        opening.stage is Clicking ==> opening.after(session, Err(error), now).1 == session,
{
}

proof fn lemma_listed_thread(threads: Seq<ThreadSummary>, id: Seq<char>, at: int)
    requires
        0 <= at < threads.len(),
        threads[at].id@ == id,
        forall|i: int| 0 <= i < at ==> (#[trigger] threads[i]).id@ != id,
    ensures
        thread_with(threads, id) == Some(threads[at]),
    decreases threads.len(),
{
    if at > 0 {
        assert(threads[0].id@ != id);
        assert(threads.skip(1)[at - 1] == threads[at]);
        assert forall|i: int| 0 <= i < at - 1 implies (#[trigger] threads.skip(1)[i]).id@ != id by {
            assert(threads.skip(1)[i] == threads[i + 1]);
        }
        lemma_listed_thread(threads.skip(1), id, at - 1);
    }
}

proof fn lemma_missing_thread(threads: Seq<ThreadSummary>, id: Seq<char>)
    requires
        forall|i: int| 0 <= i < threads.len() ==> (#[trigger] threads[i]).id@ != id,
    ensures
        thread_with(threads, id) is None,
    decreases threads.len(),
{
    if threads.len() > 0 {
        assert(threads[0].id@ != id);
        assert forall|i: int| 0 <= i < threads.skip(1).len() implies (
        #[trigger] threads.skip(1)[i]).id@ != id by {
            assert(threads.skip(1)[i] == threads[i + 1]);
        }
        lemma_missing_thread(threads.skip(1), id);
    }
}

/// A conversation on the list is gone back to: the page goes to its address, it becomes the active
/// one, and Voice starts, with whose outcome the flow ends.
pub proof fn listed_conversation_is_resumed(
    resume: ResumeThread,
    session: BrowserSession,
    found: bool,
    threads: Vec<ThreadSummary>,
    at: int,
    answers: (Answer, Answer),
    error: String,
)
    requires
        resume.stage is Listing,
        0 <= at < threads@.len(),
        threads@[at].id@ == resume.thread_id@,
        forall|i: int| 0 <= i < at ==> (#[trigger] threads@[i]).id@ != resume.thread_id@,
    ensures
        ({
            let list = Answer::Threads(ThreadReply { found, threads: Ok(threads) });
            let (going, kept, go) = resume.after(session, Ok(list));
            let (starting, arrived, start) = going.after(kept, Ok(answers.0));
            &&& go == Action::Navigate(threads@[at].url)
            &&& kept == session
            &&& start == Action::StartVoice
            &&& arrived.status.active_thread == Some(threads@[at])
            &&& starting.after(arrived, Ok(answers.1)).2 == Action::Finish(Ok(()))
            &&& starting.after(arrived, Err(error)).2 == Action::Finish(
                Err(Failure::Outside(error)),
            )
            &&& going.after(kept, Err(error)).2 == Action::Finish(Err(Failure::Outside(error)))
            &&& going.after(kept, Err(error)).1 == session
        }),
{
    lemma_listed_thread(threads@, resume.thread_id@, at);
}

/// A conversation that is not on the list is not gone back to.
pub proof fn missing_conversation_is_refused(
    resume: ResumeThread,
    session: BrowserSession,
    found: bool,
    threads: Vec<ThreadSummary>,
    error: String,
)
    requires
        resume.stage is Listing,
        forall|i: int| 0 <= i < threads@.len() ==> (#[trigger] threads@[i]).id@
            != resume.thread_id@,
    ensures
        ({
            let list = Answer::Threads(ThreadReply { found, threads: Ok(threads) });
            &&& resume.after(session, Ok(list)).2 == Action::Finish(Err(Failure::ThreadMissing))
            &&& resume.after(session, Ok(list)).1 == session
            &&& resume.after(session, Err(error)).2 == Action::Finish(
                Err(Failure::Outside(error)),
            )
        }),
{
    lemma_missing_thread(threads@, resume.thread_id@);
}

/// Different conversations are listed as the page shows them, up to five.
pub proof fn different_conversations_are_listed(threads: Seq<ThreadSummary>)
    requires
        forall|i: int, j: int|
            0 <= i < j < threads.len() ==> (#[trigger] threads[i]).id@ != (
            #[trigger] threads[j]).id@,
    ensures
        listed_once(threads) == threads,
        threads.len() <= 5 ==> recent(threads) == threads,
        threads.len() > 5 ==> recent(threads) == threads.take(5),
    decreases threads.len(),
{
    if threads.len() > 0 {
        let front = threads.drop_last();
        assert forall|i: int, j: int| 0 <= i < j < front.len() implies (#[trigger] front[i]).id@
            != (#[trigger] front[j]).id@ by {
            assert(front[i] == threads[i] && front[j] == threads[j]);
        }
        different_conversations_are_listed(front);
        assert forall|i: int| 0 <= i < front.len() implies (#[trigger] front[i]).id@
            != threads.last().id@ by {
            assert(front[i] == threads[i]);
            assert(threads.last() == threads[threads.len() - 1]);
        }
        assert(front.push(threads.last()) =~= threads);
    }
}

/// A conversation that the page shows twice is listed once, where it stands first.
pub proof fn repeated_conversation_is_listed_once(
    threads: Seq<ThreadSummary>,
    repeated: ThreadSummary,
    at: int,
)
    requires
        forall|i: int, j: int|
            0 <= i < j < threads.len() ==> (#[trigger] threads[i]).id@ != (
            #[trigger] threads[j]).id@,
        0 <= at < threads.len(),
        threads[at].id@ == repeated.id@,
    ensures
        recent(threads.push(repeated)) == recent(threads),
{
    different_conversations_are_listed(threads);
    assert(threads.push(repeated).drop_last() =~= threads);
}

} // verus!
