use gptvoice::browser::{
    is_utility_window, media_signal, set_process_windows_visible, voice_description,
    BrowserSession, BrowserStatus, MediaSignal, PageMediaState, PageState, ThreadSummary,
    VoiceOption, VoiceSettingOptions, VoiceWatch, WindowInfo,
};
use gptvoice::config::{default_environment, snapshot_from_environment, AudioNumbers, ConfigSnapshot};
use gptvoice::control::{
    evaluate, evaluation, read_control_reply, CdpClient, CONNECTION_CLOSED, EVALUATE,
};
use gptvoice::flow::{
    read_answer, Action, Answer, Command, Direction, MouseStep, Script, ThreadReply,
};
use gptvoice::ieee::Binary64;
use gptvoice::json::is_nonempty_list;
use gptvoice::launch::{
    CdpTarget, ControlAction, ControlReply, ControlWait, Launch, LaunchAction, LaunchAnswer,
    LaunchStep, StatusProbe,
};
use gptvoice::runtime::{
    browser_candidate, control_url, find_browser_executable, launch_browser, BrowserPlace,
    BrowserRuntime, InstallBase, SetVisibility, CANDIDATES,
};
use gptvoice::settings::{SetRow, SetVoice};
use gptvoice::threads::{most_recent, NewThread, PageLoad, RecentThreads, ResumeThread};
use gptvoice::transport::BrowserMediaDiagnostics;
use gptvoice::visit::{
    new_thread, resume_thread, Visit, VisitAction, VisitEnd, VisitReply, VisitStep, NO_TRANSPORT,
};
use gptvoice::voice::{
    ActivateVoice, EnsureMicrophone, Prefetch, ReconnectVoice, SetMicrophone, SettingsDialog,
    StartVoice,
};
use serde_json::Value;

const GUILD: &str = "964597969980620820";
const SECOND: u64 = 1_000_000_000;

fn config() -> ConfigSnapshot {
    let number = Binary64 { bits: 1.0_f64.to_bits() };
    let numbers = AudioNumbers {
        input_volume: number,
        output_volume: number,
        earcon_volume: number,
        sample_rate: number,
        channels: number,
    };
    let mut environment = default_environment("profile");
    environment.insert("DISCORD_GUILD_ID".to_owned(), Value::String(format!(" {GUILD} ")));
    snapshot_from_environment("dir/config.json", "dir", "profile", &environment, &numbers)
}

fn session() -> BrowserSession {
    BrowserSession::new(GUILD, &config())
}

fn running() -> BrowserSession {
    let mut session = session();
    session.controlled = true;
    session.media = true;
    session.child = Some(7);
    session.browser_process_id = Some(7);
    session
}

fn page() -> PageState {
    PageState {
        url: "https://chatgpt.com/".to_owned(),
        title: "ChatGPT".to_owned(),
        logged_in: true,
        voice_control_visible: true,
        voice_mode_active: false,
        voice_settings_open: false,
        voice: None,
        voice_description: None,
        intelligence: None,
        language: None,
        chatgpt_mic_muted: None,
        microphone_permission_required: false,
        voice_limit_reached: false,
        voice_limit_reset: None,
    }
}

const SILENT: MediaSignal = MediaSignal { available: true, track_count: 0 };

fn voice(value: &str, description: Option<&str>) -> VoiceOption {
    VoiceOption {
        value: value.to_owned(),
        label: value.to_uppercase(),
        description: description.map(str::to_owned),
    }
}

fn thread(id: &str) -> ThreadSummary {
    ThreadSummary {
        id: id.to_owned(),
        title: format!("Title {id}"),
        url: format!("https://chatgpt.com/c/{id}"),
    }
}

fn options(voices: Vec<VoiceOption>) -> VoiceSettingOptions {
    VoiceSettingOptions {
        voices,
        intelligence: vec![],
        languages: vec!["English".to_owned()],
        current_voice: Some("cove".to_owned()),
        current_voice_description: None,
    }
}

fn point() -> Answer {
    Answer::Point("12.5".to_owned(), "40".to_owned())
}

fn json(source: &str) -> Value {
    serde_json::from_str(source).expect("valid JSON")
}

#[test]
fn sign_in_required_status_exposes_onboarding_state() {
    let status = BrowserStatus::sign_in_required("964597969980620820");
    assert!(status.open);
    assert!(!status.logged_in);
    assert!(status.auth_required);
    assert_eq!(
        status.error.as_deref(),
        Some("Sign in to ChatGPT in the dedicated GPTVoice browser window.")
    );
}

#[test]
fn a_look_at_the_page_fills_the_status() {
    let mut session = running();
    session.cdp_status_failures = 2;
    session.cdp_restarts = 4;
    session.status.available_voices = vec![voice("Cove", Some("Listed"))];
    session.status.language = Some("English".to_owned());
    session.status.intelligence = Some("High".to_owned());
    let mut page = page();
    page.voice = Some("cove".to_owned());
    page.voice_mode_active = true;
    page.chatgpt_mic_muted = Some(true);
    let mut diagnostics = BrowserMediaDiagnostics::unattached();
    diagnostics.packets_sent = 11;
    diagnostics.output_track_count = 1;
    let signal = MediaSignal { available: true, track_count: 3 };
    let hide = session.refresh_status(page, signal, Some(diagnostics), 5);
    assert!(hide);
    let status = &session.status;
    assert!(status.open && status.logged_in && !status.auth_required && status.voice_mode_active);
    assert_eq!(status.url.as_deref(), Some("https://chatgpt.com/"));
    assert_eq!(status.voice.as_deref(), Some("cove"));
    assert_eq!(status.voice_description.as_deref(), Some("Listed"));
    assert_eq!(status.language.as_deref(), Some("English"));
    assert_eq!(status.intelligence.as_deref(), Some("High"));
    assert_eq!(status.chatgpt_mic_muted, Some(true));
    assert_eq!(status.media.packets_sent, 11);
    assert_eq!(status.media.output_track_count, 3);
    assert_eq!((status.cdp_status_failures, status.cdp_restarts), (0, 4));
    assert_eq!(status.browser_process_id, Some(7));
    assert_eq!(session.last_status_refresh_at, Some(5));
    session.window_changed(true, 0);
    assert!(!session.status.window_hidden);
    session.window_changed(true, 2);
    assert!(session.status.window_hidden);
    session.options_fetched_at = Some(1);
    assert!(!session.refresh_status(self::page(), SILENT, None, 6));
    assert_eq!(session.status.intelligence, None);
    assert_eq!(session.status.voice.as_deref(), Some("cove"));
}

#[test]
fn the_window_is_hidden_only_by_itself() {
    let mut session = running();
    session.manual_visibility_override = Some(false);
    assert!(!session.refresh_status(page(), SILENT, None, 1));
    session.manual_visibility_override = None;
    session.visibility_hold = true;
    assert!(!session.refresh_status(page(), SILENT, None, 2));
    session.visibility_hold = false;
    assert!(session.refresh_status(page(), SILENT, None, 3));
    let mut signed_out = page();
    signed_out.logged_in = false;
    assert!(!session.refresh_status(signed_out, SILENT, None, 4));
    assert!(session.status.auth_required);
}

#[test]
fn voice_ends_after_two_inactive_looks() {
    let mut watch = VoiceWatch {
        active: true,
        inactive_checks: 0,
        media_seen: false,
        media_missing_checks: 0,
    };
    watch.check(false, false, false);
    assert!(watch.active);
    watch.check(false, false, true);
    assert!(watch.active && watch.inactive_checks == 0);
    watch.check(false, false, false);
    assert!(watch.active);
    watch.check(false, false, false);
    assert!(!watch.active);
}

#[test]
fn voice_ends_after_three_silent_looks() {
    let mut watch = VoiceWatch {
        active: false,
        inactive_checks: 0,
        media_seen: false,
        media_missing_checks: 0,
    };
    watch.check(false, true, false);
    assert!(watch.active && watch.media_seen);
    watch.check(true, false, false);
    watch.check(true, false, false);
    assert!(watch.active);
    watch.check(true, false, false);
    assert!(!watch.active && !watch.media_seen);
}

#[test]
fn the_bridge_in_the_page_counts_first() {
    let page = |installed| Some(PageMediaState { installed, output_track_count: 2 });
    let signal = media_signal(page(true), false, 0);
    assert!(signal.available && signal.track_count == 2);
    let signal = media_signal(page(false), true, 5);
    assert!(signal.available && signal.track_count == 5);
    let signal = media_signal(None, false, 5);
    assert!(!signal.available && signal.track_count == 5);
}

#[test]
fn voices_are_described() {
    for (name, description) in [
        ("arbor", "Easygoing and versatile"),
        ("Breeze", "Animated and earnest"),
        ("COVE", "Composed and direct"),
        ("ember", "Confident and optimistic"),
        ("juniper", "Open and upbeat"),
        ("maple", "Cheerful and candid"),
        ("sol", "Savvy and relaxed"),
        ("spruce", "Calm and affirming"),
        ("vale", "Bright and inquisitive"),
        ("other", ""),
    ] {
        assert_eq!(voice_description(name), description);
    }
    let mut session = running();
    session.describe_voice("Sol");
    assert_eq!(session.status.voice_description.as_deref(), Some("Savvy and relaxed"));
    session.describe_voice("unknown");
    assert_eq!(session.status.voice_description, None);
}

#[test]
fn a_stopped_session_is_closed() {
    let mut session = running();
    session.refresh_status(page(), SILENT, None, 1);
    session.cdp_restarts = 3;
    assert_eq!(session.set_window_hidden(), Some(7));
    assert!(session.process_running(Some(false)));
    assert!(!session.process_running(Some(true)));
    assert!(session.process_running(None));
    assert_eq!(session.stop(), Some(7));
    assert!(!session.controlled && !session.media && !session.status.open);
    assert_eq!(session.status.guild_id, GUILD);
    assert_eq!(session.status.cdp_restarts, 3);
    assert_eq!(session.stop(), None);
    session.browser_process_id = Some(9);
    assert_eq!(session.stop(), Some(9));
}

#[test]
fn windows_of_the_process_are_planned() {
    let windows = vec![
        WindowInfo { process_id: 1, title: "Other".to_owned() },
        WindowInfo { process_id: 7, title: "Default IME".to_owned() },
        WindowInfo { process_id: 7, title: "ChatGPT".to_owned() },
        WindowInfo { process_id: 7, title: "More".to_owned() },
    ];
    let plan = set_process_windows_visible(&windows, 7, true);
    assert_eq!((plan.targets, plan.activate, plan.changed), (vec![1, 2, 3], Some(2), 3));
    let plan = set_process_windows_visible(&windows, 7, false);
    assert_eq!((plan.targets, plan.activate, plan.changed), (vec![1, 2, 3], None, 3));
    assert_eq!(set_process_windows_visible(&windows, 8, true).changed, 0);
    assert_eq!(set_process_windows_visible(&vec![], 7, true).changed, 0);
    assert!(is_utility_window(""));
    assert!(is_utility_window("RESTORE PAGES?"));
    assert!(is_utility_window("xMSCTFIME UI"));
    assert!(!is_utility_window("ChatGPT"));
}

#[test]
fn replies_of_the_browser_are_read() {
    let (id, result) = read_control_reply(&json("{\"id\":3,\"result\":{\"a\":1}}")).expect("reply");
    assert_eq!((id, result), (3, Ok(json("{\"a\":1}"))));
    let (_, result) =
        read_control_reply(&json("{\"id\":4,\"error\":{\"code\":-1}}")).expect("reply");
    assert_eq!(result, Err("{\"code\":-1}".to_owned()));
    let (_, result) = read_control_reply(&json("{\"id\":5}")).expect("reply");
    assert_eq!(result, Ok(Value::Null));
    assert!(read_control_reply(&json("{\"method\":\"x\"}")).is_none());
    assert!(read_control_reply(&json("{\"id\":-1}")).is_none());
    assert!(read_control_reply(&json("{\"id\":1.5}")).is_none());
    assert!(read_control_reply(&json("[1]")).is_none());
    assert_eq!(
        evaluate(&json("{\"result\":{\"value\":\"complete\"}}")),
        Ok(json("\"complete\""))
    );
    assert_eq!(evaluate(&json("{\"result\":{}}")), Ok(Value::Null));
    assert_eq!(evaluate(&json("{}")), Ok(Value::Null));
    assert_eq!(
        evaluate(&json("{\"exceptionDetails\":{\"text\":\"x\"}}")),
        Err("Browser page evaluation failed: {\"text\":\"x\"}".to_owned())
    );
    assert!(matches!(read_answer(&json("true")), Answer::Flag(true)));
    assert!(matches!(read_answer(&json("\"ready\"")), Answer::Word(word) if word == "ready"));
    assert!(matches!(
        read_answer(&json("{\"x\":1,\"y\":2.5}")),
        Answer::Point(x, y) if x == "1.0" && y == "2.5"
    ));
    assert!(matches!(
        read_answer(&json("{\"x\":-3,\"y\":9007199254740993}")),
        Answer::Point(x, y) if x == "-3.0" && y == "9007199254740992.0"
    ));
    assert!(matches!(read_answer(&json("{\"x\":1,\"y\":\"2\"}")), Answer::Other));
    assert!(matches!(read_answer(&json("null")), Answer::Other));
    assert!(is_nonempty_list(&json("[0]")));
    assert!(!is_nonempty_list(&json("[]")));
    assert!(!is_nonempty_list(&json("{}")));
}

fn ended(action: &Action, session: &BrowserSession) -> Option<Result<(), String>> {
    match action {
        Action::Finish(Ok(())) => Some(Ok(())),
        Action::Finish(Err(failure)) => {
            Some(Err(failure.explain(&session.status.available_voices)))
        }
        _ => None,
    }
}

#[test]
fn a_page_loads_when_it_is_ready() {
    let mut session = running();
    let (load, action) = PageLoad::navigate("u".to_owned(), &session);
    assert_eq!(format!("{action:?}"), "Call(Navigate(\"u\"))");
    let (load, action) = load.next(&mut session, Ok(Answer::Nothing), SECOND);
    assert!(matches!(action, Action::Evaluate(Script::ReadyState)));
    let (load, action) = load.next(&mut session, Err("busy".to_owned()), SECOND);
    assert!(matches!(action, Action::Wait(100)));
    let (load, action) = load.next(&mut session, Ok(Answer::Nothing), 2 * SECOND);
    assert!(matches!(action, Action::Evaluate(Script::ReadyState)));
    let (load, action) =
        load.next(&mut session, Ok(Answer::Word("interactive".to_owned())), 2 * SECOND);
    assert!(matches!(action, Action::Wait(100)));
    let (_, action) = load.next(&mut session, Ok(Answer::Nothing), 3 * SECOND);
    assert_eq!(ended(&action, &session), Some(Ok(())));
}

#[test]
fn a_page_that_never_loads_is_given_up() {
    let mut session = running();
    let (load, _) = PageLoad::reload_page(&session);
    let (load, _) = load.next(&mut session, Ok(Answer::Nothing), 0);
    let (load, _) = load.next(&mut session, Ok(Answer::Word("loading".to_owned())), 0);
    let (_, action) = load.next(&mut session, Ok(Answer::Nothing), 30 * SECOND);
    assert_eq!(
        ended(&action, &session),
        Some(Err("ChatGPT page did not finish refreshing in time".to_owned()))
    );
    session.controlled = false;
    assert_eq!(
        ended(&PageLoad::navigate("u".to_owned(), &session).1, &session),
        Some(Err("Browser CDP is not connected".to_owned()))
    );
    assert_eq!(
        ended(&PageLoad::reload_page(&session).1, &session),
        Some(Err("Browser is not running".to_owned()))
    );
}

#[test]
fn a_reloaded_page_forgets_its_options() {
    let mut session = running();
    session.options_fetched_at = Some(1);
    let (load, action) = PageLoad::reload_page(&session);
    assert_eq!(format!("{action:?}"), "Call(Reload)");
    let (load, _) = load.next(&mut session, Ok(Answer::Nothing), 0);
    let (load, action) = load.next(&mut session, Ok(Answer::Word("complete".to_owned())), 0);
    assert!(matches!(action, Action::Wait(500)));
    let (load, action) = load.next(&mut session, Ok(Answer::Nothing), 0);
    assert!(matches!(action, Action::Evaluate(Script::Bridge)));
    let (load, action) = load.next(&mut session, Err("ignored".to_owned()), 0);
    assert!(matches!(action, Action::Refresh));
    assert_eq!(session.options_fetched_at, None);
    let (_, action) = load.next(&mut session, Err("lost".to_owned()), 0);
    assert_eq!(ended(&action, &session), Some(Err("lost".to_owned())));
}

fn list(found: bool, threads: Vec<ThreadSummary>) -> Result<Answer, String> {
    Ok(Answer::Threads(ThreadReply { found, threads: Ok(threads) }))
}

#[test]
fn threads_are_searched_in_the_sidebar() {
    let session = running();
    let (search, action) = RecentThreads::begin(&session);
    assert!(matches!(action, Action::Evaluate(Script::ReadThreads)));
    let (search, action) = search.next(list(false, vec![]), 0);
    assert!(matches!(action, Action::Evaluate(Script::OpenSidebar)));
    let (search, action) = search.next(Ok(Answer::Flag(false)), 0);
    assert!(matches!(action, Action::Wait(120)));
    let (search, action) = search.next(Ok(Answer::Nothing), 0);
    assert!(matches!(action, Action::Evaluate(Script::ReadThreads)));
    let (search, action) = search.next(list(false, vec![]), 0);
    assert!(matches!(action, Action::Wait(75)));
    let (search, action) = search.next(Ok(Answer::Nothing), SECOND);
    assert!(matches!(action, Action::Evaluate(Script::ReadThreads)));
    let (_, action) = search.next(list(true, vec![thread("a")]), SECOND);
    assert!(matches!(action, Action::FinishThreads(Ok(threads)) if threads[0].id == "a"));
}

#[test]
fn a_search_ends_with_what_was_read_last() {
    let session = running();
    let (search, _) = RecentThreads::begin(&session);
    let unreadable = Ok(Answer::Threads(ThreadReply {
        found: false,
        threads: Err("null".to_owned()),
    }));
    let (search, _) = search.next(unreadable, 0);
    let (search, _) = search.next(Ok(Answer::Nothing), 0);
    let (search, _) = search.next(Ok(Answer::Nothing), 0);
    let (search, _) = search.next(Ok(Answer::Other), 0);
    let (_, action) = search.next(Ok(Answer::Nothing), 3 * SECOND);
    match action {
        Action::FinishThreads(Err(failure)) => assert_eq!(
            failure.explain(&vec![]),
            "Could not read recent ChatGPT threads: null"
        ),
        other => panic!("unexpected action {other:?}"),
    }
    let (search, _) = RecentThreads::begin(&session);
    let (_, action) = search.next(Err("lost".to_owned()), 0);
    assert!(matches!(action, Action::FinishThreads(Err(_))));
    let mut idle = running();
    idle.controlled = false;
    assert!(matches!(RecentThreads::begin(&idle).1, Action::FinishThreads(Err(_))));
}

#[test]
fn a_new_thread_starts_voice() {
    let mut session = running();
    session.status.active_thread = Some(thread("a"));
    session.recent_threads_fetched_at = Some(1);
    let (flow, action) = NewThread::begin(&session);
    assert!(matches!(action, Action::Navigate(url) if url == "https://chatgpt.com/"));
    let (flow, action) = flow.next(&mut session, Ok(Answer::Nothing), 0);
    assert!(matches!(action, Action::Wait(500)));
    let (flow, action) = flow.next(&mut session, Ok(Answer::Nothing), 0);
    assert!(matches!(action, Action::Evaluate(Script::NewChat)));
    let (flow, action) = flow.next(&mut session, Ok(Answer::Word("sidebar".to_owned())), 0);
    assert!(matches!(action, Action::Wait(350)));
    let (flow, _) = flow.next(&mut session, Ok(Answer::Nothing), SECOND);
    let (flow, action) = flow.next(&mut session, Ok(Answer::Other), SECOND);
    assert!(matches!(action, Action::Wait(200)));
    let (flow, _) = flow.next(&mut session, Ok(Answer::Nothing), SECOND);
    assert!(session.status.active_thread.is_some());
    let (flow, action) = flow.next(&mut session, Ok(Answer::Word("ready".to_owned())), SECOND);
    assert!(matches!(action, Action::Wait(800)));
    assert!(session.status.active_thread.is_none());
    assert_eq!(session.recent_threads_fetched_at, None);
    let (flow, action) = flow.next(&mut session, Ok(Answer::Nothing), SECOND);
    assert!(matches!(action, Action::StartVoice));
    let (_, action) = flow.next(&mut session, Ok(Answer::Nothing), SECOND);
    assert_eq!(ended(&action, &session), Some(Ok(())));
}

#[test]
fn a_missing_control_for_new_threads_is_reported() {
    let mut session = running();
    let (flow, _) = NewThread::begin(&session);
    let (flow, _) = flow.next(&mut session, Ok(Answer::Nothing), 0);
    let (flow, _) = flow.next(&mut session, Ok(Answer::Nothing), 0);
    let (flow, _) = flow.next(&mut session, Ok(Answer::Flag(false)), 0);
    let (_, action) = flow.next(&mut session, Ok(Answer::Nothing), 8 * SECOND);
    let error = ended(&action, &session).expect("end").expect_err("failure");
    assert!(error.starts_with("ChatGPT's New chat control is not ready"));
}

#[test]
fn a_thread_is_resumed_by_its_identifier() {
    let mut session = running();
    let (flow, action) = ResumeThread::begin("b".to_owned());
    assert!(matches!(action, Action::ReadThreads));
    let (flow, action) = flow.next(&mut session, list(true, vec![thread("a"), thread("b")]));
    assert!(matches!(action, Action::Navigate(url) if url == "https://chatgpt.com/c/b"));
    assert!(session.status.active_thread.is_none());
    let (flow, action) = flow.next(&mut session, Ok(Answer::Nothing));
    assert!(matches!(action, Action::StartVoice));
    assert_eq!(session.status.active_thread.as_ref().map(|t| t.id.as_str()), Some("b"));
    let (_, action) = flow.next(&mut session, Ok(Answer::Nothing));
    assert_eq!(ended(&action, &session), Some(Ok(())));
    let (flow, _) = ResumeThread::begin("c".to_owned());
    let (_, action) = flow.next(&mut session, list(true, vec![thread("a")]));
    assert_eq!(
        ended(&action, &session),
        Some(Err("That ChatGPT thread is not visible in the recent list".to_owned()))
    );
}

#[test]
fn a_hidden_window_is_shown_while_voice_starts() {
    let mut session = running();
    session.status.window_hidden = true;
    let (mut flow, mut action) = StartVoice::begin(&mut session);
    assert!(session.visibility_hold);
    let mut seen: Vec<String> = Vec::new();
    while ended(&action, &session).is_none() {
        seen.push(format!("{action:?}"));
        let reply = match action {
            Action::Evaluate(Script::PageVisible) => Ok(Answer::Flag(true)),
            Action::ActivateVoice => Err("no voice".to_owned()),
            _ => Ok(Answer::Nothing),
        };
        let continued = flow.next(&mut session, reply, 0);
        flow = continued.0;
        action = continued.1;
    }
    assert_eq!(
        seen,
        vec![
            "SetWindow(false)",
            "Call(BringToFront)",
            "Call(KeepActive)",
            "Evaluate(PageVisible)",
            "Wait(700)",
            "ActivateVoice",
            "SetWindow(true)",
            "Call(KeepActive)",
            "Evaluate(RecoverOutput)"
        ]
    );
    assert!(!session.visibility_hold);
    assert_eq!(ended(&action, &session), Some(Err("no voice".to_owned())));
    session.status.window_hidden = false;
    let (flow, action) = StartVoice::begin(&mut session);
    assert!(matches!(action, Action::ActivateVoice));
    let (_, action) = flow.next(&mut session, Ok(Answer::Nothing), 0);
    assert_eq!(ended(&action, &session), Some(Ok(())));
}

#[test]
fn voice_is_activated_by_a_click() {
    let mut session = running();
    let (mut flow, mut action) = ActivateVoice::begin();
    let mut seen: Vec<String> = Vec::new();
    let mut looks = 0;
    while ended(&action, &session).is_none() {
        seen.push(format!("{action:?}"));
        let reply = match action {
            Action::Refresh => {
                looks += 1;
                session.status.voice_mode_active = looks > 2;
                Ok(Answer::Nothing)
            }
            Action::Evaluate(Script::VoicePoint) => Ok(point()),
            Action::PrefetchSettings => Err("ignored".to_owned()),
            _ => Ok(Answer::Nothing),
        };
        let continued = flow.next(&session, reply, 0);
        flow = continued.0;
        action = continued.1;
    }
    assert_eq!(ended(&action, &session), Some(Ok(())));
    assert_eq!(
        seen,
        vec![
            "Refresh",
            "Evaluate(VoicePoint)",
            "Call(Mouse(Move, \"12.5\", \"40\"))",
            "Call(Mouse(Press, \"12.5\", \"40\"))",
            "Call(Mouse(Release, \"12.5\", \"40\"))",
            "Refresh",
            "Wait(250)",
            "Refresh",
            "Wait(500)",
            "PrefetchSettings",
            "EnsureMicrophone",
            "Evaluate(RecoverOutput)"
        ]
    );
}

#[test]
fn voice_that_does_not_start_is_reported() {
    let session = running();
    let (flow, _) = ActivateVoice::begin();
    let (flow, _) = flow.next(&session, Ok(Answer::Nothing), 0);
    let (flow, action) = flow.next(&session, Ok(Answer::Other), 0);
    assert!(matches!(action, Action::Wait(250)));
    let (_, action) = flow.next(&session, Ok(Answer::Nothing), 20 * SECOND);
    assert!(ended(&action, &session)
        .expect("end")
        .expect_err("failure")
        .starts_with("ChatGPT's Voice control is not visible."));

    let mut flow = ActivateVoice::begin().0;
    for reply in [Answer::Nothing, point(), Answer::Nothing, Answer::Nothing, Answer::Nothing] {
        flow = flow.next(&session, Ok(reply), 0).0;
    }
    let (flow, action) = flow.next(&session, Ok(Answer::Nothing), 0);
    assert!(matches!(action, Action::Wait(250)));
    let (flow, action) = flow.next(&session, Ok(Answer::Nothing), 15 * SECOND);
    assert!(matches!(action, Action::Refresh));
    let (_, action) = flow.next(&session, Ok(Answer::Nothing), 15 * SECOND);
    assert!(ended(&action, &session)
        .expect("end")
        .expect_err("failure")
        .starts_with("ChatGPT Voice was clicked, but"));

    let mut blocked = running();
    blocked.status.microphone_permission_required = true;
    let (flow, _) = ActivateVoice::begin();
    let (_, action) = flow.next(&blocked, Ok(Answer::Nothing), 0);
    assert!(ended(&action, &blocked)
        .expect("end")
        .expect_err("failure")
        .starts_with("ChatGPT needs microphone access."));
}

#[test]
fn settings_open_and_close() {
    let mut session = running();
    let (dialog, action) = SettingsDialog::open_voice_settings(&session);
    assert!(matches!(action, Action::Evaluate(Script::OpenSettings)));
    let (dialog, action) = dialog.next(&session, Ok(Answer::Flag(true)), 0);
    assert!(matches!(action, Action::Evaluate(Script::SettingsVisible)));
    let (dialog, action) = dialog.next(&session, Ok(Answer::Flag(false)), 0);
    assert!(matches!(action, Action::Wait(50)));
    let (dialog, _) = dialog.next(&session, Ok(Answer::Nothing), SECOND);
    let (dialog, action) = dialog.next(&session, Ok(Answer::Flag(true)), SECOND);
    assert!(matches!(action, Action::Refresh));
    session.status.voice_settings_open = true;
    let (_, action) = dialog.next(&session, Ok(Answer::Nothing), SECOND);
    assert_eq!(ended(&action, &session), Some(Ok(())));
    let (dialog, action) = SettingsDialog::close_voice_settings(&session);
    assert!(matches!(action, Action::Evaluate(Script::CloseSettings)));
    let (dialog, _) = dialog.next(&session, Ok(Answer::Flag(true)), 0);
    let (dialog, _) = dialog.next(&session, Ok(Answer::Flag(false)), 0);
    let (dialog, action) = dialog.next(&session, Ok(Answer::Nothing), 0);
    assert!(matches!(action, Action::Wait(50)));
    let (_, action) = dialog.next(&session, Ok(Answer::Nothing), 3 * SECOND);
    assert_eq!(
        ended(&action, &session),
        Some(Err("ChatGPT Voice settings did not close.".to_owned()))
    );
    let failure = |begun: (SettingsDialog, Action)| {
        let (_, action) = begun.0.next(&session, Ok(Answer::Flag(false)), 0);
        ended(&action, &session).expect("end").expect_err("failure")
    };
    assert!(failure(SettingsDialog::open_voice_settings(&session))
        .starts_with("ChatGPT's Voice settings control is not visible."));
    assert!(failure(SettingsDialog::close_voice_settings(&session))
        .starts_with("ChatGPT Voice settings is open, but"));
    let (dialog, _) = SettingsDialog::open_voice_settings(&session);
    let (dialog, _) = dialog.next(&session, Ok(Answer::Flag(true)), 0);
    let (dialog, _) = dialog.next(&session, Ok(Answer::Other), 0);
    let (_, action) = dialog.next(&session, Ok(Answer::Nothing), 4 * SECOND);
    assert!(ended(&action, &session)
        .expect("end")
        .expect_err("failure")
        .starts_with("ChatGPT Voice settings did not become visible."));
}

#[test]
fn settings_are_read_once() {
    let mut session = running();
    session.status.intelligence = Some("High".to_owned());
    let (flow, action) = Prefetch::begin(&session, 5);
    assert!(matches!(action, Action::OpenSettings));
    let (flow, action) = flow.next(&mut session, Ok(Answer::Nothing), 5);
    assert!(matches!(action, Action::DiscoverOptions));
    let found = options(vec![voice("cove", None)]);
    let (flow, action) = flow.next(&mut session, Ok(Answer::Options(found)), 9);
    assert!(matches!(action, Action::CloseSettings));
    assert_eq!(session.options_fetched_at, Some(9));
    assert_eq!(session.status.available_voices.len(), 1);
    assert_eq!(session.status.voice.as_deref(), Some("cove"));
    assert_eq!(session.status.intelligence, None);
    let (_, action) = flow.next(&mut session, Ok(Answer::Nothing), 9);
    assert_eq!(ended(&action, &session), Some(Ok(())));
    let (flow, _) = Prefetch::begin(&session, 10);
    let (_, action) = flow.next(&mut session, Ok(Answer::Nothing), 10);
    assert!(matches!(action, Action::CloseSettings));
    let (flow, _) = Prefetch::begin(&session, 9 + 600 * SECOND);
    let (flow, action) = flow.next(&mut session, Ok(Answer::Nothing), 10);
    assert!(matches!(action, Action::DiscoverOptions));
    session.status.voice = None;
    let (flow, _) = flow.next(&mut session, Err("unreadable".to_owned()), 10);
    assert_eq!(session.options_fetched_at, Some(9));
    let (flow, action) = flow.next(&mut session, Ok(Answer::Nothing), 10);
    assert!(matches!(action, Action::Wait(100)));
    let (_, action) = flow.next(&mut session, Ok(Answer::Nothing), 10);
    assert!(matches!(action, Action::Refresh));
}

#[test]
fn the_microphone_is_muted_and_unmuted() {
    let mut session = running();
    session.status.voice_mode_active = true;
    session.status.voice_settings_open = true;
    let (flow, action) = SetMicrophone::begin(true, &session);
    assert!(matches!(action, Action::CloseSettings));
    let (flow, action) = flow.next(&session, Ok(Answer::Nothing));
    assert!(matches!(action, Action::Evaluate(Script::SetMicrophone(true))));
    let (flow, action) = flow.next(&session, Ok(Answer::Flag(true)));
    assert!(matches!(action, Action::Wait(250)));
    let (flow, action) = flow.next(&session, Ok(Answer::Nothing));
    assert!(matches!(action, Action::Refresh));
    session.status.chatgpt_mic_muted = Some(true);
    let (_, action) = flow.next(&session, Ok(Answer::Nothing));
    assert_eq!(ended(&action, &session), Some(Ok(())));

    session.status.voice_settings_open = false;
    let (flow, _) = SetMicrophone::begin(false, &session);
    let (_, action) = flow.next(&session, Ok(Answer::Flag(false)));
    assert_eq!(
        ended(&action, &session),
        Some(Err("ChatGPT's microphone could not be unmuted.".to_owned()))
    );
    let (flow, _) = SetMicrophone::begin(false, &session);
    let (flow, _) = flow.next(&session, Ok(Answer::Flag(true)));
    let (flow, _) = flow.next(&session, Ok(Answer::Nothing));
    let (_, action) = flow.next(&session, Ok(Answer::Nothing));
    assert_eq!(
        ended(&action, &session),
        Some(Err("ChatGPT's microphone did not become live.".to_owned()))
    );
    session.status.voice_mode_active = false;
    let (flow, action) = SetMicrophone::begin(false, &session);
    assert!(matches!(action, Action::Refresh));
    let (_, action) = flow.next(&session, Ok(Answer::Nothing));
    assert_eq!(
        ended(&action, &session),
        Some(Err("ChatGPT Voice is not active.".to_owned()))
    );
}

#[test]
fn the_microphone_is_tried_five_times() {
    let mut session = running();
    session.status.voice_mode_active = true;
    session.status.chatgpt_mic_muted = Some(true);
    let (mut flow, mut action) = EnsureMicrophone::begin();
    let mut tries = 0;
    while ended(&action, &session).is_none() {
        if matches!(action, Action::SetMicrophone(false)) {
            tries += 1;
        }
        let continued = flow.next(&session, Ok(Answer::Nothing));
        flow = continued.0;
        action = continued.1;
    }
    assert_eq!(tries, 5);
    assert_eq!(ended(&action, &session), Some(Ok(())));
    session.status.chatgpt_mic_muted = Some(false);
    let (flow, _) = EnsureMicrophone::begin();
    let (_, action) = flow.next(&session, Ok(Answer::Nothing));
    assert_eq!(ended(&action, &session), Some(Ok(())));
}

#[test]
fn a_setting_is_chosen_and_shown() {
    let mut session = running();
    let (flow, action) =
        SetRow::set_voice_setting_row("Language".to_owned(), "Arabic".to_owned(), &session);
    assert!(matches!(action, Action::OpenSettings));
    let (flow, action) = flow.next(&mut session, Ok(Answer::Nothing));
    assert_eq!(format!("{action:?}"), "Evaluate(OpenRow(\"Language\"))");
    let (flow, action) = flow.next(&mut session, Ok(Answer::Flag(true)));
    assert_eq!(format!("{action:?}"), "Evaluate(ChooseOption(\"Language\", \"Arabic\"))");
    let (flow, action) = flow.next(&mut session, Ok(Answer::Flag(false)));
    assert!(matches!(action, Action::Wait(50)));
    let (flow, _) = flow.next(&mut session, Ok(Answer::Nothing));
    let (flow, action) = flow.next(&mut session, Ok(Answer::Flag(true)));
    assert!(matches!(action, Action::Wait(150)));
    let (flow, action) = flow.next(&mut session, Ok(Answer::Nothing));
    assert!(matches!(action, Action::CloseSettings));
    assert_eq!(session.status.language, None);
    let (flow, _) = flow.next(&mut session, Ok(Answer::Nothing));
    assert_eq!(session.status.language.as_deref(), Some("Arabic"));
    let (flow, action) = flow.next(&mut session, Ok(Answer::Nothing));
    assert!(matches!(action, Action::EnsureMicrophone));
    let (_, action) = flow.next(&mut session, Ok(Answer::Nothing));
    assert_eq!(ended(&action, &session), Some(Ok(())));
}

#[test]
fn a_missing_setting_is_reported_after_closing() {
    let mut session = running();
    let row = |session: &BrowserSession| {
        SetRow::set_voice_setting_row("Intelligence".to_owned(), "High".to_owned(), session)
    };
    let (flow, _) = row(&session);
    let (flow, _) = flow.next(&mut session, Ok(Answer::Nothing));
    let (flow, action) = flow.next(&mut session, Ok(Answer::Flag(false)));
    assert!(matches!(action, Action::CloseSettings));
    let (_, action) = flow.next(&mut session, Err("ignored".to_owned()));
    assert_eq!(
        ended(&action, &session),
        Some(Err("The ChatGPT Intelligence setting could not be found.".to_owned()))
    );
    let (flow, _) = row(&session);
    let (flow, _) = flow.next(&mut session, Ok(Answer::Nothing));
    let (mut flow, mut action) = flow.next(&mut session, Ok(Answer::Flag(true)));
    let mut tries = 0;
    while ended(&action, &session).is_none() {
        if matches!(action, Action::Evaluate(_)) {
            tries += 1;
        }
        let continued = flow.next(&mut session, Ok(Answer::Flag(false)));
        flow = continued.0;
        action = continued.1;
    }
    assert_eq!(tries, 20);
    assert_eq!(
        ended(&action, &session),
        Some(Err("The ChatGPT Intelligence option High was not visible.".to_owned()))
    );
    session.options_fetched_at = Some(1);
    assert_eq!(
        ended(&row(&session).1, &session),
        Some(Err(
            "ChatGPT Intelligence is not available on this ChatGPT account.".to_owned()
        ))
    );
}

/// Changes the voice on a page that shows the given voices one after the other; each click on an
/// arrow shows the next one. `listed` tells whether voices can be clicked directly.
fn change_voice(
    session: &mut BrowserSession,
    requested: &str,
    shown: Vec<&str>,
    listed: bool,
) -> (Result<(), String>, Vec<Direction>) {
    let (mut flow, mut action) = SetVoice::set_voice(requested);
    let mut position = 0;
    let mut steps: Vec<Direction> = Vec::new();
    loop {
        if let Some(result) = ended(&action, session) {
            return (result, steps);
        }
        let reply = match action {
            Action::Refresh => {
                session.status.voice = Some(shown[position].to_owned());
                Ok(Answer::Nothing)
            }
            Action::Evaluate(Script::ChooseVoice(name)) => {
                if listed {
                    position = shown.iter().position(|voice| *voice == name).unwrap_or(position);
                }
                Ok(Answer::Flag(listed))
            }
            Action::Evaluate(Script::StepVoice(direction)) => {
                steps.push(direction);
                match direction {
                    Direction::Next if position + 1 < shown.len() => position += 1,
                    Direction::Previous if position > 0 => position -= 1,
                    _ => {}
                }
                Ok(Answer::Flag(true))
            }
            Action::DescribeVoice(name) => {
                session.describe_voice(&name);
                Ok(Answer::Nothing)
            }
            Action::DiscoverOptions => Err("nothing".to_owned()),
            _ => Ok(Answer::Nothing),
        };
        let continued = flow.next(session, reply, 0);
        flow = continued.0;
        action = continued.1;
    }
}

#[test]
fn a_voice_is_chosen_from_the_list_or_by_steps() {
    let mut session = running();
    session.status.available_voices =
        vec![voice("Arbor", None), voice("Cove", Some("Listed")), voice("Sol", None)];
    let shown = vec!["Arbor", "Cove", "Sol"];
    let (result, steps) = change_voice(&mut session, " sol ", shown.clone(), true);
    assert_eq!((result, steps.len()), (Ok(()), 0));
    assert_eq!(session.status.voice_description.as_deref(), Some("Savvy and relaxed"));
    let (result, steps) = change_voice(&mut session, "COVE", shown.clone(), false);
    assert_eq!((result, steps), (Ok(()), vec![Direction::Next]));
    assert_eq!(session.status.voice_description.as_deref(), Some("Listed"));
    let (result, steps) = change_voice(&mut session, "arbor", shown, false);
    assert_eq!((result, steps.len()), (Ok(()), 0));
}

#[test]
fn a_voice_that_cannot_be_reached_is_reported() {
    let mut session = running();
    session.status.available_voices = vec![voice("Arbor", None), voice("Sol", None)];
    let (result, steps) = change_voice(&mut session, "sol", vec!["Arbor", "Cove"], false);
    assert_eq!(result, Err("ChatGPT Voice did not switch to Sol.".to_owned()));
    assert_eq!(
        steps,
        vec![Direction::Next, Direction::Next, Direction::Previous, Direction::Previous]
    );
    let (result, _) = change_voice(&mut session, "nova", vec!["Arbor"], false);
    assert_eq!(
        result,
        Err("ChatGPT Voice nova was not found. Available voices: ARBOR, SOL".to_owned())
    );
    session.status.available_voices = vec![];
    let (result, _) = change_voice(&mut session, "nova", vec!["Arbor"], false);
    assert_eq!(
        result,
        Err("ChatGPT Voice nova was not found; live Voice options are not available yet.".to_owned())
    );
    let (result, _) = change_voice(&mut session, "  ", vec!["Arbor"], false);
    assert_eq!(result, Err("A ChatGPT Voice name is required".to_owned()));
}

#[test]
fn unknown_voices_are_discovered() {
    let mut session = running();
    let (flow, _) = SetVoice::set_voice("sol");
    let (flow, action) = flow.next(&mut session, Ok(Answer::Nothing), 3);
    assert!(matches!(action, Action::Refresh));
    let (flow, action) = flow.next(&mut session, Ok(Answer::Nothing), 3);
    assert!(matches!(action, Action::DiscoverOptions));
    let found = options(vec![voice("SOL", None)]);
    let (_, action) = flow.next(&mut session, Ok(Answer::Options(found)), 4);
    assert!(matches!(action, Action::Evaluate(Script::ChooseVoice(name)) if name == "SOL"));
    assert_eq!(session.options_fetched_at, Some(4));
    let mut unknown = running();
    unknown.status.available_voices = vec![voice("sol", None)];
    let (flow, _) = SetVoice::set_voice("sol");
    let (flow, _) = flow.next(&mut unknown, Ok(Answer::Nothing), 3);
    let (flow, _) = flow.next(&mut unknown, Ok(Answer::Nothing), 3);
    let (_, action) = flow.next(&mut unknown, Ok(Answer::Nothing), 3);
    assert_eq!(
        ended(&action, &unknown),
        Some(Err("The current ChatGPT voice could not be identified.".to_owned()))
    );
}

fn notes(step: &LaunchStep) -> Vec<String> {
    [&step.first, &step.second]
        .into_iter()
        .flatten()
        .map(|note| note.word())
        .collect()
}

fn launch_end(step: &LaunchStep) -> Option<Result<(), String>> {
    match &step.action {
        LaunchAction::Finish(Ok(())) => Some(Ok(())),
        LaunchAction::Finish(Err(failure)) => Some(Err(failure.explain())),
        _ => None,
    }
}

fn target(kind: &str, url: Option<&str>) -> CdpTarget {
    CdpTarget {
        id: format!("id-{kind}"),
        target_type: kind.to_owned(),
        websocket_url: url.map(str::to_owned),
    }
}

/// Starts the browser; `answer` overrides what an action gives.
fn launch(
    session: &mut BrowserSession,
    answer: impl Fn(&LaunchAction) -> Option<Result<LaunchAnswer, String>>,
) -> (Vec<String>, Vec<String>, Result<(), String>) {
    let (mut flow, mut step) = Launch::begin();
    let mut actions: Vec<String> = Vec::new();
    let mut told: Vec<String> = Vec::new();
    loop {
        told.extend(notes(&step));
        if let Some(result) = launch_end(&step) {
            return (actions, told, result);
        }
        actions.push(format!("{:?}", step.action));
        let reply = answer(&step.action).unwrap_or_else(|| match &step.action {
            LaunchAction::FindBrowser | LaunchAction::StartTransport | LaunchAction::CheckProcess => {
                Ok(LaunchAnswer::Flag(true))
            }
            LaunchAction::PrepareProfile | LaunchAction::CheckMarker => {
                Ok(LaunchAnswer::Flag(false))
            }
            LaunchAction::Launch => Ok(LaunchAnswer::Process(99)),
            LaunchAction::ReadTargets => Ok(LaunchAnswer::Targets(vec![
                target("worker", Some("ws://worker")),
                target("page", None),
                target("page", Some("ws://page")),
            ])),
            LaunchAction::Refresh => {
                session.status.logged_in = true;
                Ok(LaunchAnswer::Nothing)
            }
            LaunchAction::Stop => {
                session.stop();
                Ok(LaunchAnswer::Nothing)
            }
            _ => Ok(LaunchAnswer::Nothing),
        });
        let continued = flow.next(session, reply);
        flow = continued.0;
        step = continued.1;
    }
}

#[test]
fn the_browser_is_started_step_by_step() {
    let mut session = session();
    let (actions, told, result) = launch(&mut session, |_| None);
    assert_eq!(result, Ok(()));
    assert_eq!(
        actions,
        vec![
            "PrepareProfile",
            "FindBrowser",
            "Launch",
            "AwaitControl",
            "ReadTargets",
            "Connect(\"ws://page\")",
            "Call(EnableRuntime)",
            "Call(EnablePage)",
            "Call(BypassContentPolicy)",
            "StartTransport",
            "Call(InstallBridge)",
            "Navigate(\"https://chatgpt.com/\")",
            "RunBridge",
            "Refresh",
            "WriteMarker",
            "SetWindow(true)"
        ]
    );
    assert!(told[1].starts_with("First-run setup opened the dedicated browser."));
    assert_eq!(told.last().map(String::as_str), Some("ChatGPT session is ready."));
    assert!(session.controlled && session.media);
    assert_eq!(session.child, Some(99));
    assert_eq!(session.page_target_id.as_deref(), Some("id-page"));
}

#[test]
fn a_failed_start_ends_the_browser() {
    let cases: Vec<(&str, Result<LaunchAnswer, String>, &str)> = vec![
        ("PrepareProfile", Err("disk".to_owned()), "disk"),
        (
            "FindBrowser",
            Ok(LaunchAnswer::Flag(false)),
            "Could not find Brave, Chrome, Edge, or a managed Chromium browser",
        ),
        (
            "ReadTargets",
            Ok(LaunchAnswer::Targets(vec![])),
            "Browser CDP exposed no controllable page",
        ),
        (
            "StartTransport",
            Ok(LaunchAnswer::Flag(false)),
            "The embedded browser media bridge could not be loaded",
        ),
        ("Refresh", Err("gone".to_owned()), "gone"),
    ];
    for (at, reply, message) in cases {
        let mut session = session();
        let reply = std::cell::RefCell::new(Some(reply));
        let (actions, _, result) = launch(&mut session, |action| {
            if format!("{action:?}") == at {
                reply.borrow_mut().take()
            } else {
                None
            }
        });
        assert_eq!(result, Err(message.to_owned()));
        assert_eq!(actions.last().map(String::as_str), Some("Stop"));
        assert!(!session.controlled && session.child.is_none());
    }
}

#[test]
fn a_running_browser_is_restarted_at_the_third_failure() {
    let mut session = running();
    for failure in 1..=2 {
        let (actions, told, result) = launch(&mut session, |action| match action {
            LaunchAction::Refresh => Some(Err("timeout".to_owned())),
            _ => None,
        });
        assert_eq!(actions, vec!["PrepareProfile", "CheckProcess", "Refresh"]);
        assert_eq!(result, Ok(()));
        assert_eq!(
            told[1],
            format!("Browser status probe failed; keeping the dedicated browser alive (failure {failure}/3): timeout")
        );
        assert_eq!(session.status.cdp_status_failures, failure);
    }
    let first = std::cell::Cell::new(true);
    let (actions, told, result) = launch(&mut session, |action| match action {
        LaunchAction::Refresh if first.replace(false) => Some(Err("timeout".to_owned())),
        _ => None,
    });
    assert_eq!(result, Ok(()));
    assert_eq!(actions[2..5], ["Refresh", "Stop", "FindBrowser"]);
    assert_eq!(
        told[1],
        "The browser session was unreachable after 3 consecutive status probe failures; restarting it (timeout)."
    );
    assert_eq!(session.cdp_restarts, 1);
}

#[test]
fn a_running_browser_is_looked_at() {
    let mut session = running();
    let (actions, told, result) = launch(&mut session, |_| None);
    assert_eq!(
        actions,
        vec!["PrepareProfile", "CheckProcess", "Refresh", "CheckMarker", "WriteMarker"]
    );
    assert_eq!(result, Ok(()));
    assert_eq!(
        told,
        vec![
            "Refreshing the existing browser session.",
            "ChatGPT sign-in detected; the session is ready to use."
        ]
    );
    let (actions, told, _) = launch(&mut session, |action| match action {
        LaunchAction::CheckProcess => Some(Ok(LaunchAnswer::Flag(false))),
        _ => None,
    });
    assert_eq!(actions[1..4], ["CheckProcess", "Stop", "FindBrowser"]);
    assert_eq!(told[0], "The browser window was closed; restarting the dedicated session.");
}

#[test]
fn a_watched_browser_is_kept_awake_and_restarted() {
    let mut session = running();
    session.status.window_hidden = true;
    session.status.voice_mode_active = true;
    session.status.media.output_track_count = 1;
    let (probe, step) = StatusProbe::status_probe(&session);
    assert!(matches!(step.action, LaunchAction::CheckProcess));
    let (probe, step) = probe.next(&mut session, Ok(LaunchAnswer::Flag(true)), SECOND);
    assert_eq!(format!("{:?}", step.action), "Call(BringToFront)");
    let (probe, step) = probe.next(&mut session, Err("ignored".to_owned()), SECOND);
    assert_eq!(format!("{:?}", step.action), "Call(EmulateFocus)");
    let (probe, step) = probe.next(&mut session, Ok(LaunchAnswer::Nothing), SECOND);
    assert_eq!(format!("{:?}", step.action), "Call(KeepActive)");
    let (probe, step) = probe.next(&mut session, Ok(LaunchAnswer::Nothing), SECOND);
    assert!(matches!(step.action, LaunchAction::Refresh));
    session.status.voice_mode_active = false;
    session.status.media.output_track_count = 0;
    let (_, step) = probe.next(&mut session, Ok(LaunchAnswer::Nothing), SECOND);
    assert_eq!(
        notes(&step),
        vec![
            "ChatGPT Voice output track ended; checking the hidden Voice session state.",
            "ChatGPT Voice ended; the active thread is available for recovery."
        ]
    );
    session.status.window_hidden = false;
    session.last_status_refresh_at = Some(SECOND);
    let (probe, _) = StatusProbe::status_probe(&session);
    let (_, step) = probe.next(&mut session, Ok(LaunchAnswer::Flag(true)), SECOND + 1);
    assert_eq!(launch_end(&step), Some(Ok(())));
    session.cdp_status_failures = 2;
    let (probe, _) = StatusProbe::status_probe(&session);
    let (probe, step) = probe.next(&mut session, Ok(LaunchAnswer::Flag(true)), 2 * SECOND);
    assert!(matches!(step.action, LaunchAction::Refresh));
    let (probe, step) = probe.next(&mut session, Err("x".to_owned()), 2 * SECOND);
    assert!(matches!(step.action, LaunchAction::Stop));
    assert_eq!(session.cdp_restarts, 1);
    session.stop();
    let (probe, step) = probe.next(&mut session, Ok(LaunchAnswer::Nothing), 2 * SECOND);
    assert!(matches!(step.action, LaunchAction::Start));
    let (_, step) = probe.next(&mut session, Err("y".to_owned()), 2 * SECOND);
    assert_eq!(launch_end(&step), Some(Err("y".to_owned())));
    let (_, step) = StatusProbe::status_probe(&session);
    assert_eq!(launch_end(&step), Some(Ok(())));
    let mut kept = running();
    let (probe, _) = StatusProbe::status_probe(&kept);
    let (probe, _) = probe.next(&mut kept, Ok(LaunchAnswer::Flag(true)), 0);
    let (_, step) = probe.next(&mut kept, Err("x".to_owned()), 0);
    assert_eq!(
        notes(&step),
        vec!["Browser status probe failed; keeping the dedicated browser and Voice session alive (failure 1/3): x"]
    );
}

#[test]
fn the_control_endpoint_is_awaited() {
    let failure = |action: ControlAction| match action {
        ControlAction::Finish(Err(message)) => message,
        other => panic!("unexpected action {other:?}"),
    };
    let (wait, action) = ControlWait::wait_for_json(0);
    assert!(matches!(action, ControlAction::CheckProcess));
    let (wait, action) = wait.next(ControlReply::Running, 0);
    assert!(matches!(action, ControlAction::Request));
    let (wait, action) = wait.next(ControlReply::Refused("HTTP 404".to_owned()), 0);
    assert!(matches!(action, ControlAction::Pause));
    let (wait, action) = wait.next(ControlReply::Waited, SECOND);
    assert!(matches!(action, ControlAction::CheckProcess));
    let (wait, action) = wait.next(ControlReply::Waited, 30 * SECOND);
    assert_eq!(
        failure(action),
        "Browser did not expose CDP within 30 seconds: HTTP 404"
    );
    let (wait, action) = wait.next(ControlReply::Answered, 0);
    assert!(matches!(action, ControlAction::Finish(Ok(()))));
    let (wait, action) = wait.next(ControlReply::Exited("code 1".to_owned()), 0);
    assert_eq!(failure(action), "The browser exited before CDP was ready (code 1)");
    let (wait, action) = wait.next(ControlReply::Uninspectable("x".to_owned()), 0);
    assert_eq!(failure(action), "Could not inspect browser process: x");
    let (_, action) = wait.next(ControlReply::Unreadable("x".to_owned()), 0);
    assert_eq!(failure(action), "Could not parse browser CDP response: x");
    let (wait, _) = ControlWait::wait_for_json(0);
    let (_, action) = wait.next(ControlReply::Waited, 31 * SECOND);
    assert_eq!(failure(action), "Browser did not expose CDP within 30 seconds");
}

#[test]
fn each_guild_has_one_session_and_a_profile_of_its_own() {
    let config = config();
    let mut runtime = BrowserRuntime::new();
    let entry = runtime.session(GUILD, &config).expect("session");
    assert_eq!(entry.index, 0);
    assert_eq!(entry.created.expect("a new session").guild_id, GUILD);
    let other = "123456789012345";
    assert_eq!(runtime.session(other, &config).expect("session").index, 1);
    let again = runtime.session(GUILD, &config).expect("session");
    assert_eq!(again.index, 0);
    assert!(again.created.is_none());
    for invalid in ["", "12345678901234", "12345678901234a", "１２３４５６７８９０１２３４５"] {
        assert_eq!(
            runtime.session(invalid, &config).err().as_deref(),
            Some("A valid Discord guild ID is required")
        );
    }
    let profile = config.browser_profile.as_str();
    assert_eq!(BrowserRuntime::profile_dir(GUILD, &config), vec![profile]);
    assert_eq!(BrowserRuntime::profile_dir(other, &config), vec![profile, "guilds", other]);
}

fn visit_end(step: &VisitStep) -> Option<&VisitEnd> {
    match &step.action {
        VisitAction::Finish(end) => Some(end),
        _ => None,
    }
}

fn note(step: &VisitStep) -> Option<String> {
    step.note.as_ref().map(|note| note.word())
}

#[test]
fn a_started_browser_lists_its_threads() {
    let mut session = running();
    session.status.logged_in = true;
    let (visit, step) = BrowserRuntime::start_guild();
    assert!(matches!(step.action, VisitAction::Start));
    let (visit, step) = visit.next(&mut session, VisitReply::Done, 4);
    assert!(matches!(step.action, VisitAction::ListThreads));
    let (visit, step) =
        visit.next(&mut session, VisitReply::Threads(vec![thread("a"), thread("b")]), 5);
    assert_eq!(note(&step).as_deref(), Some("Prefetched 2 recent ChatGPT thread(s)."));
    assert!(matches!(visit_end(&step), Some(VisitEnd::Status)));
    assert!(matches!(visit, Visit::Over));
    assert_eq!(session.recent_threads_fetched_at, Some(5));
    assert_eq!(session.status.recent_threads.len(), 2);

    let (visit, _) = BrowserRuntime::start_guild();
    let (visit, _) = visit.next(&mut session, VisitReply::Done, 6);
    let (_, step) = visit.next(&mut session, VisitReply::Failed("x".to_owned()), 7);
    assert_eq!(note(&step).as_deref(), Some("Could not prefetch recent ChatGPT threads: x"));
    assert!(matches!(visit_end(&step), Some(VisitEnd::Status)));
    assert_eq!(session.recent_threads_fetched_at, Some(5));
    assert_eq!(session.status.recent_threads.len(), 2);

    let (visit, _) = BrowserRuntime::start_guild();
    let (visit, _) = visit.next(&mut session, VisitReply::Done, 8);
    let (_, step) = visit.next(&mut session, VisitReply::Threads(vec![]), 9);
    assert_eq!(note(&step).as_deref(), Some("Prefetched 0 recent ChatGPT thread(s)."));
    assert_eq!(session.recent_threads_fetched_at, None);
    assert!(session.status.recent_threads.is_empty());

    session.status.logged_in = false;
    let (visit, _) = BrowserRuntime::start_guild();
    let (_, step) = visit.next(&mut session, VisitReply::Done, 10);
    assert!(matches!(visit_end(&step), Some(VisitEnd::Status)));
    let (visit, _) = BrowserRuntime::start_guild();
    let (_, step) = visit.next(&mut session, VisitReply::Failed("no port".to_owned()), 11);
    assert!(matches!(visit_end(&step), Some(VisitEnd::Failed(error)) if error == "no port"));
}

fn look_after(session: &mut BrowserSession, now: u64) -> (Visit, VisitStep) {
    let (visit, step) = BrowserRuntime::status_guild(true, false);
    assert!(matches!(step.action, VisitAction::Enter));
    let (visit, step) = visit.next(session, VisitReply::Done, now);
    assert!(matches!(step.action, VisitAction::Probe));
    visit.next(session, VisitReply::Done, now)
}

#[test]
fn recent_threads_are_kept() {
    let mut session = running();
    let (visit, step) = look_after(&mut session, 1);
    assert!(matches!(step.action, VisitAction::ListThreads));
    let (_, step) = visit.next(&mut session, VisitReply::Threads(vec![thread("a")]), 5);
    assert!(matches!(visit_end(&step), Some(VisitEnd::Status)));
    assert_eq!(note(&step), None);
    assert_eq!(session.recent_threads_fetched_at, Some(5));
    assert!(visit_end(&look_after(&mut session, 4 + 30 * SECOND).1).is_some());
    session.status.voice_mode_active = true;
    assert!(visit_end(&look_after(&mut session, 5 + 30 * SECOND).1).is_some());
    session.status.voice_mode_active = false;
    let (visit, step) = look_after(&mut session, 5 + 30 * SECOND);
    assert!(matches!(step.action, VisitAction::ListThreads));
    visit.next(&mut session, VisitReply::Threads(vec![]), 40 * SECOND);
    assert_eq!(session.status.recent_threads.len(), 1);
    assert_eq!(session.recent_threads_fetched_at, Some(40 * SECOND));
    let (visit, _) = look_after(&mut session, 80 * SECOND);
    let (_, step) = visit.next(&mut session, VisitReply::Failed("x".to_owned()), 81 * SECOND);
    assert!(matches!(visit_end(&step), Some(VisitEnd::Status)));
    assert_eq!(session.status.recent_threads.len(), 1);
    assert_eq!(session.recent_threads_fetched_at, Some(81 * SECOND));
    session.status.recent_threads = vec![];
    let (visit, _) = look_after(&mut session, 120 * SECOND);
    visit.next(&mut session, VisitReply::Threads(vec![]), 120 * SECOND);
    assert_eq!(session.recent_threads_fetched_at, None);
}

#[test]
fn a_browser_is_looked_after_and_ended() {
    let (_, step) = BrowserRuntime::status_guild(false, false);
    assert!(matches!(visit_end(&step), Some(VisitEnd::SignInRequired)));
    let (_, step) = BrowserRuntime::status_guild(false, true);
    assert!(matches!(step.action, VisitAction::Enter));
    let mut idle = session();
    let (visit, _) = BrowserRuntime::status_guild(true, false);
    let (_, step) = visit.next(&mut idle, VisitReply::Done, 1);
    assert!(matches!(visit_end(&step), Some(VisitEnd::Status)));
    let mut session = running();
    let (visit, _) = BrowserRuntime::status_guild(true, false);
    let (visit, _) = visit.next(&mut session, VisitReply::Done, 1);
    let (_, step) = visit.next(&mut session, VisitReply::Failed("gone".to_owned()), 1);
    assert!(matches!(visit_end(&step), Some(VisitEnd::Failed(error)) if error == "gone"));
    let (visit, step) = BrowserRuntime::stop_guild();
    assert!(matches!(step.action, VisitAction::Stop));
    let (_, step) = visit.next(&mut session, VisitReply::Done, 1);
    assert!(matches!(visit_end(&step), Some(VisitEnd::Status)));
}

#[test]
fn errands_are_done_with_a_browser_that_works() {
    let errands: Vec<((Visit, VisitStep), &str)> = vec![
        (BrowserRuntime::take_media_reader(), "Perform(Reader)"),
        (BrowserRuntime::media_for_guild(), "Perform(Transport)"),
        (BrowserRuntime::set_visibility_guild(true), "Perform(Visibility(true))"),
        (BrowserRuntime::open_voice_settings_guild(), "Perform(OpenSettings)"),
        (BrowserRuntime::close_voice_settings_guild(), "Perform(CloseSettings)"),
        (BrowserRuntime::set_voice_guild("Sol".to_owned()), "Perform(Voice(\"Sol\"))"),
        (
            BrowserRuntime::set_intelligence_guild("High".to_owned()),
            "Perform(Intelligence(\"High\"))",
        ),
        (
            BrowserRuntime::set_language_guild("Arabic".to_owned()),
            "Perform(Language(\"Arabic\"))",
        ),
        (BrowserRuntime::set_mic_muted_guild(false), "Perform(Microphone(false))"),
        (BrowserRuntime::reconnect_voice_guild(), "Perform(Reconnect)"),
        (new_thread(), "Perform(NewThread)"),
        (resume_thread(" abc "), "Perform(ResumeThread(\"abc\"))"),
    ];
    for ((visit, step), expected) in errands {
        let mut session = running();
        assert!(matches!(step.action, VisitAction::Start));
        let (visit, step) = visit.next(&mut session, VisitReply::Done, 1);
        assert_eq!(format!("{:?}", step.action), expected);
        let (_, step) = visit.next(&mut session, VisitReply::Done, 2);
        assert!(matches!(visit_end(&step), Some(VisitEnd::Status)));
    }
    let mut session = running();
    let (visit, _) = new_thread();
    let (_, step) = visit.next(&mut session, VisitReply::Failed("no".to_owned()), 1);
    assert!(matches!(visit_end(&step), Some(VisitEnd::Failed(error)) if error == "no"));
    let (visit, _) = new_thread();
    let (visit, _) = visit.next(&mut session, VisitReply::Done, 1);
    let (_, step) = visit.next(&mut session, VisitReply::Failed("later".to_owned()), 2);
    assert!(matches!(visit_end(&step), Some(VisitEnd::Failed(error)) if error == "later"));
    session.media = false;
    for (visit, _) in [BrowserRuntime::take_media_reader(), BrowserRuntime::media_for_guild()] {
        let (_, step) = visit.next(&mut session, VisitReply::Done, 1);
        assert!(matches!(visit_end(&step), Some(VisitEnd::NoTransport)));
    }
    assert_eq!(NO_TRANSPORT, "Browser media transport is not available");
}

#[test]
fn voice_is_reconnected_on_a_fresh_page() {
    let session = running();
    let (flow, action) = ReconnectVoice::reconnect_voice();
    assert!(matches!(action, Action::Reload));
    let (flow, action) = flow.next(Ok(Answer::Nothing));
    assert!(matches!(action, Action::StartVoice));
    let (_, action) = flow.next(Ok(Answer::Nothing));
    assert_eq!(ended(&action, &session), Some(Ok(())));
    let (flow, _) = ReconnectVoice::reconnect_voice();
    let (_, action) = flow.next(Err("lost".to_owned()));
    assert_eq!(ended(&action, &session), Some(Err("lost".to_owned())));
}

#[test]
fn requests_wait_for_their_replies() {
    let mut client = CdpClient::new();
    let (first, message) = client.call("Page.reload", "{\"ignoreCache\":true}");
    assert_eq!(first, 1);
    assert_eq!(
        message,
        "{\"id\":1,\"method\":\"Page.reload\",\"params\":{\"ignoreCache\":true}}"
    );
    let (second, _) = client.call("Page.enable", "{}");
    let (third, _) = client.call("Page.navigate", "{}");
    assert_eq!((second, third), (2, 3));
    assert_eq!(
        client.received("{\"id\":2,\"result\":{\"a\":1}}"),
        Some((2, Ok(json("{\"a\":1}"))))
    );
    assert_eq!(client.received("{\"id\":2,\"result\":{\"a\":1}}"), None);
    assert_eq!(client.received("{\"id\":9,\"result\":1}"), None);
    assert_eq!(client.received("{\"method\":\"Page.loadEventFired\"}"), None);
    assert_eq!(client.received("no JSON"), None);
    let mut pending: Vec<u64> = client.pending.iter().copied().collect();
    pending.sort();
    assert_eq!(pending, vec![1, 3]);
    assert_eq!(
        client.answered(&json("{\"id\":1,\"error\":\"bad\"}")),
        Some((1, Err("\"bad\"".to_owned())))
    );
    assert_eq!(
        client.timed_out(third, "Page.navigate"),
        "Browser CDP command Page.navigate timed out"
    );
    assert!(client.pending.is_empty());
    let (fourth, _) = client.call("Page.enable", "{}");
    assert_eq!(
        client.not_sent(fourth, "broken pipe"),
        "Could not send browser CDP command: broken pipe"
    );
    let (fifth, _) = client.call("Page.enable", "{}");
    let (sixth, _) = client.call("Page.enable", "{}");
    let mut waiting = client.closed();
    waiting.sort();
    assert_eq!(waiting, vec![fifth, sixth]);
    assert!(client.closed().is_empty());
    assert!(client.closed().is_empty());
    assert_eq!(CONNECTION_CLOSED, "Browser CDP connection closed");
}

#[test]
fn commands_are_written_for_the_browser() {
    let mouse = |step| Command::Mouse(step, "12.5".to_owned(), "40".to_owned());
    let commands = [
        (Command::EnableRuntime, "Runtime.enable", "{}"),
        (Command::EnablePage, "Page.enable", "{}"),
        (Command::BypassContentPolicy, "Page.setBypassCSP", "{\"enabled\":true}"),
        (
            Command::InstallBridge,
            "Page.addScriptToEvaluateOnNewDocument",
            "{\"source\":\"say(\\\"hi\\\")\"}",
        ),
        (
            Command::Navigate("https://chatgpt.com/".to_owned()),
            "Page.navigate",
            "{\"url\":\"https://chatgpt.com/\"}",
        ),
        (Command::Reload, "Page.reload", "{\"ignoreCache\":true}"),
        (Command::BringToFront, "Page.bringToFront", "{}"),
        (
            Command::EmulateFocus,
            "Emulation.setFocusEmulationEnabled",
            "{\"enabled\":true}",
        ),
        (Command::KeepActive, "Page.setWebLifecycleState", "{\"state\":\"active\"}"),
        (
            mouse(MouseStep::Move),
            "Input.dispatchMouseEvent",
            "{\"button\":\"none\",\"pointerType\":\"mouse\",\"type\":\"mouseMoved\",\"x\":12.5,\"y\":40}",
        ),
        (
            mouse(MouseStep::Press),
            "Input.dispatchMouseEvent",
            "{\"button\":\"left\",\"clickCount\":1,\"pointerType\":\"mouse\",\"type\":\"mousePressed\",\"x\":12.5,\"y\":40}",
        ),
        (
            mouse(MouseStep::Release),
            "Input.dispatchMouseEvent",
            "{\"button\":\"left\",\"clickCount\":1,\"pointerType\":\"mouse\",\"type\":\"mouseReleased\",\"x\":12.5,\"y\":40}",
        ),
    ];
    for (command, method, parameters) in commands {
        assert_eq!(command.method(), method);
        let written = command.parameters("say(\"hi\")");
        assert_eq!(written, parameters);
        assert_eq!(json(&written).to_string(), written);
    }
    assert_eq!(EVALUATE, "Runtime.evaluate");
    assert_eq!(
        evaluation("a\nb"),
        "{\"awaitPromise\":true,\"expression\":\"a\\nb\",\"returnByValue\":true,\"userGesture\":true}"
    );
}

#[test]
fn scripts_are_filled_in() {
    let microphone = "const wanted = __DESIRED__;";
    assert_eq!(Script::SetMicrophone(true).fill(microphone), "const wanted = \"mute\";");
    assert_eq!(Script::SetMicrophone(false).fill(microphone), "const wanted = \"unmute\";");
    assert_eq!(Script::OpenRow("Language".to_owned()).fill("open(__LABEL__)"), "open(\"Language\")");
    assert_eq!(
        Script::ChooseOption("Language".to_owned(), "a\"b".to_owned())
            .fill("choose(__LABEL__, __TARGET__, __LABEL__)"),
        "choose(\"Language\", \"a\\\"b\", \"Language\")"
    );
    assert_eq!(Script::ChooseVoice("sol".to_owned()).fill("pick(__TARGET__)"), "pick(\"sol\")");
    assert_eq!(Script::StepVoice(Direction::Next).fill("step(__DIRECTION__)"), "step(\"next\")");
    assert_eq!(
        Script::StepVoice(Direction::Previous).fill("step(__DIRECTION__)"),
        "step(\"previous\")"
    );
    assert_eq!(Script::ReadyState.fill("document.readyState"), "document.readyState");
}

#[test]
fn a_window_that_is_shown_comes_to_the_front() {
    let mut session = running();
    let (flow, action) = SetVisibility::set_visibility(false, &mut session);
    assert!(matches!(action, Action::SetWindow(false)));
    assert_eq!(session.manual_visibility_override, Some(false));
    let (flow, action) = flow.next(&session);
    assert_eq!(format!("{action:?}"), "Call(BringToFront)");
    let (flow, action) = flow.next(&session);
    assert_eq!(format!("{action:?}"), "Call(KeepActive)");
    let (_, action) = flow.next(&session);
    assert_eq!(ended(&action, &session), Some(Ok(())));
    let (flow, _) = SetVisibility::set_visibility(true, &mut session);
    assert_eq!(ended(&flow.next(&session).1, &session), Some(Ok(())));
}

#[test]
fn the_browser_is_found_and_launched() {
    assert_eq!(
        find_browser_executable(None, &vec![false, true, true]),
        Some(BrowserPlace::Usual(1))
    );
    assert_eq!(find_browser_executable(Some(false), &vec![false, false]), None);
    assert_eq!(browser_candidate(2).base, InstallBase::ProgramFilesX86);
    assert_eq!(
        browser_candidate(0).path,
        "BraveSoftware/Brave-Browser/Application/brave.exe"
    );
    assert_eq!(browser_candidate(6).path, "Microsoft/Edge/Application/msedge.exe");
    assert_eq!(browser_candidate(6).base, InstallBase::LocalAppData);
    assert_eq!(
        launch_browser("dir", "https://chatgpt.com/", 9222, true),
        vec![
            "--user-data-dir=dir",
            "--new-window",
            "--remote-debugging-port=9222",
            "--remote-debugging-address=127.0.0.1",
            "about:blank"
        ]
    );
    assert_eq!(
        launch_browser("dir", "https://chatgpt.com/", 9222, false),
        vec!["--user-data-dir=dir", "--new-window", "https://chatgpt.com/"]
    );
    assert_eq!(control_url(9222, "list"), "http://127.0.0.1:9222/json/list");
}

#[test]
fn an_installed_edge_is_enough() {
    let edge = "Microsoft/Edge/Application/msedge.exe";
    let mut present = vec![false; CANDIDATES];
    assert_eq!(find_browser_executable(None, &present), None);
    present[8] = true;
    assert_eq!(browser_candidate(8).base, InstallBase::ProgramFilesX86);
    assert_eq!(browser_candidate(8).path, edge);
    assert_eq!(browser_candidate(7).base, InstallBase::ProgramFiles);
    assert_eq!(browser_candidate(7).path, edge);
    assert_eq!(find_browser_executable(None, &present), Some(BrowserPlace::Usual(8)));
    assert_eq!(find_browser_executable(Some(false), &present), Some(BrowserPlace::Usual(8)));
}

#[test]
fn the_configured_browser_comes_first() {
    let present = vec![true; CANDIDATES];
    assert_eq!(find_browser_executable(Some(true), &present), Some(BrowserPlace::Configured));
    assert_eq!(
        find_browser_executable(Some(true), &vec![false; CANDIDATES]),
        Some(BrowserPlace::Configured)
    );
    assert_eq!(find_browser_executable(Some(false), &present), Some(BrowserPlace::Usual(0)));
}

#[test]
fn five_different_threads_are_listed_in_page_order() {
    let page: Vec<ThreadSummary> =
        ["a", "b", "a", "c", "b", "d", "e", "f", "g"].into_iter().map(thread).collect();
    let kept = most_recent(&page);
    let ids: Vec<&str> = kept.iter().map(|kept| kept.id.as_str()).collect();
    assert_eq!(ids, vec!["a", "b", "c", "d", "e"]);
    let mut few = vec![thread("x"), thread("x")];
    few[1].title = "later".to_owned();
    let kept = most_recent(&few);
    assert_eq!(kept.len(), 1);
    assert_eq!(kept[0].title, few[0].title);
    assert!(most_recent(&Vec::new()).is_empty());
}
