use gptvoice::browser::{BrowserStatus, ThreadSummary};
use gptvoice::discord::{
    button_next, command_definitions, handle_member_panel_component, interaction_create,
    joined_note, registration_note, start_runtime, track_event, ButtonAction, ButtonAnswer,
    ButtonStage, DiscordRuntime, DiscordStatus, InteractionAction, InteractionFlow, JoinAction,
    JoinVoice, LeaveVoice, MemberInteraction, RegisterAction, Registration, Request,
    StartDecision,
};
use gptvoice::panel::{
    member_panel_components, member_panel_custom_id, member_panel_embed, member_panel_response,
    panel_value, parse_member_panel_action, ButtonLook, EditReply, MemberPanelAction,
    MemberPanelSnapshot, Observation, PanelEdit, PanelMonitor, PanelNews, RefreshAction,
    WrittenPanel,
};
use gptvoice::startup::{Startup, StartupAction};

const GUILD: u64 = 964597969980620820;

#[test]
fn member_panel_action_ids_are_server_scoped() {
    let custom_id = member_panel_custom_id("reconnect", GUILD);
    assert_eq!(
        parse_member_panel_action(&custom_id),
        Some((MemberPanelAction::Reconnect, GUILD))
    );
    assert_eq!(
        parse_member_panel_action("gptvoice:member:reconnect:123:extra"),
        None
    );
    assert_eq!(
        parse_member_panel_action("gptvoice:member:unknown:123"),
        None
    );
}

#[test]
fn member_panel_has_compact_controls_and_updates_mic_label() {
    let buttons = member_panel_components(GUILD, true, Some(false));
    assert_eq!(buttons.len(), 4);
    assert_eq!(buttons[0].label, "Join voice");
    assert_eq!(buttons[1].label, "Leave voice");
    assert_eq!(buttons[2].label, "Mute input");
    assert_eq!(buttons[3].label, "Reconnect");
    assert!(buttons[0].disabled);
    assert!(!buttons[1].disabled);

    let muted = member_panel_components(GUILD, true, Some(true));
    assert_eq!(muted[2].label, "Unmute input");
}

fn active_browser() -> BrowserStatus {
    let mut browser = BrowserStatus::closed(&GUILD.to_string());
    browser.open = true;
    browser.logged_in = true;
    browser.voice_mode_active = true;
    browser.voice = Some("spruce".to_owned());
    browser.voice_description = Some("Calm and affirming".to_owned());
    browser.intelligence = Some("Instant".to_owned());
    browser.language = Some("Arabic".to_owned());
    browser.active_thread = Some(ThreadSummary {
        id: "thread-1".to_owned(),
        title: "Friends voice chat".to_owned(),
        url: "https://chatgpt.com/c/thread-1".to_owned(),
    });
    browser
}

#[test]
fn member_panel_embed_exposes_current_voice_state() {
    let browser = active_browser();
    let embed = member_panel_embed(GUILD, true, Some(&browser), None);
    assert_eq!(embed.thread, "Friends voice chat");
    assert_eq!(embed.voice, "spruce — Calm and affirming");
    assert_eq!(embed.intelligence, "Instant");
    assert_eq!(embed.language, "Arabic");
}

#[test]
fn the_panel_tells_what_is_going_on() {
    let mut browser = active_browser();
    let embed = member_panel_embed(GUILD, true, Some(&browser), Some("  done  "));
    assert_eq!(embed.title, "🎙️ GPTVoice");
    assert_eq!(embed.color, 0x57F287);
    assert_eq!(
        embed.description,
        "**Connected · ChatGPT Voice active**\nThis panel controls the shared GPTVoice session for this server.\n\n_done_"
    );
    assert_eq!(embed.footer, "Server 964597969980620820");
    browser.chatgpt_mic_muted = Some(true);
    browser.voice_description = Some("  ".to_owned());
    let embed = member_panel_embed(GUILD, true, Some(&browser), Some("   "));
    assert!(embed.description.starts_with("**Connected · ChatGPT mic muted**"));
    assert!(!embed.description.contains('_'));
    assert_eq!(embed.voice, "spruce");
    browser.voice_mode_active = false;
    assert!(member_panel_embed(GUILD, true, Some(&browser), None)
        .description
        .starts_with("**Connected · ChatGPT Voice is not active**"));
    browser.logged_in = false;
    browser.auth_required = true;
    browser.microphone_permission_required = true;
    browser.voice_limit_reset = Some("5 PM".to_owned());
    let embed = member_panel_embed(GUILD, true, Some(&browser), None);
    assert_eq!(embed.color, 0xFEE75C);
    assert_eq!(
        embed.description,
        "**Waiting for the dedicated ChatGPT browser**\nThis panel controls the shared GPTVoice session for this server.\n\nThe server's dedicated ChatGPT browser needs sign-in.\n\nChatGPT needs microphone permission; an administrator can open the browser and allow it."
    );
    browser.voice_limit_reached = true;
    let embed = member_panel_embed(GUILD, false, Some(&browser), None);
    assert_eq!(embed.color, 0xED4245);
    assert!(embed.description.starts_with("**ChatGPT Voice daily limit reached**"));
    assert!(embed.description.ends_with("\nVoice limit resets at **5 PM**."));
    let embed = member_panel_embed(GUILD, false, None, None);
    assert_eq!(embed.color, 0x5865F2);
    assert!(embed.description.starts_with("**Not connected to a Discord voice channel**"));
    assert_eq!(embed.thread, "No thread selected");
    assert_eq!(embed.voice, "Unknown");
}

#[test]
fn buttons_follow_the_connection() {
    let off = member_panel_components(7, false, Some(false));
    assert!(!off[0].disabled && off[1].disabled && off[2].disabled && off[3].disabled);
    let unknown = member_panel_components(7, true, None);
    assert!(unknown[2].disabled);
    assert_eq!(unknown[2].label, "Mute input");
    assert_eq!(unknown[2].look, ButtonLook::Secondary);
    assert_eq!(unknown[2].custom_id, "gptvoice:member:mic:7");
    assert_eq!(member_panel_components(7, true, Some(true))[2].look, ButtonLook::Danger);
    for (word, action) in [
        ("join", MemberPanelAction::Join),
        ("leave", MemberPanelAction::Leave),
        ("mic", MemberPanelAction::Mic),
        ("reconnect", MemberPanelAction::Reconnect),
    ] {
        assert_eq!(
            parse_member_panel_action(&member_panel_custom_id(word, 7)),
            Some((action, 7))
        );
    }
    assert_eq!(parse_member_panel_action("gptvoice:member:mic:x"), None);
    assert_eq!(parse_member_panel_action("other:member:mic:7"), None);
    assert_eq!(parse_member_panel_action("gptvoice:panel:mic:7"), None);
}

#[test]
fn panel_values_are_cut_to_their_limit() {
    assert_eq!(panel_value(Some("  abc  "), "x", 10), "abc");
    assert_eq!(panel_value(Some("   "), "fallback", 10), "fallback");
    assert_eq!(panel_value(None, "fallback", 8), "fallback");
    assert_eq!(panel_value(Some("abcdefgh"), "x", 7), "abcd...");
    assert_eq!(panel_value(Some("äöüßäöüß"), "x", 7), "äöüß...");
    assert_eq!(panel_value(Some("abcdefgh"), "x", 2), "...");
}

#[test]
fn the_monitor_reports_changes_only() {
    let mut monitor = PanelMonitor::new();
    let mut browser = active_browser();
    let first = MemberPanelSnapshot::new(true, Some(&browser));
    assert_eq!(first.active_thread.as_deref(), Some("Friends voice chat"));
    assert_eq!(monitor.observe(1, &first), Observation::First);
    monitor.accept(1, first);
    let again = MemberPanelSnapshot::new(true, Some(&browser));
    assert_eq!(monitor.observe(1, &again), Observation::Unchanged);
    browser.language = Some("English".to_owned());
    let changed = MemberPanelSnapshot::new(true, Some(&browser));
    assert_eq!(monitor.observe(1, &changed), Observation::Changed(None));
    browser.voice_mode_active = false;
    let ended = MemberPanelSnapshot::new(true, Some(&browser));
    assert_eq!(
        monitor.observe(1, &ended),
        Observation::Changed(Some(PanelNews::VoiceEnded))
    );
    assert!(monitor.has_voice_ended(1, &ended));
    browser.voice_limit_reached = true;
    let limited = MemberPanelSnapshot::new(true, Some(&browser));
    assert_eq!(
        monitor.observe(1, &limited),
        Observation::Changed(Some(PanelNews::LimitReached))
    );
    assert!(!monitor.has_voice_ended(1, &limited));
    assert!(PanelNews::LimitReached.word().contains("daily limit"));
    assert!(PanelNews::VoiceEnded.word().contains("ended by itself"));
    monitor.accept(2, limited);
    monitor.retain(&vec![2]);
    assert_eq!(monitor.observe(1, &ended), Observation::First);
    assert!(matches!(monitor.observe(2, &ended), Observation::Changed(_)));
}

#[test]
fn the_status_follows_the_connection() {
    let stopped = DiscordStatus::default();
    assert_eq!(stopped.state, "stopped");
    let mut runtime = DiscordRuntime::new();
    runtime.set_state("connecting");
    assert!(!runtime.status().connected);
    assert_eq!(runtime.ready("bot", 3), "Logged in to Discord as bot.");
    runtime.voice_joined(5);
    runtime.voice_joined(5);
    runtime.voice_joined(6);
    let status = runtime.status();
    assert!(status.connected);
    assert_eq!((status.guild_count, status.voice_count), (3, 2));
    assert_eq!(status.user_name.as_deref(), Some("bot"));
    assert!(runtime.voice_connected(5));
    assert_eq!(runtime.set_error("gone"), "Discord: gone");
    let status = runtime.status();
    assert_eq!(status.state, "error");
    assert_eq!(status.last_error.as_deref(), Some("gone"));
    assert_eq!(runtime.remember_member_panel(5, 10, 20), None);
    assert_eq!(runtime.remember_member_panel(5, 10, 20), None);
    let replaced = runtime.remember_member_panel(5, 10, 21).expect("the old panel");
    assert_eq!((replaced.channel_id, replaced.message_id), (10, 20));
    let deleted = runtime.stop_all();
    assert_eq!(deleted.len(), 1);
    assert_eq!(deleted[0].message_id, 21);
    let status = runtime.status();
    assert_eq!((status.state.as_str(), status.voice_count), ("stopped", 0));
    assert!(!runtime.voice_connected(5));
    assert!(runtime.delete_member_panels().is_empty());
    assert_eq!(
        DiscordStatus::unreadable().last_error.as_deref(),
        Some("Discord runtime state lock was poisoned")
    );
}

#[test]
fn the_connection_starts_with_valid_credentials_only() {
    let mut runtime = DiscordRuntime::new();
    assert!(matches!(
        start_runtime(&mut runtime, true, Err("x".to_owned())),
        StartDecision::Running
    ));
    assert!(matches!(
        start_runtime(&mut runtime, false, Err("x".to_owned())),
        StartDecision::Refused(error) if error == "x"
    ));
    assert!(matches!(
        start_runtime(&mut runtime, false, Ok(("t".to_owned(), Some("a1".to_owned())))),
        StartDecision::Refused(error) if error == "Configured Discord guild ID must be numeric"
    ));
    assert_eq!(runtime.status().state, "stopped");
    assert!(matches!(
        start_runtime(&mut runtime, false, Ok(("t".to_owned(), Some("12".to_owned())))),
        StartDecision::Start(token, Some(12)) if token == "t"
    ));
    assert_eq!(runtime.status().state, "connecting");
    assert!(matches!(
        start_runtime(&mut runtime, false, Ok(("t".to_owned(), None))),
        StartDecision::Start(_, None)
    ));
}

#[test]
fn interactions_are_routed() {
    let command = |name: &str| interaction_create(&MemberInteraction::Command(name.to_owned()));
    assert_eq!(command("join"), Request::Join);
    assert_eq!(command("leave"), Request::Leave);
    assert_eq!(command("status"), Request::Status);
    assert_eq!(command("other"), Request::Ignored);
    let button = |id: &str, guild: Option<u64>| {
        interaction_create(&MemberInteraction::Button(id.to_owned(), guild))
    };
    assert_eq!(
        button("gptvoice:member:mic:7", Some(7)),
        Request::Button(MemberPanelAction::Mic)
    );
    assert_eq!(button("gptvoice:member:mic:7", Some(8)), Request::Ignored);
    assert_eq!(button("gptvoice:member:mic:7", None), Request::Ignored);
    assert_eq!(button("x", Some(7)), Request::Ignored);
    assert_eq!(interaction_create(&MemberInteraction::Other), Request::Ignored);
    let commands = command_definitions();
    assert_eq!(commands.len(), 3);
    assert_eq!(commands[2].name, "status");
    assert_eq!(
        registration_note(true, Ok(3)),
        "Registered 3 Discord slash commands in the configured guild."
    );
    assert_eq!(
        registration_note(false, Err("no".to_owned())),
        "Could not register global slash commands: no"
    );
}

fn join(
    runtime: &mut DiscordRuntime,
    replies: Vec<Result<bool, String>>,
) -> (Vec<String>, String) {
    let (mut flow, mut action) = JoinVoice::join_voice(Some(5), runtime);
    let mut asked: Vec<String> = Vec::new();
    let mut replies = replies.into_iter();
    loop {
        match action {
            JoinAction::Reply(reply) => return (asked, reply.word()),
            other => asked.push(format!("{other:?}")),
        }
        let reply = replies.next().unwrap_or(Ok(true));
        let continued = flow.next(runtime, reply);
        flow = continued.0;
        action = continued.1;
    }
}

#[test]
fn joining_connects_the_relay() {
    let mut runtime = DiscordRuntime::new();
    let (asked, reply) = join(&mut runtime, vec![]);
    assert_eq!(
        asked,
        vec![
            "FindChannel",
            "FindDriver",
            "JoinChannel",
            "StartBrowser",
            "GetTransport",
            "TakeReader",
            "FindCall",
            "Attach"
        ]
    );
    assert!(reply.starts_with("Joined your voice channel"));
    assert!(runtime.voice_connected(5));
    let (asked, reply) = join(&mut runtime, vec![]);
    assert!(asked.is_empty());
    assert_eq!(reply, "GPTVoice is already connected to this server's voice channel.");
}

#[test]
fn a_failed_join_leaves_the_channel() {
    let yes = || Ok(true);
    let failed = || Err("why".to_owned());
    let cases: Vec<(Vec<Result<bool, String>>, &str, &str)> = vec![
        (vec![Ok(false)], "FindChannel", "Join a voice channel first, then press /join again."),
        (
            vec![yes(), Ok(false)],
            "FindDriver",
            "The Discord voice driver is not available yet.",
        ),
        (
            vec![yes(), yes(), failed()],
            "JoinChannel",
            "I could not join that voice channel: why",
        ),
        (
            vec![yes(), yes(), yes(), failed()],
            "LeaveChannel",
            "I could not start the dedicated ChatGPT browser: why",
        ),
        (
            vec![yes(), yes(), yes(), Ok(false)],
            "StopBrowser",
            "The dedicated ChatGPT profile needs sign-in. Complete the browser setup, then press /join again.",
        ),
        (
            vec![yes(), yes(), yes(), yes(), failed()],
            "LeaveChannel",
            "I could not start the browser audio transport: why",
        ),
        (
            vec![yes(), yes(), yes(), yes(), yes(), failed()],
            "LeaveChannel",
            "I could not attach ChatGPT audio to Discord: why",
        ),
        (
            vec![yes(), yes(), yes(), yes(), yes(), yes(), Ok(false)],
            "LeaveChannel",
            "Discord did not keep the voice connection open.",
        ),
    ];
    for (replies, last, expected) in cases {
        let mut runtime = DiscordRuntime::new();
        let (asked, reply) = join(&mut runtime, replies);
        assert_eq!(asked.last().map(String::as_str), Some(last));
        assert_eq!(reply, expected);
        assert!(!runtime.voice_connected(5));
    }
    let runtime = DiscordRuntime::new();
    let (_, action) = JoinVoice::join_voice(None, &runtime);
    assert!(matches!(
        action,
        JoinAction::Reply(reply) if reply.word() == "Use this control inside a Discord server."
    ));
}

#[test]
fn leaving_stops_the_browser() {
    let mut runtime = DiscordRuntime::new();
    runtime.voice_joined(5);
    let (flow, action) = LeaveVoice::leave_voice(Some(5));
    assert!(matches!(action, JoinAction::LeaveChannel));
    let (flow, action) = flow.next(&mut runtime);
    assert!(matches!(action, JoinAction::StopBrowser));
    assert!(!runtime.voice_connected(5));
    let (_, action) = flow.next(&mut runtime);
    assert!(matches!(
        action,
        JoinAction::Reply(reply)
            if reply.word() == "Left the Discord voice channel and stopped this guild's ChatGPT browser session."
    ));
    assert!(matches!(LeaveVoice::leave_voice(None).1, JoinAction::Reply(_)));
}

fn shown(action: ButtonAction) -> String {
    match action {
        ButtonAction::Show(reply) => reply.word(),
        other => panic!("unexpected action {other:?}"),
    }
}

#[test]
fn the_microphone_button_switches() {
    let (stage, action) = handle_member_panel_component("gptvoice:member:mic:7", Some(7));
    assert!(matches!(action, ButtonAction::ReadStatus));
    let mut browser = active_browser();
    browser.chatgpt_mic_muted = Some(false);
    let (stage, action) = button_next(stage, Ok(ButtonAnswer::Status(browser.clone())));
    assert!(matches!(action, ButtonAction::SetMicrophone(true)));
    assert_eq!(stage, ButtonStage::Switching(true));
    let (_, unchanged) = button_next(stage, Ok(ButtonAnswer::Status(browser.clone())));
    assert_eq!(shown(unchanged), "ChatGPT's microphone state did not update.");
    browser.chatgpt_mic_muted = Some(true);
    let (_, muted) = button_next(stage, Ok(ButtonAnswer::Status(browser.clone())));
    assert_eq!(shown(muted), "Input to ChatGPT is muted for this server.");
    browser.chatgpt_mic_muted = Some(false);
    let (_, live) =
        button_next(ButtonStage::Switching(false), Ok(ButtonAnswer::Status(browser.clone())));
    assert_eq!(shown(live), "Input to ChatGPT is live again for this server.");
    browser.chatgpt_mic_muted = None;
    let (_, unknown) = button_next(ButtonStage::Reading, Ok(ButtonAnswer::Status(browser)));
    assert_eq!(
        shown(unknown),
        "ChatGPT's microphone state is unavailable. Reconnect Voice and try again."
    );
}

#[test]
fn buttons_answer_for_every_outcome() {
    let press = |id: &str, guild: Option<u64>| handle_member_panel_component(id, guild);
    assert_eq!(
        shown(press("gptvoice:member:mic:7", None).1),
        "This panel can only be used inside a Discord server."
    );
    assert_eq!(
        shown(press("x", Some(7)).1),
        "This GPTVoice panel button is no longer valid."
    );
    assert_eq!(
        shown(press("gptvoice:member:mic:7", Some(8)).1),
        "This panel belongs to a different Discord server."
    );
    assert!(matches!(press("gptvoice:member:join:7", Some(7)).1, ButtonAction::Join));
    assert!(matches!(press("gptvoice:member:leave:7", Some(7)).1, ButtonAction::Leave));
    let (stage, action) = press("gptvoice:member:reconnect:7", Some(7));
    assert!(matches!(action, ButtonAction::ReconnectVoice));
    let mut browser = active_browser();
    let answer = |browser: &BrowserStatus| {
        shown(button_next(stage, Ok(ButtonAnswer::Status(browser.clone()))).1)
    };
    assert_eq!(answer(&browser), "ChatGPT Voice reconnected to the active thread.");
    browser.voice_mode_active = false;
    assert!(answer(&browser).starts_with("The browser refreshed, but"));
    browser.voice_limit_reached = true;
    assert_eq!(answer(&browser), "ChatGPT Voice reached its daily limit.");
    browser.voice_limit_reset = Some(String::new());
    assert_eq!(answer(&browser), "ChatGPT Voice reached its daily limit.");
    browser.voice_limit_reset = Some("5 PM".to_owned());
    assert_eq!(
        answer(&browser),
        "ChatGPT Voice reached its daily limit; it resets at 5 PM."
    );
    assert_eq!(shown(button_next(stage, Err("why".to_owned())).1), "why");
    assert_eq!(
        shown(button_next(ButtonStage::Joining, Ok(ButtonAnswer::Said("ok".to_owned()))).1),
        "ok"
    );
}

#[test]
fn track_events_are_logged() {
    let ready = track_event("ready", 7, "Play");
    assert!(!ready.warning);
    assert_eq!(ready.message, "Discord ChatGPT output track ready for guild 7: Play");
    assert!(track_event("error", 7, "x").warning);
    assert!(track_event("ended", 7, "x").warning);
}

#[test]
fn startup_starts_what_is_configured() {
    let note = |action: StartupAction| match action {
        StartupAction::Finish(note) => note.word(),
        other => panic!("unexpected action {other:?}"),
    };
    assert_eq!(
        note(Startup::spawn_runtime_start(Err("x".to_owned())).1),
        "Could not load startup configuration: x"
    );
    assert!(note(Startup::spawn_runtime_start(Ok((false, "1".to_owned()))).1)
        .starts_with("Discord is waiting for a bot token."));
    let (empty, action) = Startup::spawn_runtime_start(Ok((true, "  ".to_owned())));
    assert!(matches!(action, StartupAction::StartDiscord));
    assert!(note(empty.discord_started(Ok(()))).starts_with("Discord is running."));
    let (startup, _) = Startup::spawn_runtime_start(Ok((true, " 12 ".to_owned())));
    assert_eq!(
        note(startup.discord_started(Err("x".to_owned()))),
        "Discord auto-start failed: x"
    );
    assert!(matches!(
        startup.discord_started(Ok(())),
        StartupAction::StartBrowser(guild) if guild == "12"
    ));
    assert!(note(startup.browser_started(Ok(true))).ends_with("recent threads were prefetched."));
    assert!(note(startup.browser_started(Ok(false))).contains("waiting for sign-in"));
    assert_eq!(
        note(startup.browser_started(Err("x".to_owned()))),
        "ChatGPT browser auto-start failed: x"
    );
}

fn says(action: &InteractionAction) -> String {
    format!("{action:?}")
}

fn last_note(action: &InteractionAction) -> Option<String> {
    match action {
        InteractionAction::Finish(note) => Some(match note {
            Some(note) => note.word(),
            None => String::new(),
        }),
        _ => None,
    }
}

fn done() -> Result<String, String> {
    Ok(String::new())
}

#[test]
fn joining_is_answered_with_the_panel() {
    let mut runtime = DiscordRuntime::new();
    let (flow, action) = InteractionFlow::begin(Request::Join, Some(7), &runtime);
    assert_eq!(says(&action), "DeferPublicly");
    let (flow, action) = flow.next(&runtime, Err("ignored".to_owned()));
    assert_eq!(says(&action), "Join");
    runtime.voice_joined(7);
    let (flow, action) = flow.next(&runtime, Ok("Joined.".to_owned()));
    assert_eq!(says(&action), "ShowPanel(\"Joined.\")");
    let (flow, action) = flow.next(&runtime, done());
    assert_eq!(says(&action), "RememberPanel");
    let (_, action) = flow.next(&runtime, done());
    assert_eq!(last_note(&action).as_deref(), Some(""));

    let (flow, _) = InteractionFlow::begin(Request::Join, Some(8), &runtime);
    let (flow, _) = flow.next(&runtime, done());
    let (flow, action) = flow.next(&runtime, Err("Join a voice channel first.".to_owned()));
    assert_eq!(says(&action), "Say(\"Join a voice channel first.\")");
    let (_, action) = flow.next(&runtime, done());
    assert_eq!(last_note(&action).as_deref(), Some(""));

    let (flow, _) = InteractionFlow::begin(Request::Join, None, &runtime);
    let (flow, _) = flow.next(&runtime, done());
    let (flow, action) = flow.next(&runtime, Err("no server".to_owned()));
    assert_eq!(says(&action), "Say(\"no server\")");
    let (_, action) = flow.next(&runtime, Err("x".to_owned()));
    assert_eq!(last_note(&action).as_deref(), Some("Discord join response failed: x"));
    assert_eq!(
        joined_note(7),
        "Joined Discord voice and opened ChatGPT for guild 7."
    );
}

#[test]
fn the_other_interactions_are_answered() {
    let mut runtime = DiscordRuntime::new();
    let (flow, action) = InteractionFlow::begin(Request::Leave, Some(7), &runtime);
    assert_eq!(says(&action), "DeferPrivately");
    let (flow, action) = flow.next(&runtime, done());
    assert_eq!(says(&action), "Leave");
    let (flow, action) = flow.next(&runtime, Ok("Left.".to_owned()));
    assert_eq!(says(&action), "Say(\"Left.\")");
    let (_, action) = flow.next(&runtime, Err("ignored".to_owned()));
    assert_eq!(last_note(&action).as_deref(), Some(""));

    let (flow, action) = InteractionFlow::begin(Request::Status, Some(7), &runtime);
    assert_eq!(says(&action), "AnswerPrivately(\"GPTVoice is not connected to Discord.\")");
    let (_, action) = flow.next(&runtime, Err("x".to_owned()));
    assert_eq!(last_note(&action).as_deref(), Some("Discord interaction failed: x"));
    runtime.ready("bot", 1);
    let (flow, action) = InteractionFlow::begin(Request::Status, Some(7), &runtime);
    assert_eq!(says(&action), "AnswerPrivately(\"GPTVoice is connected to Discord.\")");
    let (_, action) = flow.next(&runtime, done());
    assert_eq!(last_note(&action).as_deref(), Some(""));

    let press = Request::Button(MemberPanelAction::Mic);
    let (flow, action) = InteractionFlow::begin(press, Some(7), &runtime);
    assert_eq!(says(&action), "Acknowledge");
    let (flow, action) = flow.next(&runtime, done());
    assert_eq!(says(&action), "Press");
    let (flow, action) = flow.next(&runtime, Err("no microphone".to_owned()));
    assert_eq!(says(&action), "ShowPanel(\"no microphone\")");
    let (flow, action) = flow.next(&runtime, done());
    assert_eq!(says(&action), "RememberPanel");
    let (_, action) = flow.next(&runtime, done());
    assert_eq!(last_note(&action).as_deref(), Some(""));

    let press = Request::Button(MemberPanelAction::Mic);
    let (flow, _) = InteractionFlow::begin(press, Some(7), &runtime);
    let (_, action) = flow.next(&runtime, Err("x".to_owned()));
    assert_eq!(last_note(&action).as_deref(), Some("Discord panel acknowledgement failed: x"));
    let press = Request::Button(MemberPanelAction::Mic);
    let (flow, _) = InteractionFlow::begin(press, Some(7), &runtime);
    let (flow, _) = flow.next(&runtime, done());
    let (flow, _) = flow.next(&runtime, done());
    let (_, action) = flow.next(&runtime, Err("x".to_owned()));
    assert_eq!(last_note(&action).as_deref(), Some("Discord member panel update failed: x"));

    let (_, action) = InteractionFlow::begin(Request::Ignored, Some(7), &runtime);
    assert_eq!(last_note(&action).as_deref(), Some(""));
}

#[test]
fn commands_are_registered_in_the_server_and_everywhere() {
    let (flow, action) = Registration::begin(Some(7));
    assert!(matches!(action, RegisterAction::InGuild(7)));
    let (flow, note, action) = flow.next(Err("no".to_owned()));
    assert_eq!(note, registration_note(true, Err("no".to_owned())));
    assert!(matches!(action, RegisterAction::Everywhere));
    let (_, note, action) = flow.next(Ok(3));
    assert_eq!(note, registration_note(false, Ok(3)));
    assert!(matches!(action, RegisterAction::Finish));
    let (flow, action) = Registration::begin(None);
    assert!(matches!(action, RegisterAction::Everywhere));
    assert!(matches!(flow.next(Ok(3)).2, RegisterAction::Finish));
}

fn edit_of(step: (Option<PanelEdit>, RefreshAction)) -> (PanelEdit, WrittenPanel) {
    match step {
        (Some(edit), RefreshAction::Edit(panel)) => (edit, panel),
        other => panic!("no edit: {other:?}"),
    }
}

#[test]
fn panels_follow_their_sessions() {
    let mut monitor = PanelMonitor::new();
    let (edit, action) = monitor.refresh(7, true);
    assert!(edit.is_none() && matches!(action, RefreshAction::ReadStatus));
    let step = monitor.status_read(7, Ok(active_browser()));
    assert!(matches!(step, (None, RefreshAction::Finish(None))));
    let step = monitor.status_read(7, Ok(active_browser()));
    assert!(matches!(step, (None, RefreshAction::Finish(None))));

    let mut ended = active_browser();
    ended.voice_mode_active = false;
    let (edit, panel) = edit_of(monitor.status_read(7, Ok(ended)));
    assert!(edit.voice_ended);
    assert!(panel.embed.description.contains(PanelNews::VoiceEnded.word()));
    assert_eq!(panel.buttons[1].custom_id, "gptvoice:member:leave:7");
    let note = monitor.edited(edit, EditReply::Failed("x".to_owned())).expect("a note");
    assert_eq!(note.word(), "Discord member panel refresh failed for guild 7: x");

    let mut ended = active_browser();
    ended.voice_mode_active = false;
    let (edit, _) = edit_of(monitor.status_read(7, Ok(ended)));
    assert!(monitor.edited(edit, EditReply::Unavailable).is_none());
    let mut ended = active_browser();
    ended.voice_mode_active = false;
    let (edit, _) = edit_of(monitor.status_read(7, Ok(ended)));
    let note = monitor.edited(edit, EditReply::Edited).expect("a note");
    assert_eq!(
        note.word(),
        "ChatGPT Voice ended for guild 7; Discord member panel refreshed."
    );
    let mut ended = active_browser();
    ended.voice_mode_active = false;
    let step = monitor.status_read(7, Ok(ended));
    assert!(matches!(step, (None, RefreshAction::Finish(None))));

    let (edit, panel) = edit_of(monitor.refresh(7, false));
    assert!(!edit.voice_ended);
    assert!(!panel.buttons[0].disabled);
    assert!(monitor.edited(edit, EditReply::Edited).is_none());
    match monitor.status_read(7, Err("gone".to_owned())) {
        (None, RefreshAction::Finish(Some(note))) => assert_eq!(
            note.word(),
            "Discord panel status refresh failed for guild 7: gone"
        ),
        other => panic!("no note: {other:?}"),
    }
}

#[test]
fn a_panel_is_written_with_its_buttons() {
    let mut browser = active_browser();
    browser.chatgpt_mic_muted = Some(true);
    let panel = member_panel_response(7, true, Some(&browser), Some("hello"));
    assert!(panel.embed.description.ends_with("_hello_"));
    assert_eq!(panel.embed.footer, "Server 7");
    assert_eq!(panel.buttons[2].label, "Unmute input");
    let panel = member_panel_response(7, false, None, None);
    assert!(panel.buttons[2].disabled);
}

#[test]
fn panels_are_watched_by_one_monitor() {
    assert!(DiscordRuntime::start_member_panel_monitor(true).is_none());
    let monitor = DiscordRuntime::start_member_panel_monitor(false).expect("a monitor");
    assert!(monitor.shown.is_empty());
}

#[test]
fn all_panels_are_listed() {
    let mut runtime = DiscordRuntime::new();
    assert_eq!(runtime.remember_member_panel(5, 10, 20), None);
    assert_eq!(runtime.remember_member_panel(6, 11, 21), None);
    assert_eq!(runtime.remember_member_panel(5, 12, 22).expect("the old panel").message_id, 20);
    let mut messages: Vec<(u64, u64)> = runtime
        .tracked_panels()
        .iter()
        .map(|panel| (panel.guild_id, panel.message_id))
        .collect();
    messages.sort();
    assert_eq!(messages, vec![(5, 22), (6, 21)]);
    assert_eq!(runtime.delete_member_panels().len(), 2);
    assert!(runtime.tracked_panels().is_empty());
}
