//! One dedicated browser session: its status, and what a look at the page changes.

use crate::config::ConfigSnapshot;
use crate::text;
use crate::transport::BrowserMediaDiagnostics;
use vstd::prelude::*;

verus! {

/// How many failed looks at the page in a row restart the browser.
pub const CDP_FAILURES_BEFORE_RESTART: u32 = 3;

/// How many looks in a row have to find Voice inactive before it counts as ended.
pub const VOICE_END_CONFIRMATION_CHECKS: u32 = 2;

/// How many looks in a row have to miss the audio of Voice before it counts as ended.
pub const VOICE_MEDIA_END_CONFIRMATION_CHECKS: u32 = 3;

/// The file in a profile that tells that its browser was signed in.
pub const AUTH_MARKER: &'static str = ".gptvoice-authenticated";

/// A conversation of the account.
#[derive(Debug, Clone)]
pub struct ThreadSummary {
    pub id: String,
    pub title: String,
    pub url: String,
}

impl ThreadSummary {
    /// The same conversation once more.
    pub fn copy(&self) -> (thread: Self)
        ensures
            thread == *self,
    {
        ThreadSummary { id: self.id.clone(), title: self.title.clone(), url: self.url.clone() }
    }
}

/// A voice that can be chosen.
#[derive(Debug, Clone)]
pub struct VoiceOption {
    pub value: String,
    pub label: String,
    pub description: Option<String>,
}

/// What the Voice settings offer.
#[derive(Debug)]
pub struct VoiceSettingOptions {
    pub voices: Vec<VoiceOption>,
    pub intelligence: Vec<String>,
    pub languages: Vec<String>,
    pub current_voice: Option<String>,
    pub current_voice_description: Option<String>,
}

/// A browser session as the panel shows it.
#[derive(Debug, Clone)]
pub struct BrowserStatus {
    pub guild_id: String,
    pub open: bool,
    pub logged_in: bool,
    pub auth_required: bool,
    pub url: Option<String>,
    pub title: Option<String>,
    pub voice_control_visible: bool,
    pub voice_mode_active: bool,
    pub voice_settings_open: bool,
    pub voice: Option<String>,
    pub voice_description: Option<String>,
    pub intelligence: Option<String>,
    pub language: Option<String>,
    pub available_voices: Vec<VoiceOption>,
    pub available_intelligence: Vec<String>,
    pub available_languages: Vec<String>,
    pub chatgpt_mic_muted: Option<bool>,
    pub microphone_permission_required: bool,
    pub voice_limit_reached: bool,
    pub voice_limit_reset: Option<String>,
    pub active_thread: Option<ThreadSummary>,
    pub recent_threads: Vec<ThreadSummary>,
    pub browser_process_id: Option<u32>,
    pub window_hidden: bool,
    pub media: BrowserMediaDiagnostics,
    pub cdp_status_failures: u32,
    pub cdp_restarts: u64,
    pub error: Option<String>,
}

impl BrowserStatus {
    /// The status of a guild's browser that is not running: nothing is open, known or counted.
    pub open spec fn is_closed(self, guild_id: Seq<char>) -> bool {
        &&& self.guild_id@ == guild_id
        &&& self.available_voices@.len() == 0
        &&& self.available_intelligence@.len() == 0
        &&& self.available_languages@.len() == 0
        &&& self.recent_threads@.len() == 0
        &&& self == (BrowserStatus {
            guild_id: self.guild_id,
            open: false,
            logged_in: false,
            auth_required: false,
            url: None,
            title: None,
            voice_control_visible: false,
            voice_mode_active: false,
            voice_settings_open: false,
            voice: None,
            voice_description: None,
            intelligence: None,
            language: None,
            available_voices: self.available_voices,
            available_intelligence: self.available_intelligence,
            available_languages: self.available_languages,
            chatgpt_mic_muted: None,
            microphone_permission_required: false,
            voice_limit_reached: false,
            voice_limit_reset: None,
            active_thread: None,
            recent_threads: self.recent_threads,
            browser_process_id: None,
            window_hidden: false,
            media: BrowserMediaDiagnostics::none(),
            cdp_status_failures: 0,
            cdp_restarts: 0,
            error: None,
        })
    }

    /// The status of a browser that is not running.
    pub fn closed(guild_id: &str) -> (status: Self)
        ensures
            status.is_closed(guild_id@),
    {
        BrowserStatus {
            guild_id: guild_id.to_owned(),
            open: false,
            logged_in: false,
            auth_required: false,
            url: None,
            title: None,
            voice_control_visible: false,
            voice_mode_active: false,
            voice_settings_open: false,
            voice: None,
            voice_description: None,
            intelligence: None,
            language: None,
            available_voices: Vec::new(),
            available_intelligence: Vec::new(),
            available_languages: Vec::new(),
            chatgpt_mic_muted: None,
            microphone_permission_required: false,
            voice_limit_reached: false,
            voice_limit_reset: None,
            active_thread: None,
            recent_threads: Vec::new(),
            browser_process_id: None,
            window_hidden: false,
            media: BrowserMediaDiagnostics::unattached(),
            cdp_status_failures: 0,
            cdp_restarts: 0,
            error: None,
        }
    }

    /// The status of a browser whose account was never signed in.
    pub fn sign_in_required(guild_id: &str) -> (status: Self)
        ensures
            status.open,
            status.auth_required,
            text::option_view(status.error) == Some(
                "Sign in to ChatGPT in the dedicated GPTVoice browser window."@,
            ),
            (BrowserStatus { open: false, auth_required: false, error: None, ..status }).is_closed(
                guild_id@,
            ),
    {
        let mut status = BrowserStatus::closed(guild_id);
        status.open = true;
        status.auth_required = true;
        status.error =
        Some("Sign in to ChatGPT in the dedicated GPTVoice browser window.".to_owned());
        status
    }

    /// The status after the offered options were read.
    pub open spec fn with_options(self, options: VoiceSettingOptions) -> BrowserStatus {
        BrowserStatus {
            available_voices: options.voices,
            available_intelligence: options.intelligence,
            available_languages: options.languages,
            intelligence: if options.intelligence@.len() == 0 {
                None
            } else {
                self.intelligence
            },
            voice: if options.current_voice is Some {
                options.current_voice
            } else {
                self.voice
            },
            voice_description: if options.current_voice is Some {
                options.current_voice_description
            } else {
                self.voice_description
            },
            ..self
        }
    }

    fn set_options(&mut self, options: VoiceSettingOptions)
        ensures
            *final(self) == old(self).with_options(options),
    {
        self.available_voices = options.voices;
        self.available_languages = options.languages;
        if options.intelligence.len() == 0 {
            self.intelligence = None;
        }
        self.available_intelligence = options.intelligence;
        if options.current_voice.is_some() {
            self.voice = options.current_voice;
            self.voice_description = options.current_voice_description;
        }
    }

    /// How the current voice is described after a look at the page.
    pub open spec fn description_after(self, page: PageState) -> Option<Seq<char>> {
        match page.voice {
            Some(voice) => if page.voice_description is Some {
                text::option_view(page.voice_description)
            } else {
                listed_description(self.available_voices@, voice@)
            },
            None => text::option_view(self.voice_description),
        }
    }

    /// The status after a look at the page, apart from counters and audio figures. Whatever the
    /// page does not show stays as it was, except an intelligence that is known not to be
    /// offered.
    pub open spec fn with_page(
        self,
        page: PageState,
        active: bool,
        forget_intelligence: bool,
        description: Option<String>,
    ) -> BrowserStatus {
        BrowserStatus {
            open: true,
            url: Some(page.url),
            title: Some(page.title),
            logged_in: page.logged_in,
            auth_required: !page.logged_in,
            voice_control_visible: page.voice_control_visible,
            voice_mode_active: active,
            voice_settings_open: page.voice_settings_open,
            voice: if page.voice is Some {
                page.voice
            } else {
                self.voice
            },
            voice_description: description,
            intelligence: if page.intelligence is Some {
                page.intelligence
            } else if forget_intelligence {
                None
            } else {
                self.intelligence
            },
            language: if page.language is Some {
                page.language
            } else {
                self.language
            },
            chatgpt_mic_muted: page.chatgpt_mic_muted,
            microphone_permission_required: page.microphone_permission_required,
            voice_limit_reached: page.voice_limit_reached,
            voice_limit_reset: page.voice_limit_reset,
            ..self
        }
    }

    fn set_voice_facts(
        &mut self,
        voice: Option<String>,
        description: Option<String>,
        intelligence: Option<String>,
        forget_intelligence: bool,
        language: Option<String>,
    )
        ensures
            *final(self) == (BrowserStatus {
                voice: if voice is Some {
                    voice
                } else {
                    old(self).voice
                },
                voice_description: final(self).voice_description,
                intelligence: if intelligence is Some {
                    intelligence
                } else if forget_intelligence {
                    None
                } else {
                    old(self).intelligence
                },
                language: if language is Some {
                    language
                } else {
                    old(self).language
                },
                ..*old(self)
            }),
            text::option_view(final(self).voice_description) == match voice {
                Some(voice) => if description is Some {
                    text::option_view(description)
                } else {
                    listed_description(old(self).available_voices@, voice@)
                },
                None => text::option_view(old(self).voice_description),
            },
    {
        if let Some(voice) = voice {
            self.voice_description = match description {
                Some(description) => Some(description),
                None => describe(&self.available_voices, voice.as_str()),
            };
            self.voice = Some(voice);
        }
        if intelligence.is_some() {
            self.intelligence = intelligence;
        } else if forget_intelligence {
            self.intelligence = None;
        }
        if language.is_some() {
            self.language = language;
        }
    }

    fn set_page(&mut self, page: PageState, active: bool, forget_intelligence: bool)
        ensures
            *final(self) == old(self).with_page(
                page,
                active,
                forget_intelligence,
                final(self).voice_description,
            ),
            text::option_view(final(self).voice_description) == old(self).description_after(page),
    {
        self.set_voice_facts(
            page.voice,
            page.voice_description,
            page.intelligence,
            forget_intelligence,
            page.language,
        );
        self.open = true;
        self.url = Some(page.url);
        self.title = Some(page.title);
        self.logged_in = page.logged_in;
        self.auth_required = !page.logged_in;
        self.voice_control_visible = page.voice_control_visible;
        self.voice_mode_active = active;
        self.voice_settings_open = page.voice_settings_open;
        self.chatgpt_mic_muted = page.chatgpt_mic_muted;
        self.microphone_permission_required = page.microphone_permission_required;
        self.voice_limit_reached = page.voice_limit_reached;
        self.voice_limit_reset = page.voice_limit_reset;
    }

    fn set_counters(&mut self, restarts: u64, process: Option<u32>)
        ensures
            *final(self) == (BrowserStatus {
                cdp_status_failures: 0,
                cdp_restarts: restarts,
                browser_process_id: process,
                ..*old(self)
            }),
    {
        self.cdp_status_failures = 0;
        self.cdp_restarts = restarts;
        self.browser_process_id = process;
    }

    fn set_media(&mut self, diagnostics: BrowserMediaDiagnostics, track_count: u64)
        ensures
            *final(self) == old(self).with_media(diagnostics, track_count),
    {
        let mut diagnostics = diagnostics;
        diagnostics.output_track_count = track_count;
        self.media = diagnostics;
    }

    /// The status with the state of the audio bridge filled in.
    pub open spec fn with_media(
        self,
        diagnostics: BrowserMediaDiagnostics,
        track_count: u64,
    ) -> BrowserStatus {
        BrowserStatus {
            media: BrowserMediaDiagnostics { output_track_count: track_count, ..diagnostics },
            ..self
        }
    }
}

/// What the page shows.
#[derive(Debug)]
pub struct PageState {
    pub url: String,
    pub title: String,
    pub logged_in: bool,
    pub voice_control_visible: bool,
    pub voice_mode_active: bool,
    pub voice_settings_open: bool,
    pub voice: Option<String>,
    pub voice_description: Option<String>,
    pub intelligence: Option<String>,
    pub language: Option<String>,
    pub chatgpt_mic_muted: Option<bool>,
    pub microphone_permission_required: bool,
    pub voice_limit_reached: bool,
    pub voice_limit_reset: Option<String>,
}

/// What the bridge inside the page tells about itself.
#[derive(Debug, Clone, Copy)]
pub struct PageMediaState {
    pub installed: bool,
    pub output_track_count: u64,
}

/// What the audio of the page tells about Voice.
#[derive(Debug, Clone, Copy)]
pub struct MediaSignal {
    /// There is somebody to ask: a bridge in the page, or a connected transport.
    pub available: bool,
    /// The number of audio tracks that the page plays.
    pub track_count: u64,
}

impl MediaSignal {
    /// The page plays audio.
    pub open spec fn playing(self) -> bool {
        self.available && self.track_count > 0
    }
}

/// The audio signal: the bridge in the page counts where it is installed, the transport's own
/// figures elsewhere.
pub open spec fn signal_of(
    page_media: Option<PageMediaState>,
    connected: bool,
    track_count: u64,
) -> MediaSignal {
    match page_media {
        Some(page) => if page.installed {
            MediaSignal { available: true, track_count: page.output_track_count }
        } else {
            MediaSignal { available: connected, track_count }
        },
        None => MediaSignal { available: connected, track_count },
    }
}

/// Combines what the page and the transport know about the page's audio.
pub fn media_signal(
    page_media: Option<PageMediaState>,
    connected: bool,
    track_count: u64,
) -> (signal: MediaSignal)
    ensures
        signal == signal_of(page_media, connected, track_count),
{
    match page_media {
        Some(page) => if page.installed {
            MediaSignal { available: true, track_count: page.output_track_count }
        } else {
            MediaSignal { available: connected, track_count }
        },
        None => MediaSignal { available: connected, track_count },
    }
}

/// What the session remembers to tell whether Voice is on.
#[derive(Debug, Clone, Copy, PartialEq, Eq, Structural)]
pub struct VoiceWatch {
    /// Voice counts as active.
    pub active: bool,
    /// How many looks in a row found Voice inactive.
    pub inactive_checks: u32,
    /// The audio of Voice was heard since Voice began.
    pub media_seen: bool,
    /// How many looks in a row missed the audio.
    pub media_missing_checks: u32,
}

/// A counter that stops at its largest value.
pub open spec fn saturated(counter: u32) -> u32 {
    if counter == u32::MAX {
        u32::MAX
    } else {
        (counter + 1) as u32
    }
}

fn saturate(counter: u32) -> (result: u32)
    ensures
        result == saturated(counter),
{
    if counter == u32::MAX {
        u32::MAX
    } else {
        counter + 1
    }
}

impl VoiceWatch {
    /// The watch after the audio was looked at.
    pub open spec fn listened(self, playing: bool, settings_open: bool) -> VoiceWatch {
        if playing {
            VoiceWatch { media_seen: true, media_missing_checks: 0, ..self }
        } else if self.media_seen && !settings_open {
            VoiceWatch { media_missing_checks: saturated(self.media_missing_checks), ..self }
        } else {
            VoiceWatch { media_missing_checks: 0, ..self }
        }
    }

    /// The audio has been missing for so long that Voice has ended.
    pub open spec fn silent_for_good(self, playing: bool, settings_open: bool) -> bool {
        let heard = self.listened(playing, settings_open);
        heard.media_seen && !playing && !settings_open && heard.media_missing_checks
            >= VOICE_MEDIA_END_CONFIRMATION_CHECKS
    }

    /// The watch after one look: `shown` tells that the page shows Voice as active.
    pub open spec fn checked(self, shown: bool, playing: bool, settings_open: bool) -> VoiceWatch {
        let heard = self.listened(playing, settings_open);
        if self.silent_for_good(playing, settings_open) {
            VoiceWatch {
                active: false,
                inactive_checks: 0,
                media_seen: false,
                media_missing_checks: 0,
            }
        } else if shown || playing {
            VoiceWatch { active: true, inactive_checks: 0, ..heard }
        } else if self.active && settings_open {
            VoiceWatch { inactive_checks: 0, ..heard }
        } else if self.active {
            if saturated(self.inactive_checks) >= VOICE_END_CONFIRMATION_CHECKS {
                VoiceWatch { active: false, inactive_checks: 0, ..heard }
            } else {
                VoiceWatch { inactive_checks: saturated(self.inactive_checks), ..heard }
            }
        } else {
            VoiceWatch { active: false, inactive_checks: 0, ..heard }
        }
    }

    /// Looks once: `shown` tells that the page shows Voice as active, `playing` that it plays
    /// audio. Open Voice settings hide the live controls for a while, so that they neither end
    /// Voice nor count against it.
    pub fn check(&mut self, shown: bool, playing: bool, settings_open: bool)
        ensures
            *final(self) == old(self).checked(shown, playing, settings_open),
    {
        if playing {
            self.media_seen = true;
            self.media_missing_checks = 0;
        } else if self.media_seen && !settings_open {
            self.media_missing_checks = saturate(self.media_missing_checks);
        } else {
            self.media_missing_checks = 0;
        }
        let silent_for_good = self.media_seen && !playing && !settings_open
            && self.media_missing_checks >= VOICE_MEDIA_END_CONFIRMATION_CHECKS;
        if silent_for_good {
            self.inactive_checks = 0;
            self.media_seen = false;
            self.media_missing_checks = 0;
            self.active = false;
        } else if shown || playing {
            self.inactive_checks = 0;
            self.active = true;
        } else if self.active && settings_open {
            self.inactive_checks = 0;
        } else if self.active {
            self.inactive_checks = saturate(self.inactive_checks);
            if self.inactive_checks >= VOICE_END_CONFIRMATION_CHECKS {
                self.inactive_checks = 0;
                self.active = false;
            }
        } else {
            self.inactive_checks = 0;
            self.active = false;
        }
    }
}

/// Active Voice ends in one of two ways only: the page showed it inactive twice in a row, or its
/// audio was missed three times in a row. With open settings it never ends.
pub proof fn voice_end_is_confirmed(
    watch: VoiceWatch,
    shown: bool,
    playing: bool,
    settings_open: bool,
)
    requires
        watch.active,
        !watch.checked(shown, playing, settings_open).active,
    ensures
        !settings_open,
        !playing,
        ({
            ||| watch.media_seen && watch.media_missing_checks + 1
                >= VOICE_MEDIA_END_CONFIRMATION_CHECKS
            ||| !shown && watch.inactive_checks + 1 >= VOICE_END_CONFIRMATION_CHECKS
        }),
{
}

/// A single look that finds Voice inactive does not end it; a second one in a row does.
pub proof fn second_inactive_look_ends_voice(watch: VoiceWatch)
    requires
        watch.active,
        watch.inactive_checks == 0,
        !watch.media_seen,
    ensures
        watch.checked(false, false, false).active,
        !watch.checked(false, false, false).checked(false, false, false).active,
{
}

/// Once the audio of Voice was heard, three looks in a row that miss it end Voice, even where the
/// page still shows it as active; two do not.
pub proof fn third_silent_look_ends_voice(watch: VoiceWatch)
    requires
        watch.active,
        watch.media_seen,
        watch.media_missing_checks == 0,
    ensures
        watch.checked(true, false, false).active,
        watch.checked(true, false, false).checked(true, false, false).active,
        !watch.checked(true, false, false).checked(true, false, false).checked(
            true,
            false,
            false,
        ).active,
{
}

/// A page that plays audio has Voice active.
pub proof fn playing_page_has_active_voice(watch: VoiceWatch, shown: bool, settings_open: bool)
    ensures
        watch.checked(shown, true, settings_open).active,
{
}

/// The short description of a well-known voice.
pub open spec fn known_description(voice: Seq<char>) -> Seq<char> {
    let name = text::ascii_lowered(voice);
    if name == "arbor"@ {
        "Easygoing and versatile"@
    } else if name == "breeze"@ {
        "Animated and earnest"@
    } else if name == "cove"@ {
        "Composed and direct"@
    } else if name == "ember"@ {
        "Confident and optimistic"@
    } else if name == "juniper"@ {
        "Open and upbeat"@
    } else if name == "maple"@ {
        "Cheerful and candid"@
    } else if name == "sol"@ {
        "Savvy and relaxed"@
    } else if name == "spruce"@ {
        "Calm and affirming"@
    } else if name == "vale"@ {
        "Bright and inquisitive"@
    } else {
        ""@
    }
}

/// Describes a well-known voice; an unknown one has an empty description.
pub fn voice_description(voice: &str) -> (description: &'static str)
    ensures
        description@ == known_description(voice@),
{
    let lower = text::to_ascii_lowercase(voice);
    let name = lower.as_str();
    if text::same(name, "arbor") {
        "Easygoing and versatile"
    } else if text::same(name, "breeze") {
        "Animated and earnest"
    } else if text::same(name, "cove") {
        "Composed and direct"
    } else if text::same(name, "ember") {
        "Confident and optimistic"
    } else if text::same(name, "juniper") {
        "Open and upbeat"
    } else if text::same(name, "maple") {
        "Cheerful and candid"
    } else if text::same(name, "sol") {
        "Savvy and relaxed"
    } else if text::same(name, "spruce") {
        "Calm and affirming"
    } else if text::same(name, "vale") {
        "Bright and inquisitive"
    } else {
        ""
    }
}

/// The first voice in a list whose value is the given name, in any case.
pub open spec fn matching_voice(voices: Seq<VoiceOption>, name: Seq<char>) -> Option<VoiceOption>
    decreases voices.len(),
{
    if voices.len() == 0 {
        None
    } else if text::same_ignoring_case(voices[0].value@, name) {
        Some(voices[0])
    } else {
        matching_voice(voices.skip(1), name)
    }
}

/// Finds a voice in a list.
pub fn find_voice<'a>(voices: &'a Vec<VoiceOption>, name: &str) -> (found: Option<&'a VoiceOption>)
    ensures
        match found {
            Some(found) => matching_voice(voices@, name@) == Some(*found),
            None => matching_voice(voices@, name@) is None,
        },
{
    let mut next: usize = 0;
    assert(voices@.skip(0) =~= voices@);
    while next < voices.len()
        invariant
            next <= voices@.len(),
            matching_voice(voices@, name@) == matching_voice(voices@.skip(next as int), name@),
        decreases voices@.len() - next,
    {
        assert(voices@.skip(next as int)[0] == voices@[next as int]);
        assert(voices@.skip(next as int).skip(1) =~= voices@.skip(next as int + 1));
        if text::eq_ignore_ascii_case(voices[next].value.as_str(), name) {
            return Some(&voices[next]);
        }
        next = next + 1;
    }
    None
}

/// How a voice is described: as its entry in the list says, or as a well-known voice.
pub open spec fn listed_description(voices: Seq<VoiceOption>, name: Seq<char>) -> Option<
    Seq<char>,
> {
    let listed = match matching_voice(voices, name) {
        Some(voice) => text::option_view(voice.description),
        None => None,
    };
    if listed is Some {
        listed
    } else if known_description(name).len() > 0 {
        Some(known_description(name))
    } else {
        None
    }
}

fn describe(voices: &Vec<VoiceOption>, name: &str) -> (description: Option<String>)
    ensures
        text::option_view(description) == listed_description(voices@, name@),
{
    if let Some(voice) = find_voice(voices, name) {
        if let Some(description) = &voice.description {
            return Some(description.clone());
        }
    }
    let description = voice_description(name);
    if description.is_empty() {
        None
    } else {
        Some(description.to_owned())
    }
}

/// The session of one guild's dedicated browser. The process, the control connection and the
/// audio transport themselves are the caller's part.
pub struct BrowserSession {
    pub guild_id: String,
    pub url: String,
    pub executable: Option<String>,
    pub hide_when_ready: bool,
    pub manual_visibility_override: Option<bool>,
    pub visibility_hold: bool,
    /// The process that was launched.
    pub child: Option<u32>,
    pub browser_process_id: Option<u32>,
    /// The page is under control.
    pub controlled: bool,
    pub page_target_id: Option<String>,
    /// The audio transport exists.
    pub media: bool,
    pub options_fetched_at: Option<u64>,
    pub recent_threads_fetched_at: Option<u64>,
    pub last_status_refresh_at: Option<u64>,
    pub cdp_status_failures: u32,
    pub cdp_restarts: u64,
    pub voice_inactive_checks: u32,
    pub voice_media_seen: bool,
    pub voice_media_missing_checks: u32,
    pub status: BrowserStatus,
}

impl BrowserSession {
    /// Nothing of a browser is left: no process, no control, no audio, and nothing remembered of
    /// the page.
    pub open spec fn is_idle(self) -> bool {
        &&& self.manual_visibility_override is None
        &&& !self.visibility_hold
        &&& self.child is None
        &&& self.browser_process_id is None
        &&& !self.controlled
        &&& self.page_target_id is None
        &&& !self.media
        &&& self.options_fetched_at is None
        &&& self.recent_threads_fetched_at is None
        &&& self.last_status_refresh_at is None
        &&& self.cdp_status_failures == 0
        &&& self.voice_inactive_checks == 0
        &&& !self.voice_media_seen
        &&& self.voice_media_missing_checks == 0
        &&& (BrowserStatus { cdp_restarts: 0, ..self.status }).is_closed(self.guild_id@)
        &&& self.status.cdp_restarts == self.cdp_restarts
    }

    /// The session is one whose browser was never started: nothing but its setup is known.
    pub open spec fn is_new(self, guild_id: Seq<char>, config: ConfigSnapshot) -> bool {
        &&& self.is_idle()
        &&& self.guild_id@ == guild_id
        &&& self.url == config.chatgpt_url
        &&& self.executable == (if text::trimmed(config.browser_executable@).len() == 0 {
            None
        } else {
            Some(config.browser_executable)
        })
        &&& self.hide_when_ready == config.browser_hide_when_ready
        &&& self.cdp_restarts == 0
    }

    /// The session of a guild before its browser was ever started.
    pub fn new(guild_id: &str, config: &ConfigSnapshot) -> (session: Self)
        ensures
            session.is_new(guild_id@, *config),
    {
        let trimmed = text::trim(config.browser_executable.as_str());
        BrowserSession {
            guild_id: guild_id.to_owned(),
            url: config.chatgpt_url.clone(),
            executable: if trimmed.as_str().is_empty() {
                None
            } else {
                Some(config.browser_executable.clone())
            },
            hide_when_ready: config.browser_hide_when_ready,
            manual_visibility_override: None,
            visibility_hold: false,
            child: None,
            browser_process_id: None,
            controlled: false,
            page_target_id: None,
            media: false,
            options_fetched_at: None,
            recent_threads_fetched_at: None,
            last_status_refresh_at: None,
            cdp_status_failures: 0,
            cdp_restarts: 0,
            voice_inactive_checks: 0,
            voice_media_seen: false,
            voice_media_missing_checks: 0,
            status: BrowserStatus::closed(guild_id),
        }
    }

    /// Forgets everything about a browser that is being stopped. The answer is the process to
    /// end, if there is one. The number of restarts stays.
    pub fn stop(&mut self) -> (process: Option<u32>)
        ensures
            final(self).is_idle(),
            final(self).guild_id == old(self).guild_id,
            final(self).url == old(self).url,
            final(self).executable == old(self).executable,
            final(self).hide_when_ready == old(self).hide_when_ready,
            final(self).cdp_restarts == old(self).cdp_restarts,
            process == (if old(self).child is Some {
                old(self).child
            } else {
                old(self).browser_process_id
            }),
    {
        let process = match self.child {
            Some(child) => Some(child),
            None => self.browser_process_id,
        };
        self.media = false;
        self.controlled = false;
        self.browser_process_id = None;
        self.child = None;
        self.page_target_id = None;
        self.options_fetched_at = None;
        self.recent_threads_fetched_at = None;
        self.last_status_refresh_at = None;
        self.cdp_status_failures = 0;
        self.voice_inactive_checks = 0;
        self.voice_media_seen = false;
        self.voice_media_missing_checks = 0;
        self.manual_visibility_override = None;
        self.visibility_hold = false;
        self.status = BrowserStatus::closed(self.guild_id.as_str());
        self.status.cdp_restarts = self.cdp_restarts;
        process
    }

    /// What the session remembers about Voice.
    pub open spec fn watch(self) -> VoiceWatch {
        VoiceWatch {
            active: self.status.voice_mode_active,
            inactive_checks: self.voice_inactive_checks,
            media_seen: self.voice_media_seen,
            media_missing_checks: self.voice_media_missing_checks,
        }
    }

    /// The session after a look at the page, apart from the audio figures. `description` is the
    /// description of the voice.
    pub open spec fn after_look(
        self,
        page: PageState,
        signal: MediaSignal,
        description: Option<String>,
        now: u64,
    ) -> BrowserSession {
        let watch = self.watch().checked(
            page.voice_mode_active,
            signal.playing(),
            page.voice_settings_open,
        );
        BrowserSession {
            last_status_refresh_at: Some(now),
            cdp_status_failures: 0,
            voice_inactive_checks: watch.inactive_checks,
            voice_media_seen: watch.media_seen,
            voice_media_missing_checks: watch.media_missing_checks,
            status: BrowserStatus {
                cdp_status_failures: 0,
                cdp_restarts: self.cdp_restarts,
                browser_process_id: self.browser_process_id,
                ..self.status.with_page(
                    page,
                    watch.active,
                    self.options_fetched_at is Some && self.status.available_intelligence@.len()
                        == 0,
                    description,
                )
            },
            ..self
        }
    }

    /// The window is to be hidden now: the account is signed in, hiding is configured, nobody
    /// chose otherwise by hand, nothing holds the window open, and it is not hidden yet.
    pub open spec fn hides_window(self) -> bool {
        self.status.logged_in && self.manual_visibility_override is None && self.hide_when_ready
            && !self.visibility_hold && !self.status.window_hidden
    }

    /// Takes in a look at the page. `signal` is what its audio tells, `diagnostics` the state of
    /// the audio bridge where there is one. The answer tells whether to hide the window now.
    pub fn refresh_status(
        &mut self,
        page: PageState,
        signal: MediaSignal,
        diagnostics: Option<BrowserMediaDiagnostics>,
        now: u64,
    ) -> (hide: bool)
        ensures
            text::option_view(final(self).status.voice_description)
                == old(self).status.description_after(page),
            ({
                let looked = old(self).after_look(
                    page,
                    signal,
                    final(self).status.voice_description,
                    now,
                );
                *final(self) == match diagnostics {
                    Some(diagnostics) => BrowserSession {
                        status: looked.status.with_media(diagnostics, signal.track_count),
                        ..looked
                    },
                    None => looked,
                }
            }),
            hide == final(self).hides_window(),
    {
        let mut watch = VoiceWatch {
            active: self.status.voice_mode_active,
            inactive_checks: self.voice_inactive_checks,
            media_seen: self.voice_media_seen,
            media_missing_checks: self.voice_media_missing_checks,
        };
        let playing = signal.available && signal.track_count > 0;
        watch.check(page.voice_mode_active, playing, page.voice_settings_open);
        let forget_intelligence = self.options_fetched_at.is_some()
            && self.status.available_intelligence.len() == 0;
        self.status.set_page(page, watch.active, forget_intelligence);
        self.status.set_counters(self.cdp_restarts, self.browser_process_id);
        if let Some(diagnostics) = diagnostics {
            self.status.set_media(diagnostics, signal.track_count);
        }
        self.voice_inactive_checks = watch.inactive_checks;
        self.voice_media_seen = watch.media_seen;
        self.voice_media_missing_checks = watch.media_missing_checks;
        self.last_status_refresh_at = Some(now);
        self.cdp_status_failures = 0;
        self.status.logged_in && self.manual_visibility_override.is_none() && self.hide_when_ready
            && !self.visibility_hold && !self.status.window_hidden
    }

    /// Whether the browser runs. `exited` is what the launched process says of itself, where it
    /// was launched by this session; a browser that was found running counts as long as it is
    /// known.
    pub fn process_running(&self, exited: Option<bool>) -> (running: bool)
        ensures
            running == match exited {
                Some(exited) => !exited,
                None => self.browser_process_id is Some,
            },
    {
        match exited {
            Some(exited) => !exited,
            None => self.browser_process_id.is_some(),
        }
    }

    /// The process whose windows are to be shown or hidden: only one that this session launched.
    pub fn set_window_hidden(&self) -> (process: Option<u32>)
        ensures
            process == self.child,
    {
        self.child
    }

    /// Takes note that the windows were shown or hidden; without a window nothing changed.
    pub fn window_changed(&mut self, hidden: bool, changed: usize)
        ensures
            *final(self) == (if changed > 0 {
                BrowserSession {
                    status: BrowserStatus { window_hidden: hidden, ..old(self).status },
                    ..*old(self)
                }
            } else {
                *old(self)
            }),
    {
        if changed > 0 {
            self.status.window_hidden = hidden;
        }
    }

    /// Describes the voice that was chosen.
    pub fn describe_voice(&mut self, name: &str)
        ensures
            text::option_view(final(self).status.voice_description) == listed_description(
                old(self).status.available_voices@,
                name@,
            ),
            *final(self) == (BrowserSession {
                status: BrowserStatus {
                    voice_description: final(self).status.voice_description,
                    ..old(self).status
                },
                ..*old(self)
            }),
    {
        self.status.voice_description = describe(&self.status.available_voices, name);
    }

    /// The session after the offered options were read.
    pub open spec fn with_options(self, options: VoiceSettingOptions) -> BrowserSession {
        BrowserSession {
            status: self.status.with_options(options),
            ..self
        }
    }

    /// Takes in the offered options.
    pub fn apply_options(&mut self, options: VoiceSettingOptions)
        ensures
            *final(self) == old(self).with_options(options),
    {
        self.status.set_options(options);
    }
}

/// A window that was shown or hidden by hand, or that something holds open, is never hidden by a
/// look at the page; neither is one whose account is not signed in.
pub proof fn chosen_visibility_is_kept(session: BrowserSession)
    requires
        session.manual_visibility_override is Some || session.visibility_hold
            || !session.status.logged_in || !session.hide_when_ready,
    ensures
        !session.hides_window(),
{
}

/// The titles of windows that are never brought to the front.
pub open spec fn utility_title(title: Seq<char>) -> bool {
    let lower = text::ascii_lowered(title);
    ||| lower.len() == 0
    ||| text::first_match(lower, "restore pages"@) is Some
    ||| text::first_match(lower, "default ime"@) is Some
    ||| text::first_match(lower, "msctfime"@) is Some
}

/// Whether a window is a helper window of the browser or of the system.
pub fn is_utility_window(title: &str) -> (utility: bool)
    ensures
        utility == utility_title(title@),
{
    let lower = text::to_ascii_lowercase(title);
    lower.as_str().is_empty() || text::find(lower.as_str(), "restore pages").is_some()
        || text::find(lower.as_str(), "default ime").is_some() || text::find(
        lower.as_str(),
        "msctfime",
    ).is_some()
}

/// A top-level window: the process that owns it and its title.
#[derive(Debug)]
pub struct WindowInfo {
    pub process_id: u32,
    pub title: String,
}

/// How many windows belong to a process.
pub open spec fn owned_windows(windows: Seq<WindowInfo>, process_id: u32) -> nat
    decreases windows.len(),
{
    if windows.len() == 0 {
        0
    } else {
        owned_windows(windows.drop_last(), process_id) + if windows.last().process_id
            == process_id {
            1nat
        } else {
            0nat
        }
    }
}

/// The first window of a process that is no helper window.
pub open spec fn front_window(windows: Seq<WindowInfo>, process_id: u32) -> Option<int>
    decreases windows.len(),
{
    if windows.len() == 0 {
        None
    } else if front_window(windows.drop_last(), process_id) is Some {
        front_window(windows.drop_last(), process_id)
    } else if windows.last().process_id == process_id && !utility_title(windows.last().title@) {
        Some(windows.len() - 1)
    } else {
        None
    }
}

/// What to do with the windows of a system.
#[derive(Debug)]
pub struct WindowPlan {
    /// Which windows to show or hide.
    pub targets: Vec<usize>,
    /// Which of them to bring to the front.
    pub activate: Option<usize>,
    /// How many windows that changes.
    pub changed: usize,
}

/// Plans how to show or hide the windows of a process: all of them are affected, and the first
/// one that is no helper window comes to the front when they are shown.
pub fn set_process_windows_visible(
    windows: &Vec<WindowInfo>,
    process_id: u32,
    visible: bool,
) -> (plan: WindowPlan)
    ensures
        plan.changed == owned_windows(windows@, process_id),
        plan.changed == plan.targets@.len(),
        forall|i: int|
            0 <= i < windows@.len() ==> (#[trigger] windows@[i].process_id == process_id
                <==> plan.targets@.contains(i as usize)),
        forall|k: int| 0 <= k < plan.targets@.len() ==> #[trigger] plan.targets@[k] < windows@.len(),
        match plan.activate {
            Some(at) => visible && front_window(windows@, process_id) == Some(at as int),
            None => !visible || front_window(windows@, process_id) is None,
        },
{
    let mut targets: Vec<usize> = Vec::new();
    let mut activate: Option<usize> = None;
    let mut next: usize = 0;
    assert(windows@.take(0) =~= Seq::empty());
    while next < windows.len()
        invariant
            next <= windows@.len(),
            targets@.len() == owned_windows(windows@.take(next as int), process_id),
            targets@.len() <= next,
            forall|i: int|
                0 <= i < next ==> (#[trigger] windows@[i].process_id == process_id
                    <==> targets@.contains(i as usize)),
            forall|k: int| 0 <= k < targets@.len() ==> #[trigger] targets@[k] < next,
            match activate {
                Some(at) => visible && front_window(windows@.take(next as int), process_id) == Some(
                    at as int,
                ),
                None => !visible || front_window(windows@.take(next as int), process_id) is None,
            },
        decreases windows@.len() - next,
    {
        let ghost before = targets@;
        assert(windows@.take(next as int + 1).drop_last() =~= windows@.take(next as int));
        if windows[next].process_id == process_id {
            targets.push(next);
            if visible && activate.is_none() && !is_utility_window(windows[next].title.as_str()) {
                activate = Some(next);
            }
            assert(targets@.last() == next);
            assert forall|i: int| 0 <= i < next + 1 implies (#[trigger] windows@[i].process_id
                == process_id <==> targets@.contains(i as usize)) by {
                if i < next {
                    if before.contains(i as usize) {
                        let k = choose|k: int| 0 <= k < before.len() && before[k] == i as usize;
                        assert(targets@[k] == i as usize);
                    }
                    if targets@.contains(i as usize) {
                        let k = choose|k: int| 0 <= k < targets@.len() && targets@[k] == i as usize;
                        assert(k < before.len() && before[k] == i as usize);
                    }
                }
            }
        } else {
            assert forall|i: int| 0 <= i < next + 1 implies (#[trigger] windows@[i].process_id
                == process_id <==> targets@.contains(i as usize)) by {
                if i == next && targets@.contains(i as usize) {
                    let k = choose|k: int| 0 <= k < targets@.len() && targets@[k] == i as usize;
                    assert(targets@[k] < next);
                }
            }
        }
        next = next + 1;
    }
    assert(windows@.take(next as int) =~= windows@);
    let changed: usize = targets.len();
    WindowPlan { targets, activate, changed }
}

// ---------------------------------------------------------------------------
// What looks and windows are for
// ---------------------------------------------------------------------------

/// After a look the status shows what the page shows. What the page does not tell (the voice, the
/// intelligence, the language) stays as it was, apart from an intelligence that the account is known
/// not to offer.
pub proof fn look_shows_the_page(
    session: BrowserSession,
    page: PageState,
    signal: MediaSignal,
    description: Option<String>,
    now: u64,
)
    ensures
        ({
            let status = session.after_look(page, signal, description, now).status;
            let before = session.status;
            &&& status.open
            &&& status.url == Some(page.url)
            &&& status.title == Some(page.title)
            &&& status.logged_in == page.logged_in
            &&& status.auth_required == !page.logged_in
            &&& status.voice_control_visible == page.voice_control_visible
            &&& status.voice_settings_open == page.voice_settings_open
            &&& status.chatgpt_mic_muted == page.chatgpt_mic_muted
            &&& status.microphone_permission_required == page.microphone_permission_required
            &&& status.voice_limit_reached == page.voice_limit_reached
            &&& status.voice_limit_reset == page.voice_limit_reset
            &&& status.voice == if page.voice is Some {
                page.voice
            } else {
                before.voice
            }
            &&& status.language == if page.language is Some {
                page.language
            } else {
                before.language
            }
            &&& page.intelligence is Some ==> status.intelligence == page.intelligence
            &&& page.intelligence is None && (session.options_fetched_at is None
                || before.available_intelligence@.len() > 0) ==> status.intelligence
                == before.intelligence
            &&& page.intelligence is None && session.options_fetched_at is Some
                && before.available_intelligence@.len() == 0 ==> status.intelligence is None
            &&& status.available_voices == before.available_voices
            &&& status.available_languages == before.available_languages
            &&& status.recent_threads == before.recent_threads
            &&& status.active_thread == before.active_thread
            &&& status.window_hidden == before.window_hidden
            &&& status.guild_id == before.guild_id
        }),
{
}

/// A look that succeeded is remembered with its time, and clears the count of failed ones; the
/// process and the restarts are shown as the session knows them.
pub proof fn look_clears_the_failures(
    session: BrowserSession,
    page: PageState,
    signal: MediaSignal,
    description: Option<String>,
    now: u64,
)
    ensures
        ({
            let after = session.after_look(page, signal, description, now);
            &&& after.last_status_refresh_at == Some(now)
            &&& after.cdp_status_failures == 0
            &&& after.status.cdp_status_failures == 0
            &&& after.status.cdp_restarts == session.cdp_restarts
            &&& after.cdp_restarts == session.cdp_restarts
            &&& after.status.browser_process_id == session.browser_process_id
            &&& after.controlled == session.controlled
            &&& after.media == session.media
            &&& after.visibility_hold == session.visibility_hold
            &&& after.manual_visibility_override == session.manual_visibility_override
        }),
{
}

/// Voice that the page shows is active at once, unless its audio has been missed for too long;
/// Voice that is off stays off until the page shows it or plays audio.
pub proof fn shown_voice_is_active(
    session: BrowserSession,
    page: PageState,
    signal: MediaSignal,
    description: Option<String>,
    now: u64,
)
    ensures
        ({
            let after = session.after_look(page, signal, description, now).status;
            let playing = signal.available && signal.track_count > 0;
            &&& page.voice_mode_active && !session.voice_media_seen ==> after.voice_mode_active
            &&& page.voice_mode_active && session.voice_media_missing_checks < 2
                ==> after.voice_mode_active
            &&& playing ==> after.voice_mode_active
            &&& !session.status.voice_mode_active && !page.voice_mode_active && !playing
                ==> !after.voice_mode_active
            &&& session.status.voice_mode_active && page.voice_settings_open
                ==> after.voice_mode_active
        }),
{
}

/// A look that finds Voice or its audio starts the counts towards its end anew, and so do open
/// settings.
pub proof fn counts_start_anew(watch: VoiceWatch, shown: bool, playing: bool, settings_open: bool)
    ensures
        playing ==> watch.checked(shown, playing, settings_open) == (VoiceWatch {
            active: true,
            inactive_checks: 0,
            media_seen: true,
            media_missing_checks: 0,
        }),
        shown ==> watch.checked(shown, playing, settings_open).inactive_checks == 0,
        settings_open ==> watch.checked(shown, playing, settings_open).inactive_checks == 0
            && watch.checked(shown, playing, settings_open).media_missing_checks == 0,
        settings_open ==> watch.checked(shown, playing, settings_open).media_seen == (
        watch.media_seen || playing),
        watch.media_seen && !playing && !settings_open && watch.media_missing_checks < 2
            ==> watch.checked(shown, playing, settings_open).media_missing_checks
            == watch.media_missing_checks + 1,
{
}

/// The audio of the page is asked of its own bridge where that is installed, and of the transport
/// elsewhere.
pub proof fn installed_bridge_is_asked(page: PageMediaState, connected: bool, tracks: u64)
    ensures
        page.installed ==> signal_of(Some(page), connected, tracks).playing() == (
        page.output_track_count > 0) && signal_of(Some(page), connected, tracks).track_count
            == page.output_track_count,
        !page.installed ==> signal_of(Some(page), connected, tracks) == signal_of(
            None,
            connected,
            tracks,
        ),
        signal_of(None, connected, tracks).playing() == (connected && tracks > 0),
        signal_of(None, connected, tracks).track_count == tracks,
{
}

/// The figures of the audio bridge are shown with the tracks that the page plays.
pub proof fn audio_figures_are_shown(
    status: BrowserStatus,
    diagnostics: BrowserMediaDiagnostics,
    tracks: u64,
)
    ensures
        status.with_media(diagnostics, tracks).media.output_track_count == tracks,
        status.with_media(diagnostics, tracks).media.connected == diagnostics.connected,
        status.with_media(diagnostics, tracks).voice_mode_active == status.voice_mode_active,
        status.with_media(diagnostics, tracks).logged_in == status.logged_in,
{
}

/// A signed-in window is hidden where the setup says so and nothing speaks against it.
pub proof fn ready_window_is_hidden(session: BrowserSession)
    requires
        session.status.logged_in,
        session.hide_when_ready,
        session.manual_visibility_override is None,
        !session.visibility_hold,
    ensures
        session.hides_window() <==> !session.status.window_hidden,
{
}

/// What the settings offer is shown: the lists are taken over, the current voice where it is named,
/// and an intelligence is forgotten where none is offered.
pub proof fn offered_options_are_shown(session: BrowserSession, options: VoiceSettingOptions)
    ensures
        ({
            let after = session.with_options(options).status;
            &&& after.available_voices == options.voices
            &&& after.available_intelligence == options.intelligence
            &&& after.available_languages == options.languages
            &&& options.current_voice is Some ==> after.voice == options.current_voice
                && after.voice_description == options.current_voice_description
            &&& options.current_voice is None ==> after.voice == session.status.voice
                && after.voice_description == session.status.voice_description
            &&& options.intelligence@.len() == 0 ==> after.intelligence is None
            &&& options.intelligence@.len() > 0 ==> after.intelligence
                == session.status.intelligence
            &&& after.language == session.status.language
        }),
{
}

/// A session whose browser was stopped shows nothing of it any more.
pub proof fn stopped_browser_is_forgotten(session: BrowserSession)
    requires
        session.is_idle(),
    ensures
        !session.status.open,
        !session.status.logged_in,
        !session.status.auth_required,
        !session.status.voice_mode_active,
        !session.status.voice_settings_open,
        !session.status.window_hidden,
        session.status.voice is None,
        session.status.active_thread is None,
        session.status.recent_threads@.len() == 0,
        session.status.available_voices@.len() == 0,
        session.status.browser_process_id is None,
        session.status.error is None,
        session.status.guild_id@ == session.guild_id@,
        !session.controlled,
        !session.media,
        session.child is None,
        session.last_status_refresh_at is None,
        session.options_fetched_at is None,
        session.recent_threads_fetched_at is None,
{
}

/// A new session has the address, the browser and the hiding of its setup.
pub proof fn new_session_follows_its_setup(
    session: BrowserSession,
    guild_id: Seq<char>,
    config: ConfigSnapshot,
)
    requires
        session.is_new(guild_id, config),
    ensures
        session.guild_id@ == guild_id,
        session.url == config.chatgpt_url,
        session.hide_when_ready == config.browser_hide_when_ready,
        session.executable is Some <==> text::trimmed(config.browser_executable@).len() > 0,
        session.executable matches Some(executable) ==> executable == config.browser_executable,
        session.cdp_restarts == 0,
        session.is_idle(),
{
}

proof fn lemma_matching(voices: Seq<VoiceOption>, name: Seq<char>, at: int)
    requires
        0 <= at < voices.len(),
        text::same_ignoring_case(voices[at].value@, name),
        forall|i: int|
            0 <= i < at ==> !text::same_ignoring_case((#[trigger] voices[i]).value@, name),
    ensures
        matching_voice(voices, name) == Some(voices[at]),
    decreases voices.len(),
{
    if at > 0 {
        assert(!text::same_ignoring_case(voices[0].value@, name));
        assert(voices.skip(1)[at - 1] == voices[at]);
        assert forall|i: int| 0 <= i < at - 1 implies !text::same_ignoring_case(
            (#[trigger] voices.skip(1)[i]).value@,
            name,
        ) by {
            assert(voices.skip(1)[i] == voices[i + 1]);
        }
        lemma_matching(voices.skip(1), name, at - 1);
    }
}

/// A voice is found under its name, in whatever letters, and described as its entry says.
pub proof fn listed_voice_is_described(voices: Seq<VoiceOption>, name: Seq<char>, at: int)
    requires
        0 <= at < voices.len(),
        text::same_ignoring_case(voices[at].value@, name),
        forall|i: int|
            0 <= i < at ==> !text::same_ignoring_case((#[trigger] voices[i]).value@, name),
    ensures
        matching_voice(voices, name) == Some(voices[at]),
        voices[at].description matches Some(description) ==> listed_description(voices, name)
            == Some(description@),
        voices[at].description is None && known_description(name).len() > 0 ==> listed_description(
            voices,
            name,
        ) == Some(known_description(name)),
{
    lemma_matching(voices, name, at);
}

/// The words for a voice do not depend on the letters that its name is written in.
pub proof fn known_voices_are_described_in_any_letters(left: Seq<char>, right: Seq<char>)
    requires
        text::same_ignoring_case(left, right),
    ensures
        known_description(left) == known_description(right),
{
}

proof fn lemma_front(windows: Seq<WindowInfo>, process_id: u32)
    ensures
        match front_window(windows, process_id) {
            Some(at) => 0 <= at < windows.len() && windows[at].process_id == process_id
                && !utility_title(windows[at].title@) && (forall|i: int|
                0 <= i < at ==> (#[trigger] windows[i]).process_id != process_id || utility_title(
                    windows[i].title@,
                )),
            None => forall|i: int|
                0 <= i < windows.len() ==> (#[trigger] windows[i]).process_id != process_id
                    || utility_title(windows[i].title@),
        },
    decreases windows.len(),
{
    if windows.len() > 0 {
        let rest = windows.drop_last();
        lemma_front(rest, process_id);
        assert forall|i: int| 0 <= i < rest.len() implies rest[i] == #[trigger] windows[i] by {
        }
    }
}

/// The window that comes to the front is the first one of the process that is no helper window, and
/// there is one as soon as the process has such a window.
pub proof fn main_window_comes_to_the_front(windows: Seq<WindowInfo>, process_id: u32, at: int)
    requires
        0 <= at < windows.len(),
        windows[at].process_id == process_id,
        !utility_title(windows[at].title@),
    ensures
        front_window(windows, process_id) matches Some(front) && 0 <= front <= at
            && windows[front].process_id == process_id && !utility_title(windows[front].title@),
{
    lemma_front(windows, process_id);
}

/// Helper windows are told by their titles, in whatever letters: empty ones, and those that name
/// the restore prompt or an input method.
pub proof fn helper_windows_are_told_by_their_titles(title: Seq<char>)
    ensures
        utility_title(title) <==> title.len() == 0 || text::holds(
            text::ascii_lowered(title),
            "restore pages"@,
        ) || text::holds(text::ascii_lowered(title), "default ime"@) || text::holds(
            text::ascii_lowered(title),
            "msctfime"@,
        ),
{
    let lower = text::ascii_lowered(title);
    lemma_match_is_held(lower, "restore pages"@);
    lemma_match_is_held(lower, "default ime"@);
    lemma_match_is_held(lower, "msctfime"@);
}

proof fn lemma_match_is_held(source: Seq<char>, pattern: Seq<char>)
    ensures
        text::first_match(source, pattern) is Some <==> text::holds(source, pattern),
{
    text::lemma_first_match(source, pattern);
    match text::first_match(source, pattern) {
        Some(at) => {
            assert(text::begins_with(source.skip(at), pattern));
        },
        None => {},
    }
}

/// Each of the nine voices has its description, whatever the case of its letters; any other has
/// none.
pub proof fn voices_have_their_descriptions(voice: Seq<char>)
    ensures
        text::same_ignoring_case(voice, "arbor"@) ==> known_description(voice)
            == "Easygoing and versatile"@,
        text::same_ignoring_case(voice, "breeze"@) ==> known_description(voice)
            == "Animated and earnest"@,
        text::same_ignoring_case(voice, "cove"@) ==> known_description(voice)
            == "Composed and direct"@,
        text::same_ignoring_case(voice, "ember"@) ==> known_description(voice)
            == "Confident and optimistic"@,
        text::same_ignoring_case(voice, "juniper"@) ==> known_description(voice)
            == "Open and upbeat"@,
        text::same_ignoring_case(voice, "maple"@) ==> known_description(voice)
            == "Cheerful and candid"@,
        text::same_ignoring_case(voice, "sol"@) ==> known_description(voice)
            == "Savvy and relaxed"@,
        text::same_ignoring_case(voice, "spruce"@) ==> known_description(voice)
            == "Calm and affirming"@,
        text::same_ignoring_case(voice, "vale"@) ==> known_description(voice)
            == "Bright and inquisitive"@,
        voice.len() > 7 || voice.len() < 3 ==> known_description(voice) == ""@,
{
    reveal_strlit("arbor");
    reveal_strlit("breeze");
    reveal_strlit("cove");
    reveal_strlit("ember");
    reveal_strlit("juniper");
    reveal_strlit("maple");
    reveal_strlit("sol");
    reveal_strlit("spruce");
    reveal_strlit("vale");
    let name = text::ascii_lowered(voice);
    assert(name.len() == voice.len());
    assert(text::ascii_lowered("arbor"@) =~= "arbor"@);
    assert(text::ascii_lowered("breeze"@) =~= "breeze"@);
    assert(text::ascii_lowered("cove"@) =~= "cove"@);
    assert(text::ascii_lowered("ember"@) =~= "ember"@);
    assert(text::ascii_lowered("juniper"@) =~= "juniper"@);
    assert(text::ascii_lowered("maple"@) =~= "maple"@);
    assert(text::ascii_lowered("sol"@) =~= "sol"@);
    assert(text::ascii_lowered("spruce"@) =~= "spruce"@);
    assert(text::ascii_lowered("vale"@) =~= "vale"@);
    assert("arbor"@[0] == 'a' && "ember"@[0] == 'e' && "maple"@[0] == 'm');
    assert("cove"@[0] == 'c' && "vale"@[0] == 'v');
    assert("breeze"@[0] == 'b' && "spruce"@[0] == 's');
}

/// A session without a browser holds on to nothing: no process, no control, no audio, no times and
/// no failed looks. Its status says the same, and only the count of restarts outlives the browser.
pub proof fn idle_session_holds_nothing(session: BrowserSession)
    requires
        session.is_idle(),
    ensures
        session.child is None && session.browser_process_id is None,
        !session.controlled && !session.media,
        session.page_target_id is None,
        session.manual_visibility_override is None && !session.visibility_hold,
        session.options_fetched_at is None,
        session.recent_threads_fetched_at is None,
        session.last_status_refresh_at is None,
        session.cdp_status_failures == 0,
        session.voice_inactive_checks == 0 && session.voice_media_missing_checks == 0,
        !session.voice_media_seen,
        session.status.guild_id@ == session.guild_id@,
        !session.status.open && !session.status.logged_in && !session.status.auth_required,
        !session.status.voice_mode_active && !session.status.voice_control_visible,
        session.status.voice is None && session.status.active_thread is None,
        session.status.chatgpt_mic_muted is None && session.status.error is None,
        session.status.recent_threads@.len() == 0 && session.status.available_voices@.len() == 0,
        session.status.cdp_status_failures == 0,
        session.status.cdp_restarts == session.cdp_restarts,
        session.status.url is None && session.status.title is None,
        !session.status.voice_settings_open && !session.status.microphone_permission_required,
        !session.status.voice_limit_reached && session.status.voice_limit_reset is None,
        session.status.voice_description is None && session.status.intelligence is None,
        session.status.language is None,
        session.status.available_intelligence@.len() == 0,
        session.status.available_languages@.len() == 0,
        session.status.browser_process_id is None && !session.status.window_hidden,
        !session.status.media.connected && session.status.media.packets_sent == 0,
{
}

} // verus!
