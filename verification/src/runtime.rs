//! The browser sessions of all guilds.

use crate::browser::BrowserSession;
use crate::config::ConfigSnapshot;
use crate::flow;
use crate::flow::{Action, Command};
use crate::text;
use vstd::prelude::*;

verus! {

/// The sessions by guild: the place of a guild in the list is the place of its session.
pub struct BrowserRuntime {
    pub guilds: Vec<String>,
}

/// A text that can be the identifier of a guild: at least fifteen digits and nothing else.
pub open spec fn valid_guild(guild_id: Seq<char>) -> bool {
    text::all_digits(guild_id) && guild_id.len() >= 15
}

/// Where a guild's browser profile is kept, part by part: the configured guild has the profile
/// directory itself, every other guild a directory of its own below "guilds".
pub open spec fn profile_path(
    guild_id: Seq<char>,
    configured: Seq<char>,
    profile: Seq<char>,
) -> Seq<Seq<char>> {
    if text::trimmed(configured) == guild_id {
        seq![profile]
    } else {
        seq![profile, "guilds"@, guild_id]
    }
}

/// The sessions hold this guild.
pub open spec fn holds_guild(guilds: Seq<String>, guild_id: Seq<char>) -> bool {
    exists|i: int| 0 <= i < guilds.len() && (#[trigger] guilds[i])@ == guild_id
}

/// A session in the list.
pub struct SessionEntry {
    /// The place of the session.
    pub index: usize,
    /// The session itself, where it was made just now.
    pub created: Option<BrowserSession>,
}

impl BrowserRuntime {
    /// No guild has two sessions.
    pub open spec fn well_formed(&self) -> bool {
        forall|i: int, j: int|
            0 <= i < j < self.guilds@.len() ==> (#[trigger] self.guilds@[i])@ != (
            #[trigger] self.guilds@[j])@
    }

    /// No sessions.
    pub fn new() -> (runtime: Self)
        ensures
            runtime.well_formed(),
            runtime.guilds@.len() == 0,
    {
        BrowserRuntime { guilds: Vec::new() }
    }

    /// Finds the session of a guild, and makes one where there is none yet.
    pub fn session(&mut self, guild_id: &str, config: &ConfigSnapshot) -> (entry: Result<
        SessionEntry,
        String,
    >)
        requires
            old(self).well_formed(),
        ensures
            final(self).well_formed(),
            match entry {
                Err(error) => !valid_guild(guild_id@) && *final(self) == *old(self) && error@
                    == "A valid Discord guild ID is required"@,
                Ok(entry) => {
                    &&& valid_guild(guild_id@)
                    &&& entry.index < final(self).guilds@.len()
                    &&& final(self).guilds@[entry.index as int]@ == guild_id@
                    &&& match entry.created {
                        None => *final(self) == *old(self) && holds_guild(
                            old(self).guilds@,
                            guild_id@,
                        ),
                        Some(session) => {
                            &&& !holds_guild(old(self).guilds@, guild_id@)
                            &&& entry.index == old(self).guilds@.len()
                            &&& final(self).guilds@.len() == old(self).guilds@.len() + 1
                            &&& forall|i: int|
                                0 <= i < old(self).guilds@.len()
                                    ==> #[trigger] final(self).guilds@[i] == old(self).guilds@[i]
                            &&& session.is_new(guild_id@, *config)
                        },
                    }
                },
            },
    {
        if !text::only_digits(guild_id) || text::chars_of(guild_id).len() < 15 {
            return Err("A valid Discord guild ID is required".to_owned());
        }
        let mut next: usize = 0;
        while next < self.guilds.len()
            invariant
                *self == *old(self),
                old(self).well_formed(),
                valid_guild(guild_id@),
                next <= self.guilds@.len(),
                forall|i: int| 0 <= i < next ==> (#[trigger] self.guilds@[i])@ != guild_id@,
            decreases self.guilds@.len() - next,
        {
            if text::same(self.guilds[next].as_str(), guild_id) {
                assert(self.guilds@[next as int]@ == guild_id@);
                return Ok(SessionEntry { index: next, created: None });
            }
            next = next + 1;
        }
        self.guilds.push(guild_id.to_owned());
        Ok(SessionEntry { index: next, created: Some(BrowserSession::new(guild_id, config)) })
    }

    /// Decides where a guild's browser profile is kept; the parts of the path are to be joined.
    pub fn profile_dir(guild_id: &str, config: &ConfigSnapshot) -> (path: Vec<String>)
        ensures
            text::views(path@) == profile_path(
                guild_id@,
                config.discord_guild_id@,
                config.browser_profile@,
            ),
    {
        let configured = text::trim(config.discord_guild_id.as_str());
        let mut path: Vec<String> = Vec::new();
        path.push(config.browser_profile.clone());
        if !text::same(configured.as_str(), guild_id) {
            path.push("guilds".to_owned());
            path.push(guild_id.to_owned());
        }
        assert(text::views(path@) =~= profile_path(
            guild_id@,
            config.discord_guild_id@,
            config.browser_profile@,
        ));
        path
    }
}

/// Each guild has a browser profile of its own.
pub proof fn profiles_are_isolated(
    left: Seq<char>,
    right: Seq<char>,
    configured: Seq<char>,
    profile: Seq<char>,
)
    requires
        left != right,
    ensures
        profile_path(left, configured, profile) != profile_path(right, configured, profile),
{
    let left_path = profile_path(left, configured, profile);
    let right_path = profile_path(right, configured, profile);
    if left_path.len() == 3 && right_path.len() == 3 {
        assert(left_path[2] == left && right_path[2] == right);
    }
}

/// How far showing or hiding the windows has got.
#[derive(Debug, Clone, Copy, PartialEq, Eq, Structural)]
pub enum VisibilityStage {
    Changing,
    ToFront,
    Waking,
}

/// Showing or hiding the windows by hand. From then on they stay as they are.
#[derive(Debug)]
pub struct SetVisibility {
    pub hidden: bool,
    pub stage: VisibilityStage,
}

impl SetVisibility {
    /// Begins to show or hide the windows.
    pub fn set_visibility(hidden: bool, session: &mut BrowserSession) -> (begun: (Self, Action))
        ensures
            begun.0 == (SetVisibility { hidden, stage: VisibilityStage::Changing }),
            begun.1 == Action::SetWindow(hidden),
            *final(session) == (BrowserSession {
                manual_visibility_override: Some(hidden),
                ..*old(session)
            }),
    {
        session.manual_visibility_override = Some(hidden);
        (SetVisibility { hidden, stage: VisibilityStage::Changing }, Action::SetWindow(hidden))
    }

    /// The step after a reply: a page that is shown comes to the front and wakes up.
    pub open spec fn after(self, session: BrowserSession) -> (SetVisibility, Action) {
        match self.stage {
            VisibilityStage::Changing => if !self.hidden && session.controlled {
                (
                    SetVisibility { stage: VisibilityStage::ToFront, ..self },
                    Action::Call(Command::BringToFront),
                )
            } else {
                (self, flow::succeeded())
            },
            VisibilityStage::ToFront => (
                SetVisibility { stage: VisibilityStage::Waking, ..self },
                Action::Call(Command::KeepActive),
            ),
            VisibilityStage::Waking => (self, flow::succeeded()),
        }
    }

    /// Goes on with showing or hiding the windows; what the browser replies makes no difference.
    pub fn next(self, session: &BrowserSession) -> (continued: (Self, Action))
        ensures
            continued == self.after(*session),
    {
        let mut change = self;
        match change.stage {
            VisibilityStage::Changing => {
                if !change.hidden && session.controlled {
                    change.stage = VisibilityStage::ToFront;
                    (change, Action::Call(Command::BringToFront))
                } else {
                    (change, Action::Finish(Ok(())))
                }
            },
            VisibilityStage::ToFront => {
                change.stage = VisibilityStage::Waking;
                (change, Action::Call(Command::KeepActive))
            },
            VisibilityStage::Waking => (change, Action::Finish(Ok(()))),
        }
    }
}

/// Where a browser can be installed.
#[derive(Debug, Clone, Copy, PartialEq, Eq, Structural)]
pub enum InstallBase {
    LocalAppData,
    ProgramFiles,
    ProgramFilesX86,
}

/// A place where a browser can be installed: a base directory and the path below it.
#[derive(Debug, Clone, Copy)]
pub struct Candidate {
    pub base: InstallBase,
    pub path: &'static str,
}

/// How many places are searched for a browser.
pub const CANDIDATES: usize = 9;

/// A browser that can be used.
pub enum Product {
    Brave,
    Chrome,
    Edge,
}

impl Product {
    /// Where the browser stands below a base directory.
    pub open spec fn path(self) -> Seq<char> {
        match self {
            Product::Brave => "BraveSoftware/Brave-Browser/Application/brave.exe"@,
            Product::Chrome => "Google/Chrome/Application/chrome.exe"@,
            Product::Edge => "Microsoft/Edge/Application/msedge.exe"@,
        }
    }
}

/// The browser that a place is searched for: Brave, then Chrome, then Edge.
pub open spec fn product_at(index: int) -> Product {
    if index < 3 {
        Product::Brave
    } else if index < 6 {
        Product::Chrome
    } else {
        Product::Edge
    }
}

/// The base directory of a place; each browser is searched for below all three.
pub open spec fn base_at(index: int) -> InstallBase {
    if index % 3 == 0 {
        InstallBase::LocalAppData
    } else if index % 3 == 1 {
        InstallBase::ProgramFiles
    } else {
        InstallBase::ProgramFilesX86
    }
}

/// The places that are searched for a browser, in order.
pub fn browser_candidate(index: usize) -> (candidate: Candidate)
    requires
        index < CANDIDATES,
    ensures
        candidate.base == base_at(index as int),
        candidate.path@ == product_at(index as int).path(),
{
    let base = if index % 3 == 0 {
        InstallBase::LocalAppData
    } else if index % 3 == 1 {
        InstallBase::ProgramFiles
    } else {
        InstallBase::ProgramFilesX86
    };
    let path = if index < 3 {
        "BraveSoftware/Brave-Browser/Application/brave.exe"
    } else if index < 6 {
        "Google/Chrome/Application/chrome.exe"
    } else {
        "Microsoft/Edge/Application/msedge.exe"
    };
    Candidate { base, path }
}

/// The first place where a browser was found.
pub open spec fn first_present(present: Seq<bool>) -> Option<int>
    decreases present.len(),
{
    if present.len() == 0 {
        None
    } else if first_present(present.drop_last()) is Some {
        first_present(present.drop_last())
    } else if present.last() {
        Some(present.len() - 1)
    } else {
        None
    }
}

proof fn lemma_first_present(present: Seq<bool>)
    ensures
        match first_present(present) {
            Some(at) => 0 <= at < present.len() && present[at] && (forall|i: int|
                0 <= i < at ==> !(#[trigger] present[i])),
            None => forall|i: int| 0 <= i < present.len() ==> !(#[trigger] present[i]),
        },
    decreases present.len(),
{
    if present.len() > 0 {
        let front = present.drop_last();
        lemma_first_present(front);
        assert forall|i: int| 0 <= i < front.len() implies front[i] == #[trigger] present[i] by {
        }
    }
}

/// Where the browser is that is launched.
#[derive(Debug, Clone, Copy, PartialEq, Eq, Structural)]
pub enum BrowserPlace {
    /// Where the setup says.
    Configured,
    /// In one of the places that are searched.
    Usual(usize),
}

/// The browser that is launched: the configured one where it is there, and otherwise the first
/// that is found.
pub open spec fn chosen_browser(configured_present: Option<bool>, present: Seq<bool>) -> Option<
    BrowserPlace,
> {
    if configured_present == Some(true) {
        Some(BrowserPlace::Configured)
    } else {
        match first_present(present) {
            Some(at) => Some(BrowserPlace::Usual(at as usize)),
            None => None,
        }
    }
}

/// Chooses the browser. `configured_present` tells whether the configured browser is there, if one
/// is configured, and `present` for each place that is searched, in order, whether one is there.
pub fn find_browser_executable(configured_present: Option<bool>, present: &Vec<bool>) -> (found:
    Option<BrowserPlace>)
    ensures
        found == chosen_browser(configured_present, present@),
{
    if let Some(true) = configured_present {
        return Some(BrowserPlace::Configured);
    }
    let mut next: usize = 0;
    while next < present.len()
        invariant
            next <= present@.len(),
            forall|i: int| 0 <= i < next ==> !(#[trigger] present@[i]),
            configured_present != Some(true),
        decreases present@.len() - next,
    {
        if present[next] {
            proof {
                lemma_first_present(present@);
            }
            return Some(BrowserPlace::Usual(next));
        }
        next = next + 1;
    }
    proof {
        lemma_first_present(present@);
    }
    None
}

/// The place that is searched for a browser below a base directory.
pub open spec fn place_of(product: Product, base: InstallBase) -> int {
    let first: int = match product {
        Product::Brave => 0,
        Product::Chrome => 3,
        Product::Edge => 6,
    };
    match base {
        InstallBase::LocalAppData => first,
        InstallBase::ProgramFiles => first + 1,
        InstallBase::ProgramFilesX86 => first + 2,
    }
}

/// An installed Brave, Chrome or Edge is enough: each is searched for below every base directory,
/// and where one is there, a browser that is there is chosen.
pub proof fn installed_browser_is_found(
    configured_present: Option<bool>,
    present: Seq<bool>,
    product: Product,
    base: InstallBase,
)
    requires
        present.len() == CANDIDATES,
        present[place_of(product, base)],
    ensures
        0 <= place_of(product, base) < CANDIDATES,
        product_at(place_of(product, base)) == product,
        base_at(place_of(product, base)) == base,
        match chosen_browser(configured_present, present) {
            Some(BrowserPlace::Configured) => configured_present == Some(true),
            Some(BrowserPlace::Usual(at)) => at < CANDIDATES && present[at as int],
            None => false,
        },
{
    lemma_first_present(present);
}

/// The arguments that the browser is launched with.
pub open spec fn arguments(
    profile: Seq<char>,
    url: Seq<char>,
    port: u16,
    remote_debugging: bool,
) -> Seq<Seq<char>> {
    let own = seq!["--user-data-dir="@ + profile, "--new-window"@];
    if remote_debugging {
        own + seq![
            "--remote-debugging-port="@ + text::decimal(port as nat),
            "--remote-debugging-address=127.0.0.1"@,
            "about:blank"@,
        ]
    } else {
        own.push(url)
    }
}

/// Lists the arguments that the browser is launched with: its own profile, a window of its own,
/// and control from this machine only.
pub fn launch_browser(profile: &str, url: &str, port: u16, remote_debugging: bool) -> (list: Vec<
    String,
>)
    ensures
        text::views(list@) == arguments(profile@, url@, port, remote_debugging),
{
    let mut list: Vec<String> = Vec::new();
    list.push(text::joined("--user-data-dir=", profile));
    list.push("--new-window".to_owned());
    if remote_debugging {
        list.push(
            text::joined("--remote-debugging-port=", text::decimal_text(port as u64).as_str()),
        );
        list.push("--remote-debugging-address=127.0.0.1".to_owned());
        list.push("about:blank".to_owned());
    } else {
        list.push(url.to_owned());
    }
    assert(text::views(list@) =~= arguments(profile@, url@, port, remote_debugging));
    list
}

/// The address of the browser's control endpoint.
pub fn control_url(port: u16, path: &str) -> (url: String)
    ensures
        url@ == "http://127.0.0.1:"@ + text::decimal(port as nat) + "/json/"@ + path@,
{
    let mut url = "http://127.0.0.1:".to_owned();
    url.append(text::decimal_text(port as u64).as_str());
    url.append("/json/");
    url.append(path);
    url
}

/// The identifier of a guild is a text of digits, fifteen of them or more.
pub proof fn guilds_are_long_numbers(guild_id: Seq<char>)
    ensures
        valid_guild(guild_id) <==> guild_id.len() >= 15 && forall|i: int|
            0 <= i < guild_id.len() ==> 0x30 <= #[trigger] guild_id[i] as u32 <= 0x39,
{
    if valid_guild(guild_id) {
        assert forall|i: int| 0 <= i < guild_id.len() implies 0x30 <= #[trigger] guild_id[i] as u32
            <= 0x39 by {
            assert(text::is_digit(guild_id[i]));
        }
    }
}

/// The configured guild, with or without white space around it in the setup, has the configured
/// profile; every other guild has the directory with its own name below it.
pub proof fn profiles_stand_below_the_configured_one(
    configured: Seq<char>,
    before: Seq<char>,
    after: Seq<char>,
    other: Seq<char>,
    profile: Seq<char>,
)
    requires
        valid_guild(configured),
        forall|i: int| 0 <= i < before.len() ==> text::white_space(#[trigger] before[i]),
        forall|i: int| 0 <= i < after.len() ==> text::white_space(#[trigger] after[i]),
        other != configured,
    ensures
        profile_path(configured, before + configured + after, profile) == seq![profile],
        profile_path(other, before + configured + after, profile) == seq![
            profile,
            "guilds"@,
            other,
        ],
{
    assert(text::is_digit(configured[0]));
    assert(text::is_digit(configured[configured.len() - 1]));
    text::trimming_removes_the_space_around(before, configured, after);
}

/// A window that is shown comes to the front and its page wakes up; one that is hidden, or that
/// nobody controls, is left at that. Either way the change succeeds.
pub proof fn shown_window_comes_to_the_front(
    session: BrowserSession,
    later: BrowserSession,
    last: BrowserSession,
)
    ensures
        ({
            let start = SetVisibility { hidden: false, stage: VisibilityStage::Changing };
            let (to_front, first) = start.after(session);
            let (waking, second) = to_front.after(later);
            let (over, third) = waking.after(last);
            &&& session.controlled ==> first == Action::Call(Command::BringToFront)
            &&& session.controlled ==> second == Action::Call(Command::KeepActive)
            &&& session.controlled ==> third == Action::Finish(Ok(()))
            &&& !session.controlled ==> first == Action::Finish(Ok(()))
        }),
        (SetVisibility { hidden: true, stage: VisibilityStage::Changing }).after(session).1
            == Action::Finish(Ok(())),
{
}

/// The configured browser comes first where it is there. Otherwise it is the one at the earliest
/// place that holds one, and none where no place does.
pub proof fn earliest_browser_is_chosen(present: Seq<bool>, at: int)
    requires
        0 <= at < present.len() <= 9,
        present[at],
        forall|i: int| 0 <= i < at ==> !(#[trigger] present[i]),
    ensures
        chosen_browser(Some(true), present) == Some(BrowserPlace::Configured),
        chosen_browser(Some(false), present) == Some(BrowserPlace::Usual(at as usize)),
        chosen_browser(None, present) == Some(BrowserPlace::Usual(at as usize)),
        chosen_browser(None, present.take(at)) is None,
        chosen_browser(Some(false), present.take(at)) is None,
{
    lemma_first_present(present);
    lemma_first_present(present.take(at));
    assert forall|i: int| 0 <= i < at implies !(#[trigger] present.take(at)[i]) by {
        assert(present.take(at)[i] == present[i]);
    }
}

/// Brave is searched for first, then Chrome, then Edge, each among the programs of the user, of
/// the machine, and of the machine in 32 bits.
pub proof fn browsers_are_searched_in_order(index: int)
    requires
        0 <= index < 9,
    ensures
        0 <= index <= 2 ==> product_at(index).path()
            == "BraveSoftware/Brave-Browser/Application/brave.exe"@,
        3 <= index <= 5 ==> product_at(index).path() == "Google/Chrome/Application/chrome.exe"@,
        6 <= index <= 8 ==> product_at(index).path() == "Microsoft/Edge/Application/msedge.exe"@,
        index == 0 || index == 3 || index == 6 ==> base_at(index) is LocalAppData,
        index == 1 || index == 4 || index == 7 ==> base_at(index) is ProgramFiles,
        index == 2 || index == 5 || index == 8 ==> base_at(index) is ProgramFilesX86,
{
}

/// A browser that is to be controlled starts with an empty page in its own profile and listens on
/// its port on this machine alone; one that is not opens the address at once and listens nowhere.
pub proof fn browser_is_launched_for_its_purpose(profile: Seq<char>, url: Seq<char>, port: u16)
    ensures
        arguments(profile, url, port, true) =~= seq![
            "--user-data-dir="@ + profile,
            "--new-window"@,
            "--remote-debugging-port="@ + text::decimal(port as nat),
            "--remote-debugging-address=127.0.0.1"@,
            "about:blank"@,
        ],
        arguments(profile, url, port, false) =~= seq![
            "--user-data-dir="@ + profile,
            "--new-window"@,
            url,
        ],
{
}

/// The sessions hold a guild exactly where one of them is its session.
pub proof fn guilds_are_held_by_their_sessions(guilds: Seq<String>, guild_id: Seq<char>, at: int)
    ensures
        0 <= at < guilds.len() ==> holds_guild(guilds, guilds[at]@),
        (forall|i: int| 0 <= i < guilds.len() ==> (#[trigger] guilds[i])@ != guild_id)
            ==> !holds_guild(guilds, guild_id),
{
}

} // verus!
