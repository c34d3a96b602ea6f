//! Release versions and the update check.

use crate::text;
use vstd::prelude::*;

verus! {

/// The repository that releases are published in.
pub const UPDATE_REPOSITORY: &'static str = "mutedvector/gptvoice-discord";

/// Where all releases are listed.
pub const UPDATE_RELEASES_URL: &'static str =
    "https://github.com/mutedvector/gptvoice-discord/releases";

/// A release version.
#[derive(Debug)]
pub struct ReleaseVersion {
    pub major: u64,
    pub minor: u64,
    pub patch: u64,
    pub prerelease: String,
}

/// A release version as a mathematical value.
pub struct Release {
    pub major: u64,
    pub minor: u64,
    pub patch: u64,
    pub prerelease: Seq<char>,
}

impl View for ReleaseVersion {
    type V = Release;

    open spec fn view(&self) -> Release {
        Release {
            major: self.major,
            minor: self.minor,
            patch: self.patch,
            prerelease: self.prerelease@,
        }
    }
}

/// A text without its leading letters V, small or capital.
pub open spec fn without_v(source: Seq<char>) -> Seq<char>
    decreases source.len(),
{
    if source.len() > 0 && (source[0] == 'v' || source[0] == 'V') {
        without_v(source.skip(1))
    } else {
        source
    }
}

/// A tag as it is compared: trimmed, and without the letters V in front.
pub open spec fn bare_tag(tag: Seq<char>) -> Seq<char> {
    without_v(text::trimmed(tag))
}

/// What stands before the first hyphen.
pub open spec fn core_part(source: Seq<char>) -> Seq<char> {
    match text::first_match(source, "-"@) {
        Some(at) => source.take(at),
        None => source,
    }
}

/// What stands behind the first hyphen.
pub open spec fn prerelease_part(source: Seq<char>) -> Seq<char> {
    match text::first_match(source, "-"@) {
        Some(at) => source.skip(at + 1),
        None => Seq::empty(),
    }
}

/// The version that a text without surrounding letters writes: three numbers between dots.
pub open spec fn version_of(source: Seq<char>) -> Option<Release> {
    let parts = text::fields(core_part(source), '.');
    if parts.len() != 3 {
        None
    } else {
        match (text::parsed_u64(parts[0]), text::parsed_u64(parts[1]), text::parsed_u64(parts[2])) {
            (Some(major), Some(minor), Some(patch)) => Some(
                Release { major, minor, patch, prerelease: prerelease_part(source) },
            ),
            _ => None,
        }
    }
}

/// The version that a tag writes.
pub open spec fn release_of(tag: Seq<char>) -> Option<Release> {
    version_of(bare_tag(tag))
}

/// The three numbers of one version stand behind those of the other.
pub open spec fn numbers_after(left: Release, right: Release) -> bool {
    ||| left.major > right.major
    ||| left.major == right.major && left.minor > right.minor
    ||| left.major == right.major && left.minor == right.minor && left.patch > right.patch
}

/// The three numbers of two versions agree.
pub open spec fn same_numbers(left: Release, right: Release) -> bool {
    left.major == right.major && left.minor == right.minor && left.patch == right.patch
}

/// One release is newer than the other: by its numbers, then as a full release, then by the
/// order of the prerelease texts.
pub open spec fn newer(left: Release, right: Release) -> bool {
    ||| numbers_after(left, right)
    ||| same_numbers(left, right) && if left.prerelease.len() == 0 {
        right.prerelease.len() > 0
    } else {
        right.prerelease.len() > 0 && text::text_after(left.prerelease, right.prerelease)
    }
}

/// Removes surrounding white space and the letters V in front.
fn bare(tag: &str) -> (result: String)
    ensures
        result@ == bare_tag(tag@),
{
    let trimmed = text::trim(tag);
    let characters = text::chars_of(trimmed.as_str());
    let mut start: usize = 0;
    assert(trimmed@.skip(0) =~= trimmed@);
    while start < characters.len() && (characters[start] == 'v' || characters[start] == 'V')
        invariant
            start <= characters@.len(),
            characters@ == trimmed@,
            without_v(trimmed@) == without_v(trimmed@.skip(start as int)),
        decreases characters@.len() - start,
    {
        assert(trimmed@.skip(start as int).skip(1) =~= trimmed@.skip(start as int + 1));
        start = start + 1;
    }
    let result = text::text_of(&characters, start, characters.len());
    assert(result@ =~= trimmed@.skip(start as int));
    result
}

/// Reads a release version, with or without the letter V in front.
pub fn parse_release_version(value: &str) -> (version: Option<ReleaseVersion>)
    ensures
        match version {
            Some(version) => release_of(value@) == Some(version@),
            None => release_of(value@) is None,
        },
{
    let tag = bare(value);
    let characters = text::chars_of(tag.as_str());
    proof {
        reveal_strlit("-");
        text::lemma_first_match(tag@, "-"@);
    }
    let (core, prerelease) = match text::find(tag.as_str(), "-") {
        Some(at) => {
            let core = text::text_of(&characters, 0, at);
            assert(core@ =~= tag@.take(at as int));
            let rest = text::text_of(&characters, at + 1, characters.len());
            assert(rest@ =~= tag@.skip(at as int + 1));
            (core, rest)
        },
        None => {
            let core = text::text_of(&characters, 0, characters.len());
            assert(core@ =~= tag@);
            let rest = String::new();
            assert(rest@ =~= Seq::empty());
            (core, rest)
        },
    };
    let parts = text::split(core.as_str(), '.');
    let ghost fields = text::fields(core@, '.');
    assert(parts@.len() == fields.len());
    if parts.len() != 3 {
        return None;
    }
    assert(text::views(parts@)[0] == parts@[0]@);
    assert(text::views(parts@)[1] == parts@[1]@);
    assert(text::views(parts@)[2] == parts@[2]@);
    let major = text::parse_u64(parts[0].as_str());
    let minor = text::parse_u64(parts[1].as_str());
    let patch = text::parse_u64(parts[2].as_str());
    match (major, minor, patch) {
        (Some(major), Some(minor), Some(patch)) => Some(
            ReleaseVersion { major, minor, patch, prerelease },
        ),
        _ => None,
    }
}

/// Whether one tag names a newer release than the other. A tag that is no version is never newer,
/// and nothing is newer than it.
pub fn is_newer_release(latest: &str, current: &str) -> (result: bool)
    ensures
        result == match (release_of(latest@), release_of(current@)) {
            (Some(latest), Some(current)) => newer(latest, current),
            _ => false,
        },
{
    match (parse_release_version(latest), parse_release_version(current)) {
        (Some(latest), Some(current)) => {
            if latest.major != current.major {
                return latest.major > current.major;
            }
            if latest.minor != current.minor {
                return latest.minor > current.minor;
            }
            if latest.patch != current.patch {
                return latest.patch > current.patch;
            }
            let full = text::same(latest.prerelease.as_str(), "");
            let current_full = text::same(current.prerelease.as_str(), "");
            proof {
                reveal_strlit("");
                assert(full == (latest.prerelease@.len() == 0)) by {
                    if latest.prerelease@.len() == 0 {
                        assert(latest.prerelease@ =~= ""@);
                    }
                }
                assert(current_full == (current.prerelease@.len() == 0)) by {
                    if current.prerelease@.len() == 0 {
                        assert(current.prerelease@ =~= ""@);
                    }
                }
            }
            if full {
                !current_full
            } else {
                !current_full && text::is_after(
                    latest.prerelease.as_str(),
                    current.prerelease.as_str(),
                )
            }
        },
        _ => false,
    }
}

/// Being newer is a strict order in which any two different releases are ranked: no release is
/// newer than itself, no two are newer than each other, and the order carries over a release in
/// between.
pub proof fn releases_are_ordered(a: Release, b: Release, c: Release)
    ensures
        !newer(a, a),
        !(newer(a, b) && newer(b, a)),
        newer(a, b) && newer(b, c) ==> newer(a, c),
        newer(a, b) || newer(b, a) || (same_numbers(a, b) && a.prerelease == b.prerelease),
{
    text::lemma_text_order(a.prerelease, b.prerelease, c.prerelease);
    if a.prerelease.len() == 0 && b.prerelease.len() == 0 {
        assert(a.prerelease =~= b.prerelease);
    }
}

/// A full release is newer than each of its prereleases.
pub proof fn full_release_follows_its_prereleases(full: Release, early: Release)
    requires
        same_numbers(full, early),
        full.prerelease.len() == 0,
        early.prerelease.len() > 0,
    ensures
        newer(full, early),
        !newer(early, full),
{
}

/// Three texts between dots.
pub open spec fn dotted(major: Seq<char>, minor: Seq<char>, patch: Seq<char>) -> Seq<char> {
    major.push('.') + (minor.push('.') + patch)
}

/// What stands behind the numbers of a version: nothing, or a hyphen and the prerelease.
pub open spec fn prerelease_text(prerelease: Option<Seq<char>>) -> Seq<char> {
    match prerelease {
        Some(prerelease) => seq!['-'] + prerelease,
        None => Seq::empty(),
    }
}

/// Nothing but white space.
pub open spec fn blank(source: Seq<char>) -> bool {
    forall|i: int| 0 <= i < source.len() ==> text::white_space(#[trigger] source[i])
}

/// Nothing but the letter V, small or capital.
pub open spec fn only_v(source: Seq<char>) -> bool {
    forall|i: int| 0 <= i < source.len() ==> #[trigger] source[i] == 'v' || source[i] == 'V'
}

/// A digit, or a plus sign.
spec fn number_sign(character: char) -> bool {
    text::is_digit(character) || character == '+'
}

proof fn lemma_number_text(source: Seq<char>)
    requires
        text::parsed_u64(source) is Some,
    ensures
        source.len() > 0,
        text::is_digit(source.last()),
        forall|i: int| 0 <= i < source.len() ==> number_sign(#[trigger] source[i]),
        !source.contains('.'),
{
    let digits = text::without_plus(source);
    assert(digits.last() == source.last());
    assert forall|i: int| 0 <= i < source.len() implies number_sign(#[trigger] source[i]) by {
        if digits.len() == source.len() {
            assert(digits[i] == source[i]);
        } else if i > 0 {
            assert(digits[i - 1] == source[i]);
        }
    }
}

proof fn lemma_dotted(major: Seq<char>, minor: Seq<char>, patch: Seq<char>)
    requires
        text::parsed_u64(major) is Some,
        text::parsed_u64(minor) is Some,
        text::parsed_u64(patch) is Some,
    ensures
        ({
            let numbers = dotted(major, minor, patch);
            &&& numbers.len() > 0
            &&& number_sign(numbers[0])
            &&& text::is_digit(numbers.last())
            &&& forall|i: int| 0 <= i < numbers.len() ==> (#[trigger] numbers[i]) != '-'
            &&& text::fields(numbers, '.') == seq![major, minor, patch]
        }),
{
    lemma_number_text(major);
    lemma_number_text(minor);
    lemma_number_text(patch);
    let rest = minor.push('.') + patch;
    let numbers = dotted(major, minor, patch);
    assert(numbers[0] == major[0]);
    assert(numbers.last() == patch.last());
    assert forall|i: int| 0 <= i < numbers.len() implies (#[trigger] numbers[i]) != '-' by {
        if i < major.len() {
            assert(numbers[i] == major[i]);
        } else if i > major.len() {
            let j = i - major.len() - 1;
            assert(numbers[i] == rest[j]);
            if j < minor.len() {
                assert(rest[j] == minor[j]);
            } else if j > minor.len() {
                assert(rest[j] == patch[j - minor.len() - 1]);
            }
        }
    }
    text::lemma_fields_concat(major, rest, '.');
    text::lemma_fields_concat(minor, patch, '.');
    text::lemma_fields_single(major, '.');
    text::lemma_fields_single(minor, '.');
    text::lemma_fields_single(patch, '.');
    assert(text::fields(numbers, '.') =~= seq![major, minor, patch]);
}

proof fn lemma_version_text(
    major: Seq<char>,
    minor: Seq<char>,
    patch: Seq<char>,
    prerelease: Option<Seq<char>>,
)
    requires
        text::parsed_u64(major) is Some,
        text::parsed_u64(minor) is Some,
        text::parsed_u64(patch) is Some,
    ensures
        version_of(dotted(major, minor, patch) + prerelease_text(prerelease)) == Some(
            Release {
                major: text::parsed_u64(major).unwrap(),
                minor: text::parsed_u64(minor).unwrap(),
                patch: text::parsed_u64(patch).unwrap(),
                prerelease: match prerelease {
                    Some(prerelease) => prerelease,
                    None => Seq::empty(),
                },
            },
        ),
{
    let numbers = dotted(major, minor, patch);
    let source = numbers + prerelease_text(prerelease);
    lemma_dotted(major, minor, patch);
    reveal_strlit("-");
    text::lemma_first_match(source, "-"@);
    assert forall|at: int| 0 <= at < numbers.len() implies !text::begins_with(
        #[trigger] source.skip(at),
        "-"@,
    ) by {
        assert(source[at] == numbers[at]);
        assert(source.skip(at).take(1)[0] == source[at]);
    }
    match prerelease {
        None => {
            assert(source =~= numbers);
            match text::first_match(source, "-"@) {
                Some(at) => {
                    assert(text::begins_with(source.skip(at), "-"@));
                    assert(at == source.len());
                },
                None => {},
            }
        },
        Some(prerelease) => {
            let hyphen = numbers.len() as int;
            assert(source.skip(hyphen).take(1) =~= "-"@);
            assert(text::begins_with(source.skip(hyphen), "-"@));
            assert(text::first_match(source, "-"@) == Some(hyphen));
            assert(source.take(hyphen) =~= numbers);
            assert(source.skip(hyphen + 1) =~= prerelease);
        },
    }
}

proof fn lemma_trimmed_front(before: Seq<char>, source: Seq<char>)
    requires
        blank(before),
        source.len() > 0,
        !text::white_space(source[0]),
    ensures
        text::trimmed_start(before + source) == source,
    decreases before.len(),
{
    if before.len() == 0 {
        assert(before + source =~= source);
    } else {
        assert((before + source)[0] == before[0]);
        assert((before + source).skip(1) =~= before.skip(1) + source);
        assert forall|i: int| 0 <= i < before.skip(1).len() implies text::white_space(
            #[trigger] before.skip(1)[i],
        ) by {
            assert(before.skip(1)[i] == before[i + 1]);
        }
        lemma_trimmed_front(before.skip(1), source);
    }
}

proof fn lemma_trimmed_back(source: Seq<char>, after: Seq<char>)
    requires
        blank(after),
        source.len() > 0,
        !text::white_space(source.last()),
    ensures
        text::trimmed_end(source + after) == source,
    decreases after.len(),
{
    if after.len() == 0 {
        assert(source + after =~= source);
    } else {
        assert((source + after).last() == after[after.len() - 1]);
        assert((source + after).drop_last() =~= source + after.drop_last());
        assert forall|i: int| 0 <= i < after.drop_last().len() implies text::white_space(
            #[trigger] after.drop_last()[i],
        ) by {
            assert(after.drop_last()[i] == after[i]);
        }
        lemma_trimmed_back(source, after.drop_last());
    }
}

proof fn lemma_without_v(letters: Seq<char>, source: Seq<char>)
    requires
        only_v(letters),
        source.len() > 0,
        source[0] != 'v' && source[0] != 'V',
    ensures
        without_v(letters + source) == source,
    decreases letters.len(),
{
    if letters.len() == 0 {
        assert(letters + source =~= source);
    } else {
        assert((letters + source)[0] == letters[0]);
        assert((letters + source).skip(1) =~= letters.skip(1) + source);
        assert forall|i: int| 0 <= i < letters.skip(1).len() implies #[trigger] letters.skip(1)[i]
            == 'v' || letters.skip(1)[i] == 'V' by {
            assert(letters.skip(1)[i] == letters[i + 1]);
        }
        lemma_without_v(letters.skip(1), source);
    }
}

/// Every way to write a version is read alike: white space around it and any run of the letter V
/// in front make no difference, the numbers may have leading zeros or a plus sign, and behind a
/// hyphen the prerelease may be missing. A prerelease that ends with white space is left out: a tag
/// is trimmed.
pub proof fn release_tags_read_back(
    before: Seq<char>,
    letters: Seq<char>,
    major: Seq<char>,
    minor: Seq<char>,
    patch: Seq<char>,
    prerelease: Option<Seq<char>>,
    after: Seq<char>,
)
    requires
        blank(before),
        blank(after),
        only_v(letters),
        text::parsed_u64(major) is Some,
        text::parsed_u64(minor) is Some,
        text::parsed_u64(patch) is Some,
        prerelease matches Some(prerelease) ==> prerelease.len() > 0 ==> !text::white_space(
            prerelease.last(),
        ),
    ensures
        release_of(
            before + (letters + (dotted(major, minor, patch) + prerelease_text(prerelease)))
                + after,
        ) == Some(
            Release {
                major: text::parsed_u64(major).unwrap(),
                minor: text::parsed_u64(minor).unwrap(),
                patch: text::parsed_u64(patch).unwrap(),
                prerelease: match prerelease {
                    Some(prerelease) => prerelease,
                    None => Seq::empty(),
                },
            },
        ),
{
    let numbers = dotted(major, minor, patch);
    let tail = prerelease_text(prerelease);
    let source = numbers + tail;
    let tag = letters + source;
    lemma_dotted(major, minor, patch);
    lemma_version_text(major, minor, patch, prerelease);
    assert(source[0] == numbers[0]);
    assert(source.last() == (if tail.len() == 0 {
        numbers.last()
    } else {
        tail.last()
    }));
    assert(tail.len() > 0 ==> !text::white_space(tail.last())) by {
        match prerelease {
            Some(prerelease) => if prerelease.len() > 0 {
                assert(tail.last() == prerelease.last());
            } else {
                assert(tail.last() == '-');
            },
            None => {},
        }
    }
    assert(tag[0] == (if letters.len() == 0 {
        source[0]
    } else {
        letters[0]
    }));
    assert(tag.last() == source.last());
    assert(before + tag + after =~= before + (tag + after));
    assert((tag + after)[0] == tag[0]);
    lemma_trimmed_front(before, tag + after);
    lemma_trimmed_back(tag, after);
    lemma_without_v(letters, source);
}

/// A version as it is written.
pub open spec fn written_version(version: Release) -> Seq<char> {
    dotted(
        text::decimal(version.major as nat),
        text::decimal(version.minor as nat),
        text::decimal(version.patch as nat),
    ) + prerelease_text(
        if version.prerelease.len() == 0 {
            None
        } else {
            Some(version.prerelease)
        },
    )
}

/// A version reads back as it is written, with or without the letter V in front. A prerelease
/// text that ends with white space is left out: a tag is trimmed.
pub proof fn written_versions_read_back(version: Release)
    requires
        version.prerelease.len() > 0 ==> !text::white_space(version.prerelease.last()),
    ensures
        release_of(written_version(version)) == Some(version),
        release_of(seq!['v'] + written_version(version)) == Some(version),
{
    let nothing = Seq::<char>::empty();
    let source = written_version(version);
    let major = text::decimal(version.major as nat);
    let minor = text::decimal(version.minor as nat);
    let patch = text::decimal(version.patch as nat);
    let prerelease = if version.prerelease.len() == 0 {
        None
    } else {
        Some(version.prerelease)
    };
    text::lemma_decimal_round_trip(version.major);
    text::lemma_decimal_round_trip(version.minor);
    text::lemma_decimal_round_trip(version.patch);
    release_tags_read_back(nothing, nothing, major, minor, patch, prerelease, nothing);
    release_tags_read_back(nothing, seq!['v'], major, minor, patch, prerelease, nothing);
    assert(nothing + (nothing + source) + nothing =~= source);
    assert(nothing + (seq!['v'] + source) + nothing =~= seq!['v'] + source);
    if version.prerelease.len() == 0 {
        assert(version.prerelease =~= nothing);
    }
}

/// What the update check found.
#[derive(Debug)]
pub struct UpdateStatus {
    pub checked: bool,
    pub current_version: String,
    pub latest_version: Option<String>,
    pub release_url: String,
    pub release_name: Option<String>,
    pub published_at: Option<String>,
    pub available: bool,
    pub error: Option<String>,
}

/// The latest release as the release service describes it.
#[derive(Debug)]
pub struct GitHubRelease {
    pub tag_name: Option<String>,
    pub html_url: Option<String>,
    pub name: Option<String>,
    pub published_at: Option<String>,
}

impl UpdateStatus {
    /// The check failed with this message.
    pub open spec fn failed(self, error: Seq<char>, current: Seq<char>) -> bool {
        &&& !self.checked
        &&& self.current_version@ == current
        &&& self.latest_version is None
        &&& self.release_url@ == UPDATE_RELEASES_URL@
        &&& self.release_name is None
        &&& self.published_at is None
        &&& !self.available
        &&& text::option_view(self.error) == Some(error)
    }
}

/// The answer where no release could be found.
pub fn unavailable_update(error: &str, current_version: &str) -> (status: UpdateStatus)
    ensures
        status.failed(error@, current_version@),
{
    UpdateStatus {
        checked: false,
        current_version: current_version.to_owned(),
        latest_version: None,
        release_url: UPDATE_RELEASES_URL.to_owned(),
        release_name: None,
        published_at: None,
        available: false,
        error: Some(error.to_owned()),
    }
}

/// Where the latest release is asked for.
pub fn release_endpoint() -> (endpoint: String)
    ensures
        endpoint@ == "https://api.github.com/repos/"@ + UPDATE_REPOSITORY@ + "/releases/latest"@,
{
    let mut endpoint = "https://api.github.com/repos/".to_owned();
    endpoint.append(UPDATE_REPOSITORY);
    endpoint.append("/releases/latest");
    endpoint
}

/// The message for an answer without success.
pub fn http_failure(status: &str) -> (message: String)
    ensures
        message@ == "GitHub returned HTTP "@ + status@ + "."@,
{
    let mut message = "GitHub returned HTTP ".to_owned();
    message.append(status);
    message.append(".");
    message
}

/// The version that a release names, where its tag is one.
pub open spec fn latest_of(tag: Option<Seq<char>>) -> Option<Seq<char>> {
    match tag {
        Some(tag) => if release_of(bare_tag(tag)) is Some {
            Some(bare_tag(tag))
        } else {
            None
        },
        None => None,
    }
}

/// The page to show for a release: its own one where that is on GitHub.
pub open spec fn page_of(url: Option<Seq<char>>) -> Seq<char> {
    match url {
        Some(url) => if text::begins_with(url, "https://github.com/"@) {
            url
        } else {
            UPDATE_RELEASES_URL@
        },
        None => UPDATE_RELEASES_URL@,
    }
}

/// Compares the latest release with the running version.
pub fn check_for_update(release: GitHubRelease, current_version: &str) -> (status: UpdateStatus)
    ensures
        match latest_of(text::option_view(release.tag_name)) {
            Some(latest) => {
                &&& status.checked
                &&& status.current_version@ == current_version@
                &&& text::option_view(status.latest_version) == Some(latest)
                &&& status.release_url@ == page_of(text::option_view(release.html_url))
                &&& status.release_name == release.name
                &&& status.published_at == release.published_at
                &&& status.available == match (release_of(latest), release_of(current_version@)) {
                    (Some(latest), Some(current)) => newer(latest, current),
                    _ => false,
                }
                &&& status.error is None
            },
            None => status.failed(
                "The latest GitHub release did not have a semantic version tag."@,
                current_version@,
            ),
        },
{
    let latest: Option<String> = match release.tag_name {
        Some(tag) => {
            let latest = bare(tag.as_str());
            match parse_release_version(latest.as_str()) {
                Some(_) => Some(latest),
                None => None,
            }
        },
        None => None,
    };
    let latest_version = match latest {
        Some(latest) => latest,
        None => {
            return unavailable_update(
                "The latest GitHub release did not have a semantic version tag.",
                current_version,
            );
        },
    };
    let release_url = match release.html_url {
        Some(url) => if text::starts_with(url.as_str(), "https://github.com/") {
            url
        } else {
            UPDATE_RELEASES_URL.to_owned()
        },
        None => UPDATE_RELEASES_URL.to_owned(),
    };
    let available = is_newer_release(latest_version.as_str(), current_version);
    UpdateStatus {
        checked: true,
        current_version: current_version.to_owned(),
        latest_version: Some(latest_version),
        release_url,
        release_name: release.name,
        published_at: release.published_at,
        available,
        error: None,
    }
}

/// The scheme and the host that a URL names, where the text is a URL at all.
pub uninterp spec fn parsed_url(source: Seq<char>) -> Option<(Seq<char>, Option<Seq<char>>)>;

/// `reqwest::Url::parse` reads a URL; its scheme and host depend on the text alone.
#[verifier::external_body]
fn parse_url(source: &str) -> (parsed: Option<(String, Option<String>)>)
    ensures
        match parsed {
            Some((scheme, host)) => parsed_url(source@) == Some((scheme@, text::option_view(host))),
            None => parsed_url(source@) is None,
        },
{
    reqwest::Url::parse(source).ok().map(
        |parsed| (parsed.scheme().to_owned(), parsed.host_str().map(str::to_owned)),
    )
}

/// Whether a page with this scheme and host is a release page: encrypted, and on GitHub.
pub fn is_release_page(scheme: &str, host: &Option<String>) -> (allowed: bool)
    ensures
        allowed == (scheme@ == "https"@ && text::option_view(*host) == Some("github.com"@)),
{
    text::same(scheme, "https") && text::is_text(host, "github.com")
}

/// Decides whether a link may be handed to the system's browser.
pub fn open_release_url(url: &str) -> (decision: Result<(), String>)
    ensures
        match parsed_url(url@) {
            None => decision matches Err(error) && error@ == "Invalid release URL."@,
            Some((scheme, host)) => if scheme == "https"@ && host == Some("github.com"@) {
                decision is Ok
            } else {
                decision matches Err(error) && error@
                    == "Only GitHub release links can be opened."@
            },
        },
{
    match parse_url(url) {
        None => Err("Invalid release URL.".to_owned()),
        Some((scheme, host)) => if is_release_page(scheme.as_str(), &host) {
            Ok(())
        } else {
            Err("Only GitHub release links can be opened.".to_owned())
        },
    }
}

/// A release with a larger number in the first place where the numbers differ is newer, whatever
/// stands behind; with the same numbers a full release is newer than a prerelease, and of two
/// prereleases the one whose text stands behind the other in the alphabet.
pub proof fn larger_numbers_are_newer(
    left: Release,
    right: Release,
    common: Seq<char>,
    larger: char,
    smaller: char,
    rest: Seq<char>,
    other: Seq<char>,
)
    requires
        larger as u32 > smaller as u32,
    ensures
        left.major > right.major ==> newer(left, right),
        left.major == right.major && left.minor > right.minor ==> newer(left, right),
        left.major == right.major && left.minor == right.minor && left.patch > right.patch ==> newer(
            left,
            right,
        ),
        left.major == right.major && left.minor == right.minor && left.patch == right.patch ==> {
            &&& left.prerelease.len() == 0 && right.prerelease.len() > 0 ==> newer(left, right)
            &&& left.prerelease == common.push(larger) + rest && right.prerelease == common.push(
                smaller,
            ) + other ==> newer(left, right) && !newer(right, left)
        },
        !newer(left, left),
{
    text::larger_characters_stand_behind(common, larger, smaller, rest, other);
    releases_are_ordered(left, right, left);
}

/// A release whose tag writes a version is that version, without the letter in front; a release
/// without a tag is none.
pub proof fn tagged_release_is_its_version(version: Release)
    requires
        version.prerelease.len() > 0 ==> !text::white_space(version.prerelease.last()),
    ensures
        latest_of(Some(seq!['v'] + written_version(version))) == Some(written_version(version)),
        latest_of(Some(written_version(version))) == Some(written_version(version)),
        latest_of(None) is None,
{
    let source = written_version(version);
    let major = text::decimal(version.major as nat);
    let minor = text::decimal(version.minor as nat);
    let patch = text::decimal(version.patch as nat);
    text::lemma_decimal_round_trip(version.major);
    text::lemma_decimal_round_trip(version.minor);
    text::lemma_decimal_round_trip(version.patch);
    written_versions_read_back(version);
    lemma_dotted(major, minor, patch);
    let numbers = dotted(major, minor, patch);
    assert(source[0] == numbers[0]);
    text::lemma_decimal_reads_back(version.major as nat);
    assert(text::is_digit(major[0]));
    assert(numbers[0] == major[0]);
    if version.prerelease.len() > 0 {
        assert(source.last() == version.prerelease.last());
    } else {
        assert(source =~= numbers);
    }
    let tag = seq!['v'] + source;
    assert(tag.last() == source.last());
    text::lemma_trimmed_is_fixed(tag);
    text::lemma_trimmed_is_fixed(source);
    assert(tag.skip(1) =~= source);
    assert(without_v(source) == source);
}

/// The page of a release is shown where it is on GitHub over an encrypted connection; otherwise
/// the list of all releases is shown.
pub proof fn release_pages_are_on_github(path: Seq<char>, url: Seq<char>)
    requires
        !text::begins_with(url, "https://github.com/"@),
    ensures
        page_of(Some("https://github.com/"@ + path)) == "https://github.com/"@ + path,
        page_of(Some(url)) == "https://github.com/mutedvector/gptvoice-discord/releases"@,
        page_of(None) == "https://github.com/mutedvector/gptvoice-discord/releases"@,
{
    let page = "https://github.com/"@ + path;
    assert(page.take("https://github.com/"@.len() as int) =~= "https://github.com/"@);
}

/// A check that failed names its error, offers no update, and shows where all releases are listed.
pub proof fn failed_check_offers_nothing(
    status: UpdateStatus,
    error: Seq<char>,
    current: Seq<char>,
)
    requires
        status.failed(error, current),
    ensures
        !status.checked && !status.available,
        status.error is Some && status.error->0@ == error,
        status.current_version@ == current,
        status.release_url@ == "https://github.com/mutedvector/gptvoice-discord/releases"@,
        status.latest_version is None && status.release_name is None && status.published_at is None,
{
}

} // verus!
