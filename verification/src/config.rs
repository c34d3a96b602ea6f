//! The saved setup: reading, checking, changing and showing it.
//!
//! The setup is a JSON object of settings, mostly strings. Numbers with a fraction are carried as
//! bit patterns: turning text into such a number is the caller's part.

use crate::ieee;
use crate::ieee::Binary64;
use crate::json;
use crate::text;
use serde_json::Value;
use vstd::arithmetic::power2::pow2;
use vstd::prelude::*;

verus! {

/// The name of the setup file.
pub const CONFIG_FILE: &'static str = "config.json";

/// What is shown in place of a configured token.
pub const MASKED_TOKEN: &'static str = "********";

/// The setup as the panel shows it.
#[derive(Debug)]
pub struct ConfigSnapshot {
    pub config_path: String,
    pub data_dir: String,
    pub browser_profile: String,
    pub discord_token_configured: bool,
    pub discord_token_masked: String,
    pub discord_guild_id: String,
    pub chatgpt_url: String,
    pub browser_executable: String,
    pub browser_hide_when_ready: bool,
    pub audio_capture_mode: String,
    pub audio_input_volume: Binary64,
    pub audio_output_volume: Binary64,
    pub audio_earcons_enabled: bool,
    pub audio_earcon_volume: Binary64,
    pub audio_sample_rate: u64,
    pub audio_channels: u64,
}

/// A change of the setup; absent settings stay as they are. Volumes come as they are written.
#[derive(Debug)]
pub struct ConfigPatch {
    pub discord_token: Option<String>,
    pub discord_guild_id: Option<String>,
    pub chatgpt_url: Option<String>,
    pub browser_executable: Option<String>,
    pub browser_hide_when_ready: Option<bool>,
    pub audio_capture_mode: Option<String>,
    pub audio_input_volume: Option<String>,
    pub audio_output_volume: Option<String>,
    pub audio_earcons_enabled: Option<bool>,
    pub audio_earcon_volume: Option<String>,
    pub audio_sample_rate: Option<u64>,
    pub audio_channels: Option<u64>,
}

/// The numeric settings of a setup, each with its default where the setup holds no number.
#[derive(Debug, Clone, Copy)]
pub struct AudioNumbers {
    pub input_volume: Binary64,
    pub output_volume: Binary64,
    pub earcon_volume: Binary64,
    pub sample_rate: Binary64,
    pub channels: Binary64,
}

/// A number that was read, or the number that stands in for it.
pub open spec fn number_or(read: Option<Binary64>, fallback: Binary64) -> Binary64 {
    match read {
        Some(number) => number,
        None => fallback,
    }
}

/// One: the default of the two main volumes.
pub const DEFAULT_VOLUME_BITS: u64 = 0x3ff0_0000_0000_0000;

/// 0.18: the default volume of the earcons.
pub const DEFAULT_EARCON_BITS: u64 = 0x3fc7_0a3d_70a3_d70a;

/// 48000: the default sample rate.
pub const DEFAULT_RATE_BITS: u64 = 0x40e7_7000_0000_0000;

/// Two: the default number of channels.
pub const DEFAULT_CHANNELS_BITS: u64 = 0x4000_0000_0000_0000;

fn or_bits(read: Option<Binary64>, bits: u64) -> (number: Binary64)
    ensures
        number == number_or(read, Binary64 { bits }),
{
    match read {
        Some(number) => number,
        None => Binary64 { bits },
    }
}

impl AudioNumbers {
    /// The numeric settings of a setup, where `read` turns the text of a number into the number.
    pub open spec fn of(
        environment: Map<Seq<char>, json::Json>,
        read: spec_fn(Seq<char>) -> Option<Binary64>,
    ) -> AudioNumbers {
        AudioNumbers {
            input_volume: number_or(
                setting_read(environment, "AUDIO_INPUT_VOLUME"@, read),
                Binary64 { bits: DEFAULT_VOLUME_BITS },
            ),
            output_volume: number_or(
                setting_read(environment, "AUDIO_OUTPUT_VOLUME"@, read),
                Binary64 { bits: DEFAULT_VOLUME_BITS },
            ),
            earcon_volume: number_or(
                setting_read(environment, "AUDIO_EARCON_VOLUME"@, read),
                Binary64 { bits: DEFAULT_EARCON_BITS },
            ),
            sample_rate: number_or(
                setting_read(environment, "AUDIO_SAMPLE_RATE"@, read),
                Binary64 { bits: DEFAULT_RATE_BITS },
            ),
            channels: number_or(
                setting_read(environment, "AUDIO_CHANNELS"@, read),
                Binary64 { bits: DEFAULT_CHANNELS_BITS },
            ),
        }
    }

    /// Puts the numeric settings together from what was read; what is missing has its default.
    pub fn with_defaults(
        input_volume: Option<Binary64>,
        output_volume: Option<Binary64>,
        earcon_volume: Option<Binary64>,
        sample_rate: Option<Binary64>,
        channels: Option<Binary64>,
    ) -> (numbers: Self)
        ensures
            numbers.input_volume == number_or(input_volume, Binary64 { bits: DEFAULT_VOLUME_BITS }),
            numbers.output_volume == number_or(
                output_volume,
                Binary64 { bits: DEFAULT_VOLUME_BITS },
            ),
            numbers.earcon_volume == number_or(
                earcon_volume,
                Binary64 { bits: DEFAULT_EARCON_BITS },
            ),
            numbers.sample_rate == number_or(sample_rate, Binary64 { bits: DEFAULT_RATE_BITS }),
            numbers.channels == number_or(channels, Binary64 { bits: DEFAULT_CHANNELS_BITS }),
    {
        AudioNumbers {
            input_volume: or_bits(input_volume, DEFAULT_VOLUME_BITS),
            output_volume: or_bits(output_volume, DEFAULT_VOLUME_BITS),
            earcon_volume: or_bits(earcon_volume, DEFAULT_EARCON_BITS),
            sample_rate: or_bits(sample_rate, DEFAULT_RATE_BITS),
            channels: or_bits(channels, DEFAULT_CHANNELS_BITS),
        }
    }
}

/// A limit of a numeric setting.
#[derive(Debug, Clone, Copy, PartialEq, Eq, Structural)]
pub enum Limit {
    Zero,
    One,
    Four,
}

impl Limit {
    /// The limit as a number.
    pub open spec fn number(self) -> Binary64 {
        match self {
            Limit::Zero => Binary64 { bits: 0 },
            Limit::One => Binary64 { bits: 0x3ff0_0000_0000_0000 },
            Limit::Four => Binary64 { bits: 0x4010_0000_0000_0000 },
        }
    }

    /// The limit as it is written.
    pub open spec fn written(self) -> Seq<char> {
        match self {
            Limit::Zero => "0"@,
            Limit::One => "1"@,
            Limit::Four => "4"@,
        }
    }

    fn as_number(&self) -> (number: Binary64)
        ensures
            number == self.number(),
            number.finite(),
    {
        match self {
            Limit::Zero => Binary64 { bits: 0 },
            Limit::One => Binary64 { bits: 0x3ff0_0000_0000_0000 },
            Limit::Four => Binary64 { bits: 0x4010_0000_0000_0000 },
        }
    }

    fn as_text(&self) -> (written: &'static str)
        ensures
            written@ == self.written(),
    {
        match self {
            Limit::Zero => "0",
            Limit::One => "1",
            Limit::Four => "4",
        }
    }
}

// ---------------------------------------------------------------------------
// Reading single settings
// ---------------------------------------------------------------------------

/// The string that a setup holds for a key.
pub open spec fn raw_text(environment: Map<Seq<char>, json::Json>, key: Seq<char>) -> Option<
    Seq<char>,
> {
    if environment.contains_key(key) {
        match environment[key] {
            json::Json::Text(value) => Some(value),
            _ => None,
        }
    } else {
        None
    }
}

/// A text setting: the string of the key or the fallback, without surrounding white space.
pub open spec fn text_setting(
    environment: Map<Seq<char>, json::Json>,
    key: Seq<char>,
    fallback: Seq<char>,
) -> Seq<char> {
    match raw_text(environment, key) {
        Some(value) => text::trimmed(value),
        None => text::trimmed(fallback),
    }
}

/// A switch: a flag, or a string that says "true" in any case.
pub open spec fn flag_setting(
    environment: Map<Seq<char>, json::Json>,
    key: Seq<char>,
    fallback: bool,
) -> bool {
    if environment.contains_key(key) {
        match environment[key] {
            json::Json::Flag(value) => value,
            json::Json::Text(value) => text::same_ignoring_case(text::trimmed(value), "true"@),
            _ => fallback,
        }
    } else {
        fallback
    }
}

/// The text of a number: a JSON number as written, or a string.
pub open spec fn number_setting(
    environment: Map<Seq<char>, json::Json>,
    key: Seq<char>,
) -> Option<Seq<char>> {
    if environment.contains_key(key) {
        match environment[key] {
            json::Json::Number(value) => Some(value),
            json::Json::Text(value) => Some(value),
            _ => None,
        }
    } else {
        None
    }
}

/// A numeric setting, where `read` turns the text of a number into the number.
pub open spec fn setting_read(
    environment: Map<Seq<char>, json::Json>,
    key: Seq<char>,
    read: spec_fn(Seq<char>) -> Option<Binary64>,
) -> Option<Binary64> {
    match number_setting(environment, key) {
        Some(number) => read(number),
        None => None,
    }
}

fn stored_text<'a>(environment: &'a serde_json::Map<String, Value>, key: &str) -> (value: Option<
    &'a str,
>)
    ensures
        text::option_str_view(value) == raw_text(json::entries(*environment), key@),
{
    match json::entry(environment, key) {
        Some(value) => value.as_str(),
        None => None,
    }
}

/// Reads a text setting.
pub fn string_value(
    environment: &serde_json::Map<String, Value>,
    key: &str,
    fallback: &str,
) -> (value: String)
    ensures
        value@ == text_setting(json::entries(*environment), key@, fallback@),
{
    match stored_text(environment, key) {
        Some(value) => text::trim(value),
        None => text::trim(fallback),
    }
}

/// Reads a switch.
pub fn bool_value(
    environment: &serde_json::Map<String, Value>,
    key: &str,
    fallback: bool,
) -> (value: bool)
    ensures
        value == flag_setting(json::entries(*environment), key@, fallback),
{
    match json::entry(environment, key) {
        Some(value) => match value.as_bool() {
            Some(flag) => flag,
            None => match value.as_str() {
                Some(written) => {
                    let trimmed = text::trim(written);
                    text::eq_ignore_ascii_case(trimmed.as_str(), "true")
                },
                None => fallback,
            },
        },
        None => fallback,
    }
}

/// Reads the text of a numeric setting; the number itself is the caller's part.
pub fn number_value(environment: &serde_json::Map<String, Value>, key: &str) -> (value: Option<
    String,
>)
    ensures
        text::option_view(value) == number_setting(json::entries(*environment), key@),
{
    match json::entry(environment, key) {
        Some(value) => if value.is_number() {
            Some(json::display_value(value))
        } else {
            match value.as_str() {
                Some(written) => Some(written.to_owned()),
                None => None,
            }
        },
        None => None,
    }
}

/// Cuts a numeric setting to a whole number; what is negative or no number counts as zero.
pub fn integer_value(value: Binary64) -> (whole: u64)
    ensures
        whole == value.truncated(),
{
    value.truncate()
}

// ---------------------------------------------------------------------------
// Checking
// ---------------------------------------------------------------------------

/// A number lies within two limits.
pub open spec fn within(value: Binary64, minimum: Limit, maximum: Limit) -> bool {
    value.finite() && minimum.number().value() <= value.value() <= maximum.number().value()
}

/// The message for a number outside of its limits.
pub open spec fn range_message(name: Seq<char>, minimum: Limit, maximum: Limit) -> Seq<char> {
    name + " must be between "@ + minimum.written() + " and "@ + maximum.written()
}

/// Refuses a number outside of its limits.
pub fn ensure_range(name: &str, value: Binary64, minimum: Limit, maximum: Limit) -> (result: Result<
    (),
    String,
>)
    ensures
        match result {
            Ok(_) => within(value, minimum, maximum),
            Err(error) => !within(value, minimum, maximum) && error@ == range_message(
                name@,
                minimum,
                maximum,
            ),
        },
{
    if value.is_finite() && minimum.as_number().at_most(&value) && value.at_most(
        &maximum.as_number(),
    ) {
        return Ok(());
    }
    let mut error = name.to_owned();
    error.append(" must be between ");
    error.append(minimum.as_text());
    error.append(" and ");
    error.append(maximum.as_text());
    Err(error)
}

/// Refuses zero.
pub fn ensure_positive(name: &str, value: u64) -> (result: Result<(), String>)
    ensures
        match result {
            Ok(_) => value > 0,
            Err(error) => value == 0 && error@ == name@ + " must be greater than zero"@,
        },
{
    if value == 0 {
        return Err(text::joined(name, " must be greater than zero"));
    }
    Ok(())
}

/// The text in small letters.
pub uninterp spec fn lowercased(source: Seq<char>) -> Seq<char>;

/// Every character is an ASCII character.
pub open spec fn ascii(source: Seq<char>) -> bool {
    forall|i: int| 0 <= i < source.len() ==> (#[trigger] source[i]) as u32 <= 0x7f
}

/// `str::to_lowercase` makes all letters small; of ASCII text only the letters A to Z change.
#[verifier::external_body]
fn to_lowercase(source: &str) -> (lower: String)
    ensures
        lower@ == lowercased(source@),
        ascii(source@) ==> lower@ == text::ascii_lowered(source@),
{
    source.to_lowercase()
}

/// A text in small letters, spelled out for ASCII text.
pub open spec fn small_letters(source: Seq<char>) -> Seq<char> {
    if ascii(source) {
        text::ascii_lowered(source)
    } else {
        lowercased(source)
    }
}

/// The audio can be captured in one of three ways.
pub open spec fn known_mode(mode: Seq<char>) -> bool {
    mode == "device"@ || mode == "browser-process"@ || mode == "browser-media"@
}

/// Whether a capture mode is one of the three, small letters and all.
pub fn is_capture_mode(mode: &str) -> (known: bool)
    ensures
        known == known_mode(mode@),
{
    text::same(mode, "device") || text::same(mode, "browser-process") || text::same(
        mode,
        "browser-media",
    )
}

/// The message for the placeholder that stands in for a token.
pub open spec fn masked_message() -> Seq<char> {
    "Enter the complete Discord bot token, not the masked placeholder"@
}

/// What is wrong with the token of a setup.
pub open spec fn token_problem(environment: Map<Seq<char>, json::Json>) -> Option<Seq<char>> {
    match raw_text(environment, "DISCORD_TOKEN"@) {
        Some(token) => {
            let token = text::trimmed(token);
            if token.len() > 0 && vstd::utf8::encode_utf8(token).len() < 8 {
                Some("Discord token looks too short"@)
            } else if text::only(token, '*') {
                Some(masked_message())
            } else {
                None
            }
        },
        None => None,
    }
}

/// What is wrong with the ChatGPT address of a setup.
pub open spec fn url_problem(environment: Map<Seq<char>, json::Json>) -> Option<Seq<char>> {
    let url = text_setting(environment, "CHATGPT_URL"@, "https://chatgpt.com/"@);
    if (text::begins_with(url, "https://"@) || text::begins_with(url, "http://"@))
        && !text::has_white_space(url) {
        None
    } else {
        Some("ChatGPT URL must be an http(s) URL without spaces"@)
    }
}

/// What is wrong with the capture mode of a setup.
pub open spec fn mode_problem(environment: Map<Seq<char>, json::Json>) -> Option<Seq<char>> {
    if known_mode(
        small_letters(text_setting(environment, "AUDIO_CAPTURE_MODE"@, "browser-media"@)),
    ) {
        None
    } else {
        Some("Audio capture mode must be device, browser-process, or browser-media"@)
    }
}

/// What is wrong with the numbers of a setup.
pub open spec fn number_problem(numbers: AudioNumbers) -> Option<Seq<char>> {
    if !within(numbers.input_volume, Limit::Zero, Limit::Four) {
        Some(range_message("Audio input volume"@, Limit::Zero, Limit::Four))
    } else if !within(numbers.output_volume, Limit::Zero, Limit::Four) {
        Some(range_message("Audio output volume"@, Limit::Zero, Limit::Four))
    } else if !within(numbers.earcon_volume, Limit::Zero, Limit::One) {
        Some(range_message("Audio earcon volume"@, Limit::Zero, Limit::One))
    } else if numbers.sample_rate.truncated() == 0 {
        Some("Audio sample rate"@ + " must be greater than zero"@)
    } else if numbers.channels.truncated() == 0 {
        Some("Audio channels"@ + " must be greater than zero"@)
    } else {
        None
    }
}

/// The first thing that is wrong with a setup.
pub open spec fn problem(environment: Map<Seq<char>, json::Json>, numbers: AudioNumbers) -> Option<
    Seq<char>,
> {
    if token_problem(environment) is Some {
        token_problem(environment)
    } else if url_problem(environment) is Some {
        url_problem(environment)
    } else if mode_problem(environment) is Some {
        mode_problem(environment)
    } else {
        number_problem(numbers)
    }
}

fn validate_numbers(numbers: &AudioNumbers) -> (result: Result<(), String>)
    ensures
        match result {
            Ok(_) => number_problem(*numbers) is None,
            Err(error) => number_problem(*numbers) == Some(error@),
        },
{
    ensure_range("Audio input volume", numbers.input_volume, Limit::Zero, Limit::Four)?;
    ensure_range("Audio output volume", numbers.output_volume, Limit::Zero, Limit::Four)?;
    ensure_range("Audio earcon volume", numbers.earcon_volume, Limit::Zero, Limit::One)?;
    ensure_positive("Audio sample rate", integer_value(numbers.sample_rate))?;
    ensure_positive("Audio channels", integer_value(numbers.channels))?;
    Ok(())
}

/// Checks a setup; `numbers` are its numeric settings.
pub fn validate_environment(
    environment: &serde_json::Map<String, Value>,
    numbers: &AudioNumbers,
) -> (result: Result<(), String>)
    ensures
        match result {
            Ok(_) => problem(json::entries(*environment), *numbers) is None,
            Err(error) => problem(json::entries(*environment), *numbers) == Some(error@),
        },
{
    if let Some(token) = stored_text(environment, "DISCORD_TOKEN") {
        let token = text::trim(token);
        let length: usize = token.as_str().as_bytes().len();
        if !token.as_str().is_empty() && length < 8 {
            return Err("Discord token looks too short".to_owned());
        }
        if text::consists_of(token.as_str(), '*') {
            return Err(
                "Enter the complete Discord bot token, not the masked placeholder".to_owned(),
            );
        }
    }
    let url = string_value(environment, "CHATGPT_URL", "https://chatgpt.com/");
    if !(text::starts_with(url.as_str(), "https://") || text::starts_with(url.as_str(), "http://"))
        || text::contains_white_space(url.as_str()) {
        return Err("ChatGPT URL must be an http(s) URL without spaces".to_owned());
    }
    let mode = string_value(environment, "AUDIO_CAPTURE_MODE", "browser-media");
    if !is_capture_mode(to_lowercase(mode.as_str()).as_str()) {
        return Err(
            "Audio capture mode must be device, browser-process, or browser-media".to_owned(),
        );
    }
    validate_numbers(numbers)
}

/// In an accepted setup a token is complete: at least eight bytes long and not a row of stars.
pub proof fn accepted_tokens_are_complete(
    environment: Map<Seq<char>, json::Json>,
    numbers: AudioNumbers,
    token: Seq<char>,
)
    requires
        problem(environment, numbers) is None,
        raw_text(environment, "DISCORD_TOKEN"@) == Some(token),
    ensures
        vstd::utf8::encode_utf8(text::trimmed(token)).len() >= 8,
        !text::only(text::trimmed(token), '*'),
{
    let trimmed = text::trimmed(token);
    if trimmed.len() == 0 {
        assert(text::only(trimmed, '*'));
    }
}

/// In an accepted setup the volumes are finite and within their limits.
pub proof fn accepted_volumes_are_bounded(
    environment: Map<Seq<char>, json::Json>,
    numbers: AudioNumbers,
)
    requires
        problem(environment, numbers) is None,
    ensures
        within(numbers.input_volume, Limit::Zero, Limit::Four),
        within(numbers.output_volume, Limit::Zero, Limit::Four),
        within(numbers.earcon_volume, Limit::Zero, Limit::One),
        numbers.sample_rate.truncated() > 0,
        numbers.channels.truncated() > 0,
{
}

/// In an accepted setup the capture mode is one of the three, in capital or small letters.
pub proof fn accepted_modes_are_known(
    environment: Map<Seq<char>, json::Json>,
    numbers: AudioNumbers,
)
    requires
        problem(environment, numbers) is None,
    ensures
        known_mode(
            small_letters(text_setting(environment, "AUDIO_CAPTURE_MODE"@, "browser-media"@)),
        ),
{
}

// ---------------------------------------------------------------------------
// The whole setup
// ---------------------------------------------------------------------------

/// The setup of a fresh installation.
pub open spec fn defaults(profile: Seq<char>) -> Map<Seq<char>, json::Json> {
    json::no_entries().insert("CHATGPT_URL"@, json::Json::Text("https://chatgpt.com/"@)).insert(
        "CHATGPT_BROWSER_PROFILE"@,
        json::Json::Text(profile),
    ).insert("CHATGPT_BROWSER_HIDE_WHEN_READY"@, json::Json::Text("true"@)).insert(
        "AUDIO_CAPTURE_MODE"@,
        json::Json::Text("browser-media"@),
    ).insert("AUDIO_INPUT_VOLUME"@, json::Json::Text("1"@)).insert(
        "AUDIO_OUTPUT_VOLUME"@,
        json::Json::Text("1"@),
    ).insert("AUDIO_EARCONS_ENABLED"@, json::Json::Text("true"@)).insert(
        "AUDIO_EARCON_VOLUME"@,
        json::Json::Text("0.18"@),
    ).insert("AUDIO_SAMPLE_RATE"@, json::Json::Text("48000"@)).insert(
        "AUDIO_CHANNELS"@,
        json::Json::Text("2"@),
    )
}

/// The setup of a fresh installation whose browser profile is kept at `browser_profile`.
pub fn default_environment(browser_profile: &str) -> (environment: serde_json::Map<String, Value>)
    ensures
        json::entries(environment) == defaults(browser_profile@),
{
    let mut environment = json::empty_map();
    json::insert_text(&mut environment, "CHATGPT_URL", "https://chatgpt.com/".to_owned());
    json::insert_text(&mut environment, "CHATGPT_BROWSER_PROFILE", browser_profile.to_owned());
    json::insert_text(&mut environment, "CHATGPT_BROWSER_HIDE_WHEN_READY", "true".to_owned());
    json::insert_text(&mut environment, "AUDIO_CAPTURE_MODE", "browser-media".to_owned());
    json::insert_text(&mut environment, "AUDIO_INPUT_VOLUME", "1".to_owned());
    json::insert_text(&mut environment, "AUDIO_OUTPUT_VOLUME", "1".to_owned());
    json::insert_text(&mut environment, "AUDIO_EARCONS_ENABLED", "true".to_owned());
    json::insert_text(&mut environment, "AUDIO_EARCON_VOLUME", "0.18".to_owned());
    json::insert_text(&mut environment, "AUDIO_SAMPLE_RATE", "48000".to_owned());
    json::insert_text(&mut environment, "AUDIO_CHANNELS", "2".to_owned());
    environment
}

/// The setup of a fresh installation is accepted, as long as its numbers are.
pub proof fn default_setup_is_accepted(profile: Seq<char>, numbers: AudioNumbers)
    ensures
        problem(defaults(profile), numbers) == number_problem(numbers),
{
    let environment = defaults(profile);
    reveal_strlit("DISCORD_TOKEN");
    reveal_strlit("CHATGPT_URL");
    reveal_strlit("CHATGPT_BROWSER_PROFILE");
    reveal_strlit("CHATGPT_BROWSER_HIDE_WHEN_READY");
    reveal_strlit("AUDIO_CAPTURE_MODE");
    reveal_strlit("AUDIO_INPUT_VOLUME");
    reveal_strlit("AUDIO_OUTPUT_VOLUME");
    reveal_strlit("AUDIO_EARCONS_ENABLED");
    reveal_strlit("AUDIO_EARCON_VOLUME");
    reveal_strlit("AUDIO_SAMPLE_RATE");
    reveal_strlit("AUDIO_CHANNELS");
    assert("CHATGPT_URL"@.len() == 11 && "CHATGPT_BROWSER_PROFILE"@.len() == 23
        && "CHATGPT_BROWSER_HIDE_WHEN_READY"@.len() == 31 && "AUDIO_CAPTURE_MODE"@.len() == 18
        && "AUDIO_INPUT_VOLUME"@.len() == 18 && "AUDIO_OUTPUT_VOLUME"@.len() == 19
        && "AUDIO_EARCONS_ENABLED"@.len() == 21 && "AUDIO_EARCON_VOLUME"@.len() == 19
        && "AUDIO_SAMPLE_RATE"@.len() == 17 && "AUDIO_CHANNELS"@.len() == 14
        && "DISCORD_TOKEN"@.len() == 13);
    assert("AUDIO_CAPTURE_MODE"@[6] == 'C' && "AUDIO_INPUT_VOLUME"@[6] == 'I');
    assert(raw_text(environment, "DISCORD_TOKEN"@) is None);
    assert(url_problem(environment) is None) by {
        let url = "https://chatgpt.com/"@;
        reveal_strlit("https://chatgpt.com/");
        reveal_strlit("https://");
        assert(raw_text(environment, "CHATGPT_URL"@) == Some(url));
        text::lemma_trimmed_is_fixed(url);
        assert(url.take(8) =~= "https://"@);
        assert(!text::has_white_space(url));
    }
    assert(mode_problem(environment) is None) by {
        let mode = "browser-media"@;
        reveal_strlit("browser-media");
        assert(raw_text(environment, "AUDIO_CAPTURE_MODE"@) == Some(mode));
        text::lemma_trimmed_is_fixed(mode);
        assert(ascii(mode));
        assert(text::ascii_lowered(mode) =~= mode);
    }
}

/// The settings that a setup file holds; no file holds none. A file that is no JSON object is
/// refused.
pub open spec fn stored_settings(contents: Option<Seq<char>>) -> Result<
    Map<Seq<char>, json::Json>,
    Seq<char>,
> {
    match contents {
        None => Ok(json::no_entries()),
        Some(contents) => match json::parsed_json(contents) {
            Ok(value) => object_of(value),
            Err(error) => Err("Saved GPTVoice setup is not valid JSON: "@ + error),
        },
    }
}

/// The settings of a JSON value.
pub open spec fn object_of(value: json::Json) -> Result<Map<Seq<char>, json::Json>, Seq<char>> {
    match value {
        json::Json::Object(object) => Ok(object),
        _ => Err("Saved GPTVoice setup must be a JSON object"@),
    }
}

/// Takes the settings out of a JSON value.
pub fn settings_of(value: &Value) -> (settings: Result<serde_json::Map<String, Value>, String>)
    ensures
        match settings {
            Ok(settings) => object_of(json::json(*value)) == Ok::<
                Map<Seq<char>, json::Json>,
                Seq<char>,
            >(json::entries(settings)),
            Err(error) => object_of(json::json(*value)) == Err::<
                Map<Seq<char>, json::Json>,
                Seq<char>,
            >(error@),
        },
{
    match value.as_object() {
        Some(object) => Ok(json::copy_map(object)),
        None => Err("Saved GPTVoice setup must be a JSON object".to_owned()),
    }
}

/// Reads the contents of the setup file; `None` stands for a file that does not exist.
pub fn read_environment(contents: Option<&str>) -> (settings: Result<
    serde_json::Map<String, Value>,
    String,
>)
    ensures
        match settings {
            Ok(settings) => stored_settings(text::option_str_view(contents)) == Ok::<
                Map<Seq<char>, json::Json>,
                Seq<char>,
            >(json::entries(settings)),
            Err(error) => stored_settings(text::option_str_view(contents)) == Err::<
                Map<Seq<char>, json::Json>,
                Seq<char>,
            >(error@),
        },
{
    match contents {
        None => Ok(json::empty_map()),
        Some(contents) => match json::parse_json(contents) {
            Ok(value) => settings_of(&value),
            Err(error) => Err(
                text::joined("Saved GPTVoice setup is not valid JSON: ", error.as_str()),
            ),
        },
    }
}

/// The setup in force: what is stored, and the defaults for the rest.
pub fn merged_environment(
    browser_profile: &str,
    stored: serde_json::Map<String, Value>,
) -> (environment: serde_json::Map<String, Value>)
    ensures
        json::entries(environment) == defaults(browser_profile@).union_prefer_right(
            json::entries(stored),
        ),
{
    let mut environment = default_environment(browser_profile);
    json::extend_map(&mut environment, stored);
    environment
}

/// Bytes of a setup file, read as text, give these settings.
pub open spec fn file_holds(bytes: Seq<u8>, settings: Map<Seq<char>, json::Json>) -> bool {
    forall|contents: Seq<char>| #[trigger]
        vstd::utf8::encode_utf8(contents) == bytes ==> stored_settings(Some(contents)) == Ok::<
            Map<Seq<char>, json::Json>,
            Seq<char>,
        >(settings)
}

/// The bytes of the setup file. Reading them gives the same settings back, as long as each is
/// plain: a string, a flag, a null or a whole number.
pub fn write_environment(environment: &serde_json::Map<String, Value>) -> (bytes: Vec<u8>)
    ensures
        bytes@ == json::pretty_json(json::entries(*environment)).push(0x0au8),
        json::flat(json::entries(*environment)) ==> file_holds(
            bytes@,
            json::entries(*environment),
        ),
{
    let mut bytes = json::pretty_bytes(environment);
    bytes.push(0x0au8);
    bytes
}

/// The name under which the setup file is written before it takes its place.
pub fn temporary_name(process_id: u32) -> (name: String)
    ensures
        name@ == CONFIG_FILE@ + "."@ + text::decimal(process_id as nat) + ".tmp"@,
{
    let mut name = CONFIG_FILE.to_owned();
    name.append(".");
    name.append(text::decimal_text(process_id as u64).as_str());
    name.append(".tmp");
    name
}

/// The credentials of a setup that is in order: the token, and the guild where one is set.
pub fn load_discord_credentials(
    environment: &serde_json::Map<String, Value>,
    numbers: &AudioNumbers,
) -> (credentials: Result<(String, Option<String>), String>)
    ensures
        ({
            let entries = json::entries(*environment);
            let token = text_setting(entries, "DISCORD_TOKEN"@, ""@);
            let guild = text_setting(entries, "DISCORD_GUILD_ID"@, ""@);
            match credentials {
                Ok((used, used_guild)) => {
                    &&& problem(entries, *numbers) is None
                    &&& token.len() > 0
                    &&& used@ == token
                    &&& text::option_view(used_guild) == (if guild.len() == 0 {
                        None
                    } else {
                        Some(guild)
                    })
                },
                Err(error) => if problem(entries, *numbers) is Some {
                    problem(entries, *numbers) == Some(error@)
                } else {
                    token.len() == 0 && error@ == "Discord bot token is not configured"@
                },
            }
        }),
{
    validate_environment(environment, numbers)?;
    let token = string_value(environment, "DISCORD_TOKEN", "");
    if token.as_str().is_empty() {
        return Err("Discord bot token is not configured".to_owned());
    }
    let guild_id = string_value(environment, "DISCORD_GUILD_ID", "");
    let guild = if guild_id.as_str().is_empty() {
        None
    } else {
        Some(guild_id)
    };
    Ok((token, guild))
}

impl ConfigSnapshot {
    /// Two snapshots show the same.
    pub open spec fn shows_same(self, other: ConfigSnapshot) -> bool {
        &&& self.config_path@ == other.config_path@
        &&& self.data_dir@ == other.data_dir@
        &&& self.browser_profile@ == other.browser_profile@
        &&& self.discord_token_configured == other.discord_token_configured
        &&& self.discord_token_masked@ == other.discord_token_masked@
        &&& self.discord_guild_id@ == other.discord_guild_id@
        &&& self.chatgpt_url@ == other.chatgpt_url@
        &&& self.browser_executable@ == other.browser_executable@
        &&& self.browser_hide_when_ready == other.browser_hide_when_ready
        &&& self.audio_capture_mode@ == other.audio_capture_mode@
        &&& self.audio_input_volume == other.audio_input_volume
        &&& self.audio_output_volume == other.audio_output_volume
        &&& self.audio_earcons_enabled == other.audio_earcons_enabled
        &&& self.audio_earcon_volume == other.audio_earcon_volume
        &&& self.audio_sample_rate == other.audio_sample_rate
        &&& self.audio_channels == other.audio_channels
    }

    /// The snapshot shows these settings. A configured token is never shown, only that there is
    /// one.
    pub open spec fn shows(
        self,
        config_path: Seq<char>,
        data_dir: Seq<char>,
        default_profile: Seq<char>,
        entries: Map<Seq<char>, json::Json>,
        numbers: AudioNumbers,
    ) -> bool {
        let token = text_setting(entries, "DISCORD_TOKEN"@, ""@);
        &&& self.config_path@ == config_path
        &&& self.data_dir@ == data_dir
        &&& self.browser_profile@ == text_setting(
            entries,
            "CHATGPT_BROWSER_PROFILE"@,
            default_profile,
        )
        &&& self.discord_token_configured == (token.len() > 0)
        &&& self.discord_token_masked@ == (if token.len() == 0 {
            Seq::empty()
        } else {
            MASKED_TOKEN@
        })
        &&& self.discord_guild_id@ == text_setting(entries, "DISCORD_GUILD_ID"@, ""@)
        &&& self.chatgpt_url@ == text_setting(
            entries,
            "CHATGPT_URL"@,
            "https://chatgpt.com/"@,
        )
        &&& self.browser_executable@ == text_setting(
            entries,
            "CHATGPT_BROWSER_EXECUTABLE"@,
            ""@,
        )
        &&& self.browser_hide_when_ready == flag_setting(
            entries,
            "CHATGPT_BROWSER_HIDE_WHEN_READY"@,
            true,
        )
        &&& self.audio_capture_mode@ == text_setting(
            entries,
            "AUDIO_CAPTURE_MODE"@,
            "browser-media"@,
        )
        &&& self.audio_input_volume == numbers.input_volume
        &&& self.audio_output_volume == numbers.output_volume
        &&& self.audio_earcons_enabled == flag_setting(
            entries,
            "AUDIO_EARCONS_ENABLED"@,
            true,
        )
        &&& self.audio_earcon_volume == numbers.earcon_volume
        &&& self.audio_sample_rate == numbers.sample_rate.truncated()
        &&& self.audio_channels == numbers.channels.truncated()
    }
}

/// Shows a setup. `default_profile` is where the browser profile is kept by default.
pub fn snapshot_from_environment(
    config_path: &str,
    data_dir: &str,
    default_profile: &str,
    environment: &serde_json::Map<String, Value>,
    numbers: &AudioNumbers,
) -> (snapshot: ConfigSnapshot)
    ensures
        snapshot.shows(
            config_path@,
            data_dir@,
            default_profile@,
            json::entries(*environment),
            *numbers,
        ),
{
    let token = string_value(environment, "DISCORD_TOKEN", "");
    let configured = !token.as_str().is_empty();
    ConfigSnapshot {
        config_path: config_path.to_owned(),
        data_dir: data_dir.to_owned(),
        browser_profile: string_value(environment, "CHATGPT_BROWSER_PROFILE", default_profile),
        discord_token_configured: configured,
        discord_token_masked: if configured {
            MASKED_TOKEN.to_owned()
        } else {
            String::new()
        },
        discord_guild_id: string_value(environment, "DISCORD_GUILD_ID", ""),
        chatgpt_url: string_value(environment, "CHATGPT_URL", "https://chatgpt.com/"),
        browser_executable: string_value(environment, "CHATGPT_BROWSER_EXECUTABLE", ""),
        browser_hide_when_ready: bool_value(environment, "CHATGPT_BROWSER_HIDE_WHEN_READY", true),
        audio_capture_mode: string_value(environment, "AUDIO_CAPTURE_MODE", "browser-media"),
        audio_input_volume: numbers.input_volume,
        audio_output_volume: numbers.output_volume,
        audio_earcons_enabled: bool_value(environment, "AUDIO_EARCONS_ENABLED", true),
        audio_earcon_volume: numbers.earcon_volume,
        audio_sample_rate: integer_value(numbers.sample_rate),
        audio_channels: integer_value(numbers.channels),
    }
}

/// Checks a setup before it is saved: one that is in order gives the bytes of its file and how it
/// is shown, and of any other nothing is to be written.
pub fn checked_setup(
    config_path: &str,
    data_dir: &str,
    default_profile: &str,
    environment: &serde_json::Map<String, Value>,
    numbers: &AudioNumbers,
) -> (checked: Result<(Vec<u8>, ConfigSnapshot), String>)
    ensures
        match checked {
            Ok((bytes, snapshot)) => {
                &&& problem(json::entries(*environment), *numbers) is None
                &&& bytes@ == json::pretty_json(json::entries(*environment)).push(0x0au8)
                &&& json::flat(json::entries(*environment)) ==> file_holds(
                    bytes@,
                    json::entries(*environment),
                )
                &&& snapshot.shows(
                    config_path@,
                    data_dir@,
                    default_profile@,
                    json::entries(*environment),
                    *numbers,
                )
            },
            Err(error) => problem(json::entries(*environment), *numbers) == Some(error@),
        },
{
    let snapshot = load_snapshot(config_path, data_dir, default_profile, environment, numbers)?;
    Ok((write_environment(environment), snapshot))
}

/// Shows a setup that is in order.
pub fn load_snapshot(
    config_path: &str,
    data_dir: &str,
    default_profile: &str,
    environment: &serde_json::Map<String, Value>,
    numbers: &AudioNumbers,
) -> (snapshot: Result<ConfigSnapshot, String>)
    ensures
        match snapshot {
            Ok(snapshot) => problem(json::entries(*environment), *numbers) is None
                && snapshot.shows(
                config_path@,
                data_dir@,
                default_profile@,
                json::entries(*environment),
                *numbers,
            ),
            Err(error) => problem(json::entries(*environment), *numbers) == Some(error@),
        },
{
    validate_environment(environment, numbers)?;
    Ok(snapshot_from_environment(config_path, data_dir, default_profile, environment, numbers))
}

/// A snapshot does not reveal the token: setups that differ in nothing but their tokens, both
/// configured, are shown alike.
pub proof fn token_is_not_shown(
    snapshot: ConfigSnapshot,
    config_path: Seq<char>,
    data_dir: Seq<char>,
    default_profile: Seq<char>,
    entries: Map<Seq<char>, json::Json>,
    token: Seq<char>,
    numbers: AudioNumbers,
)
    requires
        snapshot.shows(config_path, data_dir, default_profile, entries, numbers),
        text_setting(entries, "DISCORD_TOKEN"@, ""@).len() > 0,
        text::trimmed(token).len() > 0,
    ensures
        snapshot.shows(
            config_path,
            data_dir,
            default_profile,
            entries.insert("DISCORD_TOKEN"@, json::Json::Text(token)),
            numbers,
        ),
{
    reveal_strlit("DISCORD_TOKEN");
    reveal_strlit("DISCORD_GUILD_ID");
    reveal_strlit("CHATGPT_URL");
    reveal_strlit("CHATGPT_BROWSER_PROFILE");
    reveal_strlit("CHATGPT_BROWSER_EXECUTABLE");
    reveal_strlit("CHATGPT_BROWSER_HIDE_WHEN_READY");
    reveal_strlit("AUDIO_CAPTURE_MODE");
    reveal_strlit("AUDIO_EARCONS_ENABLED");
    let changed = entries.insert("DISCORD_TOKEN"@, json::Json::Text(token));
    assert("DISCORD_TOKEN"@.len() == 13 && "DISCORD_GUILD_ID"@.len() == 16 && "CHATGPT_URL"@.len()
        == 11 && "CHATGPT_BROWSER_PROFILE"@.len() == 23 && "CHATGPT_BROWSER_EXECUTABLE"@.len() == 26
        && "CHATGPT_BROWSER_HIDE_WHEN_READY"@.len() == 31 && "AUDIO_CAPTURE_MODE"@.len() == 18
        && "AUDIO_EARCONS_ENABLED"@.len() == 21);
    assert(text_setting(changed, "DISCORD_TOKEN"@, ""@) == text::trimmed(token));
}

// ---------------------------------------------------------------------------
// Changing the setup
// ---------------------------------------------------------------------------

/// A setup with a string set, where there is one to set.
pub open spec fn with_text(
    environment: Map<Seq<char>, json::Json>,
    key: Seq<char>,
    value: Option<Seq<char>>,
) -> Map<Seq<char>, json::Json> {
    match value {
        Some(value) => environment.insert(key, json::Json::Text(value)),
        None => environment,
    }
}

/// An optional text without surrounding white space.
pub open spec fn trimmed_option(value: Option<String>) -> Option<Seq<char>> {
    match value {
        Some(value) => Some(text::trimmed(value@)),
        None => None,
    }
}

/// A switch as it is written.
pub open spec fn flag_text(value: Option<bool>) -> Option<Seq<char>> {
    match value {
        Some(true) => Some("true"@),
        Some(false) => Some("false"@),
        None => None,
    }
}

/// A whole number as it is written.
pub open spec fn whole_text(value: Option<u64>) -> Option<Seq<char>> {
    match value {
        Some(value) => Some(text::decimal(value as nat)),
        None => None,
    }
}

/// What is wrong with the token of a change.
pub open spec fn patch_problem(patch: ConfigPatch) -> Option<Seq<char>> {
    match trimmed_option(patch.discord_token) {
        Some(token) => if token.len() == 0 {
            Some("Discord token cannot be empty"@)
        } else if text::only(token, '*') {
            Some(masked_message())
        } else {
            None
        },
        None => None,
    }
}

/// A setting and the string that it is set to, where it is.
pub struct Assignment {
    pub key: Seq<char>,
    pub value: Option<Seq<char>>,
}

/// What a change sets, setting by setting.
pub open spec fn assignments(patch: ConfigPatch) -> Seq<Assignment> {
    seq![
        Assignment { key: "DISCORD_TOKEN"@, value: trimmed_option(patch.discord_token) },
        Assignment { key: "DISCORD_GUILD_ID"@, value: trimmed_option(patch.discord_guild_id) },
        Assignment { key: "CHATGPT_URL"@, value: trimmed_option(patch.chatgpt_url) },
        Assignment {
            key: "CHATGPT_BROWSER_EXECUTABLE"@,
            value: trimmed_option(patch.browser_executable),
        },
        Assignment {
            key: "CHATGPT_BROWSER_HIDE_WHEN_READY"@,
            value: flag_text(patch.browser_hide_when_ready),
        },
        Assignment {
            key: "AUDIO_CAPTURE_MODE"@,
            value: match trimmed_option(patch.audio_capture_mode) {
                Some(mode) => Some(small_letters(mode)),
                None => None,
            },
        },
        Assignment {
            key: "AUDIO_INPUT_VOLUME"@,
            value: text::option_view(patch.audio_input_volume),
        },
        Assignment {
            key: "AUDIO_OUTPUT_VOLUME"@,
            value: text::option_view(patch.audio_output_volume),
        },
        Assignment {
            key: "AUDIO_EARCONS_ENABLED"@,
            value: flag_text(patch.audio_earcons_enabled),
        },
        Assignment {
            key: "AUDIO_EARCON_VOLUME"@,
            value: text::option_view(patch.audio_earcon_volume),
        },
        Assignment { key: "AUDIO_SAMPLE_RATE"@, value: whole_text(patch.audio_sample_rate) },
        Assignment { key: "AUDIO_CHANNELS"@, value: whole_text(patch.audio_channels) },
    ]
}

/// A setup after the given assignments.
pub open spec fn assigned(
    environment: Map<Seq<char>, json::Json>,
    list: Seq<Assignment>,
) -> Map<Seq<char>, json::Json>
    decreases list.len(),
{
    if list.len() == 0 {
        environment
    } else {
        with_text(assigned(environment, list.drop_last()), list.last().key, list.last().value)
    }
}

/// A setup after a change.
pub open spec fn patched(
    environment: Map<Seq<char>, json::Json>,
    patch: ConfigPatch,
) -> Map<Seq<char>, json::Json> {
    assigned(environment, assignments(patch))
}

proof fn lemma_next_assignment(
    environment: Map<Seq<char>, json::Json>,
    list: Seq<Assignment>,
    done: int,
)
    requires
        0 <= done < list.len(),
    ensures
        assigned(environment, list.take(done + 1)) == with_text(
            assigned(environment, list.take(done)),
            list[done].key,
            list[done].value,
        ),
{
    assert(list.take(done + 1).drop_last() =~= list.take(done));
}

fn set_text(environment: &mut serde_json::Map<String, Value>, key: &str, value: Option<String>)
    ensures
        json::entries(*final(environment)) == with_text(
            json::entries(*old(environment)),
            key@,
            text::option_view(value),
        ),
{
    if let Some(value) = value {
        json::insert_text(environment, key, value);
    }
}

fn trim_option(value: &Option<String>) -> (trimmed: Option<String>)
    ensures
        text::option_view(trimmed) == trimmed_option(*value),
{
    match value {
        Some(value) => Some(text::trim(value.as_str())),
        None => None,
    }
}

fn write_flag(value: Option<bool>) -> (written: Option<String>)
    ensures
        text::option_view(written) == flag_text(value),
{
    match value {
        Some(true) => Some("true".to_owned()),
        Some(false) => Some("false".to_owned()),
        None => None,
    }
}

fn write_whole(value: Option<u64>) -> (written: Option<String>)
    ensures
        text::option_view(written) == whole_text(value),
{
    match value {
        Some(value) => Some(text::decimal_text(value)),
        None => None,
    }
}

/// Changes a setup. The token of a change must be complete; the rest is checked when the changed
/// setup is validated, before it is written.
pub fn save_patch(environment: serde_json::Map<String, Value>, patch: ConfigPatch) -> (changed:
    Result<serde_json::Map<String, Value>, String>)
    ensures
        match changed {
            Ok(changed) => patch_problem(patch) is None && json::entries(changed) == patched(
                json::entries(environment),
                patch,
            ),
            Err(error) => patch_problem(patch) == Some(error@),
        },
{
    let mut changed = environment;
    let token = trim_option(&patch.discord_token);
    if let Some(value) = &token {
        if value.as_str().is_empty() {
            return Err("Discord token cannot be empty".to_owned());
        }
        if text::consists_of(value.as_str(), '*') {
            return Err(
                "Enter the complete Discord bot token, not the masked placeholder".to_owned(),
            );
        }
    }
    let ghost before = json::entries(changed);
    let ghost list = assignments(patch);
    assert(list.take(0) =~= Seq::empty());
    proof {
        lemma_next_assignment(before, list, 0);
        lemma_next_assignment(before, list, 1);
        lemma_next_assignment(before, list, 2);
        lemma_next_assignment(before, list, 3);
        lemma_next_assignment(before, list, 4);
        lemma_next_assignment(before, list, 5);
        lemma_next_assignment(before, list, 6);
        lemma_next_assignment(before, list, 7);
        lemma_next_assignment(before, list, 8);
        lemma_next_assignment(before, list, 9);
        lemma_next_assignment(before, list, 10);
        lemma_next_assignment(before, list, 11);
        assert(list.take(12) =~= list);
    }
    set_text(&mut changed, "DISCORD_TOKEN", token);
    set_text(&mut changed, "DISCORD_GUILD_ID", trim_option(&patch.discord_guild_id));
    set_text(&mut changed, "CHATGPT_URL", trim_option(&patch.chatgpt_url));
    set_text(&mut changed, "CHATGPT_BROWSER_EXECUTABLE", trim_option(&patch.browser_executable));
    set_text(
        &mut changed,
        "CHATGPT_BROWSER_HIDE_WHEN_READY",
        write_flag(patch.browser_hide_when_ready),
    );
    let mode = match trim_option(&patch.audio_capture_mode) {
        Some(mode) => Some(to_lowercase(mode.as_str())),
        None => None,
    };
    set_text(&mut changed, "AUDIO_CAPTURE_MODE", mode);
    set_text(&mut changed, "AUDIO_INPUT_VOLUME", patch.audio_input_volume);
    set_text(&mut changed, "AUDIO_OUTPUT_VOLUME", patch.audio_output_volume);
    set_text(&mut changed, "AUDIO_EARCONS_ENABLED", write_flag(patch.audio_earcons_enabled));
    set_text(&mut changed, "AUDIO_EARCON_VOLUME", patch.audio_earcon_volume);
    set_text(&mut changed, "AUDIO_SAMPLE_RATE", write_whole(patch.audio_sample_rate));
    set_text(&mut changed, "AUDIO_CHANNELS", write_whole(patch.audio_channels));
    Ok(changed)
}

/// What a setup holds for a key.
pub open spec fn lookup(environment: Map<Seq<char>, json::Json>, key: Seq<char>) -> Option<
    json::Json,
> {
    if environment.contains_key(key) {
        Some(environment[key])
    } else {
        None
    }
}

/// No setting is assigned twice.
pub open spec fn distinct_keys(list: Seq<Assignment>) -> bool {
    forall|i: int, j: int|
        0 <= i < j < list.len() ==> (#[trigger] list[i]).key != (#[trigger] list[j]).key
}

proof fn lemma_unassigned(
    environment: Map<Seq<char>, json::Json>,
    list: Seq<Assignment>,
    key: Seq<char>,
)
    requires
        forall|i: int| 0 <= i < list.len() ==> (#[trigger] list[i]).key != key,
    ensures
        lookup(assigned(environment, list), key) == lookup(environment, key),
    decreases list.len(),
{
    if list.len() > 0 {
        let rest = list.drop_last();
        assert forall|i: int| 0 <= i < rest.len() implies (#[trigger] rest[i]).key != key by {
            assert(rest[i] == list[i]);
        }
        lemma_unassigned(environment, rest, key);
        assert(list.last() == list[list.len() - 1]);
    }
}

proof fn lemma_assigned(
    environment: Map<Seq<char>, json::Json>,
    list: Seq<Assignment>,
    index: int,
)
    requires
        0 <= index < list.len(),
        distinct_keys(list),
    ensures
        lookup(assigned(environment, list), list[index].key) == match list[index].value {
            Some(value) => Some(json::Json::Text(value)),
            None => lookup(environment, list[index].key),
        },
    decreases list.len(),
{
    let rest = list.drop_last();
    assert forall|i: int, j: int| 0 <= i < j < rest.len() implies (#[trigger] rest[i]).key != (
    #[trigger] rest[j]).key by {
        assert(rest[i] == list[i] && rest[j] == list[j]);
    }
    if index == list.len() - 1 {
        assert forall|i: int| 0 <= i < rest.len() implies (#[trigger] rest[i]).key
            != list[index].key by {
            assert(rest[i] == list[i]);
        }
        lemma_unassigned(environment, rest, list[index].key);
    } else {
        lemma_assigned(environment, rest, index);
        assert(rest[index] == list[index]);
        assert(list[list.len() - 1].key != list[index].key);
    }
}

proof fn lemma_keys_differ(patch: ConfigPatch)
    ensures
        distinct_keys(assignments(patch)),
{
    reveal_strlit("DISCORD_TOKEN");
    reveal_strlit("DISCORD_GUILD_ID");
    reveal_strlit("CHATGPT_URL");
    reveal_strlit("CHATGPT_BROWSER_EXECUTABLE");
    reveal_strlit("CHATGPT_BROWSER_HIDE_WHEN_READY");
    reveal_strlit("AUDIO_CAPTURE_MODE");
    reveal_strlit("AUDIO_INPUT_VOLUME");
    reveal_strlit("AUDIO_OUTPUT_VOLUME");
    reveal_strlit("AUDIO_EARCONS_ENABLED");
    reveal_strlit("AUDIO_EARCON_VOLUME");
    reveal_strlit("AUDIO_SAMPLE_RATE");
    reveal_strlit("AUDIO_CHANNELS");
    let list = assignments(patch);
    assert(list[5].key[6] == 'C' && list[6].key[6] == 'I');
    assert(list[7].key[6] == 'O' && list[9].key[6] == 'E');
    assert forall|i: int, j: int| 0 <= i < j < list.len() implies (#[trigger] list[i]).key != (
    #[trigger] list[j]).key by {
        assert(list[0].key.len() == 13 && list[1].key.len() == 16 && list[2].key.len() == 11
            && list[3].key.len() == 26 && list[4].key.len() == 31 && list[5].key.len() == 18
            && list[6].key.len() == 18 && list[7].key.len() == 19 && list[8].key.len() == 21
            && list[9].key.len() == 19 && list[10].key.len() == 17 && list[11].key.len() == 14);
    }
}

/// A change sets each setting that it names and leaves each other setting alone.
pub proof fn change_sets_what_it_names(
    environment: Map<Seq<char>, json::Json>,
    patch: ConfigPatch,
    index: int,
    other: Seq<char>,
)
    requires
        0 <= index < assignments(patch).len(),
        forall|i: int|
            0 <= i < assignments(patch).len() ==> (#[trigger] assignments(patch)[i]).key != other,
    ensures
        lookup(patched(environment, patch), assignments(patch)[index].key) == match assignments(
            patch,
        )[index].value {
            Some(value) => Some(json::Json::Text(value)),
            None => lookup(environment, assignments(patch)[index].key),
        },
        lookup(patched(environment, patch), other) == lookup(environment, other),
{
    lemma_keys_differ(patch);
    lemma_assigned(environment, assignments(patch), index);
    lemma_unassigned(environment, assignments(patch), other);
}

proof fn lemma_assigned_is_flat(environment: Map<Seq<char>, json::Json>, list: Seq<Assignment>)
    requires
        json::flat(environment),
    ensures
        json::flat(assigned(environment, list)),
    decreases list.len(),
{
    if list.len() > 0 {
        lemma_assigned_is_flat(environment, list.drop_last());
    }
}

/// A setup that starts from the defaults and plain stored settings holds plain settings only, also
/// after a change: what is written to the setup file reads back unchanged.
pub proof fn saved_setup_stays_plain(
    profile: Seq<char>,
    stored: Map<Seq<char>, json::Json>,
    patch: ConfigPatch,
)
    requires
        json::flat(stored),
    ensures
        json::flat(defaults(profile).union_prefer_right(stored)),
        json::flat(patched(defaults(profile).union_prefer_right(stored), patch)),
{
    assert(json::flat(defaults(profile)));
    lemma_assigned_is_flat(
        defaults(profile).union_prefer_right(stored),
        assignments(patch),
    );
}

/// Text settings that a change names are shown as they were given, without surrounding white
/// space; those that it does not name are shown as before.
pub proof fn saved_settings_are_shown(
    environment: Map<Seq<char>, json::Json>,
    patch: ConfigPatch,
    fallback: Seq<char>,
)
    ensures
        ({
            let saved = patched(environment, patch);
            &&& text_setting(saved, "DISCORD_TOKEN"@, fallback) == match trimmed_option(
                patch.discord_token,
            ) {
                Some(value) => value,
                None => text_setting(environment, "DISCORD_TOKEN"@, fallback),
            }
            &&& text_setting(saved, "DISCORD_GUILD_ID"@, fallback) == match trimmed_option(
                patch.discord_guild_id,
            ) {
                Some(value) => value,
                None => text_setting(environment, "DISCORD_GUILD_ID"@, fallback),
            }
            &&& text_setting(saved, "CHATGPT_URL"@, fallback) == match trimmed_option(
                patch.chatgpt_url,
            ) {
                Some(value) => value,
                None => text_setting(environment, "CHATGPT_URL"@, fallback),
            }
            &&& text_setting(saved, "CHATGPT_BROWSER_EXECUTABLE"@, fallback)
                == match trimmed_option(patch.browser_executable) {
                Some(value) => value,
                None => text_setting(environment, "CHATGPT_BROWSER_EXECUTABLE"@, fallback),
            }
        }),
{
    lemma_keys_differ(patch);
    lemma_assigned(environment, assignments(patch), 0);
    lemma_assigned(environment, assignments(patch), 1);
    lemma_assigned(environment, assignments(patch), 2);
    lemma_assigned(environment, assignments(patch), 3);
    match patch.discord_token {
        Some(value) => text::lemma_trim_is_idempotent(value@),
        None => {},
    }
    match patch.discord_guild_id {
        Some(value) => text::lemma_trim_is_idempotent(value@),
        None => {},
    }
    match patch.chatgpt_url {
        Some(value) => text::lemma_trim_is_idempotent(value@),
        None => {},
    }
    match patch.browser_executable {
        Some(value) => text::lemma_trim_is_idempotent(value@),
        None => {},
    }
}

/// A capture mode that a change names, written in ASCII, is shown in small letters and without
/// surrounding white space.
pub proof fn saved_mode_is_shown(
    environment: Map<Seq<char>, json::Json>,
    patch: ConfigPatch,
    mode: String,
    fallback: Seq<char>,
)
    requires
        patch.audio_capture_mode == Some(mode),
        ascii(text::trimmed(mode@)),
    ensures
        text_setting(patched(environment, patch), "AUDIO_CAPTURE_MODE"@, fallback)
            == text::ascii_lowered(text::trimmed(mode@)),
{
    let trimmed = text::trimmed(mode@);
    let small = text::ascii_lowered(trimmed);
    lemma_keys_differ(patch);
    lemma_assigned(environment, assignments(patch), 5);
    text::lemma_trimmed_ends(mode@);
    assert(small.len() == trimmed.len());
    if small.len() > 0 {
        assert(small[0] == text::ascii_lower(trimmed[0]));
        assert(small.last() == text::ascii_lower(trimmed.last()));
    }
    text::lemma_trimmed_is_fixed(small);
}

proof fn lemma_flag_words()
    ensures
        text::same_ignoring_case(text::trimmed("true"@), "true"@),
        !text::same_ignoring_case(text::trimmed("false"@), "true"@),
{
    reveal_strlit("true");
    reveal_strlit("false");
    text::lemma_trimmed_is_fixed("true"@);
    text::lemma_trimmed_is_fixed("false"@);
    assert(text::ascii_lowered("true"@).len() == 4);
    assert(text::ascii_lowered("false"@).len() == 5);
}

/// Switches that a change names are shown as they were given; those that it does not name are
/// shown as before.
pub proof fn saved_switches_are_shown(
    environment: Map<Seq<char>, json::Json>,
    patch: ConfigPatch,
    fallback: bool,
)
    ensures
        ({
            let saved = patched(environment, patch);
            &&& flag_setting(saved, "CHATGPT_BROWSER_HIDE_WHEN_READY"@, fallback)
                == match patch.browser_hide_when_ready {
                Some(value) => value,
                None => flag_setting(environment, "CHATGPT_BROWSER_HIDE_WHEN_READY"@, fallback),
            }
            &&& flag_setting(saved, "AUDIO_EARCONS_ENABLED"@, fallback)
                == match patch.audio_earcons_enabled {
                Some(value) => value,
                None => flag_setting(environment, "AUDIO_EARCONS_ENABLED"@, fallback),
            }
        }),
{
    lemma_keys_differ(patch);
    lemma_assigned(environment, assignments(patch), 4);
    lemma_assigned(environment, assignments(patch), 8);
    lemma_flag_words();
}

/// Numbers that a change names are stored as they were given; those that it does not name are
/// stored as before.
pub proof fn saved_numbers_are_stored(
    environment: Map<Seq<char>, json::Json>,
    patch: ConfigPatch,
)
    ensures
        ({
            let saved = patched(environment, patch);
            &&& number_setting(saved, "AUDIO_INPUT_VOLUME"@) == (if patch.audio_input_volume is Some {
                text::option_view(patch.audio_input_volume)
            } else {
                number_setting(environment, "AUDIO_INPUT_VOLUME"@)
            })
            &&& number_setting(saved, "AUDIO_OUTPUT_VOLUME"@) == (
            if patch.audio_output_volume is Some {
                text::option_view(patch.audio_output_volume)
            } else {
                number_setting(environment, "AUDIO_OUTPUT_VOLUME"@)
            })
            &&& number_setting(saved, "AUDIO_EARCON_VOLUME"@) == (
            if patch.audio_earcon_volume is Some {
                text::option_view(patch.audio_earcon_volume)
            } else {
                number_setting(environment, "AUDIO_EARCON_VOLUME"@)
            })
            &&& number_setting(saved, "AUDIO_SAMPLE_RATE"@) == (if patch.audio_sample_rate is Some {
                whole_text(patch.audio_sample_rate)
            } else {
                number_setting(environment, "AUDIO_SAMPLE_RATE"@)
            })
            &&& number_setting(saved, "AUDIO_CHANNELS"@) == (if patch.audio_channels is Some {
                whole_text(patch.audio_channels)
            } else {
                number_setting(environment, "AUDIO_CHANNELS"@)
            })
        }),
{
    lemma_keys_differ(patch);
    lemma_assigned(environment, assignments(patch), 6);
    lemma_assigned(environment, assignments(patch), 7);
    lemma_assigned(environment, assignments(patch), 9);
    lemma_assigned(environment, assignments(patch), 10);
    lemma_assigned(environment, assignments(patch), 11);
}

proof fn lemma_assigned_keeps_keys(
    environment: Map<Seq<char>, json::Json>,
    list: Seq<Assignment>,
    key: Seq<char>,
)
    requires
        environment.contains_key(key),
    ensures
        assigned(environment, list).contains_key(key),
    decreases list.len(),
{
    if list.len() > 0 {
        lemma_assigned_keeps_keys(environment, list.drop_last(), key);
    }
}

/// What is saved is what is loaded: where the stored settings were plain, the setup
/// file of a changed setup (`contents`, of which writing it promises that it reads back), read and
/// completed with the defaults, is the changed setup itself.
pub proof fn saved_setup_is_loaded(
    profile: Seq<char>,
    stored: Map<Seq<char>, json::Json>,
    patch: ConfigPatch,
    contents: Seq<char>,
)
    requires
        json::flat(stored),
        ({
            let saved = patched(defaults(profile).union_prefer_right(stored), patch);
            json::flat(saved) ==> stored_settings(Some(contents)) == Ok::<
                Map<Seq<char>, json::Json>,
                Seq<char>,
            >(saved)
        }),
    ensures
        ({
            let saved = patched(defaults(profile).union_prefer_right(stored), patch);
            stored_settings(Some(contents)) matches Ok(read) && defaults(
                profile,
            ).union_prefer_right(read) == saved
        }),
{
    let merged = defaults(profile).union_prefer_right(stored);
    let saved = patched(merged, patch);
    saved_setup_stays_plain(profile, stored, patch);
    assert forall|key: Seq<char>| defaults(profile).contains_key(key) implies saved.contains_key(
        key,
    ) by {
        assert(merged.contains_key(key));
        lemma_assigned_keeps_keys(merged, assignments(patch), key);
    }
    assert(defaults(profile).union_prefer_right(saved) =~= saved);
}

/// What is shown after saving is what is shown after loading, field by field: the setup file of a
/// changed setup (`contents`, of which writing it promises that it reads back), read and completed
/// with the defaults, gives the same snapshot. The numbers come out alike because the same `read`
/// turns their texts into numbers both times.
pub proof fn saved_snapshot_is_loaded(
    config_path: Seq<char>,
    data_dir: Seq<char>,
    profile: Seq<char>,
    stored: Map<Seq<char>, json::Json>,
    patch: ConfigPatch,
    contents: Seq<char>,
    read: spec_fn(Seq<char>) -> Option<Binary64>,
    shown: ConfigSnapshot,
    loaded: ConfigSnapshot,
)
    requires
        json::flat(stored),
        ({
            let saved = patched(defaults(profile).union_prefer_right(stored), patch);
            &&& json::flat(saved) ==> stored_settings(Some(contents)) == Ok::<
                Map<Seq<char>, json::Json>,
                Seq<char>,
            >(saved)
            &&& shown.shows(config_path, data_dir, profile, saved, AudioNumbers::of(saved, read))
        }),
        stored_settings(Some(contents)) matches Ok(again) ==> {
            let merged = defaults(profile).union_prefer_right(again);
            loaded.shows(config_path, data_dir, profile, merged, AudioNumbers::of(merged, read))
        },
    ensures
        shown.shows_same(loaded),
{
    saved_setup_is_loaded(profile, stored, patch, contents);
}

/// Numbers that a change names are shown as they were given, as far as their texts are read as the
/// same numbers: `read` turns a text into a number, and a rate or a count of channels has to be one
/// that keeps its value.
pub proof fn saved_numbers_are_shown(
    config_path: Seq<char>,
    data_dir: Seq<char>,
    profile: Seq<char>,
    environment: Map<Seq<char>, json::Json>,
    patch: ConfigPatch,
    read: spec_fn(Seq<char>) -> Option<Binary64>,
    shown: ConfigSnapshot,
)
    requires
        shown.shows(
            config_path,
            data_dir,
            profile,
            patched(environment, patch),
            AudioNumbers::of(patched(environment, patch), read),
        ),
    ensures
        patch.audio_input_volume matches Some(written) ==> read(written@) matches Some(volume)
            ==> shown.audio_input_volume == volume,
        patch.audio_output_volume matches Some(written) ==> read(written@) matches Some(volume)
            ==> shown.audio_output_volume == volume,
        patch.audio_earcon_volume matches Some(written) ==> read(written@) matches Some(volume)
            ==> shown.audio_earcon_volume == volume,
        patch.audio_sample_rate matches Some(rate) ==> read(
            text::decimal(rate as nat),
        ) matches Some(number) ==> number.truncated() == rate ==> shown.audio_sample_rate == rate,
        patch.audio_channels matches Some(channels) ==> read(
            text::decimal(channels as nat),
        ) matches Some(number) ==> number.truncated() == channels ==> shown.audio_channels
            == channels,
{
    saved_numbers_are_stored(environment, patch);
}

/// The limits are the numbers zero, one and four, and are written so.
pub proof fn limits_are_what_they_say()
    ensures
        Limit::Zero.number().value() == 0,
        Limit::One.number().value() == pow2(1074),
        Limit::Four.number().value() == 4 * pow2(1074),
        Limit::Zero.written() == "0"@,
        Limit::One.written() == "1"@,
        Limit::Four.written() == "4"@,
{
    ieee::powers_of_two_have_their_patterns(0);
    ieee::powers_of_two_have_their_patterns(2);
    vstd::arithmetic::power2::lemma_pow2_adds(1074, 2);
    vstd::arithmetic::power2::lemma2_to64();
    assert((1023 + 0) * 0x10_0000_0000_0000 == 0x3ff0_0000_0000_0000);
    assert((1023 + 2) * 0x10_0000_0000_0000 == 0x4010_0000_0000_0000);
}

/// The numbers of a setup are in order exactly where the two main volumes lie between zero and
/// four, the volume of the earcons between zero and one, and at least one sample per second and one
/// channel are asked for. Values are counted in units of two to the power of minus 1074.
pub proof fn numbers_are_accepted_within_their_limits(numbers: AudioNumbers)
    ensures
        number_problem(numbers) is None <==> {
            &&& numbers.input_volume.finite() && 0 <= numbers.input_volume.value() <= 4 * pow2(1074)
            &&& numbers.output_volume.finite() && 0 <= numbers.output_volume.value() <= 4 * pow2(
                1074,
            )
            &&& numbers.earcon_volume.finite() && 0 <= numbers.earcon_volume.value() <= pow2(1074)
            &&& numbers.sample_rate.truncated() >= 1
            &&& numbers.channels.truncated() >= 1
        },
{
    limits_are_what_they_say();
}

/// A number that is out of its limits is named together with them; the first one in the order of
/// the setup is named.
pub proof fn refused_numbers_are_named(numbers: AudioNumbers)
    ensures
        ({
            let input = within(numbers.input_volume, Limit::Zero, Limit::Four);
            let output = within(numbers.output_volume, Limit::Zero, Limit::Four);
            let earcon = within(numbers.earcon_volume, Limit::Zero, Limit::One);
            &&& !input ==> number_problem(numbers) == Some(
                "Audio input volume"@ + " must be between "@ + "0"@ + " and "@ + "4"@,
            )
            &&& input && !output ==> number_problem(numbers) == Some(
                "Audio output volume"@ + " must be between "@ + "0"@ + " and "@ + "4"@,
            )
            &&& input && output && !earcon ==> number_problem(numbers) == Some(
                "Audio earcon volume"@ + " must be between "@ + "0"@ + " and "@ + "1"@,
            )
            &&& input && output && earcon && numbers.sample_rate.truncated() == 0
                ==> number_problem(numbers) == Some(
                "Audio sample rate"@ + " must be greater than zero"@,
            )
            &&& input && output && earcon && numbers.sample_rate.truncated() > 0
                && numbers.channels.truncated() == 0 ==> number_problem(numbers) == Some(
                "Audio channels"@ + " must be greater than zero"@,
            )
        }),
{
}

/// A setup is accepted where its token is complete, or missing, its address is one of the web
/// without white space, its capture mode is one of the three in any letters, and its numbers are in
/// order.
pub proof fn complete_setup_is_accepted(
    environment: Map<Seq<char>, json::Json>,
    numbers: AudioNumbers,
    token: Seq<char>,
    url: Seq<char>,
    mode: Seq<char>,
)
    requires
        environment.contains_key("DISCORD_TOKEN"@) ==> environment["DISCORD_TOKEN"@]
            == json::Json::Text(token) && vstd::utf8::encode_utf8(text::trimmed(token)).len() >= 8
            && exists|i: int|
            0 <= i < text::trimmed(token).len() && #[trigger] text::trimmed(token)[i] != '*',
        environment.contains_key("CHATGPT_URL"@) && environment["CHATGPT_URL"@]
            == json::Json::Text(url),
        text::begins_with(text::trimmed(url), "https://"@) || text::begins_with(
            text::trimmed(url),
            "http://"@,
        ),
        forall|i: int|
            0 <= i < text::trimmed(url).len() ==> !text::white_space(
                #[trigger] text::trimmed(url)[i],
            ),
        environment.contains_key("AUDIO_CAPTURE_MODE"@) && environment["AUDIO_CAPTURE_MODE"@]
            == json::Json::Text(mode),
        ascii(text::trimmed(mode)),
        text::same_ignoring_case(text::trimmed(mode), "device"@) || text::same_ignoring_case(
            text::trimmed(mode),
            "browser-process"@,
        ) || text::same_ignoring_case(text::trimmed(mode), "browser-media"@),
        number_problem(numbers) is None,
    ensures
        problem(environment, numbers) is None,
{
    reveal_strlit("device");
    reveal_strlit("browser-process");
    reveal_strlit("browser-media");
    assert(text::ascii_lowered("device"@) =~= "device"@);
    assert(text::ascii_lowered("browser-process"@) =~= "browser-process"@);
    assert(text::ascii_lowered("browser-media"@) =~= "browser-media"@);
    if environment.contains_key("DISCORD_TOKEN"@) {
        let at = choose|i: int|
            0 <= i < text::trimmed(token).len() && #[trigger] text::trimmed(token)[i] != '*';
        assert(!text::only(text::trimmed(token), '*'));
    }
}

/// A setup that is refused is told why: its token is too short or a placeholder, its address is
/// not one of the web or holds white space, or its capture mode is unknown. The token is named
/// first, then the address, then the mode, then the numbers.
pub proof fn refused_setup_is_explained(
    environment: Map<Seq<char>, json::Json>,
    numbers: AudioNumbers,
    token: Seq<char>,
    url: Seq<char>,
    mode: Seq<char>,
)
    requires
        environment.contains_key("CHATGPT_URL"@) && environment["CHATGPT_URL"@]
            == json::Json::Text(url),
        environment.contains_key("AUDIO_CAPTURE_MODE"@) && environment["AUDIO_CAPTURE_MODE"@]
            == json::Json::Text(mode),
        ascii(text::trimmed(mode)),
    ensures
        ({
            let short = environment.insert("DISCORD_TOKEN"@, json::Json::Text(token));
            let length = vstd::utf8::encode_utf8(text::trimmed(token)).len();
            &&& text::trimmed(token).len() > 0 && length < 8 ==> problem(short, numbers) == Some(
                "Discord token looks too short"@,
            )
            &&& length >= 8 && text::only(text::trimmed(token), '*') ==> problem(short, numbers)
                == Some("Enter the complete Discord bot token, not the masked placeholder"@)
        }),
        !environment.contains_key("DISCORD_TOKEN"@) ==> {
            let web = text::begins_with(text::trimmed(url), "https://"@) || text::begins_with(
                text::trimmed(url),
                "http://"@,
            );
            let spaced = exists|i: int|
                0 <= i < text::trimmed(url).len() && text::white_space(
                    #[trigger] text::trimmed(url)[i],
                );
            let known = text::same_ignoring_case(text::trimmed(mode), "device"@)
                || text::same_ignoring_case(text::trimmed(mode), "browser-process"@)
                || text::same_ignoring_case(text::trimmed(mode), "browser-media"@);
            &&& !web || spaced ==> problem(environment, numbers) == Some(
                "ChatGPT URL must be an http(s) URL without spaces"@,
            )
            &&& web && !spaced && !known ==> problem(environment, numbers) == Some(
                "Audio capture mode must be device, browser-process, or browser-media"@,
            )
            &&& web && !spaced && known ==> problem(environment, numbers) == number_problem(numbers)
        },
{
    reveal_strlit("device");
    reveal_strlit("browser-process");
    reveal_strlit("browser-media");
    assert(text::ascii_lowered("device"@) =~= "device"@);
    assert(text::ascii_lowered("browser-process"@) =~= "browser-process"@);
    assert(text::ascii_lowered("browser-media"@) =~= "browser-media"@);
    let short = environment.insert("DISCORD_TOKEN"@, json::Json::Text(token));
    assert(raw_text(short, "DISCORD_TOKEN"@) == Some(token));
}

/// A text setting is read without the white space around it; what is no text, or missing, gives
/// its place to the fallback.
pub proof fn text_settings_are_read(
    environment: Map<Seq<char>, json::Json>,
    key: Seq<char>,
    before: Seq<char>,
    value: Seq<char>,
    after: Seq<char>,
    fallback: Seq<char>,
    flag: bool,
)
    requires
        forall|i: int| 0 <= i < before.len() ==> text::white_space(#[trigger] before[i]),
        forall|i: int| 0 <= i < after.len() ==> text::white_space(#[trigger] after[i]),
        value.len() > 0,
        !text::white_space(value[0]) && !text::white_space(value.last()),
        fallback.len() > 0 ==> !text::white_space(fallback[0]) && !text::white_space(
            fallback.last(),
        ),
    ensures
        text_setting(
            environment.insert(key, json::Json::Text(before + value + after)),
            key,
            fallback,
        ) == value,
        text_setting(environment.remove(key), key, fallback) == fallback,
        text_setting(environment.insert(key, json::Json::Flag(flag)), key, fallback) == fallback,
{
    text::trimming_removes_the_space_around(before, value, after);
    text::lemma_trimmed_is_fixed(fallback);
}

/// A switch is on where the setup holds `true`, or the word "true" in any letters with or without
/// white space around it. Any other word switches it off, and without a word or a flag the
/// fallback decides.
pub proof fn switches_are_read(
    environment: Map<Seq<char>, json::Json>,
    key: Seq<char>,
    before: Seq<char>,
    word: Seq<char>,
    after: Seq<char>,
    other: Seq<char>,
    number: Seq<char>,
    fallback: bool,
)
    requires
        forall|i: int| 0 <= i < before.len() ==> text::white_space(#[trigger] before[i]),
        forall|i: int| 0 <= i < after.len() ==> text::white_space(#[trigger] after[i]),
        word.len() == 4,
        word[0] == 't' || word[0] == 'T',
        word[1] == 'r' || word[1] == 'R',
        word[2] == 'u' || word[2] == 'U',
        word[3] == 'e' || word[3] == 'E',
        text::trimmed(other).len() != 4,
    ensures
        flag_setting(environment.insert(key, json::Json::Flag(true)), key, fallback),
        !flag_setting(environment.insert(key, json::Json::Flag(false)), key, fallback),
        flag_setting(
            environment.insert(key, json::Json::Text(before + word + after)),
            key,
            fallback,
        ),
        !flag_setting(environment.insert(key, json::Json::Text(other)), key, fallback),
        flag_setting(environment.remove(key), key, fallback) == fallback,
        flag_setting(environment.insert(key, json::Json::Number(number)), key, fallback)
            == fallback,
{
    reveal_strlit("true");
    text::trimming_removes_the_space_around(before, word, after);
    text::case_is_ignored_letter_by_letter(word, "true"@);
    text::case_is_ignored_letter_by_letter(text::trimmed(other), "true"@);
}

/// A numeric setting is read from a number or from a text alike; anything else is no number.
pub proof fn numeric_settings_are_read(
    environment: Map<Seq<char>, json::Json>,
    key: Seq<char>,
    written: Seq<char>,
    flag: bool,
)
    ensures
        number_setting(environment.insert(key, json::Json::Number(written)), key) == Some(written),
        number_setting(environment.insert(key, json::Json::Text(written)), key) == Some(written),
        number_setting(environment.insert(key, json::Json::Flag(flag)), key) is None,
        number_setting(environment.remove(key), key) is None,
{
}

/// A setup without numbers has the main volumes at one, the earcons at 0.18, and audio with 48000
/// samples per second in two channels.
pub proof fn missing_numbers_have_their_defaults(read: spec_fn(Seq<char>) -> Option<Binary64>)
    ensures
        ({
            let numbers = AudioNumbers::of(json::no_entries(), read);
            &&& numbers.input_volume.value() == pow2(1074)
            &&& numbers.output_volume.value() == pow2(1074)
            &&& numbers.earcon_volume.bits == 0x3fc7_0a3d_70a3_d70a
            &&& numbers.sample_rate.truncated() == 48_000
            &&& numbers.channels.truncated() == 2
        }),
{
    let numbers = AudioNumbers::of(json::no_entries(), read);
    limits_are_what_they_say();
    assert(numbers.input_volume == Limit::One.number());
    let unit = pow2(1074) as int;
    vstd::arithmetic::power2::lemma_pow2_pos(1074);
    vstd::arithmetic::power2::lemma_pow2_adds(37, 1037);
    vstd::arithmetic::power2::lemma2_to64();
    vstd::arithmetic::power2::lemma_pow2_adds(32, 5);
    ieee::powers_of_two_have_their_patterns(1);
    vstd::arithmetic::power2::lemma_pow2_adds(1074, 1);
    assert((1023 + 1) * 0x10_0000_0000_0000 == 0x4000_0000_0000_0000);
    let rate = numbers.sample_rate;
    assert(rate.exponent() == 1038 && rate.fraction() == 0x7_7000_0000_0000);
    assert(pow2(37) == 0x20_0000_0000);
    let low = pow2(1037) as int;
    assert(unit == 0x20_0000_0000 * low);
    assert(rate.magnitude() == 48_000 * unit) by (nonlinear_arith)
        requires
            rate.magnitude() == (0x10_0000_0000_0000 + 0x7_7000_0000_0000) * low,
            unit == 0x20_0000_0000 * low,
    ;
    vstd::arithmetic::div_mod::lemma_div_multiples_vanish(48_000, unit);
    let channels = numbers.channels;
    assert(channels.magnitude() == 2 * unit);
    vstd::arithmetic::div_mod::lemma_div_multiples_vanish(2, unit);
    assert(48_000 * unit == unit * 48_000) by (nonlinear_arith);
}

/// A fresh installation is shown with the address of ChatGPT, no token and no guild, the browser
/// hidden when it is ready, the audio of the page and earcons switched on.
pub proof fn fresh_setup_is_shown(
    snapshot: ConfigSnapshot,
    config_path: Seq<char>,
    data_dir: Seq<char>,
    profile: Seq<char>,
    numbers: AudioNumbers,
)
    requires
        snapshot.shows(config_path, data_dir, profile, defaults(profile), numbers),
    ensures
        snapshot.config_path@ == config_path,
        snapshot.data_dir@ == data_dir,
        snapshot.browser_profile@ == text::trimmed(profile),
        !snapshot.discord_token_configured,
        snapshot.discord_token_masked@.len() == 0,
        snapshot.discord_guild_id@.len() == 0,
        snapshot.chatgpt_url@ == "https://chatgpt.com/"@,
        snapshot.browser_executable@.len() == 0,
        snapshot.browser_hide_when_ready,
        snapshot.audio_capture_mode@ == "browser-media"@,
        snapshot.audio_earcons_enabled,
        snapshot.audio_input_volume == numbers.input_volume,
        snapshot.audio_output_volume == numbers.output_volume,
        snapshot.audio_earcon_volume == numbers.earcon_volume,
        snapshot.audio_sample_rate == numbers.sample_rate.truncated(),
        snapshot.audio_channels == numbers.channels.truncated(),
{
    let environment = defaults(profile);
    reveal_strlit("");
    reveal_strlit("DISCORD_TOKEN");
    reveal_strlit("DISCORD_GUILD_ID");
    reveal_strlit("CHATGPT_BROWSER_EXECUTABLE");
    reveal_strlit("CHATGPT_URL");
    reveal_strlit("CHATGPT_BROWSER_PROFILE");
    reveal_strlit("CHATGPT_BROWSER_HIDE_WHEN_READY");
    reveal_strlit("AUDIO_CAPTURE_MODE");
    reveal_strlit("AUDIO_INPUT_VOLUME");
    reveal_strlit("AUDIO_OUTPUT_VOLUME");
    reveal_strlit("AUDIO_EARCONS_ENABLED");
    reveal_strlit("AUDIO_EARCON_VOLUME");
    reveal_strlit("AUDIO_SAMPLE_RATE");
    reveal_strlit("AUDIO_CHANNELS");
    assert("CHATGPT_URL"@.len() == 11 && "CHATGPT_BROWSER_PROFILE"@.len() == 23
        && "CHATGPT_BROWSER_HIDE_WHEN_READY"@.len() == 31 && "AUDIO_CAPTURE_MODE"@.len() == 18
        && "AUDIO_INPUT_VOLUME"@.len() == 18 && "AUDIO_OUTPUT_VOLUME"@.len() == 19
        && "AUDIO_EARCONS_ENABLED"@.len() == 21 && "AUDIO_EARCON_VOLUME"@.len() == 19
        && "AUDIO_SAMPLE_RATE"@.len() == 17 && "AUDIO_CHANNELS"@.len() == 14
        && "DISCORD_TOKEN"@.len() == 13 && "DISCORD_GUILD_ID"@.len() == 16
        && "CHATGPT_BROWSER_EXECUTABLE"@.len() == 26);
    assert("AUDIO_CAPTURE_MODE"@[6] == 'C' && "AUDIO_INPUT_VOLUME"@[6] == 'I');
    reveal_strlit("https://chatgpt.com/");
    reveal_strlit("browser-media");
    text::lemma_trimmed_is_fixed("https://chatgpt.com/"@);
    text::lemma_trimmed_is_fixed("browser-media"@);
    lemma_flag_words();
    assert(raw_text(environment, "DISCORD_TOKEN"@) is None);
    assert(raw_text(environment, "DISCORD_GUILD_ID"@) is None);
    assert(raw_text(environment, "CHATGPT_BROWSER_EXECUTABLE"@) is None);
    assert(raw_text(environment, "CHATGPT_URL"@) == Some("https://chatgpt.com/"@));
    assert(raw_text(environment, "CHATGPT_BROWSER_PROFILE"@) == Some(profile));
    assert(raw_text(environment, "AUDIO_CAPTURE_MODE"@) == Some("browser-media"@));
    assert(raw_text(environment, "AUDIO_EARCONS_ENABLED"@) == Some("true"@));
    assert(raw_text(environment, "CHATGPT_BROWSER_HIDE_WHEN_READY"@) == Some("true"@));
    assert(text::trimmed(""@).len() == 0);
}

/// A configured token is shown as eight stars, and that it is configured.
pub proof fn configured_token_is_masked(
    snapshot: ConfigSnapshot,
    config_path: Seq<char>,
    data_dir: Seq<char>,
    profile: Seq<char>,
    entries: Map<Seq<char>, json::Json>,
    numbers: AudioNumbers,
    token: Seq<char>,
)
    requires
        text::trimmed(token).len() > 0,
        snapshot.shows(
            config_path,
            data_dir,
            profile,
            entries.insert("DISCORD_TOKEN"@, json::Json::Text(token)),
            numbers,
        ),
    ensures
        snapshot.discord_token_configured,
        snapshot.discord_token_masked@ == "********"@,
{
    assert(raw_text(
        entries.insert("DISCORD_TOKEN"@, json::Json::Text(token)),
        "DISCORD_TOKEN"@,
    ) == Some(token));
}

/// A change with a blank token, or with the placeholder for one, is refused; any other token is
/// taken.
pub proof fn changed_token_is_complete(patch: ConfigPatch, token: String, at: int)
    requires
        patch.discord_token == Some(token),
    ensures
        text::trimmed(token@).len() == 0 ==> patch_problem(patch) == Some(
            "Discord token cannot be empty"@,
        ),
        text::trimmed(token@).len() > 0 && (forall|i: int|
            0 <= i < text::trimmed(token@).len() ==> #[trigger] text::trimmed(token@)[i] == '*')
            ==> patch_problem(patch) == Some(
            "Enter the complete Discord bot token, not the masked placeholder"@,
        ),
        0 <= at < text::trimmed(token@).len() && text::trimmed(token@)[at] != '*' ==> patch_problem(
            patch,
        ) is None,
{
}

/// A setup file that is no JSON, or no object, is refused with what is wrong; without a file there
/// are no settings yet.
pub proof fn setup_files_are_objects(
    contents: Seq<char>,
    object: Map<Seq<char>, json::Json>,
    error: Seq<char>,
    list: Seq<json::Json>,
)
    ensures
        stored_settings(None) == Ok::<Map<Seq<char>, json::Json>, Seq<char>>(Map::empty()),
        json::parsed_json(contents) == Ok::<json::Json, Seq<char>>(json::Json::Object(object))
            ==> stored_settings(Some(contents)) == Ok::<Map<Seq<char>, json::Json>, Seq<char>>(
            object,
        ),
        json::parsed_json(contents) == Ok::<json::Json, Seq<char>>(json::Json::List(list))
            ==> stored_settings(Some(contents)) == Err::<Map<Seq<char>, json::Json>, Seq<char>>(
            "Saved GPTVoice setup must be a JSON object"@,
        ),
        json::parsed_json(contents) == Err::<json::Json, Seq<char>>(error) ==> stored_settings(
            Some(contents),
        ) == Err::<Map<Seq<char>, json::Json>, Seq<char>>(
            "Saved GPTVoice setup is not valid JSON: "@ + error,
        ),
{
}

/// A setup that names no address and no capture mode is in order as far as those go: ChatGPT's own
/// address and the audio of the page stand in for them.
pub proof fn missing_settings_are_in_order(
    environment: Map<Seq<char>, json::Json>,
    numbers: AudioNumbers,
)
    requires
        !environment.contains_key("DISCORD_TOKEN"@),
        !environment.contains_key("CHATGPT_URL"@),
        !environment.contains_key("AUDIO_CAPTURE_MODE"@),
    ensures
        problem(environment, numbers) == number_problem(numbers),
        text_setting(environment, "CHATGPT_URL"@, "https://chatgpt.com/"@)
            == "https://chatgpt.com/"@,
{
    let url = "https://chatgpt.com/"@;
    let mode = "browser-media"@;
    reveal_strlit("https://chatgpt.com/");
    reveal_strlit("https://");
    reveal_strlit("browser-media");
    text::lemma_trimmed_is_fixed(url);
    text::lemma_trimmed_is_fixed(mode);
    assert(url.take(8) =~= "https://"@);
    assert(!text::has_white_space(url));
    assert(ascii(mode));
    assert(text::ascii_lowered(mode) =~= mode);
}

} // verus!
