use gptvoice::config::{
    bool_value, checked_setup, default_environment, ensure_positive, ensure_range, integer_value,
    is_capture_mode, load_discord_credentials, load_snapshot, merged_environment, number_value,
    read_environment, save_patch, snapshot_from_environment, string_value, temporary_name,
    validate_environment, write_environment, AudioNumbers, ConfigPatch, Limit, MASKED_TOKEN,
};
use gptvoice::ieee::Binary64;
use gptvoice::release::{
    check_for_update, http_failure, is_newer_release, is_release_page, open_release_url,
    parse_release_version, release_endpoint, unavailable_update, GitHubRelease,
    UPDATE_RELEASES_URL,
};
use serde_json::Value;

fn number(value: f64) -> Binary64 {
    Binary64 { bits: value.to_bits() }
}

fn setting(environment: &serde_json::Map<String, Value>, key: &str, fallback: f64) -> f64 {
    number_value(environment, key)
        .and_then(|text| text.parse().ok())
        .unwrap_or(fallback)
}

fn numbers(environment: &serde_json::Map<String, Value>) -> AudioNumbers {
    AudioNumbers {
        input_volume: number(setting(environment, "AUDIO_INPUT_VOLUME", 1.0)),
        output_volume: number(setting(environment, "AUDIO_OUTPUT_VOLUME", 1.0)),
        earcon_volume: number(setting(environment, "AUDIO_EARCON_VOLUME", 0.18)),
        sample_rate: number(setting(environment, "AUDIO_SAMPLE_RATE", 48_000.0)),
        channels: number(setting(environment, "AUDIO_CHANNELS", 2.0)),
    }
}

fn no_patch() -> ConfigPatch {
    ConfigPatch {
        discord_token: None,
        discord_guild_id: None,
        chatgpt_url: None,
        browser_executable: None,
        browser_hide_when_ready: None,
        audio_capture_mode: None,
        audio_input_volume: None,
        audio_output_volume: None,
        audio_earcons_enabled: None,
        audio_earcon_volume: None,
        audio_sample_rate: None,
        audio_channels: None,
    }
}

fn text(value: &str) -> Value {
    Value::String(value.to_owned())
}

#[test]
fn defaults_use_browser_media_and_persist_string_values() {
    let environment = default_environment(r"C:\GPTVoice\browser-profile");
    assert_eq!(
        string_value(&environment, "AUDIO_CAPTURE_MODE", ""),
        "browser-media"
    );
    assert_eq!(setting(&environment, "AUDIO_OUTPUT_VOLUME", 0.0), 1.0);
    assert!(validate_environment(&environment, &numbers(&environment)).is_ok());
}

#[test]
fn validation_rejects_masked_tokens_and_invalid_modes() {
    let mut environment = default_environment(r"C:\GPTVoice\browser-profile");
    environment.insert(
        "DISCORD_TOKEN".to_owned(),
        Value::String(MASKED_TOKEN.to_owned()),
    );
    assert!(validate_environment(&environment, &numbers(&environment)).is_err());

    environment.insert(
        "DISCORD_TOKEN".to_owned(),
        Value::String("valid-token".to_owned()),
    );
    environment.insert(
        "AUDIO_CAPTURE_MODE".to_owned(),
        Value::String("invalid".to_owned()),
    );
    assert!(validate_environment(&environment, &numbers(&environment)).is_err());
}

#[test]
fn each_problem_has_its_message() {
    let cases: Vec<(&str, Value, &str)> = vec![
        ("DISCORD_TOKEN", text(" short "), "Discord token looks too short"),
        (
            "DISCORD_TOKEN",
            text("   "),
            "Enter the complete Discord bot token, not the masked placeholder",
        ),
        (
            "DISCORD_TOKEN",
            text("**********"),
            "Enter the complete Discord bot token, not the masked placeholder",
        ),
        (
            "CHATGPT_URL",
            text("ftp://chatgpt.com/"),
            "ChatGPT URL must be an http(s) URL without spaces",
        ),
        (
            "CHATGPT_URL",
            text("https://chat gpt.com/"),
            "ChatGPT URL must be an http(s) URL without spaces",
        ),
        (
            "AUDIO_CAPTURE_MODE",
            text("tape"),
            "Audio capture mode must be device, browser-process, or browser-media",
        ),
        (
            "AUDIO_INPUT_VOLUME",
            text("4.5"),
            "Audio input volume must be between 0 and 4",
        ),
        (
            "AUDIO_OUTPUT_VOLUME",
            Value::from(-1),
            "Audio output volume must be between 0 and 4",
        ),
        (
            "AUDIO_EARCON_VOLUME",
            Value::from(1.5),
            "Audio earcon volume must be between 0 and 1",
        ),
        (
            "AUDIO_SAMPLE_RATE",
            text("0.9"),
            "Audio sample rate must be greater than zero",
        ),
        (
            "AUDIO_CHANNELS",
            Value::from(0),
            "Audio channels must be greater than zero",
        ),
    ];
    for (key, value, message) in cases {
        let mut environment = default_environment("profile");
        environment.insert(key.to_owned(), value);
        assert_eq!(
            validate_environment(&environment, &numbers(&environment)),
            Err(message.to_owned())
        );
    }
}

#[test]
fn capture_modes_are_known_in_any_case() {
    let mut environment = default_environment("profile");
    environment.insert("AUDIO_CAPTURE_MODE".to_owned(), text(" Browser-PROCESS "));
    assert!(validate_environment(&environment, &numbers(&environment)).is_ok());
    assert!(is_capture_mode("device"));
    assert!(!is_capture_mode("Device"));
}

#[test]
fn limits_include_their_ends() {
    assert!(ensure_range("Volume", number(0.0), Limit::Zero, Limit::Four).is_ok());
    assert!(ensure_range("Volume", number(-0.0), Limit::Zero, Limit::Four).is_ok());
    assert!(ensure_range("Volume", number(4.0), Limit::Zero, Limit::Four).is_ok());
    assert!(ensure_range("Volume", number(1.000001), Limit::Zero, Limit::One).is_err());
    assert!(ensure_range("Volume", number(f64::NAN), Limit::Zero, Limit::One).is_err());
    assert!(ensure_range("Volume", number(f64::INFINITY), Limit::Zero, Limit::One).is_err());
    assert!(ensure_positive("Channels", 1).is_ok());
    assert_eq!(
        ensure_positive("Channels", 0),
        Err("Channels must be greater than zero".to_owned())
    );
    assert_eq!(integer_value(number(48_000.9)), 48_000);
    assert_eq!(integer_value(number(-3.0)), 0);
}

#[test]
fn settings_are_read_by_their_kind() {
    let mut environment: serde_json::Map<String, Value> = serde_json::Map::new();
    environment.insert("a".to_owned(), text("  x  "));
    environment.insert("b".to_owned(), Value::Bool(true));
    environment.insert("c".to_owned(), text(" TRUE "));
    environment.insert("d".to_owned(), text("yes"));
    environment.insert("e".to_owned(), Value::from(3));
    environment.insert("f".to_owned(), Value::from(0.5));
    assert_eq!(string_value(&environment, "a", "z"), "x");
    assert_eq!(string_value(&environment, "b", " z "), "z");
    assert_eq!(string_value(&environment, "missing", "z"), "z");
    assert!(bool_value(&environment, "b", false));
    assert!(bool_value(&environment, "c", false));
    assert!(!bool_value(&environment, "d", true));
    assert!(bool_value(&environment, "e", true));
    assert!(!bool_value(&environment, "missing", false));
    assert_eq!(number_value(&environment, "e").as_deref(), Some("3"));
    assert_eq!(number_value(&environment, "f").as_deref(), Some("0.5"));
    assert_eq!(number_value(&environment, "d").as_deref(), Some("yes"));
    assert_eq!(number_value(&environment, "b"), None);
}

#[test]
fn a_saved_change_reads_back() {
    let stored = read_environment(Some("{\"DISCORD_GUILD_ID\": \"1\", \"custom\": true}"))
        .expect("the setup should be readable");
    let environment = merged_environment("profile", stored);
    let mut patch = no_patch();
    patch.discord_token = Some("  secret-token-value  ".to_owned());
    patch.discord_guild_id = Some(" 964597969980620820 ".to_owned());
    patch.browser_hide_when_ready = Some(false);
    patch.audio_capture_mode = Some(" DEVICE ".to_owned());
    patch.audio_input_volume = Some("2.5".to_owned());
    patch.audio_channels = Some(1);
    let changed = save_patch(environment, patch).expect("the change should be accepted");
    let figures = numbers(&changed);
    validate_environment(&changed, &figures).expect("the changed setup should be valid");
    let bytes = write_environment(&changed);
    assert_eq!(bytes.last(), Some(&b'\n'));
    let contents = String::from_utf8(bytes).expect("the setup should be text");
    let read = read_environment(Some(&contents)).expect("the setup should be readable");
    assert_eq!(read, changed);
    let snapshot = snapshot_from_environment("dir/config.json", "dir", "other", &read, &figures);
    assert_eq!(snapshot.config_path, "dir/config.json");
    assert_eq!(snapshot.data_dir, "dir");
    assert_eq!(snapshot.browser_profile, "profile");
    assert!(snapshot.discord_token_configured);
    assert_eq!(snapshot.discord_token_masked, "********");
    assert_eq!(snapshot.discord_guild_id, "964597969980620820");
    assert_eq!(snapshot.chatgpt_url, "https://chatgpt.com/");
    assert_eq!(snapshot.browser_executable, "");
    assert!(!snapshot.browser_hide_when_ready);
    assert_eq!(snapshot.audio_capture_mode, "device");
    assert_eq!(f64::from_bits(snapshot.audio_input_volume.bits), 2.5);
    assert_eq!(f64::from_bits(snapshot.audio_earcon_volume.bits), 0.18);
    assert!(snapshot.audio_earcons_enabled);
    assert_eq!(snapshot.audio_sample_rate, 48_000);
    assert_eq!(snapshot.audio_channels, 1);
    assert_eq!(
        load_discord_credentials(&read, &numbers(&read)),
        Ok((
            "secret-token-value".to_owned(),
            Some("964597969980620820".to_owned())
        ))
    );
}

#[test]
fn incomplete_tokens_are_not_saved() {
    let mut patch = no_patch();
    patch.discord_token = Some("   ".to_owned());
    assert_eq!(
        save_patch(default_environment("profile"), patch),
        Err("Discord token cannot be empty".to_owned())
    );
    let mut patch = no_patch();
    patch.discord_token = Some(" ******** ".to_owned());
    assert_eq!(
        save_patch(default_environment("profile"), patch),
        Err("Enter the complete Discord bot token, not the masked placeholder".to_owned())
    );
    let environment = default_environment("profile");
    assert_eq!(
        load_discord_credentials(&environment, &numbers(&environment)),
        Err("Discord bot token is not configured".to_owned())
    );
}

#[test]
fn a_setup_that_is_out_of_order_is_not_loaded() {
    let mut environment = default_environment("profile");
    environment.insert("DISCORD_TOKEN".to_owned(), text("secret"));
    environment.insert("CHATGPT_URL".to_owned(), text("ftp://chatgpt.com/"));
    let problem = validate_environment(&environment, &numbers(&environment)).expect_err("problem");
    assert_eq!(
        load_discord_credentials(&environment, &numbers(&environment)),
        Err(problem.clone())
    );
    assert_eq!(
        load_snapshot("c", "d", "p", &environment, &numbers(&environment)).err(),
        Some(problem)
    );
}

#[test]
fn tokens_are_not_shown() {
    let shown = |token: &str| {
        let mut environment = default_environment("profile");
        environment.insert("DISCORD_TOKEN".to_owned(), text(token));
        let numbers = numbers(&environment);
        let snapshot = load_snapshot("c", "d", "p", &environment, &numbers).expect("in order");
        assert!(snapshot.discord_token_configured);
        assert_eq!(snapshot.config_path, "c");
        assert_eq!(snapshot.discord_token_masked, MASKED_TOKEN);
        format!("{snapshot:?}")
    };
    assert_eq!(shown("one secret"), shown("another one"));
    assert!(!shown("one secret").contains("secret"));
}

#[test]
fn what_is_saved_is_loaded() {
    let stored = read_environment(Some("{\"EXTRA\":\"kept\",\"AUDIO_CHANNELS\":\"1\"}"))
        .expect("an object");
    let mut patch = no_patch();
    patch.audio_input_volume = Some("2.5".to_owned());
    patch.discord_guild_id = Some(" 964597969980620820 ".to_owned());
    let saved = save_patch(merged_environment("profile", stored), patch).expect("saved");
    let bytes = write_environment(&saved);
    let contents = String::from_utf8(bytes).expect("text");
    let read = read_environment(Some(&contents)).expect("an object");
    let loaded = merged_environment("profile", read);
    assert_eq!(loaded, saved);
    assert_eq!(number_value(&loaded, "AUDIO_INPUT_VOLUME").as_deref(), Some("2.5"));
    assert_eq!(number_value(&loaded, "AUDIO_CHANNELS").as_deref(), Some("1"));
    assert_eq!(string_value(&loaded, "EXTRA", ""), "kept");
}

#[test]
fn only_objects_are_setups() {
    assert!(read_environment(None).expect("no file is an empty setup").is_empty());
    assert_eq!(
        read_environment(Some("[1]")),
        Err("Saved GPTVoice setup must be a JSON object".to_owned())
    );
    let error = read_environment(Some("{")).expect_err("broken JSON should be refused");
    assert!(error.starts_with("Saved GPTVoice setup is not valid JSON: "));
    assert!(error.len() > "Saved GPTVoice setup is not valid JSON: ".len());
    assert_eq!(temporary_name(77), "config.json.77.tmp");
}

#[test]
fn compares_release_versions() {
    assert!(is_newer_release("v0.2.0", "0.1.9"));
    assert!(!is_newer_release("0.1.2", "0.1.2"));
    assert!(!is_newer_release("0.1.2-beta.1", "0.1.2"));
    assert!(is_newer_release("0.1.2", "0.1.2-beta.1"));
    assert!(!is_newer_release("not-a-version", "0.1.2"));
}

#[test]
fn parses_optional_v_prefix_and_prerelease() {
    let version = parse_release_version("v1.2.3-beta.1").expect("valid release version");
    assert_eq!(version.major, 1);
    assert_eq!(version.minor, 2);
    assert_eq!(version.patch, 3);
    assert_eq!(version.prerelease, "beta.1");
}

#[test]
fn versions_are_three_numbers() {
    assert!(parse_release_version(" vV1.2.3 ").is_some());
    assert!(parse_release_version("1.2").is_none());
    assert!(parse_release_version("1.2.3.4").is_none());
    assert!(parse_release_version("1..3").is_none());
    assert!(parse_release_version("1.2.x").is_none());
    assert!(parse_release_version("").is_none());
    assert_eq!(parse_release_version("1.2.3-a-b").expect("version").prerelease, "a-b");
    assert!(is_newer_release("0.10.0", "0.9.9"));
    assert!(is_newer_release("1.0.0-beta.2", "1.0.0-beta.1"));
    assert!(!is_newer_release("1.0.0-alpha", "1.0.0-beta"));
    assert!(!is_newer_release("1.0.0", "none"));
}

fn release(tag: Option<&str>, url: Option<&str>) -> GitHubRelease {
    GitHubRelease {
        tag_name: tag.map(str::to_owned),
        html_url: url.map(str::to_owned),
        name: Some("Name".to_owned()),
        published_at: Some("2025-01-01".to_owned()),
    }
}

#[test]
fn an_update_is_offered_when_it_is_newer() {
    let status = check_for_update(
        release(Some(" v0.2.0 "), Some("https://github.com/a/b/releases/tag/v0.2.0")),
        "0.1.9",
    );
    assert!(status.checked && status.available);
    assert_eq!(status.current_version, "0.1.9");
    assert_eq!(status.latest_version.as_deref(), Some("0.2.0"));
    assert_eq!(status.release_url, "https://github.com/a/b/releases/tag/v0.2.0");
    assert_eq!(status.release_name.as_deref(), Some("Name"));
    assert_eq!(status.published_at.as_deref(), Some("2025-01-01"));
    assert!(status.error.is_none());

    let same = check_for_update(release(Some("0.1.9"), Some("https://evil.example/")), "0.1.9");
    assert!(same.checked && !same.available);
    assert_eq!(same.release_url, UPDATE_RELEASES_URL);

    let untagged = check_for_update(release(None, None), "0.1.9");
    assert!(!untagged.checked);
    assert_eq!(
        untagged.error.as_deref(),
        Some("The latest GitHub release did not have a semantic version tag.")
    );
    let failed = unavailable_update("offline", "0.1.9");
    assert_eq!(failed.error.as_deref(), Some("offline"));
    assert_eq!(failed.release_url, UPDATE_RELEASES_URL);
    assert_eq!(
        release_endpoint(),
        "https://api.github.com/repos/mutedvector/gptvoice-discord/releases/latest"
    );
    assert_eq!(http_failure("404 Not Found"), "GitHub returned HTTP 404 Not Found.");
}

#[test]
fn only_github_pages_are_opened() {
    assert_eq!(open_release_url("https://github.com/a/b"), Ok(()));
    assert_eq!(open_release_url("https://GitHub.com:443/a"), Ok(()));
    assert_eq!(
        open_release_url("http://github.com/a"),
        Err("Only GitHub release links can be opened.".to_owned())
    );
    assert_eq!(
        open_release_url("https://github.com.example/a"),
        Err("Only GitHub release links can be opened.".to_owned())
    );
    assert_eq!(open_release_url("no url"), Err("Invalid release URL.".to_owned()));
    assert!(is_release_page("https", &Some("github.com".to_owned())));
    assert!(!is_release_page("https", &None));
}

#[test]
fn the_default_setup_is_accepted() {
    let environment = default_environment("p");
    assert_eq!(validate_environment(&environment, &numbers(&environment)), Ok(()));
}

#[test]
fn only_a_setup_in_order_is_written() {
    let mut environment = default_environment("p");
    let (bytes, snapshot) =
        checked_setup("c", "d", "p", &environment, &numbers(&environment)).expect("in order");
    assert_eq!(bytes, write_environment(&environment));
    assert_eq!(snapshot.config_path, "c");
    assert_eq!(snapshot.data_dir, "d");
    assert_eq!(snapshot.audio_capture_mode, "browser-media");
    environment.insert("AUDIO_CAPTURE_MODE".to_owned(), text("invalid"));
    assert_eq!(
        checked_setup("c", "d", "p", &environment, &numbers(&environment)).err().as_deref(),
        Some("Audio capture mode must be device, browser-process, or browser-media")
    );
}

#[test]
fn a_saved_mode_is_shown_in_small_letters() {
    let mut patch = no_patch();
    patch.audio_capture_mode = Some(" Browser-PROCESS ".to_owned());
    let saved = save_patch(default_environment("p"), patch).expect("a change");
    assert_eq!(string_value(&saved, "AUDIO_CAPTURE_MODE", ""), "browser-process");
    let snapshot = load_snapshot("c", "d", "p", &saved, &numbers(&saved)).expect("in order");
    assert_eq!(snapshot.audio_capture_mode, "browser-process");
}

#[test]
fn whole_numbers_read_back() {
    let mut environment = default_environment("p");
    environment.insert("AUDIO_SAMPLE_RATE".to_owned(), Value::from(44_100_u64));
    environment.insert("largest".to_owned(), Value::from(u64::MAX));
    environment.insert("smallest".to_owned(), Value::from(0_u64));
    environment.insert("flag".to_owned(), Value::Bool(true));
    environment.insert("nothing".to_owned(), Value::Null);
    let contents = String::from_utf8(write_environment(&environment)).expect("text");
    assert_eq!(read_environment(Some(contents.as_str())), Ok(environment));
}

#[test]
fn written_versions_are_read_back() {
    let version = parse_release_version("10.0.18446744073709551615-rc.1-x").expect("a version");
    assert_eq!((version.major, version.minor), (10, 0));
    assert_eq!(version.patch, u64::MAX);
    assert_eq!(version.prerelease, "rc.1-x");
    let full = parse_release_version("v10.0.7").expect("a version");
    assert_eq!((full.major, full.minor, full.patch), (10, 0, 7));
    assert_eq!(full.prerelease, "");
}

#[test]
fn tags_are_read_however_they_are_written() {
    let version = parse_release_version("  vVv+1.02.3-\t").expect("a version");
    assert_eq!((version.major, version.minor, version.patch), (1, 2, 3));
    assert_eq!(version.prerelease, "");
}

#[test]
fn missing_numbers_have_their_defaults() {
    let numbers = AudioNumbers::with_defaults(None, Some(number(0.5)), None, None, None);
    assert_eq!(numbers.input_volume.bits, 1.0_f64.to_bits());
    assert_eq!(numbers.output_volume.bits, 0.5_f64.to_bits());
    assert_eq!(numbers.earcon_volume.bits, 0.18_f64.to_bits());
    assert_eq!(numbers.sample_rate.bits, 48_000.0_f64.to_bits());
    assert_eq!(numbers.channels.bits, 2.0_f64.to_bits());
}

#[test]
fn saved_numbers_are_read_back() {
    let mut patch = no_patch();
    patch.audio_input_volume = Some(0.1_f64.to_string());
    patch.audio_sample_rate = Some(44_100);
    let saved = save_patch(default_environment("p"), patch).expect("a change");
    let snapshot = load_snapshot("c", "d", "p", &saved, &numbers(&saved)).expect("in order");
    assert_eq!(snapshot.audio_input_volume.bits, 0.1_f64.to_bits());
    assert_eq!(snapshot.audio_sample_rate, 44_100);
    let contents = String::from_utf8(write_environment(&saved)).expect("text");
    let loaded = merged_environment("p", read_environment(Some(contents.as_str())).expect("a setup"));
    let again = load_snapshot("c", "d", "p", &loaded, &numbers(&loaded)).expect("in order");
    assert_eq!(again.audio_input_volume.bits, snapshot.audio_input_volume.bits);
    assert_eq!(again.chatgpt_url, snapshot.chatgpt_url);
}
