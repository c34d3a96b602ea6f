use gptvoice::ieee::{Binary32, Binary64, FOUR_32, ONE_32};
use gptvoice::queue::Reception;
use gptvoice::transport::{
    make_transport_token, BrowserBridgeDiagnostics, BrowserMediaTransport, Incoming,
    BROWSER_PACKET_QUEUE, DISCORD_PACKET_QUEUE,
};

fn transport() -> BrowserMediaTransport {
    BrowserMediaTransport::start(4_321, "abc123".to_owned())
}

#[test]
fn a_token_is_made_of_hexadecimal_digits() {
    assert_eq!(make_transport_token(255, 16), "ff10");
    assert_eq!(make_transport_token(0, 0), "00");
    assert_eq!(
        make_transport_token(1_700_000_000_123_456_789, 4_242),
        format!("{:x}{:x}", 1_700_000_000_123_456_789_u128, 4_242_u32)
    );
}

#[test]
fn the_script_carries_the_address_and_the_token() {
    let mut transport = transport();
    transport.token = "a\"b\\c\n\u{1}".to_owned();
    let source = "// bridge\nconst BROWSER_INIT_SCRIPT = String.raw`\n(() => { recoverOutputStreams(__GPTVOICE_TRANSPORT_URL__, __GPTVOICE_TRANSPORT_TOKEN__); })();\n`;\n\n";
    let script = transport.browser_script(source);
    assert_eq!(
        script,
        "\n(() => { recoverOutputStreams(\"ws://127.0.0.1:4321\", \"a\\\"b\\\\c\\n\\u0001\"); })();\n".trim_start()
    );
    assert!(script.contains("recoverOutputStreams"));
    assert!(!script.contains("__GPTVOICE_TRANSPORT_URL__"));
    assert!(!script.contains("__GPTVOICE_TRANSPORT_TOKEN__"));
}

#[test]
fn another_source_gives_no_script() {
    let transport = transport();
    assert_eq!(transport.browser_script("module.exports = {};"), "");
    assert_eq!(
        transport.browser_script("const BROWSER_INIT_SCRIPT = String.raw`x"),
        ""
    );
}

#[test]
fn only_a_page_with_the_token_is_admitted() {
    let transport = transport();
    assert!(transport.admits(Some("token=abc123")));
    assert!(transport.admits(Some("a=b&token=abc123&token=zzz")));
    assert!(!transport.admits(Some("token=zzz&token=abc123")));
    assert!(!transport.admits(Some("token=abc1234")));
    assert!(!transport.admits(Some("Token=abc123")));
    assert!(!transport.admits(Some("")));
    assert!(!transport.admits(None));
}

#[test]
fn audio_goes_to_the_newest_page() {
    let mut transport = transport();
    assert!(!transport.send_pcm_i16(&[1, -2], &vec![1, -2], 0).accepted);
    assert!(transport.send_pcm_i16(&[], &vec![], 0).accepted);
    let first = transport.open_connection();
    assert!(transport.is_connected());
    assert!(transport.send_pcm_i16(&[1, -2], &vec![1, -2], 0).accepted);
    let second = transport.open_connection();
    assert_eq!((first, second), (1, 2));
    assert!(transport.send_pcm_i16(&[3], &vec![300], 0).accepted);
    assert!(matches!(transport.next_packet(first), Reception::Packet(packet) if packet == vec![1, 0, 254, 255]));
    assert!(matches!(transport.next_packet(first), Reception::Ended));
    assert!(matches!(transport.next_packet(second), Reception::Packet(packet) if packet == vec![44, 1]));
    assert!(matches!(transport.next_packet(second), Reception::Waiting));
    transport.close_connection(first);
    assert!(transport.is_connected());
    assert!(matches!(transport.next_packet(first), Reception::Ended));
    transport.close_connection(second);
    assert!(!transport.is_connected());
    assert!(!transport.send_pcm_i16(&[3], &vec![3], 0).accepted);
    assert_eq!(transport.packets_sent, 2);
}

#[test]
fn stale_audio_is_dropped_in_both_directions() {
    let mut transport = transport();
    let id = transport.open_connection();
    for index in 0..(BROWSER_PACKET_QUEUE + 2) {
        assert!(transport.send_pcm_i16(&[1], &vec![index as i16], 0).accepted);
    }
    for index in 0..(DISCORD_PACKET_QUEUE + 1) {
        assert!(transport.handle_transport_connection(Incoming::Binary(vec![index as u8])));
    }
    let diagnostics = transport.diagnostics();
    assert_eq!(diagnostics.input_queue_depth, 4);
    assert_eq!(diagnostics.input_queue_peak_depth, 4);
    assert_eq!(diagnostics.input_queue_dropped, 2);
    assert_eq!(diagnostics.packets_dropped, 3);
    assert_eq!(diagnostics.packets_received, 9);
    assert!(matches!(transport.next_packet(id), Reception::Packet(packet) if packet == vec![2, 0]));
    assert!(matches!(transport.from_browser.receive_timeout(true), Reception::Packet(packet) if packet == vec![1]));
    assert!(transport.handle_transport_connection(Incoming::Ignored));
    assert!(!transport.handle_transport_connection(Incoming::Closed));
}

#[test]
fn reports_of_the_page_are_shown() {
    let mut transport = transport();
    let mut page = BrowserBridgeDiagnostics::new();
    page.output_track_count = 2;
    page.output_capture_mode = Some("worklet".to_owned());
    page.output_worklet_peak = Binary64 { bits: 0.5_f64.to_bits() };
    assert!(transport.handle_transport_connection(Incoming::Stats("other".to_owned(), page)));
    assert_eq!(transport.diagnostics().output_track_count, 0);
    let mut page = BrowserBridgeDiagnostics::new();
    page.output_track_count = 2;
    page.output_capture_mode = Some("worklet".to_owned());
    page.output_worklet_peak = Binary64 { bits: 0.5_f64.to_bits() };
    assert!(transport
        .handle_transport_connection(Incoming::Stats("gpt-voice-stats".to_owned(), page)));
    let shown = transport.diagnostics();
    assert_eq!(shown.output_track_count, 2);
    assert_eq!(shown.output_capture_mode.as_deref(), Some("worklet"));
    assert_eq!(f64::from_bits(shown.output_worklet_peak.bits), 0.5);
}

#[test]
fn there_is_one_reader_only() {
    let mut transport = transport();
    let loud = Binary32 { bits: 9.0_f32.to_bits() };
    let quiet = Binary32 { bits: 0.25_f32.to_bits() };
    assert!(transport.take_pcm_reader_with_gain(loud).is_ok());
    assert_eq!(transport.output_gain.bits, FOUR_32);
    let error = transport
        .take_pcm_reader_with_gain(quiet)
        .err()
        .expect("a second reader should be refused");
    assert_eq!(error, "The browser media output is already attached to Discord");
    assert_eq!(transport.output_gain, quiet);
    transport.set_input_gain(Binary32 { bits: (-1.0_f32).to_bits() });
    assert_eq!(transport.input_gain.bits, 0);
    transport.set_input_gain(Binary32 { bits: 1.0_f32.to_bits() });
    assert_eq!(transport.input_gain.bits, ONE_32);
    transport.apply_audio_gains(loud, quiet);
    assert_eq!(transport.input_gain.bits, FOUR_32);
    assert_eq!(transport.output_gain, quiet);
}

#[test]
fn a_stopped_transport_passes_no_audio() {
    let mut transport = transport();
    let id = transport.open_connection();
    assert!(transport.send_pcm_i16(&[1], &vec![1], 0).accepted);
    assert!(transport.stop());
    assert!(!transport.stop());
    assert!(!transport.is_connected());
    assert!(!transport.send_pcm_i16(&[1], &vec![1], 0).accepted);
    assert!(matches!(transport.next_packet(id), Reception::Packet(_)));
    assert!(matches!(transport.next_packet(id), Reception::Ended));
    transport.handle_transport_connection(Incoming::Binary(vec![1]));
    assert!(matches!(transport.from_browser.receive_timeout(false), Reception::Ended));
    transport.server_ended();
    assert!(!transport.is_connected());
}

#[test]
fn speech_is_tracked_for_the_guild() {
    let mut transport = transport();
    transport.set_latency_context("123");
    transport.open_connection();
    assert!(transport.send_pcm_i16(&[2_000], &vec![2_000], 5).event.is_none());
    assert_eq!(transport.meter.latency.conversation.turn, 1);
    assert_eq!(transport.meter.latency.guild_id, "123");
}

#[test]
fn numbers_keep_their_ieee_meaning() {
    for value in [0.0_f64, -0.0, 1.0, 4.0, 0.18, -1.5, 48_000.0, 1e300, 5e-324] {
        let number = Binary64 { bits: value.to_bits() };
        assert!(number.is_finite());
        assert_eq!(number.truncate(), value.max(0.0) as u64);
        for other in [0.0_f64, -0.0, 1.0, 4.0, 0.18, -1.5] {
            let second = Binary64 { bits: other.to_bits() };
            assert_eq!(number.at_most(&second), value <= other);
        }
    }
    for value in [f64::NAN, f64::INFINITY, f64::NEG_INFINITY] {
        let number = Binary64 { bits: value.to_bits() };
        assert!(!number.is_finite());
        assert_eq!(number.truncate(), value.max(0.0) as u64);
    }
    for value in [0.0_f32, -0.0, 0.5, 4.0, 4.5, -3.0, f32::INFINITY, f32::NEG_INFINITY] {
        let gain = Binary32 { bits: value.to_bits() }.clamp_gain();
        assert_eq!(f32::from_bits(gain.bits), value.clamp(0.0, 4.0));
    }
    assert!(f32::from_bits(Binary32 { bits: f32::NAN.to_bits() }.clamp_gain().bits).is_nan());
}
