//! The audio transport between one browser page and Discord.
//!
//! The browser page connects to a local WebSocket. Audio from Discord goes out through a small
//! queue per connection, audio from the page comes in through one queue for the Discord reader.
//! Sockets, threads and waiting are the caller's part.

use crate::ieee::{Binary32, Binary64, ONE_32};
use crate::json;
use crate::latency;
use crate::pcm::{PcmReader, PlaybackMeter, ReaderState};
use crate::queue;
use crate::queue::{RealtimePacketQueue, RealtimePcmQueue, Reception};
use crate::signal;
use crate::text;
use vstd::prelude::*;

verus! {

/// How many packets wait for the browser at most: 80 ms of audio.
pub const BROWSER_PACKET_QUEUE: usize = 4;

/// How many packets wait for Discord at most: about 160 ms of audio.
pub const DISCORD_PACKET_QUEUE: usize = 8;

/// What the page reports about its side of the bridge.
#[derive(Debug)]
pub struct BrowserBridgeDiagnostics {
    pub output_capture_mode: Option<String>,
    pub output_track_count: u64,
    pub output_callbacks: u64,
    pub output_dropped_callbacks: u64,
    pub output_attach_errors: u64,
    pub output_worklet_captures: u64,
    pub output_worklet_fallbacks: u64,
    pub output_worklet_frames: u64,
    pub output_worklet_peak: Binary64,
    pub output_worklet_non_silent_frames: u64,
    pub output_worklet_max_gap_ms: Binary64,
    pub input_frames: u64,
    pub input_silence_frames: u64,
    pub input_queue_samples: u64,
    pub input_queue_peak_samples: u64,
    pub input_queue_depth: u64,
    pub input_dropped_messages: u64,
    pub input_last_frame_at: u64,
}

impl BrowserBridgeDiagnostics {
    /// The report of a page that has reported nothing.
    pub open spec fn nothing() -> BrowserBridgeDiagnostics {
        BrowserBridgeDiagnostics {
            output_capture_mode: None,
            output_track_count: 0,
            output_callbacks: 0,
            output_dropped_callbacks: 0,
            output_attach_errors: 0,
            output_worklet_captures: 0,
            output_worklet_fallbacks: 0,
            output_worklet_frames: 0,
            output_worklet_peak: Binary64 { bits: 0 },
            output_worklet_non_silent_frames: 0,
            output_worklet_max_gap_ms: Binary64 { bits: 0 },
            input_frames: 0,
            input_silence_frames: 0,
            input_queue_samples: 0,
            input_queue_peak_samples: 0,
            input_queue_depth: 0,
            input_dropped_messages: 0,
            input_last_frame_at: 0,
        }
    }

    /// Describes a page that has reported nothing.
    pub fn new() -> (diagnostics: Self)
        ensures
            diagnostics == Self::nothing(),
    {
        BrowserBridgeDiagnostics {
            output_capture_mode: None,
            output_track_count: 0,
            output_callbacks: 0,
            output_dropped_callbacks: 0,
            output_attach_errors: 0,
            output_worklet_captures: 0,
            output_worklet_fallbacks: 0,
            output_worklet_frames: 0,
            output_worklet_peak: Binary64 { bits: 0 },
            output_worklet_non_silent_frames: 0,
            output_worklet_max_gap_ms: Binary64 { bits: 0 },
            input_frames: 0,
            input_silence_frames: 0,
            input_queue_samples: 0,
            input_queue_peak_samples: 0,
            input_queue_depth: 0,
            input_dropped_messages: 0,
            input_last_frame_at: 0,
        }
    }
}

/// The state of the whole bridge, as the panel shows it.
#[derive(Debug, Clone)]
pub struct BrowserMediaDiagnostics {
    pub connected: bool,
    pub packets_sent: u64,
    pub packets_dropped: u64,
    pub input_queue_depth: u64,
    pub input_queue_peak_depth: u64,
    pub input_queue_dropped: u64,
    pub packets_received: u64,
    pub reader_reads: u64,
    pub reader_source_bytes: u64,
    pub reader_output_bytes: u64,
    pub reader_silence_bytes: u64,
    pub output_capture_mode: Option<String>,
    pub output_track_count: u64,
    pub output_callbacks: u64,
    pub output_dropped_callbacks: u64,
    pub output_attach_errors: u64,
    pub output_worklet_captures: u64,
    pub output_worklet_fallbacks: u64,
    pub output_worklet_frames: u64,
    pub output_worklet_peak: Binary64,
    pub output_worklet_non_silent_frames: u64,
    pub output_worklet_max_gap_ms: Binary64,
    pub input_frames: u64,
    pub input_silence_frames: u64,
    pub browser_input_queue_samples: u64,
    pub browser_input_queue_peak_samples: u64,
    pub browser_input_queue_depth: u64,
    pub browser_input_dropped_messages: u64,
    pub browser_input_last_frame_at: u64,
}

impl BrowserMediaDiagnostics {
    /// The state of a bridge that does not exist.
    pub open spec fn none() -> BrowserMediaDiagnostics {
        BrowserMediaDiagnostics {
            connected: false,
            packets_sent: 0,
            packets_dropped: 0,
            input_queue_depth: 0,
            input_queue_peak_depth: 0,
            input_queue_dropped: 0,
            packets_received: 0,
            reader_reads: 0,
            reader_source_bytes: 0,
            reader_output_bytes: 0,
            reader_silence_bytes: 0,
            output_capture_mode: None,
            output_track_count: 0,
            output_callbacks: 0,
            output_dropped_callbacks: 0,
            output_attach_errors: 0,
            output_worklet_captures: 0,
            output_worklet_fallbacks: 0,
            output_worklet_frames: 0,
            output_worklet_peak: Binary64 { bits: 0 },
            output_worklet_non_silent_frames: 0,
            output_worklet_max_gap_ms: Binary64 { bits: 0 },
            input_frames: 0,
            input_silence_frames: 0,
            browser_input_queue_samples: 0,
            browser_input_queue_peak_samples: 0,
            browser_input_queue_depth: 0,
            browser_input_dropped_messages: 0,
            browser_input_last_frame_at: 0,
        }
    }

    /// Describes a bridge that does not exist.
    pub fn unattached() -> (diagnostics: Self)
        ensures
            diagnostics == Self::none(),
    {
        BrowserMediaDiagnostics {
            connected: false,
            packets_sent: 0,
            packets_dropped: 0,
            input_queue_depth: 0,
            input_queue_peak_depth: 0,
            input_queue_dropped: 0,
            packets_received: 0,
            reader_reads: 0,
            reader_source_bytes: 0,
            reader_output_bytes: 0,
            reader_silence_bytes: 0,
            output_capture_mode: None,
            output_track_count: 0,
            output_callbacks: 0,
            output_dropped_callbacks: 0,
            output_attach_errors: 0,
            output_worklet_captures: 0,
            output_worklet_fallbacks: 0,
            output_worklet_frames: 0,
            output_worklet_peak: Binary64 { bits: 0 },
            output_worklet_non_silent_frames: 0,
            output_worklet_max_gap_ms: Binary64 { bits: 0 },
            input_frames: 0,
            input_silence_frames: 0,
            browser_input_queue_samples: 0,
            browser_input_queue_peak_samples: 0,
            browser_input_queue_depth: 0,
            browser_input_dropped_messages: 0,
            browser_input_last_frame_at: 0,
        }
    }
}

/// A connected page and the packets that wait for it.
pub struct Connection {
    pub id: u64,
    pub queue: RealtimePacketQueue,
}

/// A message from a connected page.
#[derive(Debug)]
pub enum Incoming {
    /// Audio.
    Binary(Vec<u8>),
    /// A report, with its kind.
    Stats(String, BrowserBridgeDiagnostics),
    /// Anything else that keeps the connection.
    Ignored,
    /// The end of the connection.
    Closed,
}

/// What became of audio from Discord.
#[derive(Debug)]
pub struct Sent {
    /// The audio was accepted, or there was none.
    pub accepted: bool,
    /// What the latency tracker has to report.
    pub event: Option<String>,
}

/// The transport of one browser.
pub struct BrowserMediaTransport {
    pub endpoint: String,
    pub token: String,
    pub connections: Vec<Connection>,
    pub to_browser: Option<u64>,
    pub from_browser: RealtimePcmQueue,
    pub reader_available: bool,
    pub running: bool,
    pub next_connection_id: u64,
    pub active_connection_id: u64,
    pub connected: bool,
    pub packets_sent: u64,
    pub packets_dropped: u64,
    pub packets_received: u64,
    pub input_gain: Binary32,
    pub output_gain: Binary32,
    pub browser_diagnostics: BrowserBridgeDiagnostics,
    pub meter: PlaybackMeter,
}

/// The place of a connection in the list.
pub open spec fn place(connections: Seq<Connection>, id: u64) -> Option<int>
    decreases connections.len(),
{
    if connections.len() == 0 {
        None
    } else if connections.last().id == id {
        Some(connections.len() - 1)
    } else {
        place(connections.drop_last(), id)
    }
}

proof fn lemma_place(connections: Seq<Connection>, id: u64)
    ensures
        match place(connections, id) {
            Some(at) => 0 <= at < connections.len() && connections[at].id == id && forall|i: int|
                at < i < connections.len() ==> (#[trigger] connections[i]).id != id,
            None => forall|i: int| 0 <= i < connections.len() ==> (#[trigger] connections[i]).id
                != id,
        },
    decreases connections.len(),
{
    if connections.len() > 0 && connections.last().id != id {
        let rest = connections.drop_last();
        lemma_place(rest, id);
        assert forall|i: int| 0 <= i < rest.len() implies (#[trigger] connections[i]) == rest[i] by {
        }
    }
}

proof fn lemma_place_is_unique(connections: Seq<Connection>, id: u64, at: int)
    requires
        0 <= at < connections.len(),
        connections[at].id == id,
        forall|i: int| at < i < connections.len() ==> (#[trigger] connections[i]).id != id,
    ensures
        place(connections, id) == Some(at),
{
    lemma_place(connections, id);
}

/// Text fields of a query: the value of the first field that begins with "token=".
pub open spec fn offered_token(parts: Seq<Seq<char>>) -> Option<Seq<char>>
    decreases parts.len(),
{
    if parts.len() == 0 {
        None
    } else if text::begins_with(parts[0], "token="@) {
        Some(parts[0].skip("token="@.len() as int))
    } else {
        offered_token(parts.skip(1))
    }
}

/// A number in hexadecimal digits, without leading zeros.
pub open spec fn hexadecimal(value: nat) -> Seq<char>
    decreases value,
{
    if value < 16 {
        seq![json::hex_digit(value)]
    } else {
        hexadecimal(value / 16).push(json::hex_digit(value % 16))
    }
}

fn hex_character(value: u8) -> (character: char)
    requires
        value < 16,
    ensures
        character == json::hex_digit(value as nat),
{
    if value < 10 {
        (0x30u8 + value) as char
    } else {
        (0x57u8 + value) as char
    }
}

fn hexadecimal_text(value: u128) -> (written: String)
    ensures
        written@ == hexadecimal(value as nat),
    decreases value,
{
    if value < 16 {
        let mut written = String::new();
        written.push(hex_character(value as u8));
        assert(written@ =~= hexadecimal(value as nat));
        written
    } else {
        let mut written = hexadecimal_text(value / 16);
        written.push(hex_character((value % 16) as u8));
        written
    }
}

/// The token that a page has to show: made of the time in nanoseconds and the process.
pub fn make_transport_token(time: u128, process_id: u32) -> (token: String)
    ensures
        token@ == hexadecimal(time as nat) + hexadecimal(process_id as nat),
{
    let mut token = hexadecimal_text(time);
    token.append(hexadecimal_text(process_id as u128).as_str());
    token
}

/// Samples as bytes, the low byte of each first.
pub open spec fn encoded(samples: Seq<i16>) -> Seq<u8>
    decreases samples.len(),
{
    if samples.len() == 0 {
        Seq::empty()
    } else {
        let value = if samples.last() < 0 {
            samples.last() + 65_536
        } else {
            samples.last() as int
        };
        encoded(samples.drop_last()).push((value % 256) as u8).push((value / 256) as u8)
    }
}

fn encode(samples: &Vec<i16>) -> (bytes: Vec<u8>)
    ensures
        bytes@ == encoded(samples@),
{
    let mut bytes: Vec<u8> = Vec::new();
    let mut index: usize = 0;
    assert(samples@.take(0) =~= Seq::empty());
    while index < samples.len()
        invariant
            index <= samples@.len(),
            bytes@ == encoded(samples@.take(index as int)),
        decreases samples@.len() - index,
    {
        let sample: i16 = samples[index];
        let value: u32 = if sample < 0 {
            (sample as i32 + 65_536) as u32
        } else {
            sample as u32
        };
        assert(samples@.take(index as int + 1).drop_last() =~= samples@.take(index as int));
        bytes.push((value % 256) as u8);
        bytes.push((value / 256) as u8);
        index = index + 1;
    }
    assert(samples@.take(index as int) =~= samples@);
    bytes
}

/// The bytes hold the samples: two bytes each, readable one by one.
pub proof fn encoded_samples_read_back(samples: Seq<i16>, index: int)
    requires
        0 <= index < samples.len(),
    ensures
        encoded(samples).len() == 2 * samples.len(),
        signal::sample_at(encoded(samples), index) == samples[index],
    decreases samples.len(),
{
    let rest = samples.drop_last();
    if samples.len() == 1 {
        assert(encoded(rest) =~= Seq::empty());
    } else {
        encoded_samples_read_back(
            rest,
            if index < rest.len() {
                index
            } else {
                0
            },
        );
    }
    if index < rest.len() {
        assert(rest[index] == samples[index]);
        assert(encoded(samples)[2 * index] == encoded(rest)[2 * index]);
        assert(encoded(samples)[2 * index + 1] == encoded(rest)[2 * index + 1]);
    }
}

/// The marker before the script in the bridge source.
pub open spec fn script_marker() -> Seq<char> {
    "const BROWSER_INIT_SCRIPT = String.raw`"@
}

/// The script inside the bridge source, where the source has the expected frame.
pub open spec fn script_template(source: Seq<char>) -> Option<Seq<char>> {
    match text::first_match(source, script_marker()) {
        Some(at) => {
            let rest = text::trimmed(source.skip(at + script_marker().len()));
            if text::ends_with(rest, "`;"@) {
                Some(rest.take(rest.len() - "`;"@.len()))
            } else {
                None
            }
        },
        None => None,
    }
}

/// The script for a page, with the address and the token filled in.
pub open spec fn filled_script(source: Seq<char>, endpoint: Seq<char>, token: Seq<char>) -> Seq<
    char,
> {
    match script_template(source) {
        Some(template) => text::replaced(
            text::replaced(template, "__GPTVOICE_TRANSPORT_URL__"@, json::literal(endpoint)),
            "__GPTVOICE_TRANSPORT_TOKEN__"@,
            json::literal(token),
        ),
        None => Seq::empty(),
    }
}

impl BrowserMediaTransport {
    /// The connections are told apart by their numbers, and audio goes to one of them.
    pub open spec fn well_formed(&self) -> bool {
        &&& forall|i: int, j: int|
            0 <= i < j < self.connections@.len() ==> (#[trigger] self.connections@[i]).id != (
            #[trigger] self.connections@[j]).id
        &&& forall|i: int|
            0 <= i < self.connections@.len() ==> (#[trigger] self.connections@[i]).id
                < self.next_connection_id
        &&& self.to_browser matches Some(id) ==> place(self.connections@, id) is Some && id
            == self.active_connection_id
        &&& self.from_browser.capacity() == DISCORD_PACKET_QUEUE
        &&& forall|i: int|
            0 <= i < self.connections@.len() ==> (#[trigger] self.connections@[i]).queue.capacity()
                == BROWSER_PACKET_QUEUE
    }

    /// A transport that waits for its page at a local port.
    pub fn start(port: u16, token: String) -> (transport: Self)
        ensures
            transport.well_formed(),
            transport.endpoint@ == "ws://127.0.0.1:"@ + text::decimal(port as nat),
            transport.token == token,
            transport.connections@.len() == 0,
            transport.to_browser is None,
            transport.from_browser.is_new(DISCORD_PACKET_QUEUE as nat),
            transport.reader_available,
            transport.running,
            transport.next_connection_id == 1,
            transport.active_connection_id == 0,
            !transport.connected,
            transport.packets_sent == 0,
            transport.packets_dropped == 0,
            transport.packets_received == 0,
            transport.input_gain.bits == ONE_32,
            transport.output_gain.bits == ONE_32,
            transport.browser_diagnostics == BrowserBridgeDiagnostics::nothing(),
            transport.meter.is_zero(),
    {
        let mut endpoint = "ws://127.0.0.1:".to_owned();
        endpoint.append(text::decimal_text(port as u64).as_str());
        BrowserMediaTransport {
            endpoint,
            token,
            connections: Vec::new(),
            to_browser: None,
            from_browser: RealtimePcmQueue::new(DISCORD_PACKET_QUEUE),
            reader_available: true,
            running: true,
            next_connection_id: 1,
            active_connection_id: 0,
            connected: false,
            packets_sent: 0,
            packets_dropped: 0,
            packets_received: 0,
            input_gain: Binary32 { bits: ONE_32 },
            output_gain: Binary32 { bits: ONE_32 },
            browser_diagnostics: BrowserBridgeDiagnostics::new(),
            meter: PlaybackMeter::new(),
        }
    }

    /// Names the guild in latency reports.
    pub fn set_latency_context(&mut self, guild_id: &str)
        ensures
            final(self).meter.latency.guild_id@ == guild_id@,
            *final(self) == (BrowserMediaTransport {
                meter: PlaybackMeter {
                    latency: latency::LatencyState {
                        guild_id: final(self).meter.latency.guild_id,
                        ..old(self).meter.latency
                    },
                    ..old(self).meter
                },
                ..*old(self)
            }),
    {
        self.meter.latency.guild_id = guild_id.to_owned();
    }

    /// The script that connects a page to this transport, made from the bridge source. A source
    /// of another form gives no script.
    pub fn browser_script(&self, source: &str) -> (script: String)
        ensures
            script@ == filled_script(source@, self.endpoint@, self.token@),
    {
        proof {
            reveal_strlit("const BROWSER_INIT_SCRIPT = String.raw`");
            reveal_strlit("__GPTVOICE_TRANSPORT_URL__");
            reveal_strlit("__GPTVOICE_TRANSPORT_TOKEN__");
            text::lemma_first_match(source@, script_marker());
        }
        let marker = "const BROWSER_INIT_SCRIPT = String.raw`";
        let at: usize = match text::find(source, marker) {
            Some(at) => at,
            None => {
                let nothing = String::new();
                assert(nothing@ =~= Seq::empty());
                return nothing;
            },
        };
        let characters = text::chars_of(source);
        let length: usize = text::chars_of(marker).len();
        let total: usize = characters.len();
        assert(text::begins_with(source@.skip(at as int), script_marker()));
        assert(source@.skip(at as int).len() == total - at);
        let rest = text::text_of(&characters, at + length, total);
        assert(rest@ =~= source@.skip(at + script_marker().len()));
        let framed = text::trim(rest.as_str());
        match text::strip_suffix(framed.as_str(), "`;") {
            Some(template) => {
                let addressed = text::replace(
                    template.as_str(),
                    "__GPTVOICE_TRANSPORT_URL__",
                    json::json_literal(self.endpoint.as_str()).as_str(),
                );
                text::replace(
                    addressed.as_str(),
                    "__GPTVOICE_TRANSPORT_TOKEN__",
                    json::json_literal(self.token.as_str()).as_str(),
                )
            },
            None => {
                let nothing = String::new();
                assert(nothing@ =~= Seq::empty());
                nothing
            },
        }
    }

    /// Whether a page is connected.
    pub fn is_connected(&self) -> (connected: bool)
        ensures
            connected == self.connected,
    {
        self.connected
    }

    /// Hands out the reader of the page's audio and sets its gain. There is one reader only: a
    /// second caller is refused, but its gain is set.
    pub fn take_pcm_reader_with_gain(&mut self, gain: Binary32) -> (reader: Result<
        PcmReader,
        String,
    >)
        ensures
            *final(self) == (BrowserMediaTransport {
                output_gain: gain.as_gain(),
                reader_available: false,
                ..*old(self)
            }),
            match reader {
                Ok(reader) => old(self).reader_available && reader.well_formed()
                    && reader.has_room() && reader@ == ReaderState::fresh(),
                Err(error) => !old(self).reader_available && error@
                    == "The browser media output is already attached to Discord"@,
            },
    {
        self.set_output_gain(gain);
        if self.reader_available {
            self.reader_available = false;
            Ok(PcmReader::new())
        } else {
            Err("The browser media output is already attached to Discord".to_owned())
        }
    }

    /// Sets the gain of audio from Discord.
    pub fn set_input_gain(&mut self, gain: Binary32)
        ensures
            *final(self) == (BrowserMediaTransport { input_gain: gain.as_gain(), ..*old(self) }),
    {
        self.input_gain = gain.clamp_gain();
    }

    /// Sets the gain of audio to Discord.
    pub fn set_output_gain(&mut self, gain: Binary32)
        ensures
            *final(self) == (BrowserMediaTransport { output_gain: gain.as_gain(), ..*old(self) }),
    {
        self.output_gain = gain.clamp_gain();
    }

    /// Sets both gains, from the next audio on.
    pub fn apply_audio_gains(&mut self, input: Binary32, output: Binary32)
        ensures
            *final(self) == (BrowserMediaTransport {
                input_gain: input.as_gain(),
                output_gain: output.as_gain(),
                ..*old(self)
            }),
    {
        self.set_input_gain(input);
        self.set_output_gain(output);
    }

    fn find_connection(&self, id: u64) -> (at: Option<usize>)
        ensures
            match at {
                Some(at) => place(self.connections@, id) == Some(at as int),
                None => place(self.connections@, id) is None,
            },
    {
        let mut left: usize = self.connections.len();
        assert(self.connections@.take(left as int) =~= self.connections@);
        while left > 0
            invariant
                left <= self.connections@.len(),
                place(self.connections@, id) == place(self.connections@.take(left as int), id),
            decreases left,
        {
            assert(self.connections@.take(left as int).drop_last() =~= self.connections@.take(
                left as int - 1,
            ));
            if self.connections[left - 1].id == id {
                return Some(left - 1);
            }
            left = left - 1;
        }
        None
    }

    /// Sends audio from Discord to the page. `samples` is what Discord delivered and `scaled` the
    /// same audio with the input gain applied, sample by sample.
    pub fn send_pcm_i16(&mut self, samples: &[i16], scaled: &Vec<i16>, now: u64) -> (sent: Sent)
        requires
            old(self).well_formed(),
            old(self).meter.latency.conversation.turn < u64::MAX,
            scaled@.len() == samples@.len(),
        ensures
            final(self).well_formed(),
            *final(self) == (BrowserMediaTransport {
                connections: final(self).connections,
                packets_sent: final(self).packets_sent,
                packets_dropped: final(self).packets_dropped,
                meter: final(self).meter,
                ..*old(self)
            }),
            final(self).connections@.len() == old(self).connections@.len(),
            samples@.len() == 0 ==> *final(self) == *old(self) && sent.accepted && sent.event is None,
            samples@.len() > 0 ==> match old(self).to_browser {
                None => *final(self) == *old(self) && !sent.accepted && sent.event is None,
                Some(id) => {
                    let at = place(old(self).connections@, id).unwrap();
                    let before = old(self).connections@[at].queue;
                    let after = final(self).connections@[at].queue;
                    let full = before@.len() >= BROWSER_PACKET_QUEUE;
                    let conversation = old(self).meter.latency.conversation;
                    &&& sent.accepted == !before.closed()
                    &&& final(self).connections@[at].id == id
                    &&& forall|i: int|
                        0 <= i < final(self).connections@.len() && i != at
                            ==> #[trigger] final(self).connections@[i]
                            == old(self).connections@[i]
                    &&& if before.closed() {
                        &&& after == before
                        &&& final(self).packets_dropped == queue::counted(
                            old(self).packets_dropped,
                            1,
                        )
                        &&& final(self).packets_sent == old(self).packets_sent
                        &&& final(self).meter == old(self).meter
                        &&& sent.event is None
                    } else {
                        &&& before.becomes(after, encoded(scaled@))
                        &&& final(self).packets_dropped == (if full {
                            queue::counted(old(self).packets_dropped, 1)
                        } else {
                            old(self).packets_dropped
                        })
                        &&& final(self).packets_sent == queue::counted(old(self).packets_sent, 1)
                        &&& final(self).meter.latency.conversation == (if signal::has_signal(
                            samples@,
                        ) {
                            conversation.heard(now)
                        } else {
                            conversation
                        })
                        &&& final(self).meter == (PlaybackMeter {
                            latency: final(self).meter.latency,
                            ..old(self).meter
                        })
                        &&& final(self).meter.latency.guild_id
                            == old(self).meter.latency.guild_id
                        &&& text::option_view(sent.event) == (if signal::has_signal(samples@)
                            && conversation.interrupts(now) {
                            Some(latency::interruption(conversation))
                        } else {
                            None
                        })
                    }
                },
            },
    {
        if samples.len() == 0 {
            return Sent { accepted: true, event: None };
        }
        let id: u64 = match self.to_browser {
            Some(id) => id,
            None => {
                return Sent { accepted: false, event: None };
            },
        };
        proof {
            lemma_place(self.connections@, id);
        }
        let at: usize = match self.find_connection(id) {
            Some(at) => at,
            None => {
                return Sent { accepted: false, event: None };
            },
        };
        let bytes = encode(scaled);
        let ghost old_connections = self.connections@;
        let pushed = self.connections[at].queue.push(bytes);
        proof {
            let connections = self.connections@;
            assert(forall|i: int| 0 <= i < connections.len() && i != at ==> #[trigger] connections[i]
                == old_connections[i]);
            assert(connections[at as int].id == id);
            lemma_place_is_unique(connections, id, at as int);
        }
        match pushed {
            Ok(dropped) => {
                if dropped {
                    self.packets_dropped = queue::count(self.packets_dropped, 1);
                }
                let event = self.meter.latency.record_input_pcm(samples, now);
                self.packets_sent = queue::count(self.packets_sent, 1);
                Sent { accepted: true, event }
            },
            Err(_) => {
                self.packets_dropped = queue::count(self.packets_dropped, 1);
                Sent { accepted: false, event: None }
            },
        }
    }

    /// Whether a page may connect: its query has to show the token.
    pub fn admits(&self, query: Option<&str>) -> (admitted: bool)
        ensures
            admitted == match query {
                Some(query) => offered_token(text::fields(query@, '&')) == Some(self.token@),
                None => false,
            },
    {
        let offered = match query {
            Some(offered) => offered,
            None => {
                return false;
            },
        };
        let parts = text::split(offered, '&');
        let ghost fields = text::fields(offered@, '&');
        let mut next: usize = 0;
        assert(fields.skip(0) =~= fields);
        while next < parts.len()
            invariant
                next <= parts@.len(),
                fields == text::views(parts@),
                fields == text::fields(offered@, '&'),
                query == Some(offered),
                offered_token(fields) == offered_token(fields.skip(next as int)),
            decreases parts@.len() - next,
        {
            assert(fields.skip(next as int)[0] == parts@[next as int]@);
            assert(fields.skip(next as int).skip(1) =~= fields.skip(next as int + 1));
            match text::strip_prefix(parts[next].as_str(), "token=") {
                Some(token) => {
                    return text::same(token.as_str(), self.token.as_str());
                },
                None => {},
            }
            next = next + 1;
        }
        false
    }

    /// Takes in a page that was admitted: audio goes to it from now on. The page before it, if
    /// any, gets no more audio, and what it sent is thrown away.
    pub fn open_connection(&mut self) -> (id: u64)
        requires
            old(self).well_formed(),
            old(self).next_connection_id < u64::MAX,
        ensures
            final(self).well_formed(),
            id == old(self).next_connection_id,
            *final(self) == (BrowserMediaTransport {
                connections: final(self).connections,
                from_browser: final(self).from_browser,
                next_connection_id: (id + 1) as u64,
                active_connection_id: id,
                to_browser: Some(id),
                connected: true,
                ..*old(self)
            }),
            final(self).from_browser@.len() == 0,
            old(self).from_browser.differs_in_packets(final(self).from_browser),
            final(self).connections@.len() == old(self).connections@.len() + 1,
            ({
                let newest = final(self).connections@.last();
                newest.id == id && newest.queue.is_new(BROWSER_PACKET_QUEUE as nat)
            }),
            forall|i: int|
                #![trigger final(self).connections@[i]]
                0 <= i < old(self).connections@.len() ==> {
                    let before = old(self).connections@[i];
                    let after = final(self).connections@[i];
                    &&& after.id == before.id
                    &&& if old(self).to_browser == Some(before.id) {
                        before.queue.is_closed_as(after.queue)
                    } else {
                        after == before
                    }
                },
    {
        let id: u64 = self.next_connection_id;
        self.next_connection_id = id + 1;
        let ghost old_connections = self.connections@;
        if let Some(previous) = self.to_browser {
            proof {
                lemma_place(self.connections@, previous);
            }
            if let Some(at) = self.find_connection(previous) {
                self.connections[at].queue.close();
                proof {
                    let connections = self.connections@;
                    assert(forall|i: int|
                        0 <= i < connections.len() && i != at ==> #[trigger] connections[i]
                            == old_connections[i]);
                }
            }
        }
        let ghost closed_connections = self.connections@;
        self.connections.push(
            Connection { id, queue: RealtimePacketQueue::new(BROWSER_PACKET_QUEUE) },
        );
        proof {
            let connections = self.connections@;
            assert(connections.drop_last() =~= closed_connections);
            assert(forall|i: int|
                0 <= i < closed_connections.len() ==> #[trigger] connections[i]
                    == closed_connections[i]);
            assert(forall|i: int|
                0 <= i < closed_connections.len() ==> (#[trigger] closed_connections[i]).id
                    == old_connections[i].id);
        }
        self.to_browser = Some(id);
        self.active_connection_id = id;
        self.from_browser.clear();
        self.connected = true;
        id
    }

    /// Hands the next packet to the writer of a connection. A connection that is gone has ended.
    pub fn next_packet(&mut self, id: u64) -> (received: Reception)
        requires
            old(self).well_formed(),
        ensures
            final(self).well_formed(),
            *final(self) == (BrowserMediaTransport {
                connections: final(self).connections,
                ..*old(self)
            }),
            final(self).connections@.len() == old(self).connections@.len(),
            match place(old(self).connections@, id) {
                None => received is Ended && *final(self) == *old(self),
                Some(at) => {
                    let before = old(self).connections@[at].queue;
                    let after = final(self).connections@[at].queue;
                    &&& forall|i: int|
                        0 <= i < final(self).connections@.len() && i != at
                            ==> #[trigger] final(self).connections@[i]
                            == old(self).connections@[i]
                    &&& final(self).connections@[at].id == id
                    &&& before.differs_in_packets(after)
                    &&& match received {
                        Reception::Packet(packet) => before@.len() > 0 && packet@ == before@[0]
                            && after@ == before@.skip(1),
                        Reception::Ended => before@.len() == 0 && before.closed() && after@
                            == before@,
                        Reception::Waiting => before@.len() == 0 && !before.closed() && after@
                            == before@,
                    }
                },
            },
    {
        proof {
            lemma_place(self.connections@, id);
            if self.to_browser is Some {
                lemma_place(self.connections@, self.to_browser->0);
            }
        }
        match self.find_connection(id) {
            Some(at) => {
                let ghost old_connections = self.connections@;
                let received = self.connections[at].queue.pop();
                proof {
                    let connections = self.connections@;
                    assert(forall|i: int|
                        0 <= i < connections.len() && i != at ==> #[trigger] connections[i]
                            == old_connections[i]);
                    if self.to_browser is Some {
                        let target = self.to_browser->0;
                        lemma_place_is_unique(
                            connections,
                            target,
                            place(old_connections, target).unwrap(),
                        );
                    }
                }
                received
            },
            None => Reception::Ended,
        }
    }

    /// Takes in a message from a page. The answer tells whether the connection goes on.
    pub fn handle_transport_connection(&mut self, message: Incoming) -> (goes_on: bool)
        requires
            old(self).well_formed(),
        ensures
            final(self).well_formed(),
            goes_on == !(message is Closed),
            *final(self) == (BrowserMediaTransport {
                from_browser: final(self).from_browser,
                packets_received: final(self).packets_received,
                packets_dropped: final(self).packets_dropped,
                browser_diagnostics: final(self).browser_diagnostics,
                ..*old(self)
            }),
            match message {
                Incoming::Binary(packet) => {
                    let full = old(self).from_browser@.len() >= DISCORD_PACKET_QUEUE;
                    let open = !old(self).from_browser.closed();
                    &&& final(self).packets_received == queue::counted(
                        old(self).packets_received,
                        1,
                    )
                    &&& if open {
                        old(self).from_browser.becomes(final(self).from_browser, packet@)
                    } else {
                        final(self).from_browser == old(self).from_browser
                    }
                    &&& final(self).packets_dropped == (if open && full {
                        queue::counted(old(self).packets_dropped, 1)
                    } else {
                        old(self).packets_dropped
                    })
                    &&& final(self).browser_diagnostics == old(self).browser_diagnostics
                },
                Incoming::Stats(kind, diagnostics) => *final(self) == (BrowserMediaTransport {
                    browser_diagnostics: if kind@ == "gpt-voice-stats"@ {
                        diagnostics
                    } else {
                        old(self).browser_diagnostics
                    },
                    ..*old(self)
                }),
                _ => *final(self) == *old(self),
            },
    {
        match message {
            Incoming::Binary(packet) => {
                self.packets_received = queue::count(self.packets_received, 1);
                match self.from_browser.push(packet) {
                    Ok(true) => {
                        self.packets_dropped = queue::count(self.packets_dropped, 1);
                    },
                    _ => {},
                }
                true
            },
            Incoming::Stats(kind, diagnostics) => {
                if text::same(kind.as_str(), "gpt-voice-stats") {
                    self.browser_diagnostics = diagnostics;
                }
                true
            },
            Incoming::Ignored => true,
            Incoming::Closed => false,
        }
    }

    /// Forgets a page whose connection ended. Where a newer page has taken over, nothing else
    /// changes.
    pub fn close_connection(&mut self, id: u64)
        requires
            old(self).well_formed(),
        ensures
            final(self).well_formed(),
            place(final(self).connections@, id) is None,
            final(self).connections@ == (match place(old(self).connections@, id) {
                Some(at) => old(self).connections@.remove(at),
                None => old(self).connections@,
            }),
            *final(self) == (BrowserMediaTransport {
                connections: final(self).connections,
                from_browser: final(self).from_browser,
                to_browser: if old(self).to_browser == Some(id) {
                    None
                } else {
                    old(self).to_browser
                },
                connected: old(self).connected && old(self).active_connection_id != id,
                ..*old(self)
            }),
            if old(self).active_connection_id == id {
                final(self).from_browser@.len() == 0 && old(self).from_browser.differs_in_packets(
                    final(self).from_browser,
                )
            } else {
                final(self).from_browser == old(self).from_browser
            },
    {
        let ghost old_connections = self.connections@;
        proof {
            lemma_place(self.connections@, id);
            if self.to_browser is Some {
                lemma_place(self.connections@, self.to_browser->0);
            }
        }
        if let Some(at) = self.find_connection(id) {
            let gone = self.connections.remove(at);
            proof {
                let connections = self.connections@;
                assert(forall|i: int|
                    0 <= i < connections.len() ==> #[trigger] connections[i] == old_connections[if i
                        < at {
                        i
                    } else {
                        i + 1
                    }]);
            }
        }
        proof {
            lemma_place(self.connections@, id);
        }
        if self.active_connection_id == id {
            self.from_browser.clear();
            if self.to_browser == Some(id) {
                self.to_browser = None;
            }
            self.connected = false;
        }
        proof {
            if self.to_browser is Some {
                let target = self.to_browser->0;
                let was = place(old_connections, target).unwrap();
                let at = place(old_connections, id);
                let now = if at is Some && at.unwrap() < was {
                    was - 1
                } else {
                    was
                };
                assert(self.connections@[now].id == target);
                lemma_place_is_unique(self.connections@, target, now);
            }
        }
    }

    /// Stops the transport: no audio passes any more, in either direction.
    pub fn stop(&mut self) -> (was_running: bool)
        requires
            old(self).well_formed(),
        ensures
            final(self).well_formed(),
            was_running == old(self).running,
            *final(self) == (BrowserMediaTransport {
                connections: final(self).connections,
                from_browser: final(self).from_browser,
                to_browser: None,
                running: false,
                connected: false,
                ..*old(self)
            }),
            old(self).from_browser.is_closed_as(final(self).from_browser),
            final(self).connections@.len() == old(self).connections@.len(),
            forall|i: int|
                #![trigger final(self).connections@[i]]
                0 <= i < old(self).connections@.len() ==> {
                    let before = old(self).connections@[i];
                    let after = final(self).connections@[i];
                    &&& after.id == before.id
                    &&& if old(self).to_browser == Some(before.id) {
                        before.queue.is_closed_as(after.queue)
                    } else {
                        after == before
                    }
                },
    {
        let was_running = self.running;
        self.running = false;
        let ghost old_connections = self.connections@;
        if let Some(id) = self.to_browser {
            proof {
                lemma_place(self.connections@, id);
            }
            if let Some(at) = self.find_connection(id) {
                self.connections[at].queue.close();
                proof {
                    let connections = self.connections@;
                    assert(forall|i: int|
                        0 <= i < connections.len() && i != at ==> #[trigger] connections[i]
                            == old_connections[i]);
                }
            }
            self.to_browser = None;
        }
        self.from_browser.close();
        self.connected = false;
        was_running
    }

    /// Takes note that no further page can connect.
    pub fn server_ended(&mut self)
        ensures
            *final(self) == (BrowserMediaTransport { connected: false, ..*old(self) }),
    {
        self.connected = false;
    }

    /// Describes the whole bridge.
    pub fn diagnostics(&self) -> (diagnostics: BrowserMediaDiagnostics)
        requires
            self.well_formed(),
        ensures
            ({
                let page = self.browser_diagnostics;
                let queue = match self.to_browser {
                    Some(id) => Some(self.connections@[place(self.connections@, id).unwrap()].queue),
                    None => None,
                };
                diagnostics == (BrowserMediaDiagnostics {
                    connected: self.connected,
                    packets_sent: self.packets_sent,
                    packets_dropped: self.packets_dropped,
                    input_queue_depth: match queue {
                        Some(queue) => queue@.len() as u64,
                        None => 0,
                    },
                    input_queue_peak_depth: match queue {
                        Some(queue) => queue.peak_depth(),
                        None => 0,
                    },
                    input_queue_dropped: match queue {
                        Some(queue) => queue.dropped_oldest(),
                        None => 0,
                    },
                    packets_received: self.packets_received,
                    reader_reads: self.meter.reader_reads,
                    reader_source_bytes: self.meter.reader_source_bytes,
                    reader_output_bytes: self.meter.reader_output_bytes,
                    reader_silence_bytes: self.meter.reader_silence_bytes,
                    output_capture_mode: page.output_capture_mode,
                    output_track_count: page.output_track_count,
                    output_callbacks: page.output_callbacks,
                    output_dropped_callbacks: page.output_dropped_callbacks,
                    output_attach_errors: page.output_attach_errors,
                    output_worklet_captures: page.output_worklet_captures,
                    output_worklet_fallbacks: page.output_worklet_fallbacks,
                    output_worklet_frames: page.output_worklet_frames,
                    output_worklet_peak: page.output_worklet_peak,
                    output_worklet_non_silent_frames: page.output_worklet_non_silent_frames,
                    output_worklet_max_gap_ms: page.output_worklet_max_gap_ms,
                    input_frames: page.input_frames,
                    input_silence_frames: page.input_silence_frames,
                    browser_input_queue_samples: page.input_queue_samples,
                    browser_input_queue_peak_samples: page.input_queue_peak_samples,
                    browser_input_queue_depth: page.input_queue_depth,
                    browser_input_dropped_messages: page.input_dropped_messages,
                    browser_input_last_frame_at: page.input_last_frame_at,
                })
            }),
    {
        let mut depth: u64 = 0;
        let mut peak: u64 = 0;
        let mut dropped: u64 = 0;
        if let Some(id) = self.to_browser {
            proof {
                lemma_place(self.connections@, id);
            }
            if let Some(at) = self.find_connection(id) {
                let connection = &self.connections[at];
                depth = connection.queue.depth();
                peak = connection.queue.read_peak_depth();
                dropped = connection.queue.read_dropped_oldest();
            }
        }
        let page = &self.browser_diagnostics;
        BrowserMediaDiagnostics {
            connected: self.connected,
            packets_sent: self.packets_sent,
            packets_dropped: self.packets_dropped,
            input_queue_depth: depth,
            input_queue_peak_depth: peak,
            input_queue_dropped: dropped,
            packets_received: self.packets_received,
            reader_reads: self.meter.reader_reads,
            reader_source_bytes: self.meter.reader_source_bytes,
            reader_output_bytes: self.meter.reader_output_bytes,
            reader_silence_bytes: self.meter.reader_silence_bytes,
            output_capture_mode: page.output_capture_mode.clone(),
            output_track_count: page.output_track_count,
            output_callbacks: page.output_callbacks,
            output_dropped_callbacks: page.output_dropped_callbacks,
            output_attach_errors: page.output_attach_errors,
            output_worklet_captures: page.output_worklet_captures,
            output_worklet_fallbacks: page.output_worklet_fallbacks,
            output_worklet_frames: page.output_worklet_frames,
            output_worklet_peak: page.output_worklet_peak,
            output_worklet_non_silent_frames: page.output_worklet_non_silent_frames,
            output_worklet_max_gap_ms: page.output_worklet_max_gap_ms,
            input_frames: page.input_frames,
            input_silence_frames: page.input_silence_frames,
            browser_input_queue_samples: page.input_queue_samples,
            browser_input_queue_peak_samples: page.input_queue_peak_samples,
            browser_input_queue_depth: page.input_queue_depth,
            browser_input_dropped_messages: page.input_dropped_messages,
            browser_input_last_frame_at: page.input_last_frame_at,
        }
    }
}

/// Samples go out as pairs of bytes: the first byte of a pair counts once, the second 256 times,
/// and a negative sample is 65536 more than its value.
pub proof fn samples_go_out_low_byte_first(samples: Seq<i16>, index: int)
    requires
        0 <= index < samples.len(),
    ensures
        encoded(samples).len() == 2 * samples.len(),
        encoded(samples)[2 * index] + 256 * encoded(samples)[2 * index + 1] == (if samples[index]
            < 0 {
            samples[index] + 65_536
        } else {
            samples[index] as int
        }),
{
    encoded_samples_read_back(samples, index);
}

/// A connection is found by its number, wherever it stands in the list, and one that is not there
/// is not found.
pub proof fn connections_are_found_by_number(connections: Seq<Connection>, at: int, other: u64)
    requires
        0 <= at < connections.len(),
        forall|i: int, j: int|
            0 <= i < j < connections.len() ==> (#[trigger] connections[i]).id != (
            #[trigger] connections[j]).id,
        forall|i: int| 0 <= i < connections.len() ==> (#[trigger] connections[i]).id != other,
    ensures
        place(connections, connections[at].id) == Some(at),
        place(connections, other) is None,
{
    lemma_place(connections, connections[at].id);
    lemma_place(connections, other);
}

/// Live audio waits briefly: at most four packets for each page, and at most eight for Discord.
pub proof fn queues_are_short(transport: BrowserMediaTransport, at: int)
    requires
        transport.well_formed(),
        0 <= at < transport.connections@.len(),
    ensures
        transport.from_browser.capacity() == 8,
        transport.connections@[at].queue.capacity() == 4,
{
}

/// A page shows its token in the first field of its query that begins with "token="; other fields
/// before it do not matter, and without such a field it shows none.
pub proof fn token_is_read_from_its_field(
    before: Seq<Seq<char>>,
    token: Seq<char>,
    after: Seq<Seq<char>>,
)
    requires
        forall|i: int|
            0 <= i < before.len() ==> !text::begins_with(#[trigger] before[i], "token="@),
    ensures
        offered_token(before.push("token="@ + token) + after) == Some(token),
        offered_token(before) is None,
    decreases before.len(),
{
    let field = "token="@ + token;
    let parts = before.push(field) + after;
    if before.len() == 0 {
        assert(parts[0] == field);
        assert(field.take("token="@.len() as int) =~= "token="@);
        assert(field.skip("token="@.len() as int) =~= token);
    } else {
        assert(parts[0] == before[0]);
        assert(parts.skip(1) =~= before.skip(1).push(field) + after);
        assert forall|i: int| 0 <= i < before.skip(1).len() implies !text::begins_with(
            #[trigger] before.skip(1)[i],
            "token="@,
        ) by {
            assert(before.skip(1)[i] == before[i + 1]);
        }
        token_is_read_from_its_field(before.skip(1), token, after);
    }
}

/// A page that shows the token and nothing else is let in by it.
pub proof fn token_in_the_query_is_offered(token: Seq<char>)
    requires
        !token.contains('&'),
    ensures
        offered_token(text::fields("token="@ + token, '&')) == Some(token),
{
    reveal_strlit("token=");
    let query = "token="@ + token;
    if query.contains('&') {
        let at = choose|i: int| 0 <= i < query.len() && query[i] == '&';
        if at >= 6 {
            assert(token[at - 6] == '&');
        }
    }
    text::lemma_fields_single(query, '&');
    assert(seq![query] =~= Seq::<Seq<char>>::empty().push(query) + Seq::<Seq<char>>::empty());
    token_is_read_from_its_field(Seq::empty(), token, Seq::empty());
}

/// Hexadecimal digits weigh sixteen times as much as the digit to their right; those above nine
/// are the letters a to f.
pub proof fn hexadecimal_digits_weigh_sixteen(value: nat, last: nat)
    requires
        last < 16,
    ensures
        value > 0 ==> hexadecimal(16 * value + last) == hexadecimal(value) + hexadecimal(last),
        hexadecimal(last).len() == 1,
        last < 10 ==> hexadecimal(last)[0] as u32 == 0x30 + last,
        last >= 10 ==> hexadecimal(last)[0] as u32 == 0x61 + last - 10,
{
    if value > 0 {
        assert((16 * value + last) / 16 == value && (16 * value + last) % 16 == last);
        assert(hexadecimal(value).push(json::hex_digit(last)) =~= hexadecimal(value) + hexadecimal(
            last,
        ));
    }
}

/// The script inside the bridge source is what stands between its marker and its end, and a source
/// without the marker gives none.
pub proof fn bridge_script_is_cut_out(source: Seq<char>, at: int, script: Seq<char>)
    requires
        text::first_match(source, "const BROWSER_INIT_SCRIPT = String.raw`"@) == Some(at),
        source.skip(at + "const BROWSER_INIT_SCRIPT = String.raw`"@.len()) == script + "`;"@,
        script.len() > 0,
        !text::white_space(script[0]),
    ensures
        script_template(source) == Some(script),
        forall|other: Seq<char>|
            text::first_match(other, "const BROWSER_INIT_SCRIPT = String.raw`"@) is None
                ==> #[trigger] script_template(other) is None,
{
    reveal_strlit("`;");
    let framed = script + "`;"@;
    assert(framed.last() == ';');
    text::printed_characters_are_no_space(';');
    text::lemma_trimmed_is_fixed(framed);
    assert(framed.skip(framed.len() - 2) =~= "`;"@);
    assert(framed.take(framed.len() - 2) =~= script);
}

/// The script for a page knows where to connect and what to show: the address and the token stand
/// in it as JSON strings, and the rest of the script stays as it is.
pub proof fn bridge_script_names_address_and_token(
    source: Seq<char>,
    front: Seq<char>,
    middle: Seq<char>,
    back: Seq<char>,
    endpoint: Seq<char>,
    token: Seq<char>,
)
    requires
        script_template(source) == Some(
            front + "__GPTVOICE_TRANSPORT_URL__"@ + middle + "__GPTVOICE_TRANSPORT_TOKEN__"@ + back,
        ),
        text::first_match(script_template(source)->0, "__GPTVOICE_TRANSPORT_URL__"@) == Some(
            front.len() as int,
        ),
        text::first_match(
            middle + "__GPTVOICE_TRANSPORT_TOKEN__"@ + back,
            "__GPTVOICE_TRANSPORT_URL__"@,
        ) is None,
        text::first_match(
            front + json::literal(endpoint) + middle + "__GPTVOICE_TRANSPORT_TOKEN__"@ + back,
            "__GPTVOICE_TRANSPORT_TOKEN__"@,
        ) == Some((front.len() + json::literal(endpoint).len() + middle.len()) as int),
        text::first_match(back, "__GPTVOICE_TRANSPORT_TOKEN__"@) is None,
    ensures
        filled_script(source, endpoint, token) == front + json::literal(endpoint) + middle
            + json::literal(token) + back,
{
    reveal_strlit("__GPTVOICE_TRANSPORT_URL__");
    reveal_strlit("__GPTVOICE_TRANSPORT_TOKEN__");
    let url_mark = "__GPTVOICE_TRANSPORT_URL__"@;
    let token_mark = "__GPTVOICE_TRANSPORT_TOKEN__"@;
    let template = front + url_mark + middle + token_mark + back;
    let rest = middle + token_mark + back;
    let address = json::literal(endpoint);
    assert(template.take(front.len() as int) =~= front);
    assert(template.skip((front.len() + url_mark.len()) as int) =~= rest);
    text::occurrences_are_replaced(template, url_mark, address);
    text::occurrences_are_replaced(rest, url_mark, address);
    let addressed = front + address + middle + token_mark + back;
    assert(front + address + rest =~= addressed);
    let at = (front.len() + address.len() + middle.len()) as int;
    assert(addressed.take(at) =~= front + address + middle);
    assert(addressed.skip(at + token_mark.len()) =~= back);
    text::occurrences_are_replaced(addressed, token_mark, json::literal(token));
    text::occurrences_are_replaced(back, token_mark, json::literal(token));
}

/// Without a bridge, and from a page that has reported nothing, every count is zero, every
/// measurement is zero, and nothing is connected.
pub proof fn nothing_is_counted_without_a_bridge()
    ensures
        ({
            let none = BrowserMediaDiagnostics::none();
            &&& !none.connected
            &&& none.output_capture_mode is None
            &&& none.packets_sent + none.packets_dropped + none.packets_received == 0
            &&& none.input_queue_depth + none.input_queue_peak_depth + none.input_queue_dropped == 0
            &&& none.reader_reads + none.reader_source_bytes + none.reader_output_bytes
                + none.reader_silence_bytes == 0
            &&& none.output_track_count + none.output_callbacks + none.output_dropped_callbacks
                + none.output_attach_errors == 0
            &&& none.output_worklet_captures + none.output_worklet_fallbacks
                + none.output_worklet_frames + none.output_worklet_non_silent_frames == 0
            &&& none.output_worklet_peak.bits + none.output_worklet_max_gap_ms.bits == 0
            &&& none.input_frames + none.input_silence_frames == 0
            &&& none.browser_input_queue_samples + none.browser_input_queue_peak_samples
                + none.browser_input_queue_depth + none.browser_input_dropped_messages
                + none.browser_input_last_frame_at == 0
        }),
        ({
            let silent = BrowserBridgeDiagnostics::nothing();
            &&& silent.output_capture_mode is None
            &&& silent.output_track_count + silent.output_callbacks
                + silent.output_dropped_callbacks + silent.output_attach_errors == 0
            &&& silent.output_worklet_captures + silent.output_worklet_fallbacks
                + silent.output_worklet_frames + silent.output_worklet_non_silent_frames == 0
            &&& silent.output_worklet_peak.bits + silent.output_worklet_max_gap_ms.bits == 0
            &&& silent.input_frames + silent.input_silence_frames + silent.input_queue_samples
                + silent.input_queue_peak_samples + silent.input_queue_depth
                + silent.input_dropped_messages + silent.input_last_frame_at == 0
        }),
{
}

} // verus!
