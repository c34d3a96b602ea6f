use gptvoice::latency::{Conversation, LatencyOutputKind, LatencyState};
use gptvoice::mix::{mix, SILENT_FRAME_SAMPLES};
use gptvoice::pcm::{
    PcmReader, PlaybackMeter, ReadOutput, ReadStep, PCM_CHANNELS, PCM_JITTER_MIN_FRAMES,
    PCM_JITTER_STABLE_FRAMES_BEFORE_RELAX, PCM_JITTER_UNDERRUNS_BEFORE_RESYNC,
    PCM_OUTPUT_BYTES_PER_PACKET, PCM_SAMPLE_RATE,
};
use gptvoice::queue::{RealtimePacketQueue, RealtimePcmQueue, Reception};
use gptvoice::signal::{has_i16_byte_signal, has_i16_signal};
use std::io::{Error, ErrorKind, Read, Result as IoResult, Seek, SeekFrom};
use std::sync::{Arc, Mutex};
use symphonia_core::io::{MediaSource, MediaSourceStream, MediaSourceStreamOptions, ReadBytes};

/// Serves a read with the packets that wait in a queue; an empty queue counts as a timeout.
fn read(
    reader: &mut PcmReader,
    meter: &mut PlaybackMeter,
    queue: &mut RealtimePcmQueue,
    requested: usize,
) -> ReadOutput {
    let mut step = reader.read(meter, requested, 0).step;
    loop {
        match step {
            ReadStep::Done(output) => return output,
            ReadStep::Receive => {
                let packet = match queue.receive_timeout(true) {
                    Reception::Packet(packet) => Some(packet),
                    _ => None,
                };
                step = reader.receive(meter, packet, 0).step;
            }
        }
    }
}

#[test]
fn pcm_reader_converts_i16_to_native_f32_and_keeps_streaming() {
    let mut receiver = RealtimePcmQueue::new(2);
    receiver
        .push(vec![0, 64, 0, 192])
        .expect("test packet should be accepted");
    let mut reader = PcmReader::new();
    let mut meter = PlaybackMeter::new();
    reader.jitter_primed = true;
    reader.jitter_has_started = true;
    let output = read(&mut reader, &mut meter, &mut receiver, 8);
    assert_eq!(output.length, 8);
    let left = output.samples[0] as f32 / 32_768.0;
    let right = output.samples[1] as f32 / 32_768.0;
    assert!((left - 0.5).abs() < 0.001);
    assert!((right + 0.5).abs() < 0.001);
}

#[test]
fn pcm_reader_waits_for_a_partial_packet_before_filling_silence() {
    let mut receiver = RealtimePcmQueue::new(2);
    receiver
        .push(vec![0, 64])
        .expect("first partial packet should be accepted");
    receiver
        .push(vec![0, 192])
        .expect("second partial packet should be accepted");
    let mut reader = PcmReader::new();
    let mut meter = PlaybackMeter::new();
    reader.jitter_primed = true;
    reader.jitter_has_started = true;
    let output = read(&mut reader, &mut meter, &mut receiver, 4);
    assert_eq!(output.length, 4);
    let sample = output.samples[0] as f32 / 32_768.0;
    assert!((sample - 0.5).abs() < 0.001);
}

#[test]
fn transport_uses_expected_audio_format() {
    assert_eq!(PCM_SAMPLE_RATE, 48_000);
    assert_eq!(PCM_CHANNELS, 2);
}

#[test]
fn pcm_reader_limits_source_reads_to_one_songbird_packet() {
    let mut receiver = RealtimePcmQueue::new(4);
    for _ in 0..4 {
        receiver
            .push(vec![0x00; 4_096])
            .expect("browser packet should be accepted");
    }
    let mut reader = PcmReader::new();
    let mut meter = PlaybackMeter::new();
    let output = read(
        &mut reader,
        &mut meter,
        &mut receiver,
        PCM_OUTPUT_BYTES_PER_PACKET + 512,
    );
    assert_eq!(output.length, PCM_OUTPUT_BYTES_PER_PACKET);
    assert_eq!(meter.reader_source_bytes, 12_288);
    assert_eq!(meter.reader_reads, 1);
    assert_eq!(meter.reader_output_bytes, 7_680);
    assert_eq!(meter.reader_silence_bytes, 0);
}

/// A reader with its queue, as a decoder sees it.
struct Source {
    reader: PcmReader,
    queue: RealtimePcmQueue,
    meter: Arc<Mutex<PlaybackMeter>>,
}

impl Read for Source {
    fn read(&mut self, output: &mut [u8]) -> IoResult<usize> {
        let mut meter = self.meter.lock().expect("the meter");
        let audio = read(&mut self.reader, &mut meter, &mut self.queue, output.len());
        output[..audio.length].fill(0);
        for (index, sample) in audio.samples.iter().enumerate() {
            let value = (*sample as f32 / 32_768.0).to_ne_bytes();
            output[4 * index..4 * index + 4].copy_from_slice(&value);
        }
        Ok(audio.length)
    }
}

impl Seek for Source {
    fn seek(&mut self, _position: SeekFrom) -> IoResult<u64> {
        Err(Error::new(ErrorKind::Unsupported, "live audio cannot seek"))
    }
}

impl MediaSource for Source {
    fn is_seekable(&self) -> bool {
        false
    }

    fn byte_len(&self) -> Option<u64> {
        None
    }
}

#[test]
fn raw_reader_primes_a_bounded_jitter_buffer() {
    let mut queue = RealtimePcmQueue::new(4);
    for _ in 0..4 {
        queue
            .push(vec![0_u8; 4_096])
            .expect("browser packet should be accepted");
    }
    let meter = Arc::new(Mutex::new(PlaybackMeter::new()));
    let source = Source {
        reader: PcmReader::new(),
        queue,
        meter: Arc::clone(&meter),
    };
    let mut stream =
        MediaSourceStream::new(Box::new(source), MediaSourceStreamOptions::default());
    let packet = stream
        .read_boxed_slice_exact(PCM_OUTPUT_BYTES_PER_PACKET)
        .expect("the stream should return one packet");
    assert_eq!(packet.len(), PCM_OUTPUT_BYTES_PER_PACKET);
    assert_eq!(meter.lock().expect("the meter").reader_source_bytes, 12_288);
}

#[test]
fn pcm_reader_adapts_jitter_target_after_underflows_and_stability() {
    let mut reader = PcmReader::new();
    reader.jitter_primed = true;
    reader.jitter_has_started = true;

    for _ in 0..PCM_JITTER_UNDERRUNS_BEFORE_RESYNC {
        reader.finish_output_packet(true);
    }
    assert_eq!(reader.jitter_target_frames, PCM_JITTER_MIN_FRAMES + 1);
    assert_eq!(reader.jitter_upshifts, 1);
    assert!(!reader.jitter_primed);

    reader.jitter_stable_frames = PCM_JITTER_STABLE_FRAMES_BEFORE_RELAX - 1;
    reader.finish_output_packet(false);
    assert_eq!(reader.jitter_target_frames, PCM_JITTER_MIN_FRAMES);
    assert_eq!(reader.jitter_downshifts, 1);
}

#[test]
fn a_read_without_audio_is_silent() {
    let mut receiver = RealtimePcmQueue::new(4);
    let mut reader = PcmReader::new();
    let mut meter = PlaybackMeter::new();
    let output = read(&mut reader, &mut meter, &mut receiver, 1_003);
    assert_eq!(output.length, 1_000);
    assert!(output.samples.is_empty());
    assert_eq!(meter.reader_silence_bytes, 1_000);
    assert!(!reader.jitter_primed);
    assert_eq!(read(&mut reader, &mut meter, &mut receiver, 0).length, 0);
    assert_eq!(read(&mut reader, &mut meter, &mut receiver, 3).length, 0);
}

#[test]
fn audio_goes_out_in_the_order_in_which_it_came() {
    let mut receiver = RealtimePcmQueue::new(8);
    let mut sent: Vec<i16> = Vec::new();
    for packet in 0..3 {
        let mut bytes: Vec<u8> = Vec::new();
        for index in 0..2_048 {
            let sample = (packet * 2_048 + index) as i16;
            sent.push(sample);
            bytes.extend_from_slice(&sample.to_le_bytes());
        }
        receiver.push(bytes).expect("packet should be accepted");
    }
    let mut reader = PcmReader::new();
    let mut meter = PlaybackMeter::new();
    let mut received: Vec<i16> = Vec::new();
    for _ in 0..4 {
        received.extend(read(&mut reader, &mut meter, &mut receiver, 4_096).samples);
    }
    assert_eq!(received[..], sent[..received.len()]);
    assert_eq!(received.len(), 1_024 + 896 + 1_024 + 896);
}

#[test]
fn a_short_reply_starts_with_one_whole_frame() {
    let mut receiver = RealtimePcmQueue::new(8);
    receiver.push(vec![1; 3_840]).expect("packet should be accepted");
    let mut reader = PcmReader::new();
    let mut meter = PlaybackMeter::new();
    let output = read(&mut reader, &mut meter, &mut receiver, 7_680);
    assert_eq!(output.samples.len(), 1_920);
    assert_eq!(output.samples[0], 257);
    assert!(reader.jitter_primed);
}

#[test]
fn a_full_queue_drops_its_oldest_packet() {
    let mut queue = RealtimePacketQueue::new(2);
    assert_eq!(queue.push(vec![1]), Ok(false));
    assert_eq!(queue.push(vec![2]), Ok(false));
    assert_eq!(queue.push(vec![3]), Ok(true));
    assert_eq!(queue.depth(), 2);
    assert_eq!(queue.read_peak_depth(), 2);
    assert_eq!(queue.read_dropped_oldest(), 1);
    assert!(matches!(queue.pop(), Reception::Packet(packet) if packet == vec![2]));
    queue.close();
    assert_eq!(queue.push(vec![4]), Err(()));
    assert!(matches!(queue.pop(), Reception::Packet(packet) if packet == vec![3]));
    assert!(matches!(queue.pop(), Reception::Ended));
}

#[test]
fn an_empty_queue_waits_until_its_time_is_up() {
    let mut queue = RealtimePcmQueue::new(2);
    assert!(matches!(queue.receive_timeout(false), Reception::Waiting));
    assert!(matches!(queue.receive_timeout(true), Reception::Ended));
    assert_eq!(queue.push(vec![7]), Ok(false));
    queue.clear();
    queue.close();
    assert!(matches!(queue.receive_timeout(false), Reception::Ended));
    assert_eq!(queue.push(vec![8]), Err(()));
}

#[test]
fn a_signal_is_loud_in_either_direction() {
    assert!(!has_i16_signal(&[0, 255, -255]));
    assert!(has_i16_signal(&[0, 256]));
    assert!(has_i16_signal(&[-256]));
    assert!(has_i16_signal(&[i16::MIN]));
    assert!(has_i16_byte_signal(&[0, 0, 0, 1]));
    assert!(!has_i16_byte_signal(&[0, 0, 255]));
    assert!(has_i16_byte_signal(&[0, 128]));
}

#[test]
fn nobody_speaking_is_mixed_to_silence() {
    assert_eq!(mix(&vec![]), vec![0_i16; SILENT_FRAME_SAMPLES]);
}

#[test]
fn speakers_are_averaged_where_they_overlap() {
    assert_eq!(mix(&vec![vec![5, -7, 9]]), vec![5, -7, 9]);
    assert_eq!(mix(&vec![vec![10, -7, 3], vec![5]]), vec![7, -7, 3]);
    assert_eq!(mix(&vec![vec![-10], vec![-5]]), vec![-7]);
    assert_eq!(mix(&vec![vec![i16::MAX], vec![i16::MAX]]), vec![16_383]);
    assert_eq!(mix(&vec![vec![i16::MIN], vec![i16::MIN]]), vec![-16_384]);
    assert_eq!(mix(&vec![vec![1], vec![2], vec![4]]), vec![2]);
}

const MILLISECOND: u64 = 1_000_000;

#[test]
fn an_answer_is_reported_when_it_reaches_discord() {
    let mut state = LatencyState::new();
    let speech = [1_000_i16; 4];
    let audio = [0_u8, 16, 0, 16];
    assert!(state.record_input_pcm(&speech, 100 * MILLISECOND).is_none());
    assert!(state.record_input_pcm(&speech, 300 * MILLISECOND).is_none());
    assert_eq!(state.conversation.turn, 1);
    assert!(state.record_browser_output_packet(&audio, 900 * MILLISECOND).is_none());
    let report = state
        .record_discord_output(930 * MILLISECOND)
        .expect("the handoff should be reported");
    assert_eq!(
        report,
        "turn 1 (response): first Discord speech -> ChatGPT audio 800 ms; last Discord speech -> ChatGPT audio 600 ms; ChatGPT audio -> Discord relay handoff 30 ms; first speech -> Discord relay handoff 830 ms"
    );
    assert!(state.record_discord_output(940 * MILLISECOND).is_none());
}

#[test]
fn speech_over_an_answer_interrupts_it_once() {
    let mut state = LatencyState::new();
    let speech = [1_000_i16; 4];
    let audio = [0_u8, 16, 0, 16];
    assert_eq!(
        state.record_browser_output_packet(&audio, 0).as_deref(),
        Some("ChatGPT initiated autonomous speech")
    );
    assert_eq!(
        state.record_input_pcm(&speech, 500 * MILLISECOND).as_deref(),
        Some("turn 1: Discord speech interrupted ChatGPT output")
    );
    assert!(state.record_input_pcm(&speech, 600 * MILLISECOND).is_none());
    assert_eq!(
        state.record_discord_output(700 * MILLISECOND).as_deref(),
        Some("autonomous ChatGPT speech: ChatGPT audio -> Discord relay handoff 700 ms")
    );
    let output = state.conversation.output.expect("output should be tracked");
    assert!(matches!(output.kind, LatencyOutputKind::Autonomous));
    assert!(output.interrupted);
}

#[test]
fn latency_reports_name_the_guild() {
    let mut state = LatencyState::new();
    assert_eq!(state.emit_latency_report("a"), "[latency:unknown] a");
    state.guild_id = "42".to_owned();
    assert_eq!(state.emit_latency_report("a"), "[latency:42] a");
    let Conversation { turn, input, output } = state.conversation;
    assert_eq!(turn, 0);
    assert!(input.is_none() && output.is_none());
}

#[test]
fn each_change_of_the_jitter_buffer_is_counted() {
    let mut reader = PcmReader::new();
    reader.jitter_primed = true;
    reader.jitter_has_started = true;
    for round in 0..40 {
        reader.finish_output_packet(true);
        if round % 7 == 0 {
            reader.jitter_stable_frames = PCM_JITTER_STABLE_FRAMES_BEFORE_RELAX - 1;
            reader.finish_output_packet(false);
        }
        assert_eq!(
            reader.jitter_target_frames as u64 + reader.jitter_downshifts,
            PCM_JITTER_MIN_FRAMES as u64 + reader.jitter_upshifts
        );
    }
    assert!(reader.jitter_upshifts > 0);
}
