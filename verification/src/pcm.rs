//! The reader that feeds browser audio to Discord.
//!
//! Discord asks for 20 ms packets of 32-bit samples; the browser sends packets of 16-bit samples
//! of another length. The reader keeps what has arrived and not yet gone out, waits for enough
//! audio before it starts, widens that jitter buffer when the audio runs dry and narrows it again
//! after a long stable stretch.
//!
//! A read is a conversation with the caller: the reader answers either that it needs the next
//! packet, or what to put out. Waiting for packets is the caller's part.

use crate::latency::LatencyState;
use crate::queue;
use crate::signal;
use vstd::prelude::*;

verus! {

/// Samples per second and channel.
pub const PCM_SAMPLE_RATE: u32 = 48_000;

/// Interleaved channels.
pub const PCM_CHANNELS: u32 = 2;

/// Frames in 20 ms.
pub const PCM_FRAMES_PER_PACKET: usize = 960;

/// Bytes of 20 ms of 16-bit input.
pub const PCM_INPUT_BYTES_PER_FRAME: usize = 3_840;

/// Bytes of 20 ms of 32-bit output.
pub const PCM_OUTPUT_BYTES_PER_PACKET: usize = 7_680;

/// The narrowest jitter buffer, in 20 ms frames.
pub const PCM_JITTER_MIN_FRAMES: usize = 3;

/// The widest jitter buffer, in 20 ms frames.
pub const PCM_JITTER_MAX_FRAMES: usize = 8;

/// Packets in a row that ran dry before the buffer fills up anew.
pub const PCM_JITTER_UNDERRUNS_BEFORE_RESYNC: usize = 3;

/// Packets without a gap before the buffer narrows.
pub const PCM_JITTER_STABLE_FRAMES_BEFORE_RELAX: usize = 750;

/// The audio format: 20 ms of stereo audio at the sample rate, as 16-bit and as 32-bit samples.
pub proof fn packet_sizes_match_the_format()
    ensures
        PCM_FRAMES_PER_PACKET * 50 == PCM_SAMPLE_RATE,
        PCM_INPUT_BYTES_PER_FRAME == PCM_FRAMES_PER_PACKET * PCM_CHANNELS * 2,
        PCM_OUTPUT_BYTES_PER_PACKET == PCM_FRAMES_PER_PACKET * PCM_CHANNELS * 4,
{
}

/// What a read in progress waits for; each stage carries the length of the read.
#[derive(Debug, Clone, Copy, PartialEq, Eq, Structural)]
pub enum ReadStage {
    /// No read is in progress.
    Idle,
    /// A first frame to start with.
    FirstFrame(usize),
    /// A full jitter buffer.
    Target(usize),
    /// The audio of this read.
    Output(usize),
}

/// The bytes to put out: the samples, each as one 32-bit value, and zeros behind them.
#[derive(Debug)]
pub struct ReadOutput {
    /// How many bytes the read delivers.
    pub length: usize,
    /// The samples that stand at the front.
    pub samples: Vec<i16>,
}

/// How a read goes on.
#[derive(Debug)]
pub enum ReadStep {
    /// The reader needs the next packet.
    Receive,
    /// The read is over.
    Done(ReadOutput),
}

/// One answer of the reader, with what the latency tracker has to report.
#[derive(Debug)]
pub struct ReadProgress {
    pub step: ReadStep,
    pub browser_event: Option<String>,
    pub handoff_report: Option<String>,
}

/// What the readers of a transport have done so far.
#[derive(Debug)]
pub struct PlaybackMeter {
    pub reader_reads: u64,
    pub reader_source_bytes: u64,
    pub reader_output_bytes: u64,
    pub reader_silence_bytes: u64,
    pub latency: LatencyState,
}

impl PlaybackMeter {
    /// Nothing was read, and nobody has spoken.
    pub open spec fn is_zero(self) -> bool {
        &&& self.reader_reads == 0
        &&& self.reader_source_bytes == 0
        &&& self.reader_output_bytes == 0
        &&& self.reader_silence_bytes == 0
        &&& self.latency.guild_id@ == Seq::<char>::empty()
        &&& self.latency.conversation == (crate::latency::Conversation {
            turn: 0,
            input: None,
            output: None,
        })
    }

    /// A meter at zero.
    pub fn new() -> (meter: Self)
        ensures
            meter.is_zero(),
    {
        PlaybackMeter {
            reader_reads: 0,
            reader_source_bytes: 0,
            reader_output_bytes: 0,
            reader_silence_bytes: 0,
            latency: LatencyState::new(),
        }
    }
}

/// The reader as a mathematical value.
pub struct ReaderState {
    /// The bytes that have arrived and not gone out.
    pub pending: Seq<u8>,
    pub packet_remaining: nat,
    pub packet_had_underflow: bool,
    pub jitter_target_frames: nat,
    pub jitter_primed: bool,
    pub jitter_has_started: bool,
    pub jitter_underflows: nat,
    pub jitter_stable_frames: nat,
    pub jitter_upshifts: nat,
    pub jitter_downshifts: nat,
    pub stage: ReadStage,
}

/// What the reader answers.
pub enum Answer {
    Receive,
    /// The samples that stand at the front of so many bytes.
    Done(nat, Seq<i16>),
}

/// The first `count` samples that the bytes hold.
pub open spec fn decoded(bytes: Seq<u8>, count: nat) -> Seq<i16> {
    Seq::new(count, |i: int| signal::sample_at(bytes, i) as i16)
}

/// The smaller of two numbers.
pub open spec fn lesser(left: nat, right: nat) -> nat {
    if left <= right {
        left
    } else {
        right
    }
}

/// The larger of two numbers.
pub open spec fn greater(left: nat, right: nat) -> nat {
    if left >= right {
        left
    } else {
        right
    }
}

impl ReaderState {
    /// A reader that has seen no audio.
    pub open spec fn fresh() -> ReaderState {
        ReaderState {
            pending: Seq::empty(),
            packet_remaining: 0,
            packet_had_underflow: false,
            jitter_target_frames: PCM_JITTER_MIN_FRAMES as nat,
            jitter_primed: false,
            jitter_has_started: false,
            jitter_underflows: 0,
            jitter_stable_frames: 0,
            jitter_upshifts: 0,
            jitter_downshifts: 0,
            stage: ReadStage::Idle,
        }
    }

    /// The state is one that a reader can be in.
    pub open spec fn valid(self) -> bool {
        &&& PCM_JITTER_MIN_FRAMES <= self.jitter_target_frames <= PCM_JITTER_MAX_FRAMES
        &&& self.jitter_target_frames + self.jitter_downshifts == PCM_JITTER_MIN_FRAMES
            + self.jitter_upshifts
        &&& self.jitter_primed ==> self.jitter_has_started
        &&& self.jitter_underflows < PCM_JITTER_UNDERRUNS_BEFORE_RESYNC
        &&& self.packet_remaining <= PCM_OUTPUT_BYTES_PER_PACKET
        &&& self.packet_remaining % 4 == 0
        &&& match self.stage {
            ReadStage::Idle => true,
            ReadStage::FirstFrame(length) | ReadStage::Target(length) | ReadStage::Output(length)
                => 0 < length <= self.packet_remaining && length % 4 == 0,
        }
    }

    /// An output packet is complete: three packets in a row that ran dry fill the buffer anew and
    /// widen it, many packets without a gap narrow it.
    pub open spec fn packet_finished(self, had_underflow: bool) -> ReaderState {
        let changed = if !self.jitter_has_started {
            self
        } else if had_underflow {
            if self.jitter_underflows + 1 >= PCM_JITTER_UNDERRUNS_BEFORE_RESYNC {
                if self.jitter_target_frames < PCM_JITTER_MAX_FRAMES {
                    ReaderState {
                        jitter_stable_frames: 0,
                        jitter_underflows: 0,
                        jitter_primed: false,
                        jitter_target_frames: self.jitter_target_frames + 1,
                        jitter_upshifts: self.jitter_upshifts + 1,
                        ..self
                    }
                } else {
                    ReaderState {
                        jitter_stable_frames: 0,
                        jitter_underflows: 0,
                        jitter_primed: false,
                        ..self
                    }
                }
            } else {
                ReaderState {
                    jitter_stable_frames: 0,
                    jitter_underflows: self.jitter_underflows + 1,
                    ..self
                }
            }
        } else if self.jitter_stable_frames + 1 >= PCM_JITTER_STABLE_FRAMES_BEFORE_RELAX
            && self.jitter_target_frames > PCM_JITTER_MIN_FRAMES {
            ReaderState {
                jitter_underflows: 0,
                jitter_stable_frames: 0,
                jitter_target_frames: (self.jitter_target_frames - 1) as nat,
                jitter_downshifts: self.jitter_downshifts + 1,
                ..self
            }
        } else {
            ReaderState {
                jitter_underflows: 0,
                jitter_stable_frames: self.jitter_stable_frames + 1,
                ..self
            }
        };
        ReaderState { packet_had_underflow: false, ..changed }
    }

    /// `length` bytes of the current output packet have gone out.
    pub open spec fn advanced(self, length: nat, had_underflow: bool) -> ReaderState {
        let counted = ReaderState {
            packet_remaining: (self.packet_remaining - length) as nat,
            packet_had_underflow: had_underflow,
            stage: ReadStage::Idle,
            ..self
        };
        if counted.packet_remaining == 0 {
            counted.packet_finished(had_underflow)
        } else {
            counted
        }
    }

    /// How many samples a read of `length` bytes finds.
    pub open spec fn sample_count(self, length: nat) -> nat {
        lesser(length / 4, self.pending.len() / 2)
    }

    /// The read puts out what has arrived.
    pub open spec fn deliver(self, length: nat) -> (ReaderState, Answer) {
        let count = self.sample_count(length);
        (
            ReaderState { pending: self.pending.skip(2 * count as int), ..self }.advanced(
                length,
                self.packet_had_underflow || self.pending.len() < length / 2,
            ),
            Answer::Done(length, decoded(self.pending, count)),
        )
    }

    /// The read waits for its audio.
    pub open spec fn enter_output(self, length: usize) -> (ReaderState, Answer) {
        if self.pending.len() < greater(length as nat / 2, 2) {
            (ReaderState { stage: ReadStage::Output(length), ..self }, Answer::Receive)
        } else {
            self.deliver(length as nat)
        }
    }

    /// The buffer has what it will get: one whole frame is enough to start, with less the read is
    /// silent.
    pub open spec fn after_priming(self, length: usize) -> (ReaderState, Answer) {
        if self.pending.len() >= PCM_INPUT_BYTES_PER_FRAME {
            ReaderState { jitter_primed: true, jitter_has_started: true, ..self }.enter_output(
                length,
            )
        } else {
            (self.advanced(length as nat, true), Answer::Done(length as nat, Seq::empty()))
        }
    }

    /// The buffer waits for its full width.
    pub open spec fn enter_target(self, length: usize) -> (ReaderState, Answer) {
        if self.pending.len() < PCM_INPUT_BYTES_PER_FRAME * self.jitter_target_frames {
            (ReaderState { stage: ReadStage::Target(length), ..self }, Answer::Receive)
        } else {
            self.after_priming(length)
        }
    }

    /// The buffer waits for something to start with.
    pub open spec fn enter_first_frame(self, length: usize) -> (ReaderState, Answer) {
        if self.pending.len() < PCM_INPUT_BYTES_PER_FRAME {
            (ReaderState { stage: ReadStage::FirstFrame(length), ..self }, Answer::Receive)
        } else {
            self.enter_target(length)
        }
    }

    /// How much of a request for `requested` bytes one read serves: at most what is left of the
    /// output packet, in whole 32-bit samples.
    pub open spec fn read_length(self, requested: nat) -> nat {
        let remaining = if self.packet_remaining == 0 {
            PCM_OUTPUT_BYTES_PER_PACKET as nat
        } else {
            self.packet_remaining
        };
        let most = lesser(requested, remaining);
        (most - most % 4) as nat
    }

    /// A read begins.
    pub open spec fn begin(self, requested: nat) -> (ReaderState, Answer) {
        if requested == 0 {
            (self, Answer::Done(0, Seq::empty()))
        } else {
            let opened = ReaderState {
                packet_remaining: if self.packet_remaining == 0 {
                    PCM_OUTPUT_BYTES_PER_PACKET as nat
                } else {
                    self.packet_remaining
                },
                ..self
            };
            let length = self.read_length(requested);
            if length == 0 {
                (opened, Answer::Done(0, Seq::empty()))
            } else if opened.jitter_primed {
                opened.enter_output(length as usize)
            } else if opened.pending.len() == 0 {
                opened.enter_first_frame(length as usize)
            } else {
                opened.enter_target(length as usize)
            }
        }
    }

    /// The caller brings a packet, or word that none came in time.
    pub open spec fn resume(self, packet: Option<Seq<u8>>) -> (ReaderState, Answer) {
        match packet {
            Some(packet) => {
                let grown = ReaderState { pending: self.pending + packet, ..self };
                match self.stage {
                    ReadStage::Idle => (self, Answer::Done(0, Seq::empty())),
                    ReadStage::FirstFrame(length) => grown.enter_first_frame(length),
                    ReadStage::Target(length) => grown.enter_target(length),
                    ReadStage::Output(length) => grown.enter_output(length),
                }
            },
            None => match self.stage {
                ReadStage::Idle => (self, Answer::Done(0, Seq::empty())),
                ReadStage::FirstFrame(length) => if self.pending.len() > 0 {
                    self.enter_target(length)
                } else {
                    self.after_priming(length)
                },
                ReadStage::Target(length) => self.after_priming(length),
                ReadStage::Output(length) => self.deliver(length as nat),
            },
        }
    }
}

/// Reads browser audio for Discord.
#[derive(Debug)]
pub struct PcmReader {
    pub pending: Vec<u8>,
    pub offset: usize,
    pub packet_remaining: usize,
    pub packet_had_underflow: bool,
    pub jitter_target_frames: usize,
    pub jitter_primed: bool,
    pub jitter_has_started: bool,
    pub jitter_underflows: usize,
    pub jitter_stable_frames: usize,
    pub jitter_upshifts: u64,
    pub jitter_downshifts: u64,
    pub stage: ReadStage,
}

impl View for PcmReader {
    type V = ReaderState;

    open spec fn view(&self) -> ReaderState {
        ReaderState {
            pending: self.pending@.skip(self.offset as int),
            packet_remaining: self.packet_remaining as nat,
            packet_had_underflow: self.packet_had_underflow,
            jitter_target_frames: self.jitter_target_frames as nat,
            jitter_primed: self.jitter_primed,
            jitter_has_started: self.jitter_has_started,
            jitter_underflows: self.jitter_underflows as nat,
            jitter_stable_frames: self.jitter_stable_frames as nat,
            jitter_upshifts: self.jitter_upshifts as nat,
            jitter_downshifts: self.jitter_downshifts as nat,
            stage: self.stage,
        }
    }
}

/// The answer that a step stands for.
pub open spec fn answer_of(step: ReadStep) -> Answer {
    match step {
        ReadStep::Receive => Answer::Receive,
        ReadStep::Done(output) => Answer::Done(output.length as nat, output.samples@),
    }
}

/// The meter after a read delivered `answer`; a read that is not over changes nothing.
pub open spec fn metered(before: PlaybackMeter, after: PlaybackMeter, answer: Answer) -> bool {
    match answer {
        Answer::Receive => after == before,
        Answer::Done(length, samples) => {
            &&& after.reader_reads == before.reader_reads
            &&& after.reader_source_bytes == before.reader_source_bytes
            &&& after.reader_output_bytes == queue::counted(before.reader_output_bytes, length)
            &&& after.reader_silence_bytes == queue::counted(
                before.reader_silence_bytes,
                (length - 4 * samples.len()) as nat,
            )
            &&& after.latency.guild_id == before.latency.guild_id
        },
    }
}

/// The conversation after a read delivered `answer`: loud samples count as handed to Discord.
pub open spec fn conversation_after(
    conversation: crate::latency::Conversation,
    answer: Answer,
    now: u64,
) -> crate::latency::Conversation {
    match answer {
        Answer::Receive => conversation,
        Answer::Done(length, samples) => if signal::has_signal(samples) {
            conversation.relayed(now)
        } else {
            conversation
        },
    }
}

/// The report of a read that delivered `answer`.
pub open spec fn report_after(
    conversation: crate::latency::Conversation,
    answer: Answer,
    now: u64,
) -> Option<Seq<char>> {
    match answer {
        Answer::Receive => None,
        Answer::Done(length, samples) => if signal::has_signal(samples) {
            conversation.relay_report(now)
        } else {
            None
        },
    }
}

impl PcmReader {
    /// The reader is in a state that its own operations lead to.
    pub open spec fn well_formed(&self) -> bool {
        &&& self.offset <= self.pending@.len()
        &&& self@.valid()
    }

    /// The counters of the jitter buffer have room for one more event.
    pub open spec fn has_room(&self) -> bool {
        &&& self.jitter_stable_frames < usize::MAX
        &&& self.jitter_upshifts < u64::MAX
        &&& self.jitter_downshifts < u64::MAX
    }

    /// A reader that has seen no audio.
    pub fn new() -> (reader: Self)
        ensures
            reader.well_formed(),
            reader.has_room(),
            reader@ == ReaderState::fresh(),
    {
        let reader = PcmReader {
            pending: Vec::new(),
            offset: 0,
            packet_remaining: 0,
            packet_had_underflow: false,
            jitter_target_frames: PCM_JITTER_MIN_FRAMES,
            jitter_primed: false,
            jitter_has_started: false,
            jitter_underflows: 0,
            jitter_stable_frames: 0,
            jitter_upshifts: 0,
            jitter_downshifts: 0,
            stage: ReadStage::Idle,
        };
        assert(reader@.pending =~= Seq::empty());
        reader
    }

    /// How many bytes have arrived and not gone out.
    pub fn pending_len(&self) -> (length: usize)
        requires
            self.offset <= self.pending@.len(),
        ensures
            length == self@.pending.len(),
    {
        self.pending.len() - self.offset
    }

    /// Moves the bytes that have not gone out to the front of the buffer.
    pub fn compact(&mut self)
        requires
            old(self).offset <= old(self).pending@.len(),
        ensures
            final(self)@ == old(self)@,
            final(self).offset == 0,
            final(self).pending@ == old(self)@.pending,
    {
        if self.offset == 0 {
            assert(self.pending@.skip(0) =~= self.pending@);
            return;
        }
        if self.offset >= self.pending.len() {
            self.pending.clear();
            self.offset = 0;
            assert(self@.pending =~= old(self)@.pending);
            assert(self.pending@ =~= old(self)@.pending);
            return;
        }
        let rest = self.pending.split_off(self.offset);
        self.pending = rest;
        self.offset = 0;
        assert(self.pending@ =~= old(self)@.pending);
        assert(self@.pending =~= old(self)@.pending);
    }

    /// Adapts the jitter buffer when an output packet is complete.
    pub fn finish_output_packet(&mut self, had_underflow: bool)
        requires
            old(self).well_formed(),
            old(self).has_room(),
        ensures
            final(self)@ == old(self)@.packet_finished(had_underflow),
            final(self).well_formed(),
            final(self).pending == old(self).pending,
            final(self).offset == old(self).offset,
    {
        if had_underflow && self.jitter_has_started {
            self.jitter_stable_frames = 0;
            self.jitter_underflows = self.jitter_underflows + 1;
            if self.jitter_underflows >= PCM_JITTER_UNDERRUNS_BEFORE_RESYNC {
                self.jitter_underflows = 0;
                self.jitter_primed = false;
                if self.jitter_target_frames < PCM_JITTER_MAX_FRAMES {
                    self.jitter_target_frames = self.jitter_target_frames + 1;
                    self.jitter_upshifts = self.jitter_upshifts + 1;
                }
            }
        } else if !had_underflow && self.jitter_has_started {
            self.jitter_underflows = 0;
            self.jitter_stable_frames = self.jitter_stable_frames + 1;
            if self.jitter_stable_frames >= PCM_JITTER_STABLE_FRAMES_BEFORE_RELAX
                && self.jitter_target_frames > PCM_JITTER_MIN_FRAMES {
                self.jitter_stable_frames = 0;
                self.jitter_target_frames = self.jitter_target_frames - 1;
                self.jitter_downshifts = self.jitter_downshifts + 1;
            }
        }
        self.packet_had_underflow = false;
    }

    fn advance(&mut self, length: usize, had_underflow: bool)
        requires
            old(self).well_formed(),
            old(self).has_room(),
            0 < length <= old(self).packet_remaining,
            length % 4 == 0,
        ensures
            final(self)@ == old(self)@.advanced(length as nat, had_underflow),
            final(self).well_formed(),
    {
        self.packet_had_underflow = had_underflow;
        self.packet_remaining = self.packet_remaining - length;
        self.stage = ReadStage::Idle;
        if self.packet_remaining == 0 {
            self.finish_output_packet(had_underflow);
        }
    }

    fn deliver(&mut self, meter: &mut PlaybackMeter, length: usize, now: u64) -> (result: (
        ReadStep,
        Option<String>,
    ))
        requires
            old(self).well_formed(),
            old(self).has_room(),
            0 < length <= old(self).packet_remaining,
            length % 4 == 0,
        ensures
            (final(self)@, answer_of(result.0)) == old(self)@.deliver(length as nat),
            final(self).well_formed(),
            metered(*old(meter), *final(meter), answer_of(result.0)),
            final(meter).latency.conversation == conversation_after(
                old(meter).latency.conversation,
                answer_of(result.0),
                now,
            ),
            crate::text::option_view(result.1) == report_after(
                old(meter).latency.conversation,
                answer_of(result.0),
                now,
            ),
    {
        let had_underflow = self.packet_had_underflow || self.pending_len() < length / 2;
        let ghost arrived = self@.pending;
        let ghost count = self@.sample_count(length as nat);
        let mut samples: Vec<i16> = Vec::new();
        let mut loud = false;
        let mut written: usize = 0;
        let start: usize = self.offset;
        let total: usize = self.pending.len();
        while written + 4 <= length && self.pending_len() >= 2
            invariant
                start == old(self).offset,
                total == self.pending@.len(),
                self.pending@ == old(self).pending@,
                self.offset <= self.pending@.len(),
                self.offset == start + 2 * samples@.len(),
                written == 4 * samples@.len(),
                written <= length,
                length % 4 == 0,
                length <= PCM_OUTPUT_BYTES_PER_PACKET,
                arrived == old(self)@.pending,
                count == old(self)@.sample_count(length as nat),
                samples@ == decoded(arrived, samples@.len()),
                loud == signal::has_signal(samples@),
                *self == (PcmReader { offset: self.offset, ..*old(self) }),
            decreases length - written,
        {
            let low: u8 = self.pending[self.offset];
            let high: u8 = self.pending[self.offset + 1];
            let sample: i16 = signal::sample_from(low, high);
            let ghost before = samples@;
            let ghost at = samples@.len() as int;
            assert(arrived[2 * at] == low && arrived[2 * at + 1] == high);
            assert(sample as int == signal::sample_at(arrived, at));
            self.offset = self.offset + 2;
            let sample_is_loud = signal::is_loud(sample);
            samples.push(sample);
            written = written + 4;
            assert(samples@ =~= decoded(arrived, samples@.len()));
            proof {
                if sample_is_loud {
                    assert(signal::loud(samples@[at] as int));
                }
                if signal::has_signal(before) {
                    let i = choose|i: int|
                        0 <= i < before.len() && signal::loud(#[trigger] before[i] as int);
                    assert(signal::loud(samples@[i] as int));
                }
                if signal::has_signal(samples@) && !sample_is_loud {
                    let i = choose|i: int|
                        0 <= i < samples@.len() && signal::loud(#[trigger] samples@[i] as int);
                    assert(signal::loud(before[i] as int));
                }
            }
            loud = loud || sample_is_loud;
        }
        assert(samples@.len() == count);
        assert(self@.pending =~= arrived.skip(2 * count as int));
        self.advance(length, had_underflow);
        meter.reader_output_bytes = queue::count(meter.reader_output_bytes, length as u64);
        meter.reader_silence_bytes = queue::count(
            meter.reader_silence_bytes,
            (length - written) as u64,
        );
        self.compact();
        let report = if loud {
            meter.latency.record_discord_output(now)
        } else {
            None
        };
        (ReadStep::Done(ReadOutput { length, samples }), report)
    }

    fn enter_output(&mut self, meter: &mut PlaybackMeter, length: usize, now: u64) -> (result: (
        ReadStep,
        Option<String>,
    ))
        requires
            old(self).well_formed(),
            old(self).has_room(),
            0 < length <= old(self).packet_remaining,
            length % 4 == 0,
        ensures
            (final(self)@, answer_of(result.0)) == old(self)@.enter_output(length),
            final(self).well_formed(),
            metered(*old(meter), *final(meter), answer_of(result.0)),
            final(meter).latency.conversation == conversation_after(
                old(meter).latency.conversation,
                answer_of(result.0),
                now,
            ),
            crate::text::option_view(result.1) == report_after(
                old(meter).latency.conversation,
                answer_of(result.0),
                now,
            ),
    {
        let needed: usize = if length / 2 >= 2 {
            length / 2
        } else {
            2
        };
        if self.pending_len() < needed {
            self.stage = ReadStage::Output(length);
            (ReadStep::Receive, None)
        } else {
            self.deliver(meter, length, now)
        }
    }

    fn after_priming(&mut self, meter: &mut PlaybackMeter, length: usize, now: u64) -> (result: (
        ReadStep,
        Option<String>,
    ))
        requires
            old(self).well_formed(),
            old(self).has_room(),
            0 < length <= old(self).packet_remaining,
            length % 4 == 0,
        ensures
            (final(self)@, answer_of(result.0)) == old(self)@.after_priming(length),
            final(self).well_formed(),
            metered(*old(meter), *final(meter), answer_of(result.0)),
            final(meter).latency.conversation == conversation_after(
                old(meter).latency.conversation,
                answer_of(result.0),
                now,
            ),
            crate::text::option_view(result.1) == report_after(
                old(meter).latency.conversation,
                answer_of(result.0),
                now,
            ),
    {
        if self.pending_len() >= PCM_INPUT_BYTES_PER_FRAME {
            self.jitter_primed = true;
            self.jitter_has_started = true;
            self.enter_output(meter, length, now)
        } else {
            self.advance(length, true);
            meter.reader_output_bytes = queue::count(meter.reader_output_bytes, length as u64);
            meter.reader_silence_bytes = queue::count(meter.reader_silence_bytes, length as u64);
            let samples: Vec<i16> = Vec::new();
            assert(!signal::has_signal(samples@));
            (ReadStep::Done(ReadOutput { length, samples }), None)
        }
    }

    fn enter_target(&mut self, meter: &mut PlaybackMeter, length: usize, now: u64) -> (result: (
        ReadStep,
        Option<String>,
    ))
        requires
            old(self).well_formed(),
            old(self).has_room(),
            0 < length <= old(self).packet_remaining,
            length % 4 == 0,
        ensures
            (final(self)@, answer_of(result.0)) == old(self)@.enter_target(length),
            final(self).well_formed(),
            metered(*old(meter), *final(meter), answer_of(result.0)),
            final(meter).latency.conversation == conversation_after(
                old(meter).latency.conversation,
                answer_of(result.0),
                now,
            ),
            crate::text::option_view(result.1) == report_after(
                old(meter).latency.conversation,
                answer_of(result.0),
                now,
            ),
    {
        if self.pending_len() < PCM_INPUT_BYTES_PER_FRAME * self.jitter_target_frames {
            self.stage = ReadStage::Target(length);
            (ReadStep::Receive, None)
        } else {
            self.after_priming(meter, length, now)
        }
    }

    fn enter_first_frame(&mut self, meter: &mut PlaybackMeter, length: usize, now: u64) -> (result:
        (ReadStep, Option<String>))
        requires
            old(self).well_formed(),
            old(self).has_room(),
            0 < length <= old(self).packet_remaining,
            length % 4 == 0,
        ensures
            (final(self)@, answer_of(result.0)) == old(self)@.enter_first_frame(length),
            final(self).well_formed(),
            metered(*old(meter), *final(meter), answer_of(result.0)),
            final(meter).latency.conversation == conversation_after(
                old(meter).latency.conversation,
                answer_of(result.0),
                now,
            ),
            crate::text::option_view(result.1) == report_after(
                old(meter).latency.conversation,
                answer_of(result.0),
                now,
            ),
    {
        if self.pending_len() < PCM_INPUT_BYTES_PER_FRAME {
            self.stage = ReadStage::FirstFrame(length);
            (ReadStep::Receive, None)
        } else {
            self.enter_target(meter, length, now)
        }
    }

    /// Begins a read of up to `requested` bytes.
    pub fn read(&mut self, meter: &mut PlaybackMeter, requested: usize, now: u64) -> (progress:
        ReadProgress)
        requires
            old(self).well_formed(),
            old(self).has_room(),
            old(self).stage is Idle,
        ensures
            (final(self)@, answer_of(progress.step)) == old(self)@.begin(requested as nat),
            final(self).well_formed(),
            progress.browser_event is None,
            metered(
                PlaybackMeter {
                    reader_reads: if old(self)@.read_length(requested as nat) > 0 {
                        queue::counted(old(meter).reader_reads, 1)
                    } else {
                        old(meter).reader_reads
                    },
                    ..*old(meter)
                },
                *final(meter),
                answer_of(progress.step),
            ),
            final(meter).latency.conversation == conversation_after(
                old(meter).latency.conversation,
                answer_of(progress.step),
                now,
            ),
            crate::text::option_view(progress.handoff_report) == report_after(
                old(meter).latency.conversation,
                answer_of(progress.step),
                now,
            ),
    {
        if requested == 0 {
            let samples: Vec<i16> = Vec::new();
            assert(!signal::has_signal(samples@));
            return ReadProgress {
                step: ReadStep::Done(ReadOutput { length: 0, samples }),
                browser_event: None,
                handoff_report: None,
            };
        }
        if self.packet_remaining == 0 {
            self.packet_remaining = PCM_OUTPUT_BYTES_PER_PACKET;
        }
        let most: usize = if requested <= self.packet_remaining {
            requested
        } else {
            self.packet_remaining
        };
        let length: usize = most - most % 4;
        if length == 0 {
            let samples: Vec<i16> = Vec::new();
            assert(!signal::has_signal(samples@));
            return ReadProgress {
                step: ReadStep::Done(ReadOutput { length: 0, samples }),
                browser_event: None,
                handoff_report: None,
            };
        }
        meter.reader_reads = queue::count(meter.reader_reads, 1);
        let (step, report) = if self.jitter_primed {
            self.enter_output(meter, length, now)
        } else if self.pending_len() == 0 {
            self.enter_first_frame(meter, length, now)
        } else {
            self.enter_target(meter, length, now)
        };
        ReadProgress { step, browser_event: None, handoff_report: report }
    }

    /// Goes on with a read that asked for a packet. `None` tells that none came in time.
    pub fn receive(&mut self, meter: &mut PlaybackMeter, packet: Option<Vec<u8>>, now: u64) -> (
    progress: ReadProgress)
        requires
            old(self).well_formed(),
            old(self).has_room(),
            old(self).stage !is Idle,
            packet matches Some(packet) ==> old(self)@.pending.len() + packet@.len() <= usize::MAX,
        ensures
            (final(self)@, answer_of(progress.step)) == old(self)@.resume(
                match packet {
                    Some(packet) => Some(packet@),
                    None => None,
                },
            ),
            final(self).well_formed(),
            ({
                let arrived = match packet {
                    Some(packet) => packet@,
                    None => Seq::empty(),
                };
                let speech = signal::has_byte_signal(arrived);
                let before = old(meter).latency.conversation;
                let heard = if speech {
                    before.spoken(now)
                } else {
                    before
                };
                &&& final(meter).reader_reads == old(meter).reader_reads
                &&& final(meter).reader_source_bytes == queue::counted(
                    old(meter).reader_source_bytes,
                    arrived.len(),
                )
                &&& metered(
                    PlaybackMeter {
                        reader_source_bytes: final(meter).reader_source_bytes,
                        latency: final(meter).latency,
                        ..*old(meter)
                    },
                    *final(meter),
                    answer_of(progress.step),
                )
                &&& final(meter).latency.guild_id == old(meter).latency.guild_id
                &&& final(meter).latency.conversation == conversation_after(
                    heard,
                    answer_of(progress.step),
                    now,
                )
                &&& crate::text::option_view(progress.handoff_report) == report_after(
                    heard,
                    answer_of(progress.step),
                    now,
                )
                &&& crate::text::option_view(progress.browser_event) == (if speech
                    && !before.output_active(now) && !before.answers(now) {
                    Some("ChatGPT initiated autonomous speech"@)
                } else {
                    None
                })
            }),
    {
        let stage = self.stage;
        let mut browser_event: Option<String> = None;
        let arrived = packet.is_some();
        if let Some(packet) = packet {
            if packet.len() > 0 {
                self.compact();
                meter.reader_source_bytes = queue::count(
                    meter.reader_source_bytes,
                    packet.len() as u64,
                );
                browser_event = meter.latency.record_browser_output_packet(packet.as_slice(), now);
                let mut more = packet;
                let ghost before = self.pending@;
                self.pending.append(&mut more);
                assert(self@.pending =~= before + packet@);
            } else {
                assert(self@.pending + packet@ =~= self@.pending);
                assert(!signal::has_byte_signal(packet@));
            }
        }
        assert(!signal::has_byte_signal(Seq::<u8>::empty()));
        let (step, report) = match stage {
            ReadStage::FirstFrame(length) => if arrived {
                self.enter_first_frame(meter, length, now)
            } else if self.pending_len() > 0 {
                self.enter_target(meter, length, now)
            } else {
                self.after_priming(meter, length, now)
            },
            ReadStage::Target(length) => if arrived {
                self.enter_target(meter, length, now)
            } else {
                self.after_priming(meter, length, now)
            },
            ReadStage::Output(length) => if arrived {
                self.enter_output(meter, length, now)
            } else {
                self.deliver(meter, length, now)
            },
            ReadStage::Idle => (
                ReadStep::Done(ReadOutput { length: 0, samples: Vec::new() }),
                None,
            ),
        };
        ReadProgress { step, browser_event, handoff_report: report }
    }
}

/// A step delivers the front of `arrived` and keeps the rest.
pub open spec fn in_order(arrived: Seq<u8>, after: ReaderState, answer: Answer) -> bool {
    let samples = match answer {
        Answer::Receive => Seq::empty(),
        Answer::Done(length, samples) => samples,
    };
    &&& samples == decoded(arrived, samples.len())
    &&& 2 * samples.len() <= arrived.len()
    &&& after.pending == arrived.skip(2 * samples.len() as int)
}

/// A read of this length is possible.
spec fn readable(state: ReaderState, length: usize) -> bool {
    state.valid() && 0 < length <= state.packet_remaining && length % 4 == 0
}

proof fn lemma_advanced(state: ReaderState, length: nat, had_underflow: bool)
    requires
        state.valid(),
        0 < length <= state.packet_remaining,
        length % 4 == 0,
    ensures
        state.advanced(length, had_underflow).valid(),
        state.advanced(length, had_underflow).pending == state.pending,
{
}

proof fn lemma_enter_output(state: ReaderState, length: usize)
    requires
        readable(state, length),
    ensures
        state.deliver(length as nat).0.valid(),
        in_order(state.pending, state.deliver(length as nat).0, state.deliver(length as nat).1),
        state.enter_output(length).0.valid(),
        in_order(state.pending, state.enter_output(length).0, state.enter_output(length).1),
{
    let count = state.sample_count(length as nat);
    lemma_advanced(
        ReaderState { pending: state.pending.skip(2 * count as int), ..state },
        length as nat,
        state.packet_had_underflow || state.pending.len() < length / 2,
    );
    assert(decoded(state.pending, 0) =~= Seq::empty());
    assert(state.pending.skip(0) =~= state.pending);
}

proof fn lemma_after_priming(state: ReaderState, length: usize)
    requires
        readable(state, length),
    ensures
        state.after_priming(length).0.valid(),
        in_order(state.pending, state.after_priming(length).0, state.after_priming(length).1),
{
    let primed = ReaderState { jitter_primed: true, jitter_has_started: true, ..state };
    lemma_enter_output(primed, length);
    lemma_advanced(state, length as nat, true);
    assert(decoded(state.pending, 0) =~= Seq::empty());
    assert(state.pending.skip(0) =~= state.pending);
}

proof fn lemma_enter_target(state: ReaderState, length: usize)
    requires
        readable(state, length),
    ensures
        state.enter_target(length).0.valid(),
        in_order(state.pending, state.enter_target(length).0, state.enter_target(length).1),
        state.enter_first_frame(length).0.valid(),
        in_order(
            state.pending,
            state.enter_first_frame(length).0,
            state.enter_first_frame(length).1,
        ),
{
    lemma_after_priming(state, length);
    assert(decoded(state.pending, 0) =~= Seq::empty());
    assert(state.pending.skip(0) =~= state.pending);
}

proof fn lemma_begin(state: ReaderState, requested: nat)
    requires
        state.valid(),
        state.stage is Idle,
    ensures
        state.begin(requested).0.valid(),
        in_order(state.pending, state.begin(requested).0, state.begin(requested).1),
{
    let opened = ReaderState {
        packet_remaining: if state.packet_remaining == 0 {
            PCM_OUTPUT_BYTES_PER_PACKET as nat
        } else {
            state.packet_remaining
        },
        ..state
    };
    let length = state.read_length(requested);
    assert(decoded(state.pending, 0) =~= Seq::empty());
    assert(state.pending.skip(0) =~= state.pending);
    if requested > 0 && length > 0 {
        lemma_enter_output(opened, length as usize);
        lemma_enter_target(opened, length as usize);
    }
}

proof fn lemma_resume(state: ReaderState, packet: Option<Seq<u8>>)
    requires
        state.valid(),
        state.stage !is Idle,
    ensures
        state.resume(packet).0.valid(),
        in_order(
            match packet {
                Some(packet) => state.pending + packet,
                None => state.pending,
            },
            state.resume(packet).0,
            state.resume(packet).1,
        ),
{
    let grown = match packet {
        Some(packet) => ReaderState { pending: state.pending + packet, ..state },
        None => state,
    };
    match state.stage {
        ReadStage::Idle => {},
        ReadStage::FirstFrame(length) | ReadStage::Target(length) | ReadStage::Output(length) => {
            lemma_enter_output(grown, length);
            lemma_after_priming(grown, length);
            lemma_enter_target(grown, length);
        },
    }
}

/// Every step of a read leaves the reader in a valid state. In particular the jitter buffer stays
/// between its narrowest and its widest setting, each change of its width is counted, and it is
/// full only where playback has started.
pub proof fn reader_stays_valid(state: ReaderState, requested: nat, packet: Option<Seq<u8>>)
    requires
        state.valid(),
    ensures
        state.stage is Idle ==> state.begin(requested).0.valid(),
        state.stage !is Idle ==> state.resume(packet).0.valid(),
{
    if state.stage is Idle {
        lemma_begin(state, requested);
    } else {
        lemma_resume(state, packet);
    }
}

proof fn lemma_delivers(state: ReaderState, length: usize)
    requires
        readable(state, length),
    ensures
        state.deliver(length as nat).1 matches Answer::Done(given, samples) && given == length && 4
            * samples.len() <= length,
        state.enter_output(length).1 matches Answer::Done(given, samples) ==> given == length && 4
            * samples.len() <= length,
        state.after_priming(length).1 matches Answer::Done(given, samples) ==> given == length && 4
            * samples.len() <= length,
        state.enter_target(length).1 matches Answer::Done(given, samples) ==> given == length && 4
            * samples.len() <= length,
{
    assert(state.sample_count(length as nat) <= length as nat / 4);
    assert(4 * (length as nat / 4) <= length);
}

proof fn lemma_begin_delivers(state: ReaderState, requested: nat)
    requires
        state.valid(),
        state.stage is Idle,
    ensures
        state.begin(requested).1 matches Answer::Done(length, samples) ==> length
            == state.read_length(requested) && 4 * samples.len() <= length,
{
    let opened = ReaderState {
        packet_remaining: if state.packet_remaining == 0 {
            PCM_OUTPUT_BYTES_PER_PACKET as nat
        } else {
            state.packet_remaining
        },
        ..state
    };
    let length = state.read_length(requested);
    lemma_read_length(state, requested);
    if requested > 0 && length > 0 {
        lemma_delivers(opened, length as usize);
    }
}

/// A read delivers no more than was asked for, never more than one output packet, and only whole
/// 32-bit samples, of which the real ones fit into its length.
pub proof fn reads_stay_within_a_packet(
    state: ReaderState,
    requested: nat,
    packet: Option<Seq<u8>>,
)
    requires
        state.valid(),
    ensures
        state.stage is Idle ==> (state.begin(requested).1 matches Answer::Done(length, samples)
            ==> length == state.read_length(requested) && length <= requested && length
            <= PCM_OUTPUT_BYTES_PER_PACKET && length % 4 == 0 && 4 * samples.len() <= length),
        state.stage !is Idle ==> (state.resume(packet).1 matches Answer::Done(length, samples)
            ==> length <= PCM_OUTPUT_BYTES_PER_PACKET && length % 4 == 0 && 4 * samples.len()
            <= length),
{
    if state.stage is Idle {
        lemma_read_length(state, requested);
        lemma_begin_delivers(state, requested);
    }
}

/// Audio is neither lost, repeated nor reordered: what a step delivers, followed by what it keeps,
/// is what was there before it, followed by the packet that arrived.
pub proof fn audio_comes_out_in_order(
    state: ReaderState,
    requested: nat,
    packet: Option<Seq<u8>>,
)
    requires
        state.valid(),
    ensures
        state.stage is Idle ==> in_order(
            state.pending,
            state.begin(requested).0,
            state.begin(requested).1,
        ),
        state.stage !is Idle ==> in_order(
            match packet {
                Some(packet) => state.pending + packet,
                None => state.pending,
            },
            state.resume(packet).0,
            state.resume(packet).1,
        ),
{
    if state.stage is Idle {
        lemma_begin(state, requested);
    } else {
        lemma_resume(state, packet);
    }
}

/// Something that happens to a reader.
pub enum PlaybackEvent {
    /// Discord asks for so many bytes.
    Read(nat),
    /// The reader gets a packet that it waits for, or hears that none came.
    Packet(Option<Seq<u8>>),
}

/// What a reader has done so far.
pub struct Playback {
    pub state: ReaderState,
    /// The samples that went out, in order.
    pub output: Seq<i16>,
    /// The bytes that arrived, in order.
    pub arrived: Seq<u8>,
}

/// The samples that an answer delivers.
pub open spec fn delivered(answer: Answer) -> Seq<i16> {
    match answer {
        Answer::Receive => Seq::empty(),
        Answer::Done(length, samples) => samples,
    }
}

/// What a reader has done after these events. A request during a read and a packet between reads
/// do not happen.
pub open spec fn played(state: ReaderState, events: Seq<PlaybackEvent>) -> Playback
    decreases events.len(),
{
    if events.len() == 0 {
        Playback { state, output: Seq::empty(), arrived: Seq::empty() }
    } else {
        let before = played(state, events.drop_last());
        match events.last() {
            PlaybackEvent::Read(requested) => if before.state.stage is Idle {
                let (after, answer) = before.state.begin(requested);
                Playback { state: after, output: before.output + delivered(answer), ..before }
            } else {
                before
            },
            PlaybackEvent::Packet(packet) => if before.state.stage is Idle {
                before
            } else {
                let (after, answer) = before.state.resume(packet);
                Playback {
                    state: after,
                    output: before.output + delivered(answer),
                    arrived: match packet {
                        Some(packet) => before.arrived + packet,
                        None => before.arrived,
                    },
                }
            },
        }
    }
}

proof fn lemma_appended(all: Seq<u8>, more: Seq<u8>, output: Seq<i16>, samples: Seq<i16>)
    requires
        2 * output.len() <= all.len(),
        output == decoded(all, output.len()),
        samples == decoded(all.skip(2 * output.len() as int) + more, samples.len()),
        2 * samples.len() <= all.len() - 2 * output.len() + more.len(),
    ensures
        output + samples == decoded(all + more, (output + samples).len()),
        (all.skip(2 * output.len() as int) + more).skip(2 * samples.len() as int) == (all
            + more).skip(2 * (output + samples).len() as int),
{
    let rest = all.skip(2 * output.len() as int) + more;
    let whole = all + more;
    assert(rest =~= whole.skip(2 * output.len() as int));
    assert forall|i: int| 0 <= i < (output + samples).len() implies (output + samples)[i]
        == signal::sample_at(whole, i) as i16 by {
        if i < output.len() {
            assert(output[i] == signal::sample_at(all, i) as i16);
            assert(whole[2 * i] == all[2 * i] && whole[2 * i + 1] == all[2 * i + 1]);
        } else {
            let j = i - output.len();
            assert(samples[j] == signal::sample_at(rest, j) as i16);
            assert(rest[2 * j] == whole[2 * i] && rest[2 * j + 1] == whole[2 * i + 1]);
        }
    }
    assert(output + samples =~= decoded(whole, (output + samples).len()));
    assert(rest.skip(2 * samples.len() as int) =~= whole.skip(
        2 * (output + samples).len() as int,
    ));
}

/// The relay is faithful: however requests, packets and missing packets follow on each other, the
/// samples that went out are the first samples of the bytes that arrived, each once and in order,
/// and everything behind them is still there.
pub proof fn relay_is_faithful(state: ReaderState, events: Seq<PlaybackEvent>)
    requires
        state.valid(),
    ensures
        ({
            let playback = played(state, events);
            let all = state.pending + playback.arrived;
            &&& playback.state.valid()
            &&& 2 * playback.output.len() <= all.len()
            &&& playback.output == decoded(all, playback.output.len())
            &&& playback.state.pending == all.skip(2 * playback.output.len() as int)
        }),
    decreases events.len(),
{
    if events.len() == 0 {
        assert(state.pending + Seq::<u8>::empty() =~= state.pending);
        assert(state.pending.skip(0) =~= state.pending);
        assert(decoded(state.pending, 0) =~= Seq::empty());
    } else {
        relay_is_faithful(state, events.drop_last());
        let before = played(state, events.drop_last());
        let all = state.pending + before.arrived;
        match events.last() {
            PlaybackEvent::Read(requested) => {
                if before.state.stage is Idle {
                    lemma_begin(before.state, requested);
                    let samples = delivered(before.state.begin(requested).1);
                    assert(before.state.pending + Seq::<u8>::empty() =~= before.state.pending);
                    assert(all + Seq::<u8>::empty() =~= all);
                    lemma_appended(all, Seq::empty(), before.output, samples);
                }
            },
            PlaybackEvent::Packet(packet) => {
                if before.state.stage !is Idle {
                    lemma_resume(before.state, packet);
                    let samples = delivered(before.state.resume(packet).1);
                    let more = match packet {
                        Some(packet) => packet,
                        None => Seq::empty(),
                    };
                    assert(before.state.pending + Seq::<u8>::empty() =~= before.state.pending);
                    assert(all + Seq::<u8>::empty() =~= all);
                    assert(all + more =~= state.pending + (before.arrived + more));
                    assert(before.arrived + Seq::<u8>::empty() =~= before.arrived);
                    lemma_appended(all, more, before.output, samples);
                }
            },
        }
    }
}

/// How far a read has come.
pub open spec fn stage_rank(stage: ReadStage) -> nat {
    match stage {
        ReadStage::Idle => 3,
        ReadStage::FirstFrame(_) => 0,
        ReadStage::Target(_) => 1,
        ReadStage::Output(_) => 2,
    }
}

/// A read that hears that no packet came ends or moves on to a later stage: it waits in vain at
/// most three times.
pub proof fn read_ends_without_packets(state: ReaderState)
    requires
        state.valid(),
        state.stage !is Idle,
    ensures
        stage_rank(state.resume(None).0.stage) > stage_rank(state.stage),
        state.resume(None).1 is Done <==> state.resume(None).0.stage is Idle,
{
}

/// A read that has all the audio it needs puts out no silence.
pub proof fn full_buffer_leaves_no_gap(state: ReaderState, requested: nat)
    requires
        state.valid(),
        state.stage is Idle,
        state.jitter_primed,
        state.pending.len() >= PCM_OUTPUT_BYTES_PER_PACKET / 2,
    ensures
        state.begin(requested).1 matches Answer::Done(length, samples) && 4 * samples.len()
            == length,
{
}

/// The samples of a read fill it.
pub open spec fn fills(answer: Answer) -> bool {
    answer matches Answer::Done(length, samples) && 4 * samples.len() == length
}

/// A finished read leaves audio behind only where it is full: otherwise less than one sample is
/// left. The one exception is a buffer that has not filled yet: with less than 20 ms of audio in
/// all, playback does not begin, and the read is silent.
pub proof fn nothing_is_held_back(state: ReaderState, requested: nat, packet: Option<Seq<u8>>)
    requires
        state.valid(),
    ensures
        state.stage is Idle ==> (state.begin(requested).1 is Done ==> fills(
            state.begin(requested).1,
        )),
        state.stage is Output ==> (state.resume(packet).1 is Done ==> fills(state.resume(packet).1) || state.resume(packet).0.pending.len() < 2),
        state.stage !is Idle ==> (state.resume(packet).1 matches Answer::Done(length, samples)
            ==> fills(state.resume(packet).1) || state.resume(packet).0.pending.len() < 2 || (
        samples.len() == 0 && packet is None && state.pending.len() < 3_840)),
{
}

/// Silence is put out only where no packet came in time: a read that ends at once, or with a packet
/// that came, is full.
pub proof fn silence_means_a_missing_packet(
    state: ReaderState,
    requested: nat,
    packet: Seq<u8>,
)
    requires
        state.valid(),
    ensures
        state.stage is Idle ==> (state.begin(requested).1 is Done ==> fills(
            state.begin(requested).1,
        )),
        state.stage !is Idle ==> (state.resume(Some(packet)).1 is Done ==> fills(
            state.resume(Some(packet)).1,
        )),
{
}

/// A read does not wait for more than it needs: once playback runs, the audio for the bytes of the
/// read is enough to end it at once.
pub proof fn enough_audio_ends_a_read(state: ReaderState, requested: nat, packet: Seq<u8>)
    requires
        state.valid(),
    ensures
        state.stage is Idle && state.jitter_primed && 2 * state.pending.len() >= requested
            && requested >= 4 ==> state.begin(requested).1 is Done,
        state.stage matches ReadStage::Output(length) ==> 2 * (state.pending.len() + packet.len())
            >= length ==> state.resume(Some(packet)).1 is Done,
{
    if state.stage is Idle {
        lemma_read_length(state, requested);
    }
}

proof fn lemma_read_length(state: ReaderState, requested: nat)
    requires
        state.valid(),
    ensures
        ({
            let length = state.read_length(requested);
            let room = if state.packet_remaining == 0 {
                7_680
            } else {
                state.packet_remaining
            };
            &&& length % 4 == 0
            &&& length <= requested
            &&& length <= room
            &&& length + 4 > requested || length == room
        }),
{
}

/// A read serves what it is asked for, in whole 32-bit samples, up to the end of a 20 ms packet:
/// no shorter read would do. The next packet begins when one is complete.
pub proof fn reads_are_as_long_as_asked(state: ReaderState, requested: nat)
    requires
        state.valid(),
        state.stage is Idle,
        state.begin(requested).1 is Done,
        requested > 0,
    ensures
        ({
            let room = if state.packet_remaining == 0 {
                7_680
            } else {
                state.packet_remaining as int
            };
            let after = state.begin(requested).0;
            &&& state.begin(requested).1 matches Answer::Done(length, samples)
            &&& length % 4 == 0
            &&& length <= requested
            &&& length + 4 > requested || length == room
            &&& after.packet_remaining == room - length
        }),
{
    lemma_read_length(state, requested);
    lemma_begin(state, requested);
}

/// Playback begins with a full buffer where the audio comes in time: as long as packets come, none
/// of it goes out before there are as many 20 ms frames as the buffer is wide.
pub proof fn playback_begins_with_a_full_buffer(
    state: ReaderState,
    requested: nat,
    packet: Seq<u8>,
)
    requires
        state.valid(),
        !state.jitter_primed,
    ensures
        state.stage is Idle && requested >= 4 ==> (state.begin(requested).1 is Done <==> state.pending.len()
            >= 3_840 * state.jitter_target_frames),
        state.stage is FirstFrame || state.stage is Target ==> (state.resume(Some(packet)).1 is Done
            <==> state.pending.len() + packet.len() >= 3_840 * state.jitter_target_frames),
        state.jitter_target_frames >= 3,
{
    if state.stage is Idle {
        lemma_read_length(state, requested);
    }
}

/// A short reply is not lost: where no further packet comes, 20 ms of audio are enough to begin,
/// and they go out at once.
pub proof fn short_replies_are_played(state: ReaderState)
    requires
        state.valid(),
        state.stage is Target,
        state.pending.len() >= 3_840,
    ensures
        fills(state.resume(None).1),
        state.resume(None).0.jitter_has_started,
        !state.packet_had_underflow ==> state.resume(None).0.jitter_primed,
{
}

/// A read that waits for its first audio goes on waiting for a full buffer when some has come.
pub proof fn first_audio_is_waited_for(state: ReaderState)
    requires
        state.valid(),
        state.stage is FirstFrame,
        0 < state.pending.len() < 3_840 * state.jitter_target_frames,
    ensures
        state.resume(None).1 is Receive,
        state.resume(None).0.stage is Target,
{
}

/// A gap anywhere in a 20 ms packet marks the packet as dry until it is complete.
pub proof fn gaps_mark_the_packet(state: ReaderState, requested: nat, packet: Option<Seq<u8>>)
    requires
        state.valid(),
    ensures
        ({
            let (after, answer) = if state.stage is Idle {
                state.begin(requested)
            } else {
                state.resume(packet)
            };
            answer matches Answer::Done(length, samples) ==> length > 0 && after.packet_remaining > 0
                ==> after.packet_had_underflow == (state.packet_had_underflow || 4 * samples.len()
                < length)
        }),
{
}

/// A reader after these packets were completed, each with or without a gap.
pub open spec fn completed(state: ReaderState, gaps: Seq<bool>) -> ReaderState
    decreases gaps.len(),
{
    if gaps.len() == 0 {
        state
    } else {
        completed(state, gaps.drop_last()).packet_finished(gaps.last())
    }
}

/// Three dry packets in a row fill the buffer anew and widen it by one frame, up to eight; fewer
/// leave it as it is.
pub proof fn three_gaps_widen_the_buffer(state: ReaderState)
    requires
        state.valid(),
        state.jitter_has_started,
        state.jitter_underflows == 0,
    ensures
        ({
            let second = completed(state, seq![true, true]);
            let third = completed(state, seq![true, true, true]);
            &&& second.jitter_primed == state.jitter_primed
            &&& second.jitter_target_frames == state.jitter_target_frames
            &&& !third.jitter_primed
            &&& third.jitter_target_frames == (if state.jitter_target_frames < 8 {
                state.jitter_target_frames + 1
            } else {
                8
            })
            &&& third.pending == state.pending
        }),
{
    reveal_with_fuel(completed, 4);
    assert(seq![true, true, true].drop_last() =~= seq![true, true]);
    assert(seq![true, true].drop_last() =~= seq![true]);
    assert(seq![true].drop_last() =~= Seq::<bool>::empty());
}

/// A packet without a gap breaks a row of dry ones.
pub proof fn a_whole_packet_breaks_the_row(state: ReaderState)
    requires
        state.valid(),
    ensures
        state.jitter_has_started ==> state.packet_finished(false).jitter_underflows == 0,
        state.packet_finished(false).jitter_primed == state.jitter_primed,
        !state.jitter_has_started ==> state.packet_finished(true).jitter_primed
            == state.jitter_primed && state.packet_finished(true).jitter_target_frames
            == state.jitter_target_frames,
{
}

proof fn lemma_stable_run(state: ReaderState, count: nat)
    requires
        state.valid(),
        state.jitter_has_started,
        state.jitter_stable_frames == 0,
        count < 750,
    ensures
        ({
            let after = completed(state, Seq::new(count, |i: int| false));
            &&& after.valid()
            &&& after.jitter_has_started
            &&& after.jitter_stable_frames == count
            &&& after.jitter_target_frames == state.jitter_target_frames
            &&& after.jitter_primed == state.jitter_primed
        }),
    decreases count,
{
    if count > 0 {
        lemma_stable_run(state, (count - 1) as nat);
        assert(Seq::new(count, |i: int| false).drop_last() =~= Seq::new(
            (count - 1) as nat,
            |i: int| false,
        ));
    }
}

/// After 750 packets without a gap, 15 seconds, the buffer narrows by one frame, but not below
/// three; until then it keeps its width.
pub proof fn a_stable_stretch_narrows_the_buffer(state: ReaderState, count: nat)
    requires
        state.valid(),
        state.jitter_has_started,
        state.jitter_stable_frames == 0,
        count < 750,
    ensures
        completed(state, Seq::new(count, |i: int| false)).jitter_target_frames
            == state.jitter_target_frames,
        completed(state, Seq::new(750, |i: int| false)).jitter_target_frames == (
        if state.jitter_target_frames > 3 {
            state.jitter_target_frames - 1
        } else {
            3
        }),
        completed(state, Seq::new(750, |i: int| false)).jitter_primed == state.jitter_primed,
{
    lemma_stable_run(state, count);
    lemma_stable_run(state, 749);
    assert(Seq::new(750, |i: int| false).drop_last() =~= Seq::new(749, |i: int| false));
}

/// What a read puts out is audio and silence: of the bytes that it adds to the meter, those that
/// are not silence are its samples, four bytes each.
pub proof fn output_is_audio_and_silence(
    before: PlaybackMeter,
    after: PlaybackMeter,
    length: nat,
    samples: Seq<i16>,
)
    requires
        metered(before, after, Answer::Done(length, samples)),
        4 * samples.len() <= length,
        before.reader_output_bytes + length <= u64::MAX,
        before.reader_silence_bytes + length <= u64::MAX,
    ensures
        after.reader_output_bytes - before.reader_output_bytes == length,
        after.reader_silence_bytes - before.reader_silence_bytes + 4 * samples.len() == length,
        after.reader_reads == before.reader_reads,
        after.reader_source_bytes == before.reader_source_bytes,
{
}

/// A reader without audio waits for a first 20 ms frame, and one that has some for its full width;
/// a packet that completes the first frame moves the wait on, and a smaller one does not.
pub proof fn first_frame_comes_before_the_full_buffer(
    state: ReaderState,
    requested: nat,
    packet: Seq<u8>,
)
    requires
        state.valid(),
        !state.jitter_primed,
        requested >= 4,
    ensures
        state.stage is Idle && state.pending.len() == 0 ==> state.begin(requested).0.stage
            is FirstFrame && state.begin(requested).1 is Receive,
        state.stage is Idle && 0 < state.pending.len() < 3_840 * state.jitter_target_frames
            ==> state.begin(requested).0.stage is Target && state.begin(requested).1 is Receive,
        state.stage is FirstFrame && state.pending.len() + packet.len() < 3_840 ==> state.resume(
            Some(packet),
        ).0.stage is FirstFrame,
        state.stage is FirstFrame && 3_840 <= state.pending.len() + packet.len() < 3_840
            * state.jitter_target_frames ==> state.resume(Some(packet)).0.stage is Target,
        state.stage is FirstFrame && state.pending.len() == 0 ==> state.resume(None).1 is Done,
{
    if state.stage is Idle {
        lemma_read_length(state, requested);
    }
}

/// A 20 ms packet is judged when its last byte goes out and not before: the third dry one in a row
/// empties the buffer, and a whole one ends the row.
pub proof fn packets_are_judged_when_complete(state: ReaderState, length: usize)
    requires
        state.valid(),
        state.stage == ReadStage::Output(length),
        state.jitter_has_started,
    ensures
        length == state.packet_remaining && 2 * state.pending.len() < length
            && state.jitter_underflows == 2 ==> !state.resume(None).0.jitter_primed
            && state.resume(None).0.jitter_underflows == 0,
        length == state.packet_remaining && state.packet_had_underflow && state.jitter_underflows
            < 2 ==> state.resume(None).0.jitter_underflows == state.jitter_underflows + 1
            && state.resume(None).0.jitter_primed == state.jitter_primed,
        length == state.packet_remaining && !state.packet_had_underflow && 2 * state.pending.len()
            >= length ==> state.resume(None).0.jitter_underflows == 0,
        length < state.packet_remaining ==> state.resume(None).0.jitter_underflows
            == state.jitter_underflows && state.resume(None).0.jitter_primed == state.jitter_primed
            && state.resume(None).0.packet_remaining == state.packet_remaining - length,
        length == state.packet_remaining ==> !state.resume(None).0.packet_had_underflow
            && state.resume(None).0.packet_remaining == 0,
{
}

/// A reader starts with nothing: no audio, no gap behind it, and the narrowest buffer.
pub proof fn reader_starts_with_nothing()
    ensures
        ReaderState::fresh().valid(),
        ReaderState::fresh().pending.len() == 0,
        !ReaderState::fresh().packet_had_underflow,
        ReaderState::fresh().packet_remaining == 0,
        ReaderState::fresh().jitter_target_frames == 3,
        !ReaderState::fresh().jitter_primed && !ReaderState::fresh().jitter_has_started,
        ReaderState::fresh().jitter_underflows == 0,
        ReaderState::fresh().jitter_stable_frames == 0,
        ReaderState::fresh().jitter_upshifts == 0 && ReaderState::fresh().jitter_downshifts == 0,
        ReaderState::fresh().stage is Idle,
{
}

/// A new meter has counted nothing, and its conversation has not begun.
pub proof fn meter_starts_at_zero(meter: PlaybackMeter)
    requires
        meter.is_zero(),
    ensures
        meter.reader_reads + meter.reader_source_bytes + meter.reader_output_bytes
            + meter.reader_silence_bytes == 0,
        meter.latency.guild_id@.len() == 0,
        meter.latency.conversation.turn == 0,
        meter.latency.conversation.input is None,
        meter.latency.conversation.output is None,
{
}

/// Browser speech counts as handed to Discord when a read puts out a sample of amplitude 256 or
/// more; silence, and a read that still waits, change nothing and report nothing.
pub proof fn loud_output_is_handed_over(
    conversation: crate::latency::Conversation,
    length: nat,
    samples: Seq<i16>,
    at: int,
    now: u64,
)
    ensures
        0 <= at < samples.len() && !(-256 < samples[at] < 256) ==> conversation_after(
            conversation,
            Answer::Done(length, samples),
            now,
        ) == conversation.relayed(now) && report_after(
            conversation,
            Answer::Done(length, samples),
            now,
        ) == conversation.relay_report(now),
        (forall|i: int| 0 <= i < samples.len() ==> -256 < #[trigger] samples[i] < 256)
            ==> conversation_after(conversation, Answer::Done(length, samples), now)
            == conversation && report_after(conversation, Answer::Done(length, samples), now)
            is None,
        conversation_after(conversation, Answer::Receive, now) == conversation,
        report_after(conversation, Answer::Receive, now) is None,
{
    signal::speech_begins_at_an_amplitude(samples);
}

/// A gap begins the count of whole packets anew, every change of the buffer's width is counted, and
/// a whole packet that changes nothing counts as one more.
pub proof fn changes_of_the_buffer_are_counted(state: ReaderState)
    requires
        state.valid(),
        state.jitter_has_started,
    ensures
        state.packet_finished(true).jitter_stable_frames == 0,
        state.packet_finished(true).jitter_downshifts == state.jitter_downshifts,
        state.packet_finished(false).jitter_upshifts == state.jitter_upshifts,
        state.packet_finished(true).jitter_upshifts - state.jitter_upshifts
            == state.packet_finished(true).jitter_target_frames - state.jitter_target_frames,
        state.packet_finished(false).jitter_downshifts - state.jitter_downshifts
            == state.jitter_target_frames - state.packet_finished(false).jitter_target_frames,
        state.packet_finished(false).jitter_target_frames == state.jitter_target_frames
            ==> state.packet_finished(false).jitter_stable_frames == state.jitter_stable_frames + 1,
        state.packet_finished(false).jitter_target_frames != state.jitter_target_frames
            ==> state.packet_finished(false).jitter_stable_frames == 0,
{
}

} // verus!
