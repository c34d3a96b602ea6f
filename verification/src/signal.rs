//! Telling speech from silence in 16-bit audio.

use vstd::prelude::*;

verus! {

/// The smallest amplitude that counts as speech.
pub const LATENCY_SIGNAL_THRESHOLD: i32 = 256;

/// A sample is loud enough to count as speech.
pub open spec fn loud(sample: int) -> bool {
    sample >= LATENCY_SIGNAL_THRESHOLD || sample <= -LATENCY_SIGNAL_THRESHOLD
}

/// The sample that two bytes hold, low byte first.
pub open spec fn sample_at(bytes: Seq<u8>, index: int) -> int {
    let unsigned = bytes[2 * index] + 256 * bytes[2 * index + 1];
    if unsigned >= 32768 {
        unsigned - 65536
    } else {
        unsigned
    }
}

/// Some sample is loud.
pub open spec fn has_signal(samples: Seq<i16>) -> bool {
    exists|i: int| 0 <= i < samples.len() && loud(#[trigger] samples[i] as int)
}

/// Some sample that the bytes hold is loud.
pub open spec fn has_byte_signal(bytes: Seq<u8>) -> bool {
    exists|i: int| 0 <= i < bytes.len() / 2 && loud(#[trigger] sample_at(bytes, i))
}

/// Whether a sample is loud enough to count as speech.
pub fn is_loud(sample: i16) -> (result: bool)
    ensures
        result == loud(sample as int),
{
    let wide: i32 = sample as i32;
    wide >= LATENCY_SIGNAL_THRESHOLD || wide <= -LATENCY_SIGNAL_THRESHOLD
}

/// The sample with the given low and high byte.
pub fn sample_from(low: u8, high: u8) -> (sample: i16)
    ensures
        sample as int == (if low + 256 * high >= 32768 {
            low + 256 * high - 65536
        } else {
            low + 256 * high
        }),
{
    let unsigned: i32 = low as i32 + 256 * (high as i32);
    if unsigned >= 32768 {
        (unsigned - 65536) as i16
    } else {
        unsigned as i16
    }
}

/// Whether any sample counts as speech.
pub fn has_i16_signal(samples: &[i16]) -> (found: bool)
    ensures
        found == has_signal(samples@),
{
    let mut index: usize = 0;
    while index < samples.len()
        invariant
            index <= samples@.len(),
            forall|i: int| 0 <= i < index ==> !loud(#[trigger] samples@[i] as int),
        decreases samples@.len() - index,
    {
        if is_loud(samples[index]) {
            assert(loud(samples@[index as int] as int));
            return true;
        }
        index = index + 1;
    }
    false
}

/// Whether any sample in a packet of bytes counts as speech.
pub fn has_i16_byte_signal(bytes: &[u8]) -> (found: bool)
    ensures
        found == has_byte_signal(bytes@),
{
    let count: usize = bytes.len() / 2;
    let mut index: usize = 0;
    while index < count
        invariant
            count == bytes@.len() / 2,
            count * 2 <= bytes@.len() <= usize::MAX,
            index <= count,
            forall|i: int| 0 <= i < index ==> !loud(#[trigger] sample_at(bytes@, i)),
        decreases count - index,
    {
        if is_loud(sample_from(bytes[2 * index], bytes[2 * index + 1])) {
            assert(loud(sample_at(bytes@, index as int)));
            return true;
        }
        index = index + 1;
    }
    false
}

/// Speech begins at an amplitude of 256, on either side of silence.
pub proof fn speech_begins_at_an_amplitude(samples: Seq<i16>)
    ensures
        has_signal(samples) <==> exists|i: int|
            0 <= i < samples.len() && !(-256 < #[trigger] samples[i] < 256),
{
    if has_signal(samples) {
        let at = choose|i: int| 0 <= i < samples.len() && loud(#[trigger] samples[i] as int);
        assert(!(-256 < samples[at] < 256));
    }
    if exists|i: int| 0 <= i < samples.len() && !(-256 < #[trigger] samples[i] < 256) {
        let at = choose|i: int| 0 <= i < samples.len() && !(-256 < #[trigger] samples[i] < 256);
        assert(loud(samples[at] as int));
    }
}

/// A packet holds speech where one of its samples, low byte first, does: the first byte of a pair
/// counts once, the second 256 times, and from 32768 on a sample is negative. A last single byte
/// counts for nothing.
pub proof fn packet_speaks_as_its_samples(packet: Seq<u8>)
    ensures
        has_byte_signal(packet) <==> exists|i: int|
            0 <= 2 * i && 2 * i + 1 < packet.len() && 256 <= (#[trigger] packet[2 * i] + 256
                * packet[2 * i + 1]) <= 65_536 - 256,
{
    if has_byte_signal(packet) {
        let at = choose|i: int| 0 <= i < packet.len() / 2 && loud(#[trigger] sample_at(packet, i));
        assert(256 <= packet[2 * at] + 256 * packet[2 * at + 1] <= 65_536 - 256);
    }
    if exists|i: int|
        0 <= 2 * i && 2 * i + 1 < packet.len() && 256 <= (#[trigger] packet[2 * i] + 256 * packet[2
            * i + 1]) <= 65_536 - 256 {
        let at = choose|i: int|
            0 <= 2 * i && 2 * i + 1 < packet.len() && 256 <= (#[trigger] packet[2 * i] + 256
                * packet[2 * i + 1]) <= 65_536 - 256;
        assert(loud(sample_at(packet, at)));
    }
}

} // verus!
