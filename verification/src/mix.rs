//! Mixing the speakers of one voice tick into a single frame.

use vstd::prelude::*;

verus! {

/// How many samples a tick without speech lasts: 20 ms of stereo audio.
pub const SILENT_FRAME_SAMPLES: usize = 1_920;

/// The samples of each speaker.
pub open spec fn frame_views(frames: Seq<Vec<i16>>) -> Seq<Seq<i16>> {
    Seq::new(frames.len(), |i: int| frames[i]@)
}

/// The length of the longest frame.
pub open spec fn longest(frames: Seq<Seq<i16>>) -> nat
    decreases frames.len(),
{
    if frames.len() == 0 {
        0
    } else if frames.last().len() > longest(frames.drop_last()) {
        frames.last().len()
    } else {
        longest(frames.drop_last())
    }
}

/// How many samples a tick with these speakers lasts.
pub open spec fn frame_length(frames: Seq<Seq<i16>>) -> nat {
    if frames.len() == 0 {
        SILENT_FRAME_SAMPLES as nat
    } else {
        longest(frames)
    }
}

/// A number moved into the range of a sample.
pub open spec fn limited(value: int) -> int {
    if value < i16::MIN {
        i16::MIN as int
    } else if value > i16::MAX {
        i16::MAX as int
    } else {
        value
    }
}

/// The speakers' samples at one place, added up in order within the range of a sample.
pub open spec fn sum_at(frames: Seq<Seq<i16>>, index: int) -> int
    decreases frames.len(),
{
    if frames.len() == 0 {
        0
    } else if index < frames.last().len() {
        limited(sum_at(frames.drop_last(), index) + frames.last()[index])
    } else {
        sum_at(frames.drop_last(), index)
    }
}

/// How many speakers have a sample at one place.
pub open spec fn speakers_at(frames: Seq<Seq<i16>>, index: int) -> nat
    decreases frames.len(),
{
    if frames.len() == 0 {
        0
    } else if index < frames.last().len() {
        speakers_at(frames.drop_last(), index) + 1
    } else {
        speakers_at(frames.drop_last(), index)
    }
}

/// Division that cuts towards zero.
pub open spec fn quotient(value: int, count: nat) -> int {
    if value < 0 {
        -((-value) / count as int)
    } else {
        value / count as int
    }
}

/// The mixed sample at one place: the sum, shared among the speakers.
pub open spec fn mixed_at(frames: Seq<Seq<i16>>, index: int) -> int {
    if speakers_at(frames, index) > 1 {
        quotient(sum_at(frames, index), speakers_at(frames, index))
    } else {
        sum_at(frames, index)
    }
}

/// The mixed frame.
pub open spec fn mixed(frames: Seq<Seq<i16>>) -> Seq<i16> {
    Seq::new(frame_length(frames), |i: int| mixed_at(frames, i) as i16)
}

proof fn lemma_quotient_is_smaller(value: int, count: nat)
    requires
        count > 0,
        i16::MIN <= value <= i16::MAX,
    ensures
        i16::MIN <= quotient(value, count) <= i16::MAX,
        value >= 0 ==> quotient(value, count) >= 0,
{
    let size = if value < 0 {
        -value
    } else {
        value
    };
    let divisor = count as int;
    assert(0 <= size / divisor <= size) by (nonlinear_arith)
        requires
            divisor > 0,
            size >= 0,
    ;
}

fn share(value: i32, count: u32) -> (result: i16)
    requires
        count > 0,
        i16::MIN <= value <= i16::MAX,
    ensures
        result == quotient(value as int, count as nat),
{
    proof {
        lemma_quotient_is_smaller(value as int, count as nat);
    }
    if value < 0 {
        let size: u32 = (0 - value) as u32;
        let part: u32 = size / count;
        assert(part as int == (-value) / count as int);
        (0 - part as i32) as i16
    } else {
        let part: u32 = value as u32 / count;
        part as i16
    }
}

fn longest_frame(frames: &Vec<Vec<i16>>) -> (length: usize)
    ensures
        length == longest(frame_views(frames@)),
{
    let mut length: usize = 0;
    let mut next: usize = 0;
    assert(frame_views(frames@).take(0) =~= Seq::empty());
    while next < frames.len()
        invariant
            next <= frames@.len(),
            length == longest(frame_views(frames@).take(next as int)),
        decreases frames@.len() - next,
    {
        assert(frame_views(frames@).take(next as int + 1).drop_last() =~= frame_views(
            frames@,
        ).take(next as int));
        if frames[next].len() > length {
            length = frames[next].len();
        }
        next = next + 1;
    }
    assert(frame_views(frames@).take(next as int) =~= frame_views(frames@));
    length
}

proof fn lemma_sum_is_a_sample(frames: Seq<Seq<i16>>, index: int)
    ensures
        i16::MIN <= sum_at(frames, index) <= i16::MAX,
    decreases frames.len(),
{
    if frames.len() > 0 {
        lemma_sum_is_a_sample(frames.drop_last(), index);
    }
}

fn sample_at(frames: &Vec<Vec<i16>>, index: usize) -> (sample: i16)
    requires
        frames@.len() <= i32::MAX,
    ensures
        sample == mixed_at(frame_views(frames@), index as int),
{
    let mut sum: i32 = 0;
    let mut count: u32 = 0;
    let mut next: usize = 0;
    assert(frame_views(frames@).take(0) =~= Seq::empty());
    while next < frames.len()
        invariant
            next <= frames@.len() <= i32::MAX,
            sum == sum_at(frame_views(frames@).take(next as int), index as int),
            count == speakers_at(frame_views(frames@).take(next as int), index as int),
            i16::MIN <= sum <= i16::MAX,
            count <= next,
        decreases frames@.len() - next,
    {
        assert(frame_views(frames@).take(next as int + 1).drop_last() =~= frame_views(
            frames@,
        ).take(next as int));
        if index < frames[next].len() {
            let added: i32 = sum + frames[next][index] as i32;
            sum = if added < i16::MIN as i32 {
                i16::MIN as i32
            } else if added > i16::MAX as i32 {
                i16::MAX as i32
            } else {
                added
            };
            count = count + 1;
        }
        next = next + 1;
    }
    assert(frame_views(frames@).take(next as int) =~= frame_views(frames@));
    if count > 1 {
        share(sum, count)
    } else {
        sum as i16
    }
}

/// Mixes what the speakers of one tick said into the frame that goes to the browser.
pub fn mix(frames: &Vec<Vec<i16>>) -> (frame: Vec<i16>)
    requires
        frames@.len() <= i32::MAX,
    ensures
        frame@ == mixed(frame_views(frames@)),
{
    let length: usize = if frames.len() == 0 {
        SILENT_FRAME_SAMPLES
    } else {
        longest_frame(frames)
    };
    let mut frame: Vec<i16> = Vec::new();
    let mut index: usize = 0;
    while index < length
        invariant
            index <= length,
            length == frame_length(frame_views(frames@)),
            frames@.len() <= i32::MAX,
            frame@ == mixed(frame_views(frames@)).take(index as int),
        decreases length - index,
    {
        frame.push(sample_at(frames, index));
        index = index + 1;
        assert(frame@ =~= mixed(frame_views(frames@)).take(index as int));
    }
    assert(frame@ =~= mixed(frame_views(frames@)));
    frame
}

/// Without a speaker the browser gets 20 ms of silence.
pub proof fn nobody_speaking_is_silence()
    ensures
        mixed(Seq::empty()) == Seq::new(SILENT_FRAME_SAMPLES as nat, |i: int| 0i16),
{
    assert(mixed(Seq::empty()) =~= Seq::new(SILENT_FRAME_SAMPLES as nat, |i: int| 0i16));
}

/// A single speaker is passed on unchanged.
pub proof fn one_speaker_is_unchanged(frame: Seq<i16>)
    ensures
        mixed(seq![frame]) == frame,
{
    reveal_with_fuel(longest, 2);
    reveal_with_fuel(sum_at, 2);
    reveal_with_fuel(speakers_at, 2);
    assert(seq![frame].drop_last() =~= Seq::empty());
    assert(mixed(seq![frame]) =~= frame);
}

/// Two equally long frames come out as the average of both, as long as their sum is a sample.
pub proof fn two_speakers_are_averaged(left: Seq<i16>, right: Seq<i16>, index: int)
    requires
        0 <= index < left.len(),
        left.len() == right.len(),
        i16::MIN <= left[index] + right[index] <= i16::MAX,
    ensures
        mixed(seq![left, right]).len() == left.len(),
        mixed(seq![left, right])[index] == quotient(left[index] + right[index], 2),
{
    reveal_with_fuel(longest, 3);
    reveal_with_fuel(sum_at, 3);
    reveal_with_fuel(speakers_at, 3);
    assert(seq![left, right].drop_last() =~= seq![left]);
    assert(seq![left].drop_last() =~= Seq::empty());
    lemma_quotient_is_smaller(left[index] + right[index], 2);
}

/// However many speak, every sample of the mixed frame is exactly the shared sum.
pub proof fn mixed_samples_do_not_wrap(frames: Seq<Seq<i16>>, index: int)
    requires
        0 <= index < mixed(frames).len(),
    ensures
        mixed(frames)[index] == mixed_at(frames, index),
{
    lemma_sum_is_a_sample(frames, index);
    if speakers_at(frames, index) > 1 {
        lemma_quotient_is_smaller(sum_at(frames, index), speakers_at(frames, index));
    }
}

/// What one speaker adds at one place: the sample there, or nothing where the frame has ended.
pub open spec fn part_of(frame: Seq<i16>, index: int) -> int {
    if index < frame.len() {
        frame[index] as int
    } else {
        0
    }
}

/// The samples of all speakers at one place, added up without any limit.
pub open spec fn plain_sum(frames: Seq<Seq<i16>>, index: int) -> int {
    frames.fold_left(0int, |sum: int, frame: Seq<i16>| sum + part_of(frame, index))
}

/// The speakers that have a sample at one place.
pub open spec fn reaching(frames: Seq<Seq<i16>>, index: int) -> Seq<Seq<i16>> {
    frames.filter(|frame: Seq<i16>| index < frame.len())
}

/// No speaker takes the sum out of the range of a sample.
pub open spec fn sums_fit(frames: Seq<Seq<i16>>, index: int) -> bool {
    forall|count: int|
        0 <= count <= frames.len() ==> i16::MIN <= #[trigger] plain_sum(frames.take(count), index)
            <= i16::MAX
}

proof fn lemma_plain_sum(frames: Seq<Seq<i16>>, index: int)
    requires
        sums_fit(frames, index),
        index >= 0,
    ensures
        sum_at(frames, index) == plain_sum(frames, index),
        speakers_at(frames, index) == reaching(frames, index).len(),
    decreases frames.len(),
{
    reveal(Seq::filter);
    if frames.len() > 0 {
        let rest = frames.drop_last();
        assert forall|count: int| 0 <= count <= rest.len() implies i16::MIN <= #[trigger] plain_sum(
            rest.take(count),
            index,
        ) <= i16::MAX by {
            assert(rest.take(count) =~= frames.take(count));
        }
        lemma_plain_sum(rest, index);
        assert(frames.take(frames.len() as int) =~= frames);
        assert(rest == frames.take(frames.len() - 1));
        reveal_with_fuel(Seq::fold_left, 2);
        assert(plain_sum(frames, index) == plain_sum(rest, index) + part_of(frames.last(), index));
    }
}

/// Everybody is heard: as long as the sum stays within the range of a sample, the mixed sample at a
/// place is the sum of what all speakers have there, divided by the number of those who have
/// anything there and cut towards zero.
pub proof fn everybody_is_heard(frames: Seq<Seq<i16>>, index: int)
    requires
        frames.len() > 0,
        0 <= index < mixed(frames).len(),
        sums_fit(frames, index),
    ensures
        ({
            let sum = plain_sum(frames, index);
            let count = reaching(frames, index).len() as int;
            let sample = mixed(frames)[index] as int;
            &&& count > 0
            &&& sum >= 0 ==> 0 <= sum - sample * count < count
            &&& sum <= 0 ==> 0 <= sample * count - sum < count
        }),
{
    lemma_plain_sum(frames, index);
    lemma_someone_reaches(frames, index);
    mixed_samples_do_not_wrap(frames, index);
    let sum = plain_sum(frames, index);
    let count = speakers_at(frames, index) as int;
    let size = if sum < 0 {
        -sum
    } else {
        sum
    };
    assert(0 <= size - (size / count) * count < count) by (nonlinear_arith)
        requires
            count > 0,
            size >= 0,
    ;
    let sample = mixed(frames)[index] as int;
    if count > 1 {
        assert(sample == (if sum < 0 {
            -(size / count)
        } else {
            size / count
        }));
        if sum < 0 {
            assert(sample * count == -((size / count) * count)) by (nonlinear_arith)
                requires
                    sample == -(size / count),
            ;
        }
        if sum == 0 {
            assert(size / count == 0) by (nonlinear_arith)
                requires
                    size == 0,
                    count > 0,
            ;
        }
    } else {
        assert(sample * count == sum) by (nonlinear_arith)
            requires
                sample == sum,
                count == 1,
        ;
    }
}

proof fn lemma_someone_reaches(frames: Seq<Seq<i16>>, index: int)
    requires
        0 <= index < longest(frames),
    ensures
        speakers_at(frames, index) > 0,
    decreases frames.len(),
{
    if frames.len() > 0 && index >= frames.last().len() {
        lemma_someone_reaches(frames.drop_last(), index);
    }
}

proof fn lemma_longest(frames: Seq<Seq<i16>>)
    ensures
        forall|i: int| 0 <= i < frames.len() ==> (#[trigger] frames[i]).len() <= longest(frames),
        frames.len() > 0 ==> exists|i: int|
            0 <= i < frames.len() && (#[trigger] frames[i]).len() == longest(frames),
    decreases frames.len(),
{
    if frames.len() > 0 {
        let rest = frames.drop_last();
        lemma_longest(rest);
        assert forall|i: int| 0 <= i < frames.len() implies (#[trigger] frames[i]).len() <= longest(
            frames,
        ) by {
            if i < rest.len() {
                assert(rest[i] == frames[i]);
            }
        }
        if frames.last().len() > longest(rest) || rest.len() == 0 {
            assert(frames[frames.len() - 1].len() == longest(frames));
        } else {
            let at = choose|i: int| 0 <= i < rest.len() && (#[trigger] rest[i]).len() == longest(
                rest,
            );
            assert(frames[at].len() == longest(frames));
        }
    }
}

/// Nobody is cut off: a tick with speakers lasts as long as the longest of them.
pub proof fn nobody_is_cut_off(frames: Seq<Seq<i16>>)
    requires
        frames.len() > 0,
    ensures
        forall|i: int| 0 <= i < frames.len() ==> (#[trigger] frames[i]).len() <= mixed(frames).len(),
        exists|i: int| 0 <= i < frames.len() && (#[trigger] frames[i]).len() == mixed(frames).len(),
{
    lemma_longest(frames);
}

proof fn lemma_more_voices(frames: Seq<Seq<i16>>, index: int)
    requires
        forall|i: int| 0 <= i < frames.len() ==> part_of(#[trigger] frames[i], index) >= 0,
    ensures
        sum_at(frames, index) >= 0,
        forall|i: int|
            0 <= i < frames.len() ==> sum_at(frames, index) >= part_of(#[trigger] frames[i], index),
    decreases frames.len(),
{
    if frames.len() > 0 {
        let rest = frames.drop_last();
        assert forall|i: int| 0 <= i < rest.len() implies part_of(#[trigger] rest[i], index)
            >= 0 by {
            assert(rest[i] == frames[i]);
        }
        lemma_more_voices(rest, index);
        assert(part_of(frames[frames.len() - 1], index) >= 0);
        lemma_sum_is_a_sample(rest, index);
        assert forall|i: int| 0 <= i < frames.len() implies sum_at(frames, index) >= part_of(
            #[trigger] frames[i],
            index,
        ) by {
            if i < rest.len() {
                assert(rest[i] == frames[i]);
            }
        }
    }
}

/// Voices that are too loud together are limited and do not wrap around: where no speaker is
/// negative, the mixed sample is not negative either, and each speaker has a full share in it.
pub proof fn loud_voices_do_not_wrap(frames: Seq<Seq<i16>>, index: int, speaker: int)
    requires
        0 <= index < mixed(frames).len(),
        0 <= speaker < frames.len(),
        forall|i: int| 0 <= i < frames.len() ==> part_of(#[trigger] frames[i], index) >= 0,
    ensures
        mixed(frames)[index] >= 0,
        (mixed(frames)[index] + 1) * frames.len() > part_of(frames[speaker], index),
{
    lemma_more_voices(frames, index);
    lemma_someone_reaches(frames, index);
    lemma_speakers(frames, index);
    mixed_samples_do_not_wrap(frames, index);
    let sum = sum_at(frames, index);
    let count = speakers_at(frames, index) as int;
    let sample = mixed(frames)[index] as int;
    let part = part_of(frames[speaker], index);
    let all = frames.len() as int;
    assert(part <= sum);
    if count > 1 {
        assert(sample == sum / count);
        assert((sample + 1) * all > sum && sample >= 0) by (nonlinear_arith)
            requires
                sample == sum / count,
                0 < count <= all,
                sum >= 0,
        ;
    } else {
        assert((sample + 1) * all > sum) by (nonlinear_arith)
            requires
                sample == sum,
                sum >= 0,
                all >= 1,
        ;
    }
}

proof fn lemma_speakers(frames: Seq<Seq<i16>>, index: int)
    ensures
        speakers_at(frames, index) <= frames.len(),
    decreases frames.len(),
{
    if frames.len() > 0 {
        lemma_speakers(frames.drop_last(), index);
    }
}

proof fn lemma_bounded_sum(frames: Seq<Seq<i16>>, index: int, most: int)
    requires
        most >= 0,
        forall|i: int|
            0 <= i < frames.len() ==> -most <= part_of(#[trigger] frames[i], index) <= most,
    ensures
        -(speakers_at(frames, index) * most) <= sum_at(frames, index) <= speakers_at(frames, index)
            * most,
    decreases frames.len(),
{
    if frames.len() > 0 {
        let rest = frames.drop_last();
        assert forall|i: int| 0 <= i < rest.len() implies -most <= part_of(
            #[trigger] rest[i],
            index,
        ) <= most by {
            assert(rest[i] == frames[i]);
        }
        lemma_bounded_sum(rest, index, most);
        assert(-most <= part_of(frames[frames.len() - 1], index) <= most);
        let count = speakers_at(rest, index) as int;
        assert((count + 1) * most == count * most + most) by (nonlinear_arith);
        assert(count * most >= 0) by (nonlinear_arith)
            requires
                count >= 0,
                most >= 0,
        ;
    }
}

/// Mixing does not make anything louder: the mixed sample is no larger than the largest sample of
/// a speaker at that place.
pub proof fn mixing_does_not_amplify(frames: Seq<Seq<i16>>, index: int, most: int)
    requires
        0 <= index < mixed(frames).len(),
        frames.len() > 0,
        most >= 0,
        forall|i: int|
            0 <= i < frames.len() ==> -most <= part_of(#[trigger] frames[i], index) <= most,
    ensures
        -most <= mixed(frames)[index] <= most,
{
    lemma_bounded_sum(frames, index, most);
    lemma_someone_reaches(frames, index);
    mixed_samples_do_not_wrap(frames, index);
    let sum = sum_at(frames, index);
    let count = speakers_at(frames, index) as int;
    let size = if sum < 0 {
        -sum
    } else {
        sum
    };
    assert(size / count <= most) by (nonlinear_arith)
        requires
            0 <= size <= count * most,
            count > 0,
            most >= 0,
    ;
    assert(count == 1 ==> count * most == most) by (nonlinear_arith);
}

/// Where nobody speaks, 20 ms of stereo silence go out: 1920 samples at 48000 a second.
pub proof fn nobody_gives_twenty_milliseconds_of_silence()
    ensures
        mixed(Seq::empty()).len() == 1_920,
        forall|i: int| 0 <= i < 1_920 ==> #[trigger] mixed(Seq::empty())[i] == 0,
{
    nobody_speaking_is_silence();
}

} // verus!
