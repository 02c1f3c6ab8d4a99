//! Mixing of stereo clips into one interleaved multi-channel buffer.
//!
//! A clip is stereo interleaved (`L, R, L, R, ...`). Channel pair `p` owns the
//! output channels `2 * p` and `2 * p + 1`, so no two pairs share a channel.
//! The sample type is a parameter: samples are copied, never computed with.

use std::collections::HashMap;
use vstd::arithmetic::div_mod::{
    lemma_div_by_multiple_is_strongly_ordered, lemma_div_pos_is_pos, lemma_fundamental_div_mod,
    lemma_fundamental_div_mod_converse, lemma_mod_bound,
};
use vstd::arithmetic::mul::lemma_mul_is_commutative;
use vstd::prelude::*;

verus! {

broadcast use vstd::std_specs::hash::group_hash_axioms;

/// A clip that is playing on one channel pair, and how far it has been read.
pub struct PairAudio<T> {
    /// Stereo interleaved samples.
    pub samples: Vec<T>,
    /// Index of the next sample to play.
    pub position: usize,
}

impl<T> PairAudio<T> {
    /// The read position never passes the end of the clip.
    pub open spec fn wf(self) -> bool {
        self.position <= self.samples@.len()
    }

    /// Frames still to be played. A last frame that lacks its right sample
    /// counts as a frame.
    pub open spec fn frames_left(self) -> nat {
        ((self.samples@.len() - self.position + 1) / 2) as nat
    }

    /// Left sample of the `frame`-th frame still to be played.
    pub open spec fn left(self, frame: int) -> T {
        self.samples@[self.position + 2 * frame]
    }

    /// Right sample of the `frame`-th frame still to be played; the left one
    /// where the clip ends without a right sample.
    pub open spec fn right(self, frame: int) -> T {
        let at = self.position + 2 * frame;
        if at + 1 < self.samples@.len() {
            self.samples@[at + 1]
        } else {
            self.samples@[at]
        }
    }

    /// The clip after `frames` more frames have been played.
    pub open spec fn advanced(self, frames: nat) -> PairAudio<T> {
        PairAudio { samples: self.samples, position: (self.position + 2 * frames) as usize }
    }
}

/// Whether channel pair `pair` lies wholly on a device with `channels` channels.
pub open spec fn audible(pair: usize, channels: nat) -> bool {
    2 * pair + 1 < channels
}

/// What belongs at `index` of an interleaved buffer of `len` samples.
pub open spec fn mixed_sample<T>(
    pairs: Map<usize, PairAudio<T>>,
    channels: nat,
    len: nat,
    silence: T,
    index: int,
) -> T {
    let frame = index / channels as int;
    let channel = index % channels as int;
    let pair = (channel / 2) as usize;
    if frame < len / channels && pairs.contains_key(pair) && audible(pair, channels) && frame
        < pairs[pair].frames_left() {
        if channel % 2 == 0 {
            pairs[pair].left(frame)
        } else {
            pairs[pair].right(frame)
        }
    } else {
        silence
    }
}

/// An interleaved buffer of `len` samples with every audible clip in its place.
pub open spec fn mixed<T>(
    pairs: Map<usize, PairAudio<T>>,
    channels: nat,
    len: nat,
    silence: T,
) -> Seq<T> {
    Seq::new(len, |i: int| mixed_sample(pairs, channels, len, silence, i))
}

/// Whether the clip on `pair` plays to its end within `frames` frames.
pub open spec fn finishes<T>(
    pairs: Map<usize, PairAudio<T>>,
    channels: nat,
    frames: nat,
    pair: usize,
) -> bool {
    audible(pair, channels) && pairs[pair].frames_left() <= frames
}

/// The clips that remain once `frames` frames have been played: audible clips
/// move on, those that end are gone, clips beyond the last channel wait.
pub open spec fn played<T>(
    pairs: Map<usize, PairAudio<T>>,
    channels: nat,
    frames: nat,
) -> Map<usize, PairAudio<T>> {
    Map::new(
        |p: usize| pairs.contains_key(p) && !finishes(pairs, channels, frames, p),
        |p: usize|
            if audible(p, channels) {
                pairs[p].advanced(frames)
            } else {
                pairs[p]
            },
    )
}

/// `data` with the first `frames` frames of `audio` written to the channels of
/// `pair`.
pub open spec fn overlaid<T>(
    data: Seq<T>,
    audio: PairAudio<T>,
    pair: int,
    channels: int,
    frames: int,
) -> Seq<T> {
    Seq::new(
        data.len(),
        |i: int|
            if i / channels < frames && (i % channels) / 2 == pair {
                if (i % channels) % 2 == 0 {
                    audio.left(i / channels)
                } else {
                    audio.right(i / channels)
                }
            } else {
                data[i]
            },
    )
}

/// An index of an interleaved buffer is its frame and its channel.
proof fn lemma_slot(index: int, channels: int, frame: int, channel: int)
    requires
        0 <= channel < channels,
    ensures
        index == frame * channels + channel <==> index / channels == frame && index % channels
            == channel,
{
    lemma_fundamental_div_mod(index, channels);
    if index == frame * channels + channel {
        lemma_fundamental_div_mod_converse(index, channels, frame, channel);
    } else if index / channels == frame && index % channels == channel {
        lemma_mul_is_commutative(frame, channels);
    }
}

/// The slots of every whole frame lie inside the buffer.
proof fn lemma_frame_fits(len: int, channels: int, frame: int)
    requires
        0 < channels,
        0 <= len,
        0 <= frame < len / channels,
    ensures
        0 <= frame * channels,
        frame * channels + channels <= len,
{
    lemma_fundamental_div_mod(len, channels);
    lemma_mod_bound(len, channels);
    assert(frame * channels + channels <= (len / channels) * channels && 0 <= frame * channels)
        by (nonlinear_arith)
        requires
            0 < channels,
            0 <= frame < len / channels,
    ;
    lemma_mul_is_commutative(len / channels, channels);
}

/// Writes the first `frames` frames of `audio` to the channels of `pair`.
fn overlay<T: Copy>(
    data: &mut [T],
    audio: &PairAudio<T>,
    pair: usize,
    channels: usize,
    frames: usize,
)
    requires
        audio.wf(),
        2 * pair + 1 < channels,
        frames <= audio.frames_left(),
        frames <= old(data)@.len() / (channels as nat),
    ensures
        final(data)@ == overlaid(old(data)@, *audio, pair as int, channels as int, frames as int),
{
    let len: usize = data.len();
    let ghost before = data@;
    let mut frame: usize = 0;
    assert forall|i: int| 0 <= i < before.len() implies #[trigger] before[i] == overlaid(
        before,
        *audio,
        pair as int,
        channels as int,
        0,
    )[i] by {
        lemma_div_pos_is_pos(i, channels as int);
    }
    assert(data@ =~= overlaid(before, *audio, pair as int, channels as int, 0));
    while frame < frames
        invariant
            frame <= frames,
            audio.wf(),
            2 * pair + 1 < channels,
            frames <= audio.frames_left(),
            len == before.len(),
            frames <= before.len() / (channels as nat),
            data@ == overlaid(before, *audio, pair as int, channels as int, frame as int),
        decreases frames - frame,
    {
        proof {
            lemma_frame_fits(len as int, channels as int, frame as int);
        }
        assert(audio.position + 2 * frame < audio.samples.len());
        let at: usize = audio.position + 2 * frame;
        let left = audio.samples[at];
        let right = if at + 1 < audio.samples.len() {
            audio.samples[at + 1]
        } else {
            left
        };
        let slot: usize = frame * channels + 2 * pair;
        let ghost was = data@;
        data[slot] = left;
        data[slot + 1] = right;
        frame = frame + 1;
        assert forall|i: int| 0 <= i < before.len() implies #[trigger] data@[i] == overlaid(
            before,
            *audio,
            pair as int,
            channels as int,
            frame as int,
        )[i] by {
            lemma_slot(i, channels as int, frame - 1, 2 * pair);
            lemma_slot(i, channels as int, frame - 1, 2 * pair + 1);
            lemma_mod_bound(i, channels as int);
            assert(was[i] == overlaid(
                before,
                *audio,
                pair as int,
                channels as int,
                frame - 1,
            )[i]);
        }
        assert(data@ =~= overlaid(
            before,
            *audio,
            pair as int,
            channels as int,
            frame as int,
        ));
    }
}

/// The clips that play on one device, by channel pair.
pub struct DeviceMixer<T> {
    pub pairs: HashMap<usize, PairAudio<T>>,
}

impl<T> View for DeviceMixer<T> {
    type V = Map<usize, PairAudio<T>>;

    open spec fn view(&self) -> Map<usize, PairAudio<T>> {
        self.pairs@
    }
}

impl<T> DeviceMixer<T> {
    /// Every clip is well formed.
    pub open spec fn wf(self) -> bool {
        forall|p: usize| self@.contains_key(p) ==> (#[trigger] self@[p]).wf()
    }

    /// A mixer with nothing to play.
    pub fn new() -> (mixer: Self)
        ensures
            mixer.wf(),
            mixer@ == Map::<usize, PairAudio<T>>::empty(),
    {
        DeviceMixer { pairs: HashMap::new() }
    }

    /// Starts `samples` from the beginning on `pair`, in place of whatever
    /// played there.
    pub fn insert(&mut self, pair: usize, samples: Vec<T>)
        requires
            old(self).wf(),
        ensures
            final(self).wf(),
            final(self)@ == old(self)@.insert(pair, (PairAudio { samples, position: 0 })),
    {
        let ghost before = *self;
        self.pairs.insert(pair, PairAudio { samples, position: 0 });
        assert forall|p: usize| self@.contains_key(p) implies (#[trigger] self@[p]).wf() by {
            assert(p != pair ==> before@[p].wf());
        }
    }

    /// Ends playback on `pair` and says whether the mixer is now empty.
    pub fn remove(&mut self, pair: usize) -> (empty: bool)
        requires
            old(self).wf(),
        ensures
            final(self).wf(),
            final(self)@ == old(self)@.remove(pair),
            empty == final(self)@.is_empty(),
    {
        let ghost before = *self;
        self.pairs.remove(&pair);
        assert forall|p: usize| self@.contains_key(p) implies (#[trigger] self@[p]).wf() by {
            assert(before@[p].wf());
        }
        self.pairs.is_empty()
    }

    /// Fills `data`, interleaved for `channels` channels, with what plays next
    /// and `silence` elsewhere, and moves every audible clip on. Clips that
    /// reach their end are removed.
    pub fn render(&mut self, channels: u16, data: &mut [T], silence: T) where T: Copy
        requires
            old(self).wf(),
            channels > 0,
        ensures
            final(self).wf(),
            final(self)@ == played(
                old(self)@,
                channels as nat,
                old(data)@.len() / (channels as nat),
            ),
            final(data)@ == mixed(old(self)@, channels as nat, old(data)@.len(), silence),
    {
        let total: usize = channels as usize;
        let len: usize = data.len();
        let frames: usize = len / total;
        let ghost pairs = self@;
        let ghost after = played(pairs, channels as nat, frames as nat);
        let ghost target = mixed(pairs, channels as nat, len as nat, silence);
        fill(data, silence);
        let mut pair: usize = 0;
        while pair < total / 2
            invariant
                0 < total == channels,
                pair <= total / 2,
                len == data@.len(),
                frames == len as int / total as int,
                pairs == old(self)@,
                old(self).wf(),
                after == played(pairs, channels as nat, frames as nat),
                target == mixed(pairs, channels as nat, len as nat, silence),
                forall|p: usize|
                    p < pair ==> #[trigger] self@.contains_key(p) == after.contains_key(p),
                forall|p: usize|
                    p < pair && after.contains_key(p) ==> #[trigger] self@[p] == after[p],
                forall|p: usize|
                    p >= pair ==> #[trigger] self@.contains_key(p) == pairs.contains_key(p),
                forall|p: usize|
                    p >= pair && pairs.contains_key(p) ==> #[trigger] self@[p] == pairs[p],
                forall|i: int|
                    0 <= i < len && (i % total as int) / 2 < pair ==> #[trigger] data@[i]
                        == target[i],
                forall|i: int|
                    0 <= i < len && (i % total as int) / 2 >= pair ==> #[trigger] data@[i]
                        == silence,
            decreases total / 2 - pair,
        {
            let ghost before = data@;
            let ghost clips = self@;
            if let Some(audio) = self.pairs.remove(&pair) {
                assert(clips[pair] == pairs[pair]);
                assert(audio.wf());
                let unread: usize = audio.samples.len() - audio.position;
                let left: usize = unread / 2 + unread % 2;
                let count: usize = if frames < left {
                    frames
                } else {
                    left
                };
                overlay(data, &audio, pair, total, count);
                if count < left {
                    let moved = PairAudio {
                        samples: audio.samples,
                        position: audio.position + 2 * count,
                    };
                    self.pairs.insert(pair, moved);
                }
            }
            proof {
                assert forall|i: int| 0 <= i < len && (i % total as int) / 2 < pair + 1 implies
                    #[trigger] data@[i] == target[i] by {
                    lemma_div_pos_is_pos(i, total as int);
                    lemma_mod_bound(i, total as int);
                    assert(before[i] == if (i % total as int) / 2 < pair {
                        target[i]
                    } else {
                        silence
                    });
                }
                assert forall|i: int| 0 <= i < len && (i % total as int) / 2 >= pair + 1 implies
                    #[trigger] data@[i] == silence by {
                    assert(before[i] == silence);
                }
            }
            pair = pair + 1;
        }
        proof {
            assert forall|i: int| 0 <= i < len implies #[trigger] data@[i] == target[i] by {
                lemma_mod_bound(i, total as int);
            }
            assert(data@ =~= target);
            assert(self@ =~= after);
            assert forall|p: usize| self@.contains_key(p) implies (#[trigger] self@[p]).wf() by {
                assert(pairs[p].wf());
            }
        }
    }
}

/// Fills `data` with `value`.
fn fill<T: Copy>(data: &mut [T], value: T)
    ensures
        final(data)@ == Seq::new(old(data)@.len(), |i: int| value),
{
    let len: usize = data.len();
    let mut i: usize = 0;
    while i < len
        invariant
            i <= len == data@.len(),
            len == old(data)@.len(),
            forall|j: int| 0 <= j < i ==> data@[j] == value,
        decreases len - i,
    {
        data[i] = value;
        i = i + 1;
    }
}

/// A channel pair sounds the same whatever plays on the other pairs.
pub proof fn law_pairs_do_not_interfere<T>(
    one: Map<usize, PairAudio<T>>,
    other: Map<usize, PairAudio<T>>,
    channels: nat,
    len: nat,
    silence: T,
    pair: usize,
    index: int,
)
    requires
        channels > 0,
        0 <= index < len,
        (index % channels as int) / 2 == pair,
        one.contains_key(pair) == other.contains_key(pair),
        one.contains_key(pair) ==> one[pair] == other[pair],
    ensures
        mixed(one, channels, len, silence)[index] == mixed(other, channels, len, silence)[index],
{
}

/// A clip put on an audible pair is heard from its first sample to its last,
/// frame by frame, and is followed by silence.
pub proof fn law_clip_is_heard_whole<T>(
    pairs: Map<usize, PairAudio<T>>,
    samples: Vec<T>,
    channels: nat,
    len: nat,
    silence: T,
    pair: usize,
    frame: int,
)
    requires
        audible(pair, channels),
        0 <= frame < len / channels,
    ensures
        ({
            let out = mixed(
                pairs.insert(pair, (PairAudio { samples, position: 0 })),
                channels,
                len,
                silence,
            );
            let left = out[frame * channels + 2 * pair];
            let right = out[frame * channels + 2 * pair + 1];
            if 2 * frame + 1 < samples@.len() {
                left == samples@[2 * frame] && right == samples@[2 * frame + 1]
            } else if 2 * frame + 1 == samples@.len() {
                left == samples@[2 * frame] && right == samples@[2 * frame]
            } else {
                left == silence && right == silence
            }
        }),
{
    lemma_frame_fits(len as int, channels as int, frame);
    lemma_slot(frame * channels + 2 * pair, channels as int, frame, 2 * pair);
    lemma_slot(frame * channels + 2 * pair + 1, channels as int, frame, 2 * pair + 1);
}

/// Playing `first` frames and then `second` frames leaves the same clips as
/// playing them all at once.
pub proof fn law_playing_adds_up<T>(
    pairs: Map<usize, PairAudio<T>>,
    channels: nat,
    first: nat,
    second: nat,
)
    requires
        forall|p: usize| pairs.contains_key(p) ==> (#[trigger] pairs[p]).wf(),
    ensures
        played(played(pairs, channels, first), channels, second) == played(
            pairs,
            channels,
            first + second,
        ),
{
    let then = played(pairs, channels, first);
    assert forall|p: usize| #[trigger] then.contains_key(p) && audible(p, channels) implies {
        &&& then[p].frames_left() == pairs[p].frames_left() - first
        &&& then[p].position == pairs[p].position + 2 * first
    } by {
        assert(pairs[p].wf());
        assert(pairs[p].position + 2 * first < pairs[p].samples.len());
    }
    assert(played(then, channels, second) =~= played(pairs, channels, first + second));
}

/// Rendering two buffers one after the other gives the same sound as rendering
/// them as one: where a buffer ends is not heard.
pub proof fn law_rendering_is_continuous<T>(
    pairs: Map<usize, PairAudio<T>>,
    channels: nat,
    first: nat,
    second: nat,
    silence: T,
)
    requires
        channels > 0,
        forall|p: usize| pairs.contains_key(p) ==> (#[trigger] pairs[p]).wf(),
    ensures
        mixed(pairs, channels, first * channels, silence) + mixed(
            played(pairs, channels, first),
            channels,
            second * channels,
            silence,
        ) == mixed(pairs, channels, (first + second) * channels, silence),
{
    let c = channels as int;
    let head = mixed(pairs, channels, first * channels, silence);
    let then = played(pairs, channels, first);
    let tail = mixed(then, channels, second * channels, silence);
    let whole = mixed(pairs, channels, (first + second) * channels, silence);
    lemma_fundamental_div_mod_converse(first * c, c, first as int, 0);
    lemma_fundamental_div_mod_converse(second * c, c, second as int, 0);
    lemma_fundamental_div_mod_converse((first + second) * c, c, (first + second) as int, 0);
    assert((first + second) * c == first * c + second * c) by (nonlinear_arith);
    assert(first * c >= 0 && second * c >= 0) by (nonlinear_arith)
        requires
            first >= 0,
            second >= 0,
            c > 0,
    ;
    assert forall|i: int| 0 <= i < whole.len() implies #[trigger] whole[i] == (head + tail)[i] by {
        lemma_mod_bound(i, c);
        lemma_fundamental_div_mod(i, c);
        let pair = ((i % c) / 2) as usize;
        if i < first * c {
            lemma_div_by_multiple_is_strongly_ordered(
                i,
                first * c,
                first as int,
                c,
            );
            assert(whole[i] == head[i]);
        } else {
            let j = i - first * c;
            assert(c * (i / c) == (i / c) * c && c * first == first * c) by (nonlinear_arith);
            assert(j == (i / c - first) * c + i % c) by (nonlinear_arith)
                requires
                    j == i - first * c,
                    i == (i / c) * c + i % c,
            ;
            lemma_slot(j, c, i / c - first, i % c);
            lemma_div_pos_is_pos(j, c);
            lemma_div_by_multiple_is_strongly_ordered(
                i,
                (first + second) * c,
                (first + second) as int,
                c,
            );
            if pairs.contains_key(pair) && audible(pair, channels) {
                assert(pairs[pair].wf());
                if then.contains_key(pair) {
                    assert(pairs[pair].position + 2 * first < pairs[pair].samples.len());
                }
            }
            assert(tail[j] == whole[i]);
        }
    }
    assert(head + tail =~= whole);
}

/// A clip moves on by what was played of it, two samples for a frame, and is
/// gone exactly when that reaches its end.
pub proof fn law_clip_moves_on_by_what_was_played<T>(
    pairs: Map<usize, PairAudio<T>>,
    channels: nat,
    frames: nat,
    pair: usize,
)
    requires
        pairs.contains_key(pair),
        pairs[pair].wf(),
        2 * pair + 1 < channels,
    ensures
        played(pairs, channels, frames).contains_key(pair) <==> pairs[pair].position + 2 * frames
            < pairs[pair].samples@.len(),
        played(pairs, channels, frames).contains_key(pair) ==> {
            let left = played(pairs, channels, frames)[pair];
            left.samples@ == pairs[pair].samples@ && left.position == pairs[pair].position + 2
                * frames
        },
{
    if played(pairs, channels, frames).contains_key(pair) {
        assert(pairs[pair].position + 2 * frames < pairs[pair].samples.len());
    }
}

/// Clips beyond the last channel wait as they are, and no clip comes from
/// nowhere.
pub proof fn law_other_clips_stay_as_they_are<T>(
    pairs: Map<usize, PairAudio<T>>,
    channels: nat,
    frames: nat,
    pair: usize,
)
    requires
        2 * pair + 1 >= channels || !pairs.contains_key(pair),
    ensures
        played(pairs, channels, frames).contains_key(pair) == pairs.contains_key(pair),
        pairs.contains_key(pair) ==> played(pairs, channels, frames)[pair] == pairs[pair],
{
}

/// A buffer is filled to its end. It is silent where no clip plays, on a last
/// channel without a partner, and after its last whole frame.
pub proof fn law_rest_is_silent<T>(
    pairs: Map<usize, PairAudio<T>>,
    channels: nat,
    len: nat,
    silence: T,
    index: int,
)
    requires
        0 < channels <= u16::MAX,
        0 <= index < len,
        ({
            let first = index % channels as int - (index % channels as int) % 2;
            ||| index / channels as int >= len / channels
            ||| first + 1 == channels
            ||| forall|p: usize| #[trigger] pairs.contains_key(p) ==> 2 * p != first
        }),
    ensures
        mixed(pairs, channels, len, silence).len() == len,
        mixed(pairs, channels, len, silence)[index] == silence,
{
    lemma_mod_bound(index, channels as int);
    let pair = ((index % channels as int) / 2) as usize;
    if pairs.contains_key(pair) && audible(pair, channels) {
        assert(2 * pair + 1 < channels);
    }
}

} // verus!
