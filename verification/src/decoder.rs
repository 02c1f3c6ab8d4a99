//! Putting the samples of a decoded stream together, packet by packet.
//!
//! Reading packets and decoding them is left to the caller, who reports what
//! came of it. What is put together is stereo interleaved. The sample type is a
//! parameter: samples are copied, never computed with.

use crate::text::joined;
use vstd::prelude::*;

verus! {

/// What came of reading or decoding a packet.
pub enum DecodeEvent<T> {
    /// A packet was read; the track it belongs to.
    Packet(u32),
    /// There are no more packets.
    EndOfStream,
    /// Why the next packet could not be read.
    ReadFailed(String),
    /// The interleaved samples of the packet, and of how many channels they are.
    Samples { samples: Vec<T>, channels: usize },
    /// Why the packet could not be decoded.
    DecodeFailed(String),
}

/// What is to be done next.
pub enum DecodeAction {
    /// Read the next packet.
    NextPacket,
    /// Decode the packet that was read.
    DecodePacket,
    /// All samples are there.
    Finish,
    /// Decoding has failed, and why.
    Fail(String),
}

/// The samples of one track, as far as they have been decoded.
pub struct TrackSamples<T> {
    pub track_id: u32,
    pub samples: Vec<T>,
}

/// A [`DecodeAction`], with its message as a text.
pub enum DecodeStep {
    NextPacket,
    DecodePacket,
    Finish,
    Fail(Seq<char>),
}

impl View for DecodeAction {
    type V = DecodeStep;

    open spec fn view(&self) -> DecodeStep {
        match self {
            DecodeAction::NextPacket => DecodeStep::NextPacket,
            DecodeAction::DecodePacket => DecodeStep::DecodePacket,
            DecodeAction::Finish => DecodeStep::Finish,
            DecodeAction::Fail(message) => DecodeStep::Fail(message@),
        }
    }
}

/// Interleaved samples as stereo: each sample of a single channel stands for
/// left and right.
pub open spec fn in_stereo<T>(samples: Seq<T>, channels: usize) -> Seq<T> {
    if channels == 1 {
        Seq::new(2 * samples.len(), |i: int| samples[i / 2])
    } else {
        samples
    }
}

/// Interleaved samples as stereo: each sample of a single channel is played
/// left and right.
pub fn stereo<T: Copy>(samples: Vec<T>, channels: usize) -> (pcm: Vec<T>)
    requires
        2 * samples@.len() <= usize::MAX,
    ensures
        pcm@ == in_stereo(samples@, channels),
        channels != 1 ==> pcm@ == samples@,
        channels == 1 ==> pcm@ == Seq::new(2 * samples@.len(), |i: int| samples@[i / 2]),
{
    if channels != 1 {
        return samples;
    }
    let mut pcm: Vec<T> = Vec::new();
    let mut i: usize = 0;
    while i < samples.len()
        invariant
            i <= samples.len(),
            pcm.len() == 2 * i,
            forall|j: int| 0 <= j < 2 * i ==> pcm[j] == samples@[j / 2],
        decreases samples.len() - i,
    {
        pcm.push(samples[i]);
        pcm.push(samples[i]);
        i = i + 1;
    }
    assert(pcm@ =~= in_stereo(samples@, channels));
    pcm
}

/// The samples that an event brings, as stereo.
pub open spec fn brought<T>(event: DecodeEvent<T>) -> Seq<T> {
    match event {
        DecodeEvent::Samples { samples, channels } => in_stereo(samples@, channels),
        _ => Seq::empty(),
    }
}

/// What is to be done after an event, for the track `track_id`. Packets of
/// other tracks are passed over.
pub open spec fn decided<T>(track_id: u32, event: DecodeEvent<T>) -> DecodeStep {
    match event {
        DecodeEvent::Packet(id) => if id == track_id {
            DecodeStep::DecodePacket
        } else {
            DecodeStep::NextPacket
        },
        DecodeEvent::EndOfStream => DecodeStep::Finish,
        DecodeEvent::Samples { .. } => DecodeStep::NextPacket,
        DecodeEvent::ReadFailed(error) => DecodeStep::Fail("Packet read error: "@ + error@),
        DecodeEvent::DecodeFailed(error) => DecodeStep::Fail("Decode error: "@ + error@),
    }
}

/// The samples after an event, from those before it.
pub open spec fn stepped<T>(before: Seq<T>, event: DecodeEvent<T>) -> Seq<T> {
    before + brought(event)
}

impl<T> TrackSamples<T> {
    /// Starts with the stream's default track, which it must have.
    pub fn begin(default_track: Option<u32>) -> (start: Result<Self, String>)
        ensures
            match default_track {
                Some(id) => start matches Ok(track) && track.track_id == id && track.samples@
                    == Seq::<T>::empty(),
                None => start matches Err(message) && message@ == "No default track"@,
            },
    {
        match default_track {
            Some(track_id) => Ok(TrackSamples { track_id, samples: Vec::new() }),
            None => Err("No default track".to_owned()),
        }
    }

    /// Takes note of an event, and says what is to be done.
    pub fn step(&mut self, event: DecodeEvent<T>) -> (action: DecodeAction) where T: Copy
        requires
            event matches DecodeEvent::Samples { samples, .. } ==> 2 * samples@.len()
                <= usize::MAX,
        ensures
            final(self).track_id == old(self).track_id,
            final(self).samples@ == stepped(old(self).samples@, event),
            action@ == decided(old(self).track_id, event),
            // All samples of a packet are kept, those of a single channel twice.
            event matches DecodeEvent::Samples { samples, channels } ==> if channels == 1 {
                &&& final(self).samples@.len() == old(self).samples@.len() + 2 * samples@.len()
                &&& final(self).samples@.take(old(self).samples@.len() as int)
                    == old(self).samples@
                &&& forall|i: int|
                    old(self).samples@.len() <= i < final(self).samples@.len()
                        ==> #[trigger] final(self).samples@[i] == samples@[(i
                        - old(self).samples@.len()) / 2]
            } else {
                final(self).samples@ == old(self).samples@ + samples@
            },
            !(event is Samples) ==> final(self).samples@ == old(self).samples@,
    {
        assert(self.samples@ + Seq::<T>::empty() == self.samples@);
        match event {
            DecodeEvent::Packet(id) => {
                if id == self.track_id {
                    DecodeAction::DecodePacket
                } else {
                    DecodeAction::NextPacket
                }
            },
            DecodeEvent::EndOfStream => DecodeAction::Finish,
            DecodeEvent::Samples { samples, channels } => {
                let mut pcm = stereo(samples, channels);
                let ghost before = self.samples@;
                self.samples.append(&mut pcm);
                assert(self.samples@.take(before.len() as int) =~= before);
                DecodeAction::NextPacket
            },
            DecodeEvent::ReadFailed(error) => DecodeAction::Fail(
                joined("Packet read error: ", &error),
            ),
            DecodeEvent::DecodeFailed(error) => DecodeAction::Fail(
                joined("Decode error: ", &error),
            ),
        }
    }
}

/// The message for audio of no known format.
pub fn probe_failure(error: &str) -> (message: String)
    ensures
        message@ == "Probe failed: "@ + error@,
{
    joined("Probe failed: ", error)
}

/// The message for a track that cannot be decoded.
pub fn decoder_failure(error: &str) -> (message: String)
    ensures
        message@ == "Decoder init failed: "@ + error@,
{
    joined("Decoder init failed: ", error)
}

/// The samples after a run of events, from the beginning.
pub open spec fn after_run<T>(events: Seq<DecodeEvent<T>>) -> Seq<T>
    decreases events.len(),
{
    if events.len() == 0 {
        Seq::empty()
    } else {
        stepped(after_run(events.drop_last()), events.last())
    }
}

/// What is to be done after a run of events: at the beginning, a packet is to
/// be read.
pub open spec fn next_step<T>(track_id: u32, events: Seq<DecodeEvent<T>>) -> DecodeStep {
    if events.len() == 0 {
        DecodeStep::NextPacket
    } else {
        decided(track_id, events.last())
    }
}

/// Whether `event` reports on what was to be done.
pub open spec fn reports_on<T>(event: DecodeEvent<T>, step: DecodeStep) -> bool {
    match step {
        DecodeStep::NextPacket => event is Packet || event is EndOfStream || event is ReadFailed,
        DecodeStep::DecodePacket => event is Samples || event is DecodeFailed,
        DecodeStep::Finish => false,
        DecodeStep::Fail(_) => false,
    }
}

/// A run from the beginning: every event reports on what was to be done.
pub open spec fn is_run<T>(track_id: u32, events: Seq<DecodeEvent<T>>) -> bool {
    forall|i: int|
        0 <= i < events.len() ==> reports_on(
            #[trigger] events[i],
            next_step(track_id, events.take(i)),
        )
}

/// The samples of the packets of track `track_id`, as stereo, one packet after
/// the other: for each packet of the track, what follows it.
pub open spec fn track_samples<T>(track_id: u32, events: Seq<DecodeEvent<T>>) -> Seq<T>
    decreases events.len(),
{
    if events.len() < 2 {
        Seq::empty()
    } else {
        let before = track_samples(track_id, events.drop_last());
        if events[events.len() - 2] == DecodeEvent::<T>::Packet(track_id) {
            before + brought(events.last())
        } else {
            before
        }
    }
}

proof fn lemma_run<T>(track_id: u32, events: Seq<DecodeEvent<T>>)
    requires
        is_run(track_id, events),
    ensures
        after_run(events) == track_samples(track_id, events),
    decreases events.len(),
{
    if events.len() > 0 {
        let before = events.drop_last();
        let last = events.len() - 1;
        assert(events.take(last) =~= before);
        assert(reports_on(events[last], next_step(track_id, before)));
        assert forall|i: int| 0 <= i < before.len() implies reports_on(
            #[trigger] before[i],
            next_step(track_id, before.take(i)),
        ) by {
            assert(before.take(i) =~= events.take(i));
            assert(before[i] == events[i]);
        }
        lemma_run(track_id, before);
        assert(after_run(before) + Seq::<T>::empty() =~= after_run(before));
    }
}

proof fn lemma_followed<T>(track_id: u32, events: Seq<DecodeEvent<T>>, i: int)
    requires
        is_run(track_id, events),
        0 <= i < events.len(),
    ensures
        i + 1 < events.len() ==> reports_on(events[i + 1], decided(track_id, events[i])),
        i + 1 == events.len() ==> next_step(track_id, events) == decided(track_id, events[i]),
{
    if i + 1 < events.len() {
        assert(events.take(i + 1).last() == events[i]);
        assert(reports_on(events[i + 1], next_step(track_id, events.take(i + 1))));
    }
}

/// A run that finishes holds the samples of the packets of its track, in order,
/// and nothing else. None is left out: every packet of the track was decoded,
/// and no packet could not be read.
pub proof fn law_finished_run_holds_the_track<T>(track_id: u32, events: Seq<DecodeEvent<T>>)
    requires
        is_run(track_id, events),
        next_step(track_id, events) is Finish,
    ensures
        after_run(events) == track_samples(track_id, events),
        forall|i: int|
            0 <= i < events.len() && #[trigger] events[i] == DecodeEvent::<T>::Packet(track_id)
                ==> i + 1 < events.len() && events[i + 1] is Samples,
        forall|i: int|
            0 <= i < events.len() ==> !(#[trigger] events[i] is ReadFailed || events[i] is
                DecodeFailed),
        forall|i: int|
            0 <= i < events.len() && (#[trigger] events[i]) is EndOfStream ==> i == events.len()
                - 1,
{
    lemma_run(track_id, events);
    assert forall|i: int|
        0 <= i < events.len() && #[trigger] events[i] == DecodeEvent::<T>::Packet(
            track_id,
        ) implies i + 1 < events.len() && events[i + 1] is Samples by {
        lemma_followed(track_id, events, i);
        if i + 1 < events.len() {
            lemma_followed(track_id, events, i + 1);
        }
    }
    assert forall|i: int| 0 <= i < events.len() implies !(#[trigger] events[i] is ReadFailed
        || events[i] is DecodeFailed) by {
        lemma_followed(track_id, events, i);
    }
    assert forall|i: int| 0 <= i < events.len() && (#[trigger] events[i]) is EndOfStream implies i
        == events.len() - 1 by {
        lemma_followed(track_id, events, i);
    }
}

/// Every sample of a packet is kept, in its place after those that came before:
/// as it is if the packet has several channels, left and right if it has one.
pub proof fn law_packet_is_kept_whole<T>(before: Seq<T>, samples: Vec<T>, channels: usize)
    ensures
        ({
            let after = stepped(before, DecodeEvent::Samples { samples, channels });
            if channels == 1 {
                &&& after.len() == before.len() + 2 * samples@.len()
                &&& forall|i: int| 0 <= i < before.len() ==> #[trigger] after[i] == before[i]
                &&& forall|k: int|
                    0 <= k < samples@.len() ==> after[before.len() + 2 * k] == #[trigger] samples@[k]
                        && after[before.len() + 2 * k + 1] == samples@[k]
            } else {
                after == before + samples@
            }
        }),
{
}

/// Only decoded packets bring samples.
pub proof fn law_other_events_bring_nothing<T>(before: Seq<T>, event: DecodeEvent<T>)
    requires
        !(event is Samples),
    ensures
        stepped(before, event) == before,
{
    assert(before + Seq::<T>::empty() =~= before);
}

/// How many samples an event has for a stereo clip.
pub open spec fn stereo_len<T>(event: DecodeEvent<T>) -> nat {
    match event {
        DecodeEvent::Samples { samples, channels } => if channels == 1 {
            2 * samples@.len()
        } else {
            samples@.len()
        },
        _ => 0,
    }
}

/// No sample is lost between packets: what a further event adds to a run stands
/// at its end, after all that was there.
pub proof fn law_run_only_grows<T>(events: Seq<DecodeEvent<T>>, event: DecodeEvent<T>)
    ensures
        after_run(events.push(event)).len() == after_run(events).len() + stereo_len(event),
        after_run(events.push(event)).take(after_run(events).len() as int) == after_run(events),
        event matches DecodeEvent::Samples { samples, channels } ==> (channels != 1 ==> after_run(
            events.push(event),
        ).skip(after_run(events).len() as int) == samples@),
{
    let before = after_run(events);
    assert(events.push(event).drop_last() =~= events);
    assert(after_run(events.push(event)) == stepped(before, event));
    if let DecodeEvent::Samples { samples, channels } = event {
        law_packet_is_kept_whole(before, samples, channels);
        assert(after_run(events.push(event)).take(before.len() as int) =~= before);
        if channels != 1 {
            assert((before + samples@).skip(before.len() as int) =~= samples@);
        }
    } else {
        law_other_events_bring_nothing(before, event);
        assert(before.take(before.len() as int) =~= before);
    }
}

/// A packet is decoded exactly if it is of the track; decoding goes on after
/// every packet, ends at the end of the stream, and fails with what went wrong.
pub proof fn law_only_the_track_is_decoded<T>(track_id: u32, event: DecodeEvent<T>)
    ensures
        decided(track_id, event) is DecodePacket <==> event == DecodeEvent::<T>::Packet(track_id),
        decided(track_id, event) is Finish <==> event is EndOfStream,
        decided(track_id, event) is Fail <==> event is ReadFailed || event is DecodeFailed,
        event matches DecodeEvent::ReadFailed(error) ==> decided(track_id, event)
            == DecodeStep::Fail("Packet read error: "@ + error@),
        event matches DecodeEvent::DecodeFailed(error) ==> decided(track_id, event)
            == DecodeStep::Fail("Decode error: "@ + error@),
{
}

} // verus!
