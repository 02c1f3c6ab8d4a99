//! The audio devices in use: one output stream per device, many channel pairs
//! per stream.
//!
//! Opening and closing streams is left to the caller. The router says when a
//! stream has to be opened or closed, and keeps what plays on each device.

use crate::mixer::{
    law_clip_is_heard_whole, law_clip_moves_on_by_what_was_played,
    law_other_clips_stay_as_they_are, law_rendering_is_continuous, mixed, played, DeviceMixer,
    PairAudio,
};
use std::collections::HashMap;
use vstd::arithmetic::div_mod::lemma_div_multiples_vanish;
use vstd::arithmetic::mul::lemma_mul_is_commutative;
use vstd::prelude::*;

verus! {

broadcast use vstd::std_specs::hash::group_hash_axioms;

/// A device with an open stream.
pub struct DeviceState<T> {
    pub mixer: DeviceMixer<T>,
    pub channels: u16,
    pub sample_rate: u32,
}

/// What a device is to the outside: its clips and its stream's configuration.
pub struct Device<T> {
    pub pairs: Map<usize, PairAudio<T>>,
    pub channels: u16,
    pub sample_rate: u32,
}

impl<T> View for DeviceState<T> {
    type V = Device<T>;

    open spec fn view(&self) -> Device<T> {
        Device { pairs: self.mixer@, channels: self.channels, sample_rate: self.sample_rate }
    }
}

impl<T> DeviceState<T> {
    /// A stream has channels, and its mixer is well formed.
    pub open spec fn wf(self) -> bool {
        self.channels > 0 && self.mixer.wf()
    }
}

/// Whether `device` has a stream with just this configuration.
pub open spec fn has_stream<T>(
    devices: Map<usize, Device<T>>,
    device: usize,
    channels: u16,
    sample_rate: u32,
) -> bool {
    devices.contains_key(device) && devices[device].channels == channels
        && devices[device].sample_rate == sample_rate
}

/// The devices once playback has been stopped on one pair of `device`, or on
/// all of them. A device whose last clip goes is given up.
pub open spec fn stopped<T>(
    devices: Map<usize, Device<T>>,
    device: usize,
    pair: Option<usize>,
) -> Map<usize, Device<T>> {
    match pair {
        None => devices.remove(device),
        Some(p) => {
            let left = devices[device].pairs.remove(p);
            if !devices.contains_key(device) {
                devices
            } else if left.is_empty() {
                devices.remove(device)
            } else {
                devices.insert(device, Device { pairs: left, ..devices[device] })
            }
        },
    }
}

/// What `device` sounds like over the next `len` samples of its stream.
pub open spec fn rendered<T>(
    devices: Map<usize, Device<T>>,
    device: usize,
    len: nat,
    silence: T,
) -> Seq<T> {
    if devices.contains_key(device) {
        mixed(devices[device].pairs, devices[device].channels as nat, len, silence)
    } else {
        Seq::new(len, |i: int| silence)
    }
}

/// The devices once `device` has played `len` samples of its stream.
pub open spec fn after_render<T>(
    devices: Map<usize, Device<T>>,
    device: usize,
    len: nat,
) -> Map<usize, Device<T>> {
    if devices.contains_key(device) {
        let state = devices[device];
        let frames = len / (state.channels as nat);
        devices.insert(
            device,
            Device { pairs: played(state.pairs, state.channels as nat, frames), ..state },
        )
    } else {
        devices
    }
}

/// The devices in use, by device index.
pub struct AudioRouter<T> {
    pub devices: HashMap<usize, DeviceState<T>>,
}

impl<T> View for AudioRouter<T> {
    type V = Map<usize, Device<T>>;

    open spec fn view(&self) -> Map<usize, Device<T>> {
        self.devices@.map_values(|state: DeviceState<T>| state@)
    }
}

impl<T> AudioRouter<T> {
    /// Every device is well formed.
    pub open spec fn wf(self) -> bool {
        forall|d: usize| self.devices@.contains_key(d) ==> (#[trigger] self.devices@[d]).wf()
    }

    /// A router that uses no device.
    pub fn new() -> (router: Self)
        ensures
            router.wf(),
            router@ == Map::<usize, Device<T>>::empty(),
    {
        let router = AudioRouter { devices: HashMap::new() };
        assert(router@ =~= Map::<usize, Device<T>>::empty());
        router
    }

    /// First step of a play command: says whether a stream has to be opened,
    /// because the device has none or one of another configuration. A stream
    /// of another configuration is given up.
    pub fn prepare(&mut self, device: usize, channels: u16, sample_rate: u32) -> (open: bool)
        requires
            old(self).wf(),
        ensures
            final(self).wf(),
            open == !has_stream(old(self)@, device, channels, sample_rate),
            final(self)@ == if open {
                old(self)@.remove(device)
            } else {
                old(self)@
            },
    {
        let ghost before = *self;
        let open = match self.devices.get(&device) {
            None => true,
            Some(state) => state.channels != channels || state.sample_rate != sample_rate,
        };
        if open {
            self.devices.remove(&device);
            proof {
                lemma_kept(before, *self);
                assert(self@ =~= before@.remove(device));
            }
        }
        open
    }

    /// Second step of a play command that had to open a stream: the stream
    /// runs, with nothing on it yet.
    pub fn stream_opened(&mut self, device: usize, channels: u16, sample_rate: u32)
        requires
            old(self).wf(),
            channels > 0,
        ensures
            final(self).wf(),
            final(self)@ == old(self)@.insert(
                device,
                (Device { pairs: Map::<usize, PairAudio<T>>::empty(), channels, sample_rate }),
            ),
    {
        let ghost before = *self;
        let state = DeviceState { mixer: DeviceMixer::new(), channels, sample_rate };
        self.devices.insert(device, state);
        proof {
            lemma_put(before, *self, device, state);
        }
    }

    /// Last step of a play command: starts the clip on its pair, and gives
    /// back its duration. Without a stream nothing changes.
    pub fn play(
        &mut self,
        device: usize,
        channel_pair: usize,
        stereo_pcm: Vec<T>,
        duration_ms: u64,
    ) -> (reply: Result<u64, String>)
        requires
            old(self).wf(),
        ensures
            final(self).wf(),
            match reply {
                Ok(ms) => {
                    &&& old(self)@.contains_key(device)
                    &&& ms == duration_ms
                    &&& final(self)@ == old(self)@.insert(
                        device,
                        (Device {
                            pairs: old(self)@[device].pairs.insert(
                                channel_pair,
                                (PairAudio { samples: stereo_pcm, position: 0 }),
                            ),
                            ..old(self)@[device]
                        }),
                    )
                },
                Err(error) => {
                    &&& !old(self)@.contains_key(device)
                    &&& error@ == "Device state missing"@
                    &&& final(self)@ == old(self)@
                },
            },
    {
        let ghost before = *self;
        match self.devices.remove(&device) {
            Some(mut state) => {
                assert(before.devices@[device].wf());
                state.mixer.insert(channel_pair, stereo_pcm);
                let ghost inserted = state;
                self.devices.insert(device, state);
                proof {
                    lemma_put(before, *self, device, inserted);
                }
                Ok(duration_ms)
            },
            None => {
                assert(self.devices@ =~= before.devices@);
                Err("Device state missing".to_owned())
            },
        }
    }

    /// A stop command: ends playback on one pair, or on the whole device. Says
    /// whether the device's stream has to be closed.
    pub fn stop(&mut self, device: usize, channel_pair: Option<usize>) -> (close: bool)
        requires
            old(self).wf(),
        ensures
            final(self).wf(),
            final(self)@ == stopped(old(self)@, device, channel_pair),
            close == (old(self)@.contains_key(device) && !final(self)@.contains_key(device)),
    {
        let ghost before = *self;
        match self.devices.remove(&device) {
            None => {
                assert(self.devices@ =~= before.devices@);
                assert(before@.remove(device) =~= before@);
                false
            },
            Some(mut state) => {
                proof {
                    lemma_kept(before, *self);
                    assert(self@ =~= before@.remove(device));
                    assert(before.devices@[device].wf());
                }
                match channel_pair {
                    None => true,
                    Some(pair) => {
                        if state.mixer.remove(pair) {
                            true
                        } else {
                            let ghost left = state;
                            self.devices.insert(device, state);
                            proof {
                                lemma_put(before, *self, device, left);
                            }
                            false
                        }
                    },
                }
            },
        }
    }

    /// Fills the next buffer of `device`'s stream. A device that is not in use
    /// is silent.
    pub fn render(&mut self, device: usize, data: &mut [T], silence: T) where T: Copy
        requires
            old(self).wf(),
        ensures
            final(self).wf(),
            final(data)@ == rendered(old(self)@, device, old(data)@.len(), silence),
            final(self)@ == after_render(old(self)@, device, old(data)@.len()),
    {
        let ghost before = *self;
        match self.devices.remove(&device) {
            Some(mut state) => {
                assert(before.devices@[device].wf());
                state.mixer.render(state.channels, data, silence);
                let ghost left = state;
                self.devices.insert(device, state);
                proof {
                    lemma_put(before, *self, device, left);
                }
            },
            None => {
                assert(self.devices@ =~= before.devices@);
                let mut idle: DeviceMixer<T> = DeviceMixer::new();
                let ghost len = data@.len();
                idle.render(1, data, silence);
                assert(data@ =~= Seq::new(len, |i: int| silence));
            },
        }
    }
}

/// Devices that are kept stay well formed.
proof fn lemma_kept<T>(before: AudioRouter<T>, after: AudioRouter<T>)
    requires
        before.wf(),
        forall|d: usize|
            #![trigger after.devices@[d]]
            after.devices@.contains_key(d) ==> before.devices@.contains_key(d)
                && after.devices@[d] == before.devices@[d],
    ensures
        after.wf(),
{
    assert forall|d: usize| after.devices@.contains_key(d) implies (
    #[trigger] after.devices@[d]).wf() by {
        assert(after.devices@[d] == before.devices@[d]);
    }
}

/// One device is replaced, the others are kept.
proof fn lemma_put<T>(
    before: AudioRouter<T>,
    after: AudioRouter<T>,
    device: usize,
    state: DeviceState<T>,
)
    requires
        before.wf(),
        state.wf(),
        after.devices@ == before.devices@.insert(device, state) || after.devices@
            == before.devices@.remove(device).insert(device, state),
    ensures
        after.wf(),
        after@ == before@.insert(device, state@),
{
    assert forall|d: usize| after.devices@.contains_key(d) implies (
    #[trigger] after.devices@[d]).wf() by {
        if d != device {
            assert(before.devices@[d].wf());
        }
    }
    assert(after@ =~= before@.insert(device, state@));
}

/// A device that has been stopped as a whole is silent.
pub proof fn law_stopped_device_is_silent<T>(
    devices: Map<usize, Device<T>>,
    device: usize,
    len: nat,
    silence: T,
)
    ensures
        rendered(stopped(devices, device, None), device, len, silence) == Seq::new(
            len,
            |i: int| silence,
        ),
{
}

/// Stopping one pair silences its channels and leaves every other channel of
/// the device as it was, also when the device is given up with it.
pub proof fn law_stopping_a_pair_leaves_the_others<T>(
    devices: Map<usize, Device<T>>,
    device: usize,
    pair: usize,
    len: nat,
    silence: T,
    index: int,
)
    requires
        devices.contains_key(device),
        devices[device].channels > 0,
        0 <= index < len,
    ensures
        rendered(stopped(devices, device, Some(pair)), device, len, silence)[index] == if (index
            % devices[device].channels as int) / 2 == pair {
            silence
        } else {
            rendered(devices, device, len, silence)[index]
        },
{
    let left = devices[device].pairs.remove(pair);
    let channel = index % devices[device].channels as int;
    vstd::arithmetic::div_mod::lemma_mod_bound(index, devices[device].channels as int);
    if left.is_empty() {
        assert(!left.contains_key((channel / 2) as usize));
    }
}

/// Stopping playback on one device, or playing on it, is not heard on another.
pub proof fn law_devices_do_not_interfere<T>(
    devices: Map<usize, Device<T>>,
    device: usize,
    state: Device<T>,
    pair: Option<usize>,
    other: usize,
    len: nat,
    silence: T,
)
    requires
        other != device,
    ensures
        rendered(stopped(devices, device, pair), other, len, silence) == rendered(
            devices,
            other,
            len,
            silence,
        ),
        rendered(devices.insert(device, state), other, len, silence) == rendered(
            devices,
            other,
            len,
            silence,
        ),
        rendered(after_render(devices, device, len), other, len, silence) == rendered(
            devices,
            other,
            len,
            silence,
        ),
{
}

/// A device plays on where its last buffer ended: two buffers, one after the
/// other, sound like one.
pub proof fn law_device_plays_on<T>(
    devices: Map<usize, Device<T>>,
    device: usize,
    first: nat,
    second: nat,
    silence: T,
)
    requires
        devices.contains_key(device),
        devices[device].channels > 0,
        forall|p: usize|
            devices[device].pairs.contains_key(p) ==> (#[trigger] devices[device].pairs[p]).wf(),
    ensures
        ({
            let c = devices[device].channels as nat;
            rendered(devices, device, first * c, silence) + rendered(
                after_render(devices, device, first * c),
                device,
                second * c,
                silence,
            ) == rendered(devices, device, (first + second) * c, silence)
        }),
{
    let c = devices[device].channels as nat;
    lemma_mul_is_commutative(first as int, c as int);
    lemma_div_multiples_vanish(first as int, c as int);
    law_rendering_is_continuous(devices[device].pairs, c, first, second, silence);
}

/// A buffer moves the clips of its device on by its whole frames: a clip goes on
/// two samples further for each of them, is gone when it has come to its end,
/// and waits if its pair is not on the device. The stream stays as it is.
pub proof fn law_buffer_moves_clips_on<T>(
    devices: Map<usize, Device<T>>,
    device: usize,
    len: nat,
    pair: usize,
)
    requires
        devices.contains_key(device),
        devices[device].channels > 0,
        devices[device].pairs.contains_key(pair),
        devices[device].pairs[pair].wf(),
    ensures
        ({
            let before = devices[device];
            let clip = before.pairs[pair];
            let after = after_render(devices, device, len)[device];
            let frames = len / (before.channels as nat);
            &&& after_render(devices, device, len).dom() == devices.dom()
            &&& after.channels == before.channels
            &&& after.sample_rate == before.sample_rate
            &&& if 2 * pair + 1 >= before.channels {
                after.pairs.contains_key(pair) && after.pairs[pair] == clip
            } else if clip.position + 2 * frames < clip.samples@.len() {
                &&& after.pairs.contains_key(pair)
                &&& after.pairs[pair].samples@ == clip.samples@
                &&& after.pairs[pair].position == clip.position + 2 * frames
            } else {
                !after.pairs.contains_key(pair)
            }
        }),
{
    let before = devices[device];
    let frames = len / (before.channels as nat);
    assert(after_render(devices, device, len).dom() =~= devices.dom());
    if 2 * pair + 1 < before.channels {
        law_clip_moves_on_by_what_was_played(before.pairs, before.channels as nat, frames, pair);
    } else {
        law_other_clips_stay_as_they_are(before.pairs, before.channels as nat, frames, pair);
    }
}

/// A clip that is put on a pair of a device is heard on the two channels of the
/// pair from its first sample on, whatever played there before.
pub proof fn law_clip_is_heard_on_its_pair<T>(
    devices: Map<usize, Device<T>>,
    device: usize,
    pair: usize,
    samples: Vec<T>,
    len: nat,
    silence: T,
    frame: int,
)
    requires
        devices.contains_key(device),
        2 * pair + 1 < devices[device].channels,
        0 <= frame < len / (devices[device].channels as nat),
    ensures
        ({
            let c = devices[device].channels;
            let clip = PairAudio { samples, position: 0 };
            let playing = Device {
                pairs: devices[device].pairs.insert(pair, clip),
                ..devices[device]
            };
            let out = rendered(devices.insert(device, playing), device, len, silence);
            let left = out[frame * c + 2 * pair];
            let right = out[frame * c + 2 * pair + 1];
            if 2 * frame + 1 < samples@.len() {
                left == samples@[2 * frame] && right == samples@[2 * frame + 1]
            } else if 2 * frame + 1 == samples@.len() {
                left == samples@[2 * frame] && right == samples@[2 * frame]
            } else {
                left == silence && right == silence
            }
        }),
{
    law_clip_is_heard_whole(
        devices[device].pairs,
        samples,
        devices[device].channels as nat,
        len,
        silence,
        pair,
        frame,
    );
}

/// A stream serves a play command exactly if it is open on the device, with as
/// many channels and the same rate.
pub proof fn law_stream_is_kept_for_its_configuration<T>(
    devices: Map<usize, Device<T>>,
    device: usize,
    state: Device<T>,
    channels: u16,
    sample_rate: u32,
)
    ensures
        has_stream(devices.insert(device, state), device, channels, sample_rate) <==> (channels,
            sample_rate) == (state.channels, state.sample_rate),
        !has_stream(devices.remove(device), device, channels, sample_rate),
{
}

/// A stop gives a device up exactly if none of its clips is left, and changes
/// nothing else: the other clips of the device are where they were, its stream
/// is the same, and so are the other devices.
pub proof fn law_stop_takes_no_more_than_it_should<T>(
    devices: Map<usize, Device<T>>,
    device: usize,
    pair: Option<usize>,
    other: usize,
)
    ensures
        ({
            let after = stopped(devices, device, pair);
            &&& other != device ==> after.contains_key(other) == devices.contains_key(other)
                && after[other] == devices[other]
            &&& after.contains_key(device) <==> devices.contains_key(device) && (pair matches Some(
                p,
            ) && exists|q: usize| q != p && #[trigger] devices[device].pairs.contains_key(q))
            &&& after.contains_key(device) ==> {
                &&& after[device].channels == devices[device].channels
                &&& after[device].sample_rate == devices[device].sample_rate
                &&& !after[device].pairs.contains_key(pair->0)
                &&& forall|q: usize| #[trigger]
                    after[device].pairs.contains_key(q) == (q != pair->0
                        && devices[device].pairs.contains_key(q))
                &&& forall|q: usize|
                    after[device].pairs.contains_key(q) ==> #[trigger] after[device].pairs[q]
                        == devices[device].pairs[q]
            }
        }),
{
    if devices.contains_key(device) && pair is Some {
        let left = devices[device].pairs.remove(pair->0);
        if left.is_empty() {
            assert(left =~= Map::<usize, PairAudio<T>>::empty());
            assert forall|q: usize| q != pair->0 implies
                !#[trigger] devices[device].pairs.contains_key(q) by {
                assert(!left.contains_key(q));
            }
        } else if forall|q: usize|
            q != pair->0 ==> !#[trigger] devices[device].pairs.contains_key(q) {
            assert(left =~= Map::<usize, PairAudio<T>>::empty());
        }
    }
}

} // verus!
