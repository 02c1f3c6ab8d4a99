//! Playback requests: which output configuration serves a channel pair, how
//! long a clip lasts, and what is answered.

use crate::http::{BAD_REQUEST, INTERNAL_SERVER_ERROR};
use crate::text::{decimal, decimal_text, joined};
use vstd::prelude::*;
use vstd::string::*;

verus! {

/// An output configuration that a device offers.
#[derive(Clone, Copy, Debug, PartialEq, Eq, Structural)]
pub struct OutputConfig {
    pub channels: u16,
    pub max_sample_rate: u32,
}

/// What is listed of an output device.
#[derive(Debug)]
pub struct DeviceInfo {
    pub index: usize,
    pub name: String,
    pub max_channels: u16,
}

/// Whether `max` is the largest of `channels`, or zero if there are none.
pub open spec fn is_max_channels(channels: Seq<u16>, max: u16) -> bool {
    &&& forall|i: int| 0 <= i < channels.len() ==> channels[i] <= max
    &&& max == 0 || channels.contains(max)
}

/// What is listed of the device at `index`, from its name, if it could be
/// read, and the channel counts of its configurations.
pub fn describe_device(index: usize, name: Option<String>, channels: &Vec<u16>) -> (info: DeviceInfo)
    ensures
        info.index == index,
        info.name@ == match name {
            Some(n) => n@,
            None => "Device "@ + decimal(index as nat),
        },
        is_max_channels(channels@, info.max_channels),
{
    let name = match name {
        Some(name) => name,
        None => joined("Device ", &decimal_text(index as u64)),
    };
    let mut max_channels: u16 = 0;
    let mut i: usize = 0;
    while i < channels.len()
        invariant
            i <= channels.len(),
            forall|j: int| 0 <= j < i ==> channels[j] <= max_channels,
            max_channels == 0 || channels@.contains(max_channels),
        decreases channels.len() - i,
    {
        if channels[i] > max_channels {
            max_channels = channels[i];
            assert(channels@[i as int] == max_channels);
        }
        i = i + 1;
    }
    DeviceInfo { index, name, max_channels }
}

/// The message for devices that could not be listed.
pub fn listing_failure_message(error: &str) -> (message: String)
    ensures
        message@ == "Failed to enumerate devices: "@ + error@,
{
    joined("Failed to enumerate devices: ", error)
}

/// How many channels a device needs for `channel_pair`. The count is kept in
/// 16 bits and starts over beyond them.
pub fn needed_channels(channel_pair: usize) -> (count: u16)
    requires
        (channel_pair + 1) * 2 <= usize::MAX,
    ensures
        count == ((channel_pair + 1) * 2) % 65536,
{
    (((channel_pair + 1) * 2) % 65536) as u16
}

/// Whether the configuration at `i` is the one to use: it has channels enough,
/// none has more, and of those with as many it is the last.
pub open spec fn is_choice(configs: Seq<OutputConfig>, needed: u16, i: int) -> bool {
    &&& 0 <= i < configs.len()
    &&& configs[i].channels >= needed
    &&& forall|j: int| 0 <= j < configs.len() ==> configs[j].channels <= configs[i].channels
    &&& forall|j: int| i < j < configs.len() ==> configs[j].channels < configs[i].channels
}

/// The configuration to use: the last of those with the most channels, if
/// those are enough.
pub fn choose_output(configs: &Vec<OutputConfig>, needed: u16) -> (choice: Option<OutputConfig>)
    ensures
        match choice {
            Some(config) => exists|i: int|
                #[trigger] is_choice(configs@, needed, i) && configs[i] == config,
            None => forall|i: int| 0 <= i < configs.len() ==> configs[i].channels < needed,
        },
{
    let mut best: Option<usize> = None;
    let mut i: usize = 0;
    while i < configs.len()
        invariant
            i <= configs.len(),
            match best {
                Some(b) => {
                    &&& b < i
                    &&& configs[b as int].channels >= needed
                    &&& forall|j: int| 0 <= j < i ==> configs[j].channels <= configs[b as int].channels
                    &&& forall|j: int| b < j < i ==> configs[j].channels < configs[b as int].channels
                },
                None => forall|j: int| 0 <= j < i ==> configs[j].channels < needed,
            },
        decreases configs.len() - i,
    {
        let better = match best {
            Some(b) => configs[i].channels >= configs[b].channels,
            None => configs[i].channels >= needed,
        };
        if better {
            best = Some(i);
        }
        i = i + 1;
    }
    match best {
        Some(b) => {
            assert(is_choice(configs@, needed, b as int));
            Some(configs[b])
        },
        None => None,
    }
}

/// Why a playback request failed.
#[derive(Debug)]
pub enum PlayError {
    /// Why the devices could not be listed.
    Enumerate(String),
    /// There is no device with this index.
    NoDevice(usize),
    /// Why the device's configurations could not be read.
    NoConfigs(String),
    /// No configuration of the device has channels enough for the pair.
    Unsupported { device: String, channels: u16, channel_pair: usize },
    /// Why the audio could not be fetched.
    Fetch(String),
    /// Why the fetched audio could not be read.
    ReadBytes(String),
    /// Why the audio could not be decoded.
    Decode(String),
    /// The audio thread does not run.
    NoAudioThread,
    /// What the audio thread answered.
    Rejected(String),
    /// The audio thread did not answer.
    NoReply,
}

impl PlayError {
    /// The status code for a failure. What the request asked for and what it
    /// pointed to are the sender's responsibility.
    pub open spec fn code(self) -> u16 {
        match self {
            PlayError::NoDevice(_) => BAD_REQUEST,
            PlayError::Unsupported { .. } => BAD_REQUEST,
            PlayError::Fetch(_) => BAD_REQUEST,
            PlayError::ReadBytes(_) => BAD_REQUEST,
            _ => INTERNAL_SERVER_ERROR,
        }
    }

    /// The message for a failure.
    pub open spec fn text(self) -> Seq<char> {
        match self {
            PlayError::Enumerate(error) => "Enumerate failed: "@ + error@,
            PlayError::NoDevice(index) => "Device "@ + decimal(index as nat) + " not found"@,
            PlayError::NoConfigs(error) => "No output configs: "@ + error@,
            PlayError::Unsupported { device, channels, channel_pair } => "Device '"@ + device@
                + "' doesn't support "@ + decimal(channels as nat) + " channels (need pair "@
                + decimal(channel_pair as nat) + ")"@,
            PlayError::Fetch(error) => "Fetch failed: "@ + error@,
            PlayError::ReadBytes(error) => "Read bytes failed: "@ + error@,
            PlayError::Decode(error) => "Decode: "@ + error@,
            PlayError::NoAudioThread => "Audio thread not running"@,
            PlayError::Rejected(error) => error@,
            PlayError::NoReply => "Audio thread dropped reply"@,
        }
    }

    /// The status code for a failure.
    pub fn status(&self) -> (code: u16)
        ensures
            code == self.code(),
    {
        match self {
            PlayError::NoDevice(_) => BAD_REQUEST,
            PlayError::Unsupported { .. } => BAD_REQUEST,
            PlayError::Fetch(_) => BAD_REQUEST,
            PlayError::ReadBytes(_) => BAD_REQUEST,
            _ => INTERNAL_SERVER_ERROR,
        }
    }

    /// The message for a failure.
    pub fn message(&self) -> (message: String)
        ensures
            message@ == self.text(),
    {
        match self {
            PlayError::Enumerate(error) => joined("Enumerate failed: ", error),
            PlayError::NoDevice(index) => {
                let mut message = joined("Device ", &decimal_text(*index as u64));
                message.append(" not found");
                message
            },
            PlayError::NoConfigs(error) => joined("No output configs: ", error),
            PlayError::Unsupported { device, channels, channel_pair } => {
                let mut message = joined("Device '", device);
                message.append("' doesn't support ");
                message.append(&decimal_text(*channels as u64));
                message.append(" channels (need pair ");
                message.append(&decimal_text(*channel_pair as u64));
                message.append(")");
                message
            },
            PlayError::Fetch(error) => joined("Fetch failed: ", error),
            PlayError::ReadBytes(error) => joined("Read bytes failed: ", error),
            PlayError::Decode(error) => joined("Decode: ", error),
            PlayError::NoAudioThread => "Audio thread not running".to_owned(),
            PlayError::Rejected(error) => error.clone(),
            PlayError::NoReply => "Audio thread dropped reply".to_owned(),
        }
    }
}

/// The configuration with which `device` plays `channel_pair`.
pub fn plan_output(device: String, channel_pair: usize, configs: &Vec<OutputConfig>) -> (plan: Result<
    OutputConfig,
    PlayError,
>)
    requires
        (channel_pair + 1) * 2 <= usize::MAX,
    ensures
        ({
            let needed = (((channel_pair + 1) * 2) % 65536) as u16;
            match plan {
                Ok(config) => exists|i: int|
                    #[trigger] is_choice(configs@, needed, i) && configs[i] == config,
                Err(error) => {
                    &&& forall|i: int| 0 <= i < configs.len() ==> configs[i].channels < needed
                    &&& error == (PlayError::Unsupported { device, channels: needed, channel_pair })
                },
            }
        }),
{
    let needed = needed_channels(channel_pair);
    match choose_output(configs, needed) {
        Some(config) => Ok(config),
        None => Err(PlayError::Unsupported { device, channels: needed, channel_pair }),
    }
}

/// How long a stereo clip lasts, in whole milliseconds.
pub fn clip_duration_ms(sample_count: usize, sample_rate: u32) -> (ms: u64)
    requires
        sample_rate > 0,
        (sample_count / 2) * 1000 <= u64::MAX,
    ensures
        ms == ((sample_count / 2) * 1000) / (sample_rate as int),
        // The clip lasts that long, and less than a millisecond more.
        ms * sample_rate <= (sample_count / 2) * 1000 < (ms + 1) * sample_rate,
{
    let frames: u64 = (sample_count / 2) as u64;
    proof {
        let whole = frames * 1000;
        let rate = sample_rate as int;
        vstd::arithmetic::div_mod::lemma_fundamental_div_mod(whole, rate);
        vstd::arithmetic::div_mod::lemma_mod_bound(whole, rate);
        assert((whole / rate) * rate == rate * (whole / rate) && (whole / rate + 1) * rate == rate
            * (whole / rate) + rate) by (nonlinear_arith);
    }
    (frames * 1000) / (sample_rate as u64)
}

/// What a playback or stop request is answered if it succeeds.
#[derive(Debug)]
pub struct PlayResponse {
    pub ok: bool,
    pub duration_ms: Option<u64>,
    pub error: Option<String>,
}

/// The answer to a playback request, from what the audio thread replied; none
/// if it did not.
pub fn play_answer(reply: Option<Result<u64, String>>) -> (answer: Result<PlayResponse, PlayError>)
    ensures
        match reply {
            Some(Ok(ms)) => answer == Ok::<PlayResponse, PlayError>(
                (PlayResponse { ok: true, duration_ms: Some(ms), error: None }),
            ),
            Some(Err(error)) => answer == Err::<PlayResponse, PlayError>(
                PlayError::Rejected(error),
            ),
            None => answer == Err::<PlayResponse, PlayError>(PlayError::NoReply),
        },
{
    match reply {
        Some(Ok(ms)) => Ok(PlayResponse { ok: true, duration_ms: Some(ms), error: None }),
        Some(Err(error)) => Err(PlayError::Rejected(error)),
        None => Err(PlayError::NoReply),
    }
}

/// The answer to a stop request, from whether it reached the audio thread.
pub fn stop_answer(sent: bool) -> (answer: Result<PlayResponse, PlayError>)
    ensures
        answer == if sent {
            Ok::<PlayResponse, PlayError>(
                (PlayResponse { ok: true, duration_ms: None, error: None }),
            )
        } else {
            Err(PlayError::NoAudioThread)
        },
{
    if sent {
        Ok(PlayResponse { ok: true, duration_ms: None, error: None })
    } else {
        Err(PlayError::NoAudioThread)
    }
}

/// The log message for a clip that plays. Channels are counted from one.
pub fn playing_message(device: &str, channel_pair: usize, duration_ms: u64) -> (message: String)
    requires
        (channel_pair + 1) * 2 <= usize::MAX,
    ensures
        message@ == "[AudioRouter] Playing on '"@ + device@ + "' ch "@ + decimal(
            (channel_pair * 2 + 1) as nat,
        ) + "-"@ + decimal((channel_pair * 2 + 2) as nat) + " (pair "@ + decimal(
            channel_pair as nat,
        ) + ") duration "@ + decimal(duration_ms as nat) + "ms"@,
{
    let mut message = joined("[AudioRouter] Playing on '", device);
    message.append("' ch ");
    message.append(&decimal_text((channel_pair * 2 + 1) as u64));
    message.append("-");
    message.append(&decimal_text((channel_pair * 2 + 2) as u64));
    message.append(" (pair ");
    message.append(&decimal_text(channel_pair as u64));
    message.append(") duration ");
    message.append(&decimal_text(duration_ms));
    message.append("ms");
    message
}

/// Why the stream of a device could not be opened.
pub enum StreamError {
    /// Why the devices could not be listed.
    Enumerate(String),
    /// There is no device with this index.
    NoDevice(usize),
    /// Why the stream could not be made.
    Build(String),
    /// Why the stream could not be started.
    Play(String),
}

/// The message for a stream that could not be opened.
pub fn stream_error_message(error: &StreamError) -> (message: String)
    ensures
        message@ == match error {
            StreamError::Enumerate(e) => "Enumerate failed: "@ + e@,
            StreamError::NoDevice(index) => "Device "@ + decimal(*index as nat) + " not found"@,
            StreamError::Build(e) => "Build stream failed: "@ + e@,
            StreamError::Play(e) => "Play failed: "@ + e@,
        },
{
    match error {
        StreamError::Enumerate(e) => joined("Enumerate failed: ", e),
        StreamError::NoDevice(index) => {
            let mut message = joined("Device ", &decimal_text(*index as u64));
            message.append(" not found");
            message
        },
        StreamError::Build(e) => joined("Build stream failed: ", e),
        StreamError::Play(e) => joined("Play failed: ", e),
    }
}

/// For a pair that fits the 16-bit channel count, a configuration that is
/// chosen makes the pair audible on the device.
pub proof fn law_chosen_output_carries_the_pair(
    configs: Seq<OutputConfig>,
    channel_pair: usize,
    i: int,
)
    requires
        (channel_pair + 1) * 2 < 65536,
        is_choice(configs, (((channel_pair + 1) * 2) % 65536) as u16, i),
    ensures
        crate::mixer::audible(channel_pair, configs[i].channels as nat),
{
}

/// Of the configurations of a device the chosen one has the most channels, as
/// many as are needed, and none after it has as many.
pub proof fn law_chosen_output_has_the_most_channels(
    configs: Seq<OutputConfig>,
    needed: u16,
    i: int,
    j: int,
)
    requires
        is_choice(configs, needed, i),
        0 <= j < configs.len(),
    ensures
        0 <= i < configs.len(),
        configs[i].channels >= needed,
        configs[j].channels <= configs[i].channels,
        j > i ==> configs[j].channels < configs[i].channels,
        is_choice(configs, needed, j) ==> j == i,
{
}

/// The channels that are listed for a device are the most that it offers.
pub proof fn law_most_channels_are_listed(channels: Seq<u16>, max: u16, i: int)
    requires
        is_max_channels(channels, max),
    ensures
        0 <= i < channels.len() ==> channels[i] <= max,
        channels.len() == 0 ==> max == 0,
        max > 0 ==> channels.contains(max),
{
}

/// What the request asked for, or pointed to, is answered as the sender's error;
/// what went wrong here is not.
pub proof fn law_senders_errors_are_told_apart(error: PlayError)
    ensures
        error.code() == if error is NoDevice || error is Unsupported || error is Fetch || error
            is ReadBytes {
            400u16
        } else {
            500u16
        },
{
}

} // verus!
