//! Audio helpers of the WebRTC pipeline elements: Opus parameter selection,
//! little-endian PCM conversion and frame timing.

use vstd::prelude::*;
use crate::element::ElementConfig;
use crate::error::ElementError;
use crate::media::{AudioFrame, SampleFormat, samples_in};
use crate::text::{decimal, push_decimal};
use crate::frame::{Frame, FrameId, FrameSequencer, StreamId};

verus! {

/// Opus application mode selection.
#[derive(Clone, Copy, Debug, PartialEq, Eq, Structural)]
pub enum OpusApplication {
    /// Best for most VoIP/videoconference applications.
    Voip,
    /// Best for broadcast/high-fidelity applications.
    Audio,
    /// Only when the lowest achievable latency is critical.
    LowDelay,
}

/// Configuration of the WebRTC audio sink.
#[derive(Clone, Copy, Debug, PartialEq, Eq, Structural)]
pub struct WebRtcAudioSinkConfig {
    /// Target sample rate: one of 8000, 12000, 16000, 24000, 48000.
    pub sample_rate: u32,
    /// Number of channels (1 = mono, 2 = stereo).
    pub channels: u16,
    /// Opus application mode.
    pub application: OpusApplication,
}

impl Default for WebRtcAudioSinkConfig {
    fn default() -> (r: WebRtcAudioSinkConfig)
        ensures
            r == (WebRtcAudioSinkConfig { sample_rate: 48000, channels: 2, application: OpusApplication::Voip }),
    {
        WebRtcAudioSinkConfig { sample_rate: 48000, channels: 2, application: OpusApplication::Voip }
    }
}

/// The sample rates Opus supports.
#[derive(Clone, Copy, Debug, PartialEq, Eq, Structural)]
pub enum OpusSampleRate {
    Hz8000,
    Hz12000,
    Hz16000,
    Hz24000,
    Hz48000,
}

/// The channel layouts Opus supports.
#[derive(Clone, Copy, Debug, PartialEq, Eq, Structural)]
pub enum OpusChannels {
    Mono,
    Stereo,
}

/// The Opus sample rate of `rate` Hz, if Opus supports it.
pub open spec fn opus_rate_of(rate: u32) -> Option<OpusSampleRate> {
    if rate == 8000 {
        Some(OpusSampleRate::Hz8000)
    } else if rate == 12000 {
        Some(OpusSampleRate::Hz12000)
    } else if rate == 16000 {
        Some(OpusSampleRate::Hz16000)
    } else if rate == 24000 {
        Some(OpusSampleRate::Hz24000)
    } else if rate == 48000 {
        Some(OpusSampleRate::Hz48000)
    } else {
        None
    }
}

/// The Opus channel layout of `ch` channels, if Opus supports it.
pub open spec fn opus_channels_of(ch: u16) -> Option<OpusChannels> {
    if ch == 1 {
        Some(OpusChannels::Mono)
    } else if ch == 2 {
        Some(OpusChannels::Stereo)
    } else {
        None
    }
}

fn opus_rate(rate: u32) -> (r: Option<OpusSampleRate>)
    ensures
        r == opus_rate_of(rate),
{
    match rate {
        8000 => Some(OpusSampleRate::Hz8000),
        12000 => Some(OpusSampleRate::Hz12000),
        16000 => Some(OpusSampleRate::Hz16000),
        24000 => Some(OpusSampleRate::Hz24000),
        48000 => Some(OpusSampleRate::Hz48000),
        _ => None,
    }
}

fn opus_channels(ch: u16) -> (r: Option<OpusChannels>)
    ensures
        r == opus_channels_of(ch),
{
    match ch {
        1 => Some(OpusChannels::Mono),
        2 => Some(OpusChannels::Stereo),
        _ => None,
    }
}

/// The encoder's sample rate for `rate`; a configuration error naming the supported rates otherwise.
pub fn to_audiopus_sample_rate(rate: u32) -> (r: Result<OpusSampleRate, ElementError>)
    ensures
        opus_rate_of(rate) matches Some(s) ==> r == Ok::<OpusSampleRate, ElementError>(s),
        opus_rate_of(rate) is None ==> (r matches Err(ElementError::Configuration(msg)) && msg@
            == "Unsupported Opus sample rate: "@ + decimal(rate as nat)
            + ". Must be 8000/12000/16000/24000/48000."@),
{
    match opus_rate(rate) {
        Some(s) => Ok(s),
        None => {
            let mut msg = String::from_str("Unsupported Opus sample rate: ");
            push_decimal(&mut msg, rate as u64);
            msg.append(". Must be 8000/12000/16000/24000/48000.");
            Err(ElementError::Configuration(msg))
        },
    }
}

/// The encoder's channel layout for `ch`; a configuration error naming the supported counts otherwise.
pub fn to_audiopus_channels(ch: u16) -> (r: Result<OpusChannels, ElementError>)
    ensures
        opus_channels_of(ch) matches Some(c) ==> r == Ok::<OpusChannels, ElementError>(c),
        opus_channels_of(ch) is None ==> (r matches Err(ElementError::Configuration(msg)) && msg@
            == "Unsupported channel count: "@ + decimal(ch as nat) + ". Must be 1 (mono) or 2 (stereo)."@),
{
    match opus_channels(ch) {
        Some(c) => Ok(c),
        None => {
            let mut msg = String::from_str("Unsupported channel count: ");
            push_decimal(&mut msg, ch as u64);
            msg.append(". Must be 1 (mono) or 2 (stereo).");
            Err(ElementError::Configuration(msg))
        },
    }
}

/// The decoder's sample rate for `rate`; a processing error naming the rate otherwise.
pub fn decoder_sample_rate(rate: u32) -> (r: Result<OpusSampleRate, ElementError>)
    ensures
        opus_rate_of(rate) matches Some(s) ==> r == Ok::<OpusSampleRate, ElementError>(s),
        opus_rate_of(rate) is None ==> (r matches Err(ElementError::Processing(msg)) && msg@
            == "Unsupported Opus sample rate: "@ + decimal(rate as nat)),
{
    match opus_rate(rate) {
        Some(s) => Ok(s),
        None => {
            let mut msg = String::from_str("Unsupported Opus sample rate: ");
            push_decimal(&mut msg, rate as u64);
            Err(ElementError::Processing(msg))
        },
    }
}

/// The decoder's channel layout for `ch`; a processing error naming the count otherwise.
pub fn decoder_channels(ch: u16) -> (r: Result<OpusChannels, ElementError>)
    ensures
        opus_channels_of(ch) matches Some(c) ==> r == Ok::<OpusChannels, ElementError>(c),
        opus_channels_of(ch) is None ==> (r matches Err(ElementError::Processing(msg)) && msg@
            == "Unsupported channel count: "@ + decimal(ch as nat)),
{
    match opus_channels(ch) {
        Some(c) => Ok(c),
        None => {
            let mut msg = String::from_str("Unsupported channel count: ");
            push_decimal(&mut msg, ch as u64);
            Err(ElementError::Processing(msg))
        },
    }
}

/// The audio sink accepts only I16Le frames; a processing error otherwise.
pub fn require_i16le(frame: &AudioFrame) -> (r: Result<(), ElementError>)
    ensures
        frame.format == SampleFormat::I16Le ==> r is Ok,
        frame.format != SampleFormat::I16Le ==> (r matches Err(ElementError::Processing(msg)) && msg@
            == "WebRtcAudioSink requires I16Le audio frames"@),
{
    match frame.format {
        SampleFormat::I16Le => Ok(()),
        _ => Err(ElementError::Processing(String::from_str("WebRtcAudioSink requires I16Le audio frames"))),
    }
}

/// The duration of a frame in whole milliseconds: samples per channel times 1000 over the sample rate.
pub fn frame_duration_ms(frame: &AudioFrame) -> (r: u64)
    requires
        frame.sample_rate > 0,
        samples_in(frame.data@.len() as int, frame.channels as int, frame.format) * 1000 <= u64::MAX,
    ensures
        r == samples_in(frame.data@.len() as int, frame.channels as int, frame.format) * 1000
            / (frame.sample_rate as int),
{
    let n: usize = frame.samples_per_channel();
    (n as u64 * 1000) / frame.sample_rate as u64
}

/// Capacity of the PCM decode buffer: 120 ms (the longest Opus frame) of all channels.
pub fn opus_pcm_capacity(sample_rate: u32, channels: u16) -> (r: usize)
    requires
        sample_rate * 120 <= usize::MAX,
        (sample_rate * 120 / 1000) * channels <= usize::MAX,
    ensures
        r == (sample_rate * 120 / 1000) * channels,
{
    (sample_rate as usize * 120 / 1000) * channels as usize
}

/// The unsigned 16-bit pattern of a sample.
pub open spec fn bits16(s: i16) -> int {
    if s < 0 {
        s + 65536
    } else {
        s as int
    }
}

/// The sample whose little-endian bytes are `lo`, `hi`.
pub open spec fn le_i16(lo: u8, hi: u8) -> i16 {
    let u = hi as int * 256 + lo as int;
    (if u >= 32768 {
        u - 65536
    } else {
        u
    }) as i16
}

/// Reads I16Le PCM bytes as samples: sample `i` is built from bytes `2i` and `2i + 1`.
pub fn bytemuck_cast_i16(data: &[u8]) -> (r: Vec<i16>)
    requires
        data@.len() % 2 == 0,
    ensures
        r@.len() == data@.len() / 2,
        forall|i: int| 0 <= i < r@.len() ==> #[trigger] r@[i] == le_i16(data@[2 * i], data@[2 * i + 1]),
{
    let len: usize = data.len();
    let n: usize = len / 2;
    let mut out: Vec<i16> = Vec::with_capacity(n);
    let mut i: usize = 0;
    while i < n
        invariant
            len == data@.len(),
            n == data@.len() / 2,
            i <= n,
            out@.len() == i,
            forall|j: int| 0 <= j < i ==> #[trigger] out@[j] == le_i16(data@[2 * j], data@[2 * j + 1]),
        decreases n - i,
    {
        let lo: u8 = data[2 * i];
        let hi: u8 = data[2 * i + 1];
        let u: u32 = hi as u32 * 256 + lo as u32;
        let s: i16 = if u >= 32768 {
            (u as i32 - 65536) as i16
        } else {
            u as i16
        };
        out.push(s);
        i = i + 1;
    }
    out
}

/// The first `count` samples as I16Le bytes: sample `i` becomes bytes `2i` (low) and `2i + 1` (high).
pub fn pcm_to_le_bytes(samples: &[i16], count: usize) -> (r: Vec<u8>)
    requires
        count <= samples@.len(),
        2 * count <= usize::MAX,
    ensures
        r@.len() == 2 * count,
        forall|i: int|
            0 <= i < count ==> #[trigger] r@[2 * i] == bits16(samples@[i]) % 256 && r@[2 * i + 1]
                == bits16(samples@[i]) / 256,
{
    let mut out: Vec<u8> = Vec::with_capacity(2 * count);
    let mut i: usize = 0;
    while i < count
        invariant
            i <= count <= samples@.len(),
            out@.len() == 2 * i,
            forall|j: int|
                0 <= j < i ==> #[trigger] out@[2 * j] == bits16(samples@[j]) % 256 && out@[2 * j + 1]
                    == bits16(samples@[j]) / 256,
        decreases count - i,
    {
        let s: i16 = samples[i];
        let u: u32 = if s < 0 {
            (s as i32 + 65536) as u32
        } else {
            s as u32
        };
        out.push((u % 256) as u8);
        out.push((u / 256) as u8);
        i = i + 1;
    }
    out
}

/// The samples of a frame handed to the audio sink: an I16Le frame's bytes read
/// as samples; a processing error for any other format.
pub fn pcm_samples(frame: &AudioFrame) -> (r: Result<Vec<i16>, ElementError>)
    requires
        frame.format == SampleFormat::I16Le ==> frame.data@.len() % 2 == 0,
    ensures
        frame.format == SampleFormat::I16Le ==> (r matches Ok(v) && v@.len() == frame.data@.len() / 2
            && forall|i: int| 0 <= i < v@.len() ==> #[trigger] v@[i] == le_i16(frame.data@[2 * i], frame.data@[2 * i + 1])),
        frame.format != SampleFormat::I16Le ==> (r matches Err(ElementError::Processing(msg)) && msg@
            == "WebRtcAudioSink requires I16Le audio frames"@),
{
    match require_i16le(frame) {
        Ok(()) => Ok(bytemuck_cast_i16(frame.data.as_slice())),
        Err(e) => Err(e),
    }
}

/// The bookkeeping of the audio source: the stream its frames belong to, their
/// numbering, and the sample rate and channel count the sender encodes with.
pub struct AudioDecodeStage {
    frames: FrameSequencer,
    sample_rate: u32,
    channels: u16,
}

impl AudioDecodeStage {
    /// A stage for a fresh stream of `channels`-channel audio at `sample_rate` Hz.
    pub fn new(sample_rate: u32, channels: u16) -> (r: AudioDecodeStage)
        ensures
            r.rate() == sample_rate,
            r.channel_count() == channels,
            r.frames_emitted() == 0,
    {
        AudioDecodeStage { frames: FrameSequencer::new(), sample_rate, channels }
    }

    /// The sample rate in Hz.
    pub closed spec fn rate(&self) -> u32 {
        self.sample_rate
    }

    /// The number of channels.
    pub closed spec fn channel_count(&self) -> u16 {
        self.channels
    }

    /// The number of frames emitted so far, which is also the id of the next one.
    pub closed spec fn frames_emitted(&self) -> nat {
        self.frames.next_id()
    }

    /// The stream the frames belong to.
    pub closed spec fn stream(&self) -> StreamId {
        self.frames.stream()
    }

    /// The number of channels of the decoded audio.
    pub fn channels(&self) -> (r: u16)
        ensures
            r == self.channel_count(),
    {
        self.channels
    }

    /// The number of frames emitted so far.
    pub fn frame_count(&self) -> (r: u64)
        ensures
            r == self.frames_emitted(),
    {
        self.frames.frames_stamped()
    }

    /// The decoder's sample rate and channel layout; the first unsupported one is reported.
    pub fn decoder_settings(&self) -> (r: Result<(OpusSampleRate, OpusChannels), ElementError>)
        ensures
            match (opus_rate_of(self.rate()), opus_channels_of(self.channel_count())) {
                (Some(s), Some(c)) => r == Ok::<(OpusSampleRate, OpusChannels), ElementError>((s, c)),
                (None, _) => r matches Err(ElementError::Processing(msg)) && msg@
                    == "Unsupported Opus sample rate: "@ + decimal(self.rate() as nat),
                (Some(_), None) => r matches Err(ElementError::Processing(msg)) && msg@
                    == "Unsupported channel count: "@ + decimal(self.channel_count() as nat),
            },
    {
        let s = match decoder_sample_rate(self.sample_rate) {
            Ok(s) => s,
            Err(e) => return Err(e),
        };
        let c = match decoder_channels(self.channels) {
            Ok(c) => c,
            Err(e) => return Err(e),
        };
        Ok((s, c))
    }

    /// The next frame of the stream, from a decoder output of `decoded_per_channel`
    /// samples on each channel: the first `decoded_per_channel * channels` samples of
    /// `pcm`, as I16Le bytes.
    pub fn frame_from_pcm(&mut self, pcm: &[i16], decoded_per_channel: usize) -> (r: Frame<AudioFrame>)
        requires
            decoded_per_channel * old(self).channel_count() <= pcm@.len(),
            2 * (decoded_per_channel * old(self).channel_count()) <= usize::MAX,
            old(self).frames_emitted() < u64::MAX,
        ensures
            final(self).rate() == old(self).rate(),
            final(self).channel_count() == old(self).channel_count(),
            final(self).stream() == old(self).stream(),
            final(self).frames_emitted() == old(self).frames_emitted() + 1,
            r.metadata.stream_id == old(self).stream(),
            r.metadata.frame_id == FrameId(old(self).frames_emitted() as u64),
            r.payload.sample_rate == old(self).rate(),
            r.payload.channels == old(self).channel_count(),
            r.payload.format == SampleFormat::I16Le,
            ({
                let total = decoded_per_channel * old(self).channel_count();
                &&& r.payload.data@.len() == 2 * total
                &&& forall|i: int|
                    0 <= i < total ==> #[trigger] r.payload.data@[2 * i] == bits16(pcm@[i]) % 256
                        && r.payload.data@[2 * i + 1] == bits16(pcm@[i]) / 256
            }),
    {
        let n: usize = pcm.len();
        assert(decoded_per_channel * self.channels <= n);
        let total: usize = decoded_per_channel * self.channels as usize;
        let data = pcm_to_le_bytes(pcm, total);
        let audio = AudioFrame::new(self.sample_rate, self.channels, SampleFormat::I16Le, data);
        self.frames.stamp(audio)
    }
}

/// Writing samples as I16Le bytes (as [`pcm_to_le_bytes`] does) and reading the
/// bytes back (as [`bytemuck_cast_i16`] does) gives the same samples.
pub proof fn law_pcm_roundtrip(samples: Seq<i16>, bytes: Seq<u8>)
    requires
        bytes.len() == 2 * samples.len(),
        forall|i: int|
            0 <= i < samples.len() ==> #[trigger] bytes[2 * i] == bits16(samples[i]) % 256 && bytes[2 * i + 1]
                == bits16(samples[i]) / 256,
    ensures
        forall|i: int| 0 <= i < samples.len() ==> #[trigger] le_i16(bytes[2 * i], bytes[2 * i + 1]) == samples[i],
{
    assert forall|i: int| 0 <= i < samples.len() implies #[trigger] le_i16(bytes[2 * i], bytes[2 * i + 1]) == samples[i] by {
        assert(bytes[2 * i] == bits16(samples[i]) % 256);
    }
}

/// The sink is configured through the pipeline's element configuration.
impl ElementConfig for WebRtcAudioSinkConfig {}

/// The number of channels of an Opus channel layout.
pub open spec fn opus_channel_count(c: OpusChannels) -> nat {
    match c {
        OpusChannels::Mono => 1,
        OpusChannels::Stereo => 2,
    }
}

/// The sample rate in Hz of an Opus sample rate.
pub open spec fn opus_rate_hz(s: OpusSampleRate) -> nat {
    match s {
        OpusSampleRate::Hz8000 => 8000,
        OpusSampleRate::Hz12000 => 12000,
        OpusSampleRate::Hz16000 => 16000,
        OpusSampleRate::Hz24000 => 24000,
        OpusSampleRate::Hz48000 => 48000,
    }
}

/// The Opus channel layout carries the channel count: there is one exactly for one or
/// two channels, and it has that many channels.
pub proof fn law_opus_channels_keep_count(ch: u16)
    ensures
        opus_channels_of(ch) is Some <==> (ch == 1 || ch == 2),
        opus_channels_of(ch) matches Some(c) ==> opus_channel_count(c) == ch,
{
}

/// The Opus sample rate carries the rate: there is one exactly for 8, 12, 16, 24 and
/// 48 kHz, and it is that rate.
pub proof fn law_opus_rate_keeps_hz(rate: u32)
    ensures
        opus_rate_of(rate) is Some <==> (rate == 8000 || rate == 12000 || rate == 16000 || rate == 24000
            || rate == 48000),
        opus_rate_of(rate) matches Some(s) ==> opus_rate_hz(s) == rate,
{
}

} // verus!
