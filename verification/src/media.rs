//! Media types for video and audio pipelines.
//!
//! [`VideoFrame`] uses I420 by default because it is the native format for
//! H.264 encode/decode, avoiding colour-space conversions in the common path.

use vstd::prelude::*;
use vstd::slice::slice_subrange;
use crate::codec::NetworkSerializable;

verus! {

/// Pixel format for video frames.
#[derive(Clone, Copy, PartialEq, Eq, Debug, Structural)]
pub enum PixelFormat {
    /// YUV 4:2:0 planar, the native H.264 encode/decode format.
    /// Plane layout: Y (width*height) + U (width/2 * height/2) + V (width/2 * height/2).
    /// Total size: width * height * 3 / 2.
    I420,
    /// 8-bit RGB interleaved. Size: width * height * 3.
    Rgb8,
    /// 8-bit RGBA interleaved. Size: width * height * 4.
    Rgba8,
    /// 8-bit grayscale. Size: width * height.
    Gray8,
}

/// The number of bytes of a `width` x `height` frame in `format`.
pub open spec fn frame_bytes(format: PixelFormat, width: int, height: int) -> int {
    let pixels = width * height;
    match format {
        PixelFormat::I420 => pixels * 3 / 2,
        PixelFormat::Rgb8 => pixels * 3,
        PixelFormat::Rgba8 => pixels * 4,
        PixelFormat::Gray8 => pixels,
    }
}

/// The size computation for `format` stays within the machine integers:
/// the pixel count fits in `u32` and the byte count (before halving, for I420) in `usize`.
pub open spec fn frame_size_fits(format: PixelFormat, width: u32, height: u32) -> bool {
    let pixels = width * height;
    &&& pixels <= u32::MAX
    &&& match format {
        PixelFormat::I420 => pixels * 3 <= usize::MAX,
        PixelFormat::Rgb8 => pixels * 3 <= usize::MAX,
        PixelFormat::Rgba8 => pixels * 4 <= usize::MAX,
        PixelFormat::Gray8 => pixels <= usize::MAX,
    }
}

/// The bytes of each chroma plane (U or V) of a `width` x `height` I420 frame.
pub open spec fn chroma_bytes(width: u32, height: u32) -> int {
    (width / 2) * (height / 2)
}

impl PixelFormat {
    /// The number of bytes per frame for the given dimensions.
    pub fn frame_size(&self, width: u32, height: u32) -> (r: usize)
        requires
            frame_size_fits(*self, width, height),
        ensures
            r == frame_bytes(*self, width as int, height as int),
    {
        let pixels: usize = (width * height) as usize;
        match self {
            PixelFormat::I420 => pixels * 3 / 2,
            PixelFormat::Rgb8 => pixels * 3,
            PixelFormat::Rgba8 => pixels * 4,
            PixelFormat::Gray8 => pixels,
        }
    }
}

/// A single video frame with raw pixel data.
#[derive(Clone, Debug)]
pub struct VideoFrame {
    pub width: u32,
    pub height: u32,
    pub format: PixelFormat,
    pub data: Vec<u8>,
}

/// A vector of `n` zero bytes.
pub fn zeroed(n: usize) -> (r: Vec<u8>)
    ensures
        r@ == Seq::new(n as nat, |i: int| 0u8),
{
    let mut v: Vec<u8> = Vec::with_capacity(n);
    let mut i: usize = 0;
    while i < n
        invariant
            i <= n,
            v@ == Seq::new(i as nat, |j: int| 0u8),
        decreases n - i,
    {
        v.push(0u8);
        i = i + 1;
        proof {
            assert(v@ =~= Seq::new(i as nat, |j: int| 0u8));
        }
    }
    v
}

impl VideoFrame {
    /// A zeroed video frame with the given dimensions and format.
    pub fn new(width: u32, height: u32, format: PixelFormat) -> (r: VideoFrame)
        requires
            frame_size_fits(format, width, height),
        ensures
            r.width == width,
            r.height == height,
            r.format == format,
            r.data@ == Seq::new(frame_bytes(format, width as int, height as int) as nat, |i: int| 0u8),
    {
        let size: usize = format.frame_size(width, height);
        VideoFrame { width, height, format, data: zeroed(size) }
    }

    /// A video frame from existing pixel data, whose length must match the format.
    pub fn from_raw(width: u32, height: u32, format: PixelFormat, data: Vec<u8>) -> (r: VideoFrame)
        requires
            frame_size_fits(format, width, height),
            data@.len() == frame_bytes(format, width as int, height as int),
        ensures
            r.width == width,
            r.height == height,
            r.format == format,
            r.data@ == data@,
    {
        VideoFrame { width, height, format, data }
    }

    /// The Y, U and V planes of an I420 frame: `width * height` bytes of Y, then
    /// `(width / 2) * (height / 2)` bytes each of U and V.
    pub fn i420_planes(&self) -> (r: (&[u8], &[u8], &[u8]))
        requires
            self.format == PixelFormat::I420,
            self.width * self.height <= u32::MAX,
            self.width * self.height + 2 * chroma_bytes(self.width, self.height) <= self.data@.len(),
        ensures
            ({
                let y = self.width * self.height;
                let q = chroma_bytes(self.width, self.height);
                &&& r.0@ == self.data@.subrange(0, y)
                &&& r.1@ == self.data@.subrange(y, y + q)
                &&& r.2@ == self.data@.subrange(y + q, y + 2 * q)
            }),
    {
        let y_size: usize = (self.width * self.height) as usize;
        let half_w: u32 = self.width / 2;
        let half_h: u32 = self.height / 2;
        proof {
            assert(half_w * half_h <= self.width * self.height) by (nonlinear_arith)
                requires
                    half_w <= self.width,
                    half_h <= self.height,
            ;
        }
        let q: usize = (half_w * half_h) as usize;
        let data = self.data.as_slice();
        let n: usize = data.len();
        assert(y_size + 2 * q <= n);
        let y = slice_subrange(data, 0, y_size);
        let u = slice_subrange(data, y_size, y_size + q);
        let v = slice_subrange(data, y_size + q, y_size + 2 * q);
        (y, u, v)
    }
}

impl NetworkSerializable for VideoFrame {
    open spec fn spec_type_tag() -> Seq<char> {
        "video_frame"@
    }

    fn type_tag() -> (r: &'static str) {
        "video_frame"
    }
}

/// Sample format for audio frames.
#[derive(Clone, Copy, PartialEq, Eq, Debug, Structural)]
pub enum SampleFormat {
    /// 16-bit signed integer, little-endian. 2 bytes per sample.
    I16Le,
    /// 32-bit float, little-endian. 4 bytes per sample.
    F32Le,
}

/// Bytes per sample of `format`.
pub open spec fn sample_bytes(format: SampleFormat) -> int {
    match format {
        SampleFormat::I16Le => 2,
        SampleFormat::F32Le => 4,
    }
}

impl SampleFormat {
    /// The number of bytes per sample.
    pub fn bytes_per_sample(&self) -> (r: usize)
        ensures
            r == sample_bytes(*self),
    {
        match self {
            SampleFormat::I16Le => 2,
            SampleFormat::F32Le => 4,
        }
    }
}

/// A single audio frame with raw PCM sample data.
#[derive(Clone, Debug)]
pub struct AudioFrame {
    pub sample_rate: u32,
    pub channels: u16,
    pub format: SampleFormat,
    pub data: Vec<u8>,
}

/// Samples per channel held by `len` bytes of `channels`-channel audio in `format`.
pub open spec fn samples_in(len: int, channels: int, format: SampleFormat) -> int {
    if channels == 0 {
        0
    } else {
        len / (channels * sample_bytes(format))
    }
}

impl AudioFrame {
    /// An audio frame from raw PCM data.
    pub fn new(sample_rate: u32, channels: u16, format: SampleFormat, data: Vec<u8>) -> (r: AudioFrame)
        ensures
            r.sample_rate == sample_rate,
            r.channels == channels,
            r.format == format,
            r.data@ == data@,
    {
        AudioFrame { sample_rate, channels, format, data }
    }

    /// A silent frame with `samples_per_channel` zeroed samples on every channel.
    pub fn silence(sample_rate: u32, channels: u16, format: SampleFormat, samples_per_channel: usize) -> (r: AudioFrame)
        requires
            samples_per_channel * channels * sample_bytes(format) <= usize::MAX,
        ensures
            r.sample_rate == sample_rate,
            r.channels == channels,
            r.format == format,
            r.data@ == Seq::new((samples_per_channel * channels * sample_bytes(format)) as nat, |i: int| 0u8),
    {
        let bps: usize = format.bytes_per_sample();
        proof {
            assert(samples_per_channel * channels <= usize::MAX) by (nonlinear_arith)
                requires
                    samples_per_channel * channels * bps <= usize::MAX,
                    bps >= 1,
            ;
        }
        let size: usize = samples_per_channel * channels as usize * bps;
        AudioFrame { sample_rate, channels, format, data: zeroed(size) }
    }

    /// The number of samples per channel in this frame (0 when it has no channels).
    pub fn samples_per_channel(&self) -> (r: usize)
        ensures
            r == samples_in(self.data@.len() as int, self.channels as int, self.format),
    {
        if self.channels == 0 {
            return 0;
        }
        let bps: usize = self.format.bytes_per_sample();
        let ch: usize = self.channels as usize;
        proof {
            assert(0 < ch * bps <= 65535 * 4) by (nonlinear_arith)
                requires
                    0 < ch <= 65535,
                    0 < bps <= 4,
            ;
        }
        self.data.len() / (ch * bps)
    }
}

impl NetworkSerializable for AudioFrame {
    open spec fn spec_type_tag() -> Seq<char> {
        "audio_frame"@
    }

    fn type_tag() -> (r: &'static str) {
        "audio_frame"
    }
}

/// A silent frame holds exactly the number of samples per channel it was made with.
pub proof fn law_silence_samples(samples: nat, channels: nat, format: SampleFormat)
    requires
        channels > 0,
    ensures
        samples_in(samples * channels * sample_bytes(format), channels as int, format) == samples,
{
    let b = sample_bytes(format);
    assert(b > 0);
    assert((samples * channels * b) / (channels * b) == samples) by (nonlinear_arith)
        requires
            channels > 0,
            b > 0,
    ;
}

/// The I420 planes always fit in a frame of the I420 size, and cover it exactly when
/// both dimensions are even.
pub proof fn law_i420_planes_cover_frame(width: u32, height: u32)
    ensures
        width * height + 2 * chroma_bytes(width, height) <= frame_bytes(PixelFormat::I420, width as int, height as int),
        width % 2 == 0 && height % 2 == 0 ==> width * height + 2 * chroma_bytes(width, height) == frame_bytes(
            PixelFormat::I420,
            width as int,
            height as int,
        ),
{
    let w = width as int;
    let h = height as int;
    let hw = w / 2;
    let hh = h / 2;
    assert(w * h + 2 * (hw * hh) <= (w * h * 3) / 2) by (nonlinear_arith)
        requires
            w >= 0,
            h >= 0,
            hw == w / 2,
            hh == h / 2,
    ;
    if w % 2 == 0 && h % 2 == 0 {
        assert(w * h + 2 * (hw * hh) == (w * h * 3) / 2) by (nonlinear_arith)
            requires
                w >= 0,
                h >= 0,
                w == 2 * hw,
                h == 2 * hh,
        ;
    }
}

} // verus!
