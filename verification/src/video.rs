//! Video stages of the WebRTC pipeline elements: the H.264 encoding stage of
//! the video sink, with its keyframe schedule, and the depacketizing and
//! decoding stage of the video source, which packs decoded I420 planes into
//! frames. Encoding and decoding are done by `openh264`.

use vstd::prelude::*;
use openh264::decoder::Decoder;
use openh264::encoder::Encoder;
use openh264::formats::{YUVSlices, YUVSource};
use crate::element::ElementConfig;
use crate::error::ElementError;
use crate::frame::{Frame, FrameId, FrameSequencer, StreamId};
use crate::h264::{H264Depacketizer, process_spec};
use crate::media::{PixelFormat, VideoFrame, chroma_bytes, frame_bytes, frame_size_fits, zeroed};

verus! {

/// Configuration of the WebRTC video sink.
#[derive(Clone, Copy, Debug, PartialEq, Eq, Structural)]
pub struct WebRtcVideoSinkConfig {
    /// Target frames per second; gives the per-frame duration for RTP.
    pub fps: u32,
    /// Interval in seconds between forced keyframes.
    pub keyframe_interval_secs: u32,
}

impl Default for WebRtcVideoSinkConfig {
    fn default() -> (r: WebRtcVideoSinkConfig)
        ensures
            r.fps == 30,
            r.keyframe_interval_secs == 2,
    {
        WebRtcVideoSinkConfig { fps: 30, keyframe_interval_secs: 2 }
    }
}

/// The encoder schedule of the video sink: frames encoded so far, frame rate and
/// keyframe interval in frames.
#[derive(Clone, Copy, Debug, PartialEq, Eq, Structural)]
pub struct VideoSinkSchedule {
    pub frame_count: u64,
    pub fps: u32,
    pub keyframe_interval_frames: u64,
}

impl VideoSinkSchedule {
    /// The schedule of a new sink: no frames yet, 30 fps, a keyframe every 60 frames.
    pub fn new() -> (r: VideoSinkSchedule)
        ensures
            r == (VideoSinkSchedule { frame_count: 0, fps: 30, keyframe_interval_frames: 60 }),
    {
        VideoSinkSchedule { frame_count: 0, fps: 30, keyframe_interval_frames: 60 }
    }

    /// Applies a configuration: its frame rate, and a keyframe every `fps * keyframe_interval_secs` frames.
    pub fn configure(&mut self, config: WebRtcVideoSinkConfig)
        requires
            config.fps * config.keyframe_interval_secs <= u32::MAX,
        ensures
            final(self).frame_count == old(self).frame_count,
            final(self).fps == config.fps,
            final(self).keyframe_interval_frames == config.fps * config.keyframe_interval_secs,
    {
        self.fps = config.fps;
        self.keyframe_interval_frames = (config.fps * config.keyframe_interval_secs) as u64;
    }

    /// Whether the next frame must be forced to a keyframe: every `keyframe_interval_frames`
    /// frames, but not the first.
    pub fn keyframe_due(&self) -> (r: bool)
        requires
            self.frame_count == 0 || self.keyframe_interval_frames > 0,
        ensures
            r == (self.frame_count > 0 && self.frame_count % self.keyframe_interval_frames == 0),
    {
        self.frame_count > 0 && self.frame_count % self.keyframe_interval_frames == 0
    }

    /// The duration of one frame in milliseconds.
    pub fn frame_duration_ms(&self) -> (r: u64)
        requires
            self.fps > 0,
        ensures
            r == 1000int / (self.fps as int),
    {
        1000 / self.fps as u64
    }

    /// Counts one more encoded frame.
    pub fn frame_done(&mut self)
        requires
            old(self).frame_count < u64::MAX,
        ensures
            final(self).frame_count == old(self).frame_count + 1,
            final(self).fps == old(self).fps,
            final(self).keyframe_interval_frames == old(self).keyframe_interval_frames,
    {
        self.frame_count = self.frame_count + 1;
    }
}

/// The position of cell (`row`, `col`) of a plane with the given row stride, from `base`.
pub open spec fn cell(base: int, row: int, col: int, stride: int) -> int {
    base + row * stride + col
}

/// `rows` rows of `cols` bytes, `stride` bytes apart, fit in `len` bytes.
pub open spec fn plane_fits(len: int, stride: int, cols: int, rows: int) -> bool {
    rows == 0 || (rows - 1) * stride + cols <= len
}

proof fn lemma_cell_bounds(r: int, c: int, rows: int, cols: int, stride: int)
    requires
        0 <= r < rows,
        0 <= c < cols,
        0 <= stride,
    ensures
        r * cols + c < rows * cols,
        r * stride + c < (rows - 1) * stride + cols,
        r * cols <= rows * cols,
{
    assert(r * cols + c < rows * cols) by (nonlinear_arith)
        requires
            0 <= r < rows,
            0 <= c < cols,
    ;
    assert(r * stride <= (rows - 1) * stride) by (nonlinear_arith)
        requires
            0 <= r <= rows - 1,
            0 <= stride,
    ;
    assert(r * cols <= rows * cols) by (nonlinear_arith)
        requires
            0 <= r < rows,
            0 <= cols,
    ;
}

/// Copies `rows` rows of `cols` bytes from `src` (rows `stride` apart) into `data`
/// from `base` on, rows packed back to back.
fn copy_plane(data: &mut Vec<u8>, base: usize, src: &[u8], stride: usize, cols: usize, rows: usize)
    requires
        base + rows * cols <= old(data)@.len(),
        plane_fits(src@.len() as int, stride as int, cols as int, rows as int),
    ensures
        final(data)@.len() == old(data)@.len(),
        forall|r: int, c: int|
            #![trigger final(data)@[cell(base as int, r, c, cols as int)]]
            0 <= r < rows && 0 <= c < cols ==> final(data)@[cell(base as int, r, c, cols as int)]
                == src@[cell(0, r, c, stride as int)],
        forall|i: int|
            0 <= i < old(data)@.len() && (i < base || i >= base + rows * cols) ==> final(data)@[i]
                == old(data)@[i],
{
    let ghost start = data@;
    let len: usize = data.len();
    let slen: usize = src.len();
    let mut r: usize = 0;
    while r < rows
        invariant
            r <= rows,
            len == start.len(),
            slen == src@.len(),
            base + rows * cols <= start.len(),
            plane_fits(src@.len() as int, stride as int, cols as int, rows as int),
            data@.len() == start.len(),
            forall|rr: int, c: int|
                #![trigger data@[cell(base as int, rr, c, cols as int)]]
                0 <= rr < r && 0 <= c < cols ==> data@[cell(base as int, rr, c, cols as int)] == src@[cell(
                    0,
                    rr,
                    c,
                    stride as int,
                )],
            forall|i: int|
                0 <= i < start.len() && (i < base || i >= base + r * cols) ==> data@[i] == start[i],
        decreases rows - r,
    {
        proof {
            assert(r * cols + cols <= rows * cols) by (nonlinear_arith)
                requires
                    r < rows,
            ;
            if cols > 0 {
                lemma_cell_bounds(r as int, cols - 1, rows as int, cols as int, stride as int);
            }
            assert forall|rr: int, cc: int| 0 <= rr < r && 0 <= cc < cols implies #[trigger] cell(
                base as int,
                rr,
                cc,
                cols as int,
            ) < base + r * cols by {
                lemma_cell_bounds(rr, cc, r as int, cols as int, stride as int);
            }
        }
        let dst_row: usize = base + r * cols;
        let src_row: usize = if cols > 0 { r * stride } else { 0 };
        let mut c: usize = 0;
        while c < cols
            invariant
                r < rows,
                c <= cols,
                len == start.len(),
                slen == src@.len(),
                dst_row == base + r * cols,
                cols > 0 ==> src_row == r * stride,
                dst_row + cols <= base + rows * cols,
                base + rows * cols <= start.len(),
                cols > 0 ==> src_row + cols <= src@.len(),
                data@.len() == start.len(),
                forall|rr: int, cc: int|
                    #![trigger cell(base as int, rr, cc, cols as int)]
                    0 <= rr < r && 0 <= cc < cols ==> cell(base as int, rr, cc, cols as int) < dst_row,
                forall|rr: int, cc: int|
                    #![trigger data@[cell(base as int, rr, cc, cols as int)]]
                    0 <= rr < r && 0 <= cc < cols ==> data@[cell(base as int, rr, cc, cols as int)]
                        == src@[cell(0, rr, cc, stride as int)],
                forall|cc: int|
                    #![trigger data@[cell(dst_row as int, 0, cc, 0)]]
                    0 <= cc < c ==> data@[cell(dst_row as int, 0, cc, 0)] == src@[cell(src_row as int, 0, cc, 0)],
                forall|i: int|
                    0 <= i < start.len() && (i < base || i >= dst_row + c) ==> data@[i] == start[i],
            decreases cols - c,
        {
            data.set(dst_row + c, src[src_row + c]);
            c = c + 1;
        }
        proof {
            assert((r + 1) * cols == r * cols + cols) by (nonlinear_arith);
            assert forall|rr: int, cc: int|
                0 <= rr < r + 1 && 0 <= cc < cols implies #[trigger] data@[cell(base as int, rr, cc, cols as int)]
                == src@[cell(0, rr, cc, stride as int)] by {
                if rr == r {
                    assert(cell(base as int, rr, cc, cols as int) == cell(dst_row as int, 0, cc, 0));
                    assert(cell(0, rr, cc, stride as int) == cell(src_row as int, 0, cc, 0));
                }
            }
        }
        r = r + 1;
    }
}

/// The frame buffer holding `w` x `h` I420 planes packed from decoder output: the
/// I420 frame length `w * h * 3 / 2`, with `w * h` bytes of Y, then `(w / 2) * (h / 2)`
/// bytes of U and as many of V, each plane's rows back to back, and zeros after them
/// (there are some only when a side is odd).
pub open spec fn i420_packed(
    data: Seq<u8>,
    y: Seq<u8>,
    u: Seq<u8>,
    v: Seq<u8>,
    ys: int,
    us: int,
    vs: int,
    w: int,
    h: int,
) -> bool {
    let ysz = w * h;
    let hw = w / 2;
    let hh = h / 2;
    let q = hw * hh;
    &&& data.len() == ysz * 3 / 2
    &&& forall|i: int| ysz + 2 * q <= i < data.len() ==> data[i] == 0
    &&& forall|r: int, c: int|
        #![trigger data[cell(0, r, c, w)]]
        0 <= r < h && 0 <= c < w ==> data[cell(0, r, c, w)] == y[cell(0, r, c, ys)]
    &&& forall|r: int, c: int|
        #![trigger data[cell(ysz, r, c, hw)]]
        0 <= r < hh && 0 <= c < hw ==> data[cell(ysz, r, c, hw)] == u[cell(0, r, c, us)]
    &&& forall|r: int, c: int|
        #![trigger data[cell(ysz + q, r, c, hw)]]
        0 <= r < hh && 0 <= c < hw ==> data[cell(ysz + q, r, c, hw)] == v[cell(0, r, c, vs)]
}

/// Packs decoded I420 planes (rows `y_stride`, `u_stride`, `v_stride` bytes apart)
/// into a contiguous `width` x `height` I420 frame buffer.
pub fn pack_i420_planes(
    y: &[u8],
    u: &[u8],
    v: &[u8],
    y_stride: usize,
    u_stride: usize,
    v_stride: usize,
    width: u32,
    height: u32,
) -> (r: Vec<u8>)
    requires
        width * height <= u32::MAX,
        (width * height) * 3 / 2 <= usize::MAX,
        plane_fits(y@.len() as int, y_stride as int, width as int, height as int),
        plane_fits(u@.len() as int, u_stride as int, (width / 2) as int, (height / 2) as int),
        plane_fits(v@.len() as int, v_stride as int, (width / 2) as int, (height / 2) as int),
    ensures
        i420_packed(
            r@,
            y@,
            u@,
            v@,
            y_stride as int,
            u_stride as int,
            v_stride as int,
            width as int,
            height as int,
        ),
{
    let w: usize = width as usize;
    let h: usize = height as usize;
    let y_size: usize = (width * height) as usize;
    let half_w: usize = w / 2;
    let half_h: usize = h / 2;
    proof {
        assert(y_size == w * h);
        assert(h * w == w * h) by (nonlinear_arith);
        assert(half_w * half_h <= w * h) by (nonlinear_arith)
            requires
                half_w <= w,
                half_h <= h,
        ;
        assert(half_h * half_w == half_w * half_h) by (nonlinear_arith);
        assert(w * h + 2 * (half_w * half_h) <= (w * h * 3) / 2) by (nonlinear_arith)
            requires
                half_w == w / 2,
                half_h == h / 2,
        ;
        assert(y_size + y_size / 2 == (y_size * 3) / 2);
    }
    let q: usize = half_w * half_h;
    let total: usize = y_size + y_size / 2;
    let mut data = zeroed(total);
    copy_plane(&mut data, 0, y, y_stride, w, h);
    let ghost after_y = data@;
    copy_plane(&mut data, y_size, u, u_stride, half_w, half_h);
    let ghost after_u = data@;
    copy_plane(&mut data, y_size + q, v, v_stride, half_w, half_h);
    proof {
        assert forall|r: int, c: int|
            0 <= r < h && 0 <= c < w implies #[trigger] data@[cell(0, r, c, w as int)] == y@[cell(0, r, c, y_stride as int)] by {
            lemma_cell_bounds(r, c, h as int, w as int, 0);
            assert(after_y[cell(0, r, c, w as int)] == y@[cell(0, r, c, y_stride as int)]);
        }
        assert forall|r: int, c: int|
            0 <= r < half_h && 0 <= c < half_w implies #[trigger] data@[cell(y_size as int, r, c, half_w as int)]
            == u@[cell(0, r, c, u_stride as int)] by {
            lemma_cell_bounds(r, c, half_h as int, half_w as int, 0);
            assert(after_u[cell(y_size as int, r, c, half_w as int)] == u@[cell(0, r, c, u_stride as int)]);
        }
        assert forall|i: int| y_size + 2 * q <= i < data@.len() implies data@[i] == 0 by {
            assert(after_u[i] == 0);
        }
    }
    data
}

/// `openh264::encoder::Encoder`, held by the video sink.
#[verifier::external_type_specification]
#[verifier::external_body]
pub struct ExH264Encoder(Encoder);

/// `openh264::decoder::Decoder`, held by the video source.
#[verifier::external_type_specification]
#[verifier::external_body]
pub struct ExH264Decoder(Decoder);

/// `openh264::Error`.
#[verifier::external_type_specification]
#[verifier::external_body]
pub struct ExH264Error(openh264::Error);

/// Calls `openh264::encoder::Encoder::new` (built-in codec, default settings).
/// Whether it succeeds is up to the native library, so nothing is stated.
#[verifier::external_body]
fn new_encoder() -> Result<Encoder, openh264::Error> {
    Encoder::new()
}

/// Calls `openh264::decoder::Decoder::new` (built-in codec, default settings).
/// Whether it succeeds is up to the native library, so nothing is stated.
#[verifier::external_body]
fn new_decoder() -> Result<Decoder, openh264::Error> {
    Decoder::new()
}

/// The `Display` text of an `openh264::Error`; nothing is stated of its characters.
#[verifier::external_body]
fn h264_error_text(e: &openh264::Error) -> String {
    e.to_string()
}

/// Calls `Encoder::force_intra_frame`, which makes the encoder emit the next encoded
/// picture as a keyframe. What is stated is the encoder's record of the call: one more
/// keyframe forced, the last encoded request unchanged.
#[verifier::external_body]
fn force_intra_frame(encoder: &mut H264Encoder)
    ensures
        final(encoder).keyframes_forced() == old(encoder).keyframes_forced() + 1,
        final(encoder).last_encoded() == old(encoder).last_encoded(),
        final(encoder).last_output() == old(encoder).last_output(),
{
    encoder.raw.force_intra_frame()
}

/// Encodes one I420 picture with `Encoder::encode` over `YUVSlices::new` built from the
/// request's planes, size and strides, and returns the bitstream bytes
/// (`EncodedBitStream::to_vec`). The requirements are the ones under which
/// `YUVSlices::new` does not panic. The bitstream depends on the encoder's state, so
/// nothing is stated of it; what is stated is the encoder's record of the call: this
/// request was encoded after the keyframes forced so far, and gave back this result.
#[verifier::external_body]
fn encode_i420(encoder: &mut H264Encoder, req: &EncodeRequest) -> (r: Result<Vec<u8>, openh264::Error>)
    requires
        req.y_stride >= req.width,
        req.uv_stride >= req.width / 2,
        req.y@.len() == req.height * req.y_stride,
        req.u@.len() == (req.height / 2) * req.uv_stride,
        req.v@.len() == (req.height / 2) * req.uv_stride,
    ensures
        final(encoder).keyframes_forced() == old(encoder).keyframes_forced(),
        final(encoder).last_encoded() == Some((req@, old(encoder).keyframes_forced())),
        final(encoder).last_output() == (match r {
            Ok(b) => Some(b@),
            Err(_) => None,
        }),
{
    let yuv = YUVSlices::new((req.y, req.u, req.v), (req.width, req.height), (req.y_stride, req.uv_stride, req.uv_stride));
    match encoder.raw.encode(&yuv) {
        Ok(bitstream) => Ok(bitstream.to_vec()),
        Err(e) => Err(e),
    }
}

/// An H.264 encoder with the record of the calls made on it: how many keyframes this
/// library has forced so far, the last request encoded with that count at the time,
/// and the bitstream that call gave back. The count is of the library's own calls: the
/// encoder also starts with a keyframe by itself whenever the picture size changes.
struct H264Encoder {
    raw: Encoder,
    forced: Ghost<nat>,
    last: Ghost<Option<(EncodeRequestView, nat)>>,
    output: Ghost<Option<Seq<u8>>>,
}

impl H264Encoder {
    spec fn keyframes_forced(&self) -> nat {
        self.forced@
    }

    spec fn last_encoded(&self) -> Option<(EncodeRequestView, nat)> {
        self.last@
    }

    spec fn last_output(&self) -> Option<Seq<u8>> {
        self.output@
    }

    /// A new encoder, with no call made on it yet.
    fn open() -> (r: Result<H264Encoder, openh264::Error>)
        ensures
            r matches Ok(e) ==> e.keyframes_forced() == 0 && e.last_encoded() is None && e.last_output() is None,
    {
        match new_encoder() {
            Ok(raw) => Ok(H264Encoder { raw, forced: Ghost(0), last: Ghost(None), output: Ghost(None) }),
            Err(e) => Err(e),
        }
    }
}

/// An H.264 decoder with the record of the last call made on it: the NAL data handed
/// to it, and the picture that call gave back, if any.
struct H264Decoder {
    raw: Decoder,
    last: Ghost<Option<Seq<u8>>>,
    picture: Ghost<Option<DecodedPlanes>>,
}

impl H264Decoder {
    spec fn last_decoded(&self) -> Option<Seq<u8>> {
        self.last@
    }

    spec fn last_picture(&self) -> Option<DecodedPlanes> {
        self.picture@
    }

    /// A new decoder, with nothing handed to it yet.
    fn open() -> (r: Result<H264Decoder, openh264::Error>)
        ensures
            r matches Ok(d) ==> d.last_decoded() is None && d.last_picture() is None,
    {
        match new_decoder() {
            Ok(raw) => Ok(H264Decoder { raw, last: Ghost(None), picture: Ghost(None) }),
            Err(e) => Err(e),
        }
    }
}

/// What the encoder is handed for one frame: the Y, U and V planes, the picture
/// size, the row strides, and whether a keyframe is forced first.
pub struct EncodeRequest<'a> {
    pub y: &'a [u8],
    pub u: &'a [u8],
    pub v: &'a [u8],
    pub width: usize,
    pub height: usize,
    pub y_stride: usize,
    pub uv_stride: usize,
    pub force_keyframe: bool,
}

/// The contents of an [`EncodeRequest`].
pub struct EncodeRequestView {
    pub y: Seq<u8>,
    pub u: Seq<u8>,
    pub v: Seq<u8>,
    pub width: nat,
    pub height: nat,
    pub y_stride: nat,
    pub uv_stride: nat,
    pub force_keyframe: bool,
}

impl<'a> View for EncodeRequest<'a> {
    type V = EncodeRequestView;

    open spec fn view(&self) -> EncodeRequestView {
        EncodeRequestView {
            y: self.y@,
            u: self.u@,
            v: self.v@,
            width: self.width as nat,
            height: self.height as nat,
            y_stride: self.y_stride as nat,
            uv_stride: self.uv_stride as nat,
            force_keyframe: self.force_keyframe,
        }
    }
}

/// Whether the schedule forces a keyframe on the next frame: every
/// `keyframe_interval_frames` frames, but not on the first.
pub open spec fn keyframe_forced(plan: VideoSinkSchedule) -> bool {
    plan.frame_count > 0 && plan.frame_count % plan.keyframe_interval_frames == 0
}

/// The request for encoding `video` next under `plan`: its I420 planes in order,
/// packed (Y stride `width`, chroma stride `width / 2`), and the keyframe flag.
pub open spec fn encoder_request(plan: VideoSinkSchedule, video: VideoFrame) -> EncodeRequestView {
    let y = video.width * video.height;
    let q = chroma_bytes(video.width, video.height);
    EncodeRequestView {
        y: video.data@.subrange(0, y),
        u: video.data@.subrange(y, y + q),
        v: video.data@.subrange(y + q, y + 2 * q),
        width: video.width as nat,
        height: video.height as nat,
        y_stride: video.width as nat,
        uv_stride: (video.width / 2) as nat,
        force_keyframe: keyframe_forced(plan),
    }
}

/// A picture as the H.264 decoder hands it out: its size, the row strides of its
/// planes, and copies of the planes.
#[derive(Clone, Debug)]
pub struct DecodedPlanes {
    pub width: usize,
    pub height: usize,
    pub y_stride: usize,
    pub u_stride: usize,
    pub v_stride: usize,
    pub y: Vec<u8>,
    pub u: Vec<u8>,
    pub v: Vec<u8>,
}

/// Feeds NAL data to `Decoder::decode`; when a picture comes out, copies its size
/// (`dimensions`), strides (`strides`) and planes (`y`, `u`, `v`). The outcome depends
/// on the decoder's state, so nothing is stated of it; what is stated is the decoder's
/// record of the call: these bytes were the last handed to it, and gave back this picture.
#[verifier::external_body]
fn decode_nal(decoder: &mut H264Decoder, nal: &[u8]) -> (r: Result<Option<DecodedPlanes>, openh264::Error>)
    ensures
        final(decoder).last_decoded() == Some(nal@),
        final(decoder).last_picture() == (match r {
            Ok(Some(p)) => Some(p),
            _ => None,
        }),
{
    match decoder.raw.decode(nal) {
        Ok(Some(d)) => {
            let (width, height) = d.dimensions();
            let (y_stride, u_stride, v_stride) = d.strides();
            let (y, u, v) = (d.y().to_vec(), d.u().to_vec(), d.v().to_vec());
            Ok(Some(DecodedPlanes { width, height, y_stride, u_stride, v_stride, y, u, v }))
        },
        Ok(None) => Ok(None),
        Err(e) => Err(e),
    }
}

/// `m` is a processing error whose message starts with `prefix`.
pub open spec fn processing_error_with(e: ElementError, prefix: Seq<char>) -> bool {
    e matches ElementError::Processing(m) && prefix.is_prefix_of(m@)
}

/// A processing error `prefix` followed by the text of an `openh264` error.
fn h264_failure(prefix: &str, e: &openh264::Error) -> (r: ElementError)
    ensures
        processing_error_with(r, prefix@),
{
    let mut msg = String::from_str(prefix);
    let text = h264_error_text(e);
    msg.append(text.as_str());
    assert(prefix@.is_prefix_of(msg@)) by {
        assert(msg@.subrange(0, prefix@.len() as int) =~= prefix@);
    }
    ElementError::Processing(msg)
}

/// An I420 video frame that the encoder can take: its data holds the planes its
/// dimensions call for.
pub open spec fn encodable(video: VideoFrame) -> bool {
    let y = video.width * video.height;
    &&& video.format == PixelFormat::I420
    &&& y <= u32::MAX
    &&& y + 2 * chroma_bytes(video.width, video.height) <= video.data@.len()
}

/// The H.264 encoding stage of the video sink: its keyframe schedule and its encoder,
/// created with the first frame.
pub struct VideoEncoderStage {
    schedule: VideoSinkSchedule,
    encoder: Option<H264Encoder>,
}

impl VideoEncoderStage {
    /// A stage with the default schedule and no encoder yet.
    pub fn new() -> (r: VideoEncoderStage)
        ensures
            r.plan() == (VideoSinkSchedule { frame_count: 0, fps: 30, keyframe_interval_frames: 60 }),
            !r.has_encoder(),
    {
        VideoEncoderStage { schedule: VideoSinkSchedule::new(), encoder: None }
    }

    /// The keyframe schedule.
    pub closed spec fn plan(&self) -> VideoSinkSchedule {
        self.schedule
    }

    /// Whether the encoder has been created.
    pub closed spec fn has_encoder(&self) -> bool {
        self.encoder is Some
    }

    /// The number of keyframes the encoder has been told to force.
    pub closed spec fn keyframes_forced(&self) -> nat {
        match self.encoder {
            Some(e) => e.keyframes_forced(),
            None => 0,
        }
    }

    /// The request last handed to the encoder, if any, with the number of keyframes
    /// forced before it.
    pub closed spec fn last_request(&self) -> Option<(EncodeRequestView, nat)> {
        match self.encoder {
            Some(e) => e.last_encoded(),
            None => None,
        }
    }

    /// The bitstream the encoder gave back for the last request, if it gave one.
    pub closed spec fn last_output(&self) -> Option<Seq<u8>> {
        match self.encoder {
            Some(e) => e.last_output(),
            None => None,
        }
    }

    /// Releases the encoder; the next frame creates a new one.
    pub fn release_encoder(&mut self)
        ensures
            final(self).plan() == old(self).plan(),
            !final(self).has_encoder(),
    {
        self.encoder = None;
    }

    /// The request for encoding `video` next: its I420 planes in order, its size, packed
    /// strides, and whether the schedule forces a keyframe.
    pub fn encoder_input<'a>(&self, video: &'a VideoFrame) -> (r: EncodeRequest<'a>)
        requires
            encodable(*video),
            self.plan().frame_count == 0 || self.plan().keyframe_interval_frames > 0,
        ensures
            r@ == encoder_request(self.plan(), *video),
    {
        let (y, u, v) = video.i420_planes();
        let w: usize = video.width as usize;
        let h: usize = video.height as usize;
        EncodeRequest {
            y,
            u,
            v,
            width: w,
            height: h,
            y_stride: w,
            uv_stride: w / 2,
            force_keyframe: self.schedule.keyframe_due(),
        }
    }

    /// The keyframe schedule.
    pub fn schedule(&self) -> (r: VideoSinkSchedule)
        ensures
            r == self.plan(),
    {
        self.schedule
    }

    /// Applies a sink configuration to the schedule.
    pub fn configure(&mut self, config: WebRtcVideoSinkConfig)
        requires
            config.fps * config.keyframe_interval_secs <= u32::MAX,
        ensures
            final(self).plan() == (VideoSinkSchedule {
                fps: config.fps,
                keyframe_interval_frames: (config.fps * config.keyframe_interval_secs) as u64,
                ..old(self).plan()
            }),
            final(self).has_encoder() == old(self).has_encoder(),
            final(self).keyframes_forced() == old(self).keyframes_forced(),
            final(self).last_request() == old(self).last_request(),
            final(self).last_output() == old(self).last_output(),
    {
        self.schedule.configure(config);
    }

    /// Counts one more frame sent.
    pub fn frame_done(&mut self)
        requires
            old(self).plan().frame_count < u64::MAX,
        ensures
            final(self).plan() == (VideoSinkSchedule { frame_count: (old(self).plan().frame_count + 1) as u64, ..old(self).plan() }),
            final(self).has_encoder() == old(self).has_encoder(),
            final(self).keyframes_forced() == old(self).keyframes_forced(),
            final(self).last_request() == old(self).last_request(),
            final(self).last_output() == old(self).last_output(),
    {
        self.schedule.frame_done();
    }

    /// Encodes one frame to H.264, creating the encoder first if there is none: hands
    /// the encoder the request of [`VideoEncoderStage::encoder_input`], forcing a keyframe
    /// first when the request says so. The schedule itself is not advanced:
    /// [`VideoEncoderStage::frame_done`] counts the frame once it has been sent.
    pub fn encode(&mut self, video: &VideoFrame) -> (r: Result<Vec<u8>, ElementError>)
        requires
            encodable(*video),
            old(self).plan().frame_count == 0 || old(self).plan().keyframe_interval_frames > 0,
        ensures
            final(self).plan() == old(self).plan(),
            old(self).has_encoder() ==> final(self).has_encoder(),
            final(self).has_encoder() ==> final(self).keyframes_forced() == old(self).keyframes_forced() + (if keyframe_forced(
                old(self).plan(),
            ) {
                1nat
            } else {
                0nat
            }),
            final(self).has_encoder() ==> final(self).last_request() == Some(
                (encoder_request(old(self).plan(), *video), final(self).keyframes_forced()),
            ),
            final(self).has_encoder() ==> (r is Ok <==> final(self).last_output() is Some),
            r matches Ok(b) ==> final(self).last_output() == Some(b@),
            !final(self).has_encoder() ==> (r matches Err(e) && processing_error_with(e, "H264 encoder init: "@)),
            r matches Err(e) ==> (!old(self).has_encoder() && processing_error_with(e, "H264 encoder init: "@))
                || processing_error_with(e, "H264 encode: "@),
    {
        let mut encoder = match self.encoder.take() {
            Some(enc) => enc,
            None => match H264Encoder::open() {
                Ok(enc) => enc,
                Err(e) => return Err(h264_failure("H264 encoder init: ", &e)),
            },
        };
        let req = self.encoder_input(video);
        proof {
            let w = video.width as int;
            let h = video.height as int;
            assert(h * w == w * h) by (nonlinear_arith);
            assert((h / 2) * (w / 2) == (w / 2) * (h / 2)) by (nonlinear_arith);
        }
        if req.force_keyframe {
            force_intra_frame(&mut encoder);
        }
        let encoded = encode_i420(&mut encoder, &req);
        self.encoder = Some(encoder);
        match encoded {
            Ok(bytes) => Ok(bytes),
            Err(e) => Err(h264_failure("H264 encode: ", &e)),
        }
    }
}

/// `video` is the I420 frame packed from the decoded picture `d`: its size, and its
/// planes laid out as [`i420_packed`] says.
pub open spec fn picture_frame(video: VideoFrame, d: DecodedPlanes) -> bool {
    &&& video.width == d.width
    &&& video.height == d.height
    &&& video.format == PixelFormat::I420
    &&& i420_packed(
        video.data@,
        d.y@,
        d.u@,
        d.v@,
        d.y_stride as int,
        d.u_stride as int,
        d.v_stride as int,
        d.width as int,
        d.height as int,
    )
}

/// A decoded picture fits an I420 frame: its size fits the frame's machine integers,
/// and each plane holds its rows at its stride.
pub open spec fn packable(d: DecodedPlanes) -> bool {
    let w = d.width as int;
    let h = d.height as int;
    let y = w * h;
    &&& w <= u32::MAX
    &&& h <= u32::MAX
    &&& y <= u32::MAX
    &&& y * 3 <= usize::MAX
    &&& plane_fits(d.y@.len() as int, d.y_stride as int, w, h)
    &&& plane_fits(d.u@.len() as int, d.u_stride as int, w / 2, h / 2)
    &&& plane_fits(d.v@.len() as int, d.v_stride as int, w / 2, h / 2)
}

/// The depacketizing and decoding stage of the video source: RTP payloads in,
/// numbered I420 frames out.
pub struct VideoDecoderStage {
    depacketizer: H264Depacketizer,
    decoder: Option<H264Decoder>,
    frames: FrameSequencer,
}

impl VideoDecoderStage {
    /// A stage for a fresh stream, with no fragment in progress and no decoder yet.
    pub fn new() -> (r: VideoDecoderStage)
        ensures
            r.reassembly() == (Seq::<u8>::empty(), false),
            r.frames_emitted() == 0,
            !r.has_decoder(),
    {
        VideoDecoderStage {
            depacketizer: H264Depacketizer::new(),
            decoder: None,
            frames: FrameSequencer::new(),
        }
    }

    /// The state of the NAL unit reassembly.
    pub closed spec fn reassembly(&self) -> (Seq<u8>, bool) {
        self.depacketizer@
    }

    /// The number of frames emitted so far, which is also the id of the next one.
    pub closed spec fn frames_emitted(&self) -> nat {
        self.frames.next_id()
    }

    /// The stream the frames belong to.
    pub closed spec fn stream(&self) -> StreamId {
        self.frames.stream()
    }

    /// Whether the decoder has been created.
    pub closed spec fn has_decoder(&self) -> bool {
        self.decoder is Some
    }

    /// The NAL data last handed to the decoder, if any.
    pub closed spec fn last_decoded(&self) -> Option<Seq<u8>> {
        match self.decoder {
            Some(d) => d.last_decoded(),
            None => None,
        }
    }

    /// The picture the decoder gave back for the last NAL data, if it gave one.
    pub closed spec fn last_picture(&self) -> Option<DecodedPlanes> {
        match self.decoder {
            Some(d) => d.last_picture(),
            None => None,
        }
    }

    /// Releases the decoder; the next NAL unit creates a new one.
    pub fn release_decoder(&mut self)
        ensures
            final(self).reassembly() == old(self).reassembly(),
            final(self).frames_emitted() == old(self).frames_emitted(),
            final(self).stream() == old(self).stream(),
            !final(self).has_decoder(),
    {
        self.decoder = None;
    }

    /// The number of frames emitted so far.
    pub fn frame_count(&self) -> (r: u64)
        ensures
            r == self.frames_emitted(),
    {
        self.frames.frames_stamped()
    }

    /// Creates the decoder if there is none yet.
    pub fn prepare(&mut self) -> (r: Result<(), ElementError>)
        ensures
            final(self).reassembly() == old(self).reassembly(),
            final(self).frames_emitted() == old(self).frames_emitted(),
            final(self).stream() == old(self).stream(),
            r is Ok <==> final(self).has_decoder(),
            old(self).has_decoder() ==> r is Ok,
            r matches Err(e) ==> processing_error_with(e, "H264 decoder init: "@),
    {
        if self.decoder.is_some() {
            return Ok(());
        }
        match H264Decoder::open() {
            Ok(d) => {
                self.decoder = Some(d);
                Ok(())
            },
            Err(e) => Err(h264_failure("H264 decoder init: ", &e)),
        }
    }

    /// Packs a decoded picture into the next frame of the stream. A picture whose planes
    /// are shorter than its size claims, or whose size does not fit the machine's
    /// integers, yields no frame.
    pub fn frame_from_planes(&mut self, d: DecodedPlanes) -> (r: Option<Frame<VideoFrame>>)
        requires
            old(self).frames_emitted() < u64::MAX,
        ensures
            final(self).reassembly() == old(self).reassembly(),
            final(self).stream() == old(self).stream(),
            final(self).has_decoder() == old(self).has_decoder(),
            final(self).last_decoded() == old(self).last_decoded(),
            final(self).last_picture() == old(self).last_picture(),
            packable(d) ==> (r matches Some(f) && f.metadata.stream_id == old(self).stream()
                && f.metadata.frame_id == FrameId(old(self).frames_emitted() as u64) && picture_frame(f.payload, d)
                && final(self).frames_emitted() == old(self).frames_emitted() + 1),
            !packable(d) ==> r is None && final(self).frames_emitted() == old(self).frames_emitted(),
    {
        if d.width > 0xffff_ffff || d.height > 0xffff_ffff {
            return None;
        }
        let w: u32 = d.width as u32;
        let h: u32 = d.height as u32;
        proof {
            assert(w as u64 * h as u64 <= 0xffff_ffffu64 * 0xffff_ffffu64) by (nonlinear_arith)
                requires
                    w <= 0xffff_ffffu64,
                    h <= 0xffff_ffffu64,
            ;
        }
        if w as u64 * h as u64 > 0xffff_ffff {
            return None;
        }
        let y_size: u32 = w * h;
        if y_size as u64 > (usize::MAX / 3) as u64 {
            return None;
        }
        if !fits_plane(d.y.len(), d.y_stride, w as usize, h as usize)
            || !fits_plane(d.u.len(), d.u_stride, (w / 2) as usize, (h / 2) as usize)
            || !fits_plane(d.v.len(), d.v_stride, (w / 2) as usize, (h / 2) as usize) {
            return None;
        }
        proof {
            assert((w / 2) as u64 * (h / 2) as u64 <= w as u64 * h as u64) by (nonlinear_arith)
                requires
                    w / 2 <= w,
                    h / 2 <= h,
            ;
        }
        let data = pack_i420_planes(
            d.y.as_slice(),
            d.u.as_slice(),
            d.v.as_slice(),
            d.y_stride,
            d.u_stride,
            d.v_stride,
            w,
            h,
        );
        let video = VideoFrame::from_raw(w, h, PixelFormat::I420, data);
        Some(self.frames.stamp(video))
    }

    /// Processes the payload of one RTP packet: the depacketizer takes it, and when a NAL
    /// unit is complete the decoder (created first if needed) decodes it. A decoded
    /// picture becomes the next frame; a unit that gives no picture, or that the decoder
    /// rejects, yields nothing and reading goes on.
    pub fn on_rtp_payload(&mut self, payload: &[u8]) -> (r: Result<Option<Frame<VideoFrame>>, ElementError>)
        requires
            old(self).frames_emitted() < u64::MAX,
        ensures
            final(self).reassembly() == process_spec(old(self).reassembly().0, old(self).reassembly().1, payload@).0,
            final(self).stream() == old(self).stream(),
            process_spec(old(self).reassembly().0, old(self).reassembly().1, payload@).1 is None ==> (r matches Ok(None)),
            r matches Ok(Some(f)) ==> f.metadata.stream_id == old(self).stream() && f.metadata.frame_id == FrameId(
                old(self).frames_emitted() as u64) && f.payload.format == PixelFormat::I420
                && final(self).frames_emitted() == old(self).frames_emitted() + 1,
            r matches Ok(None) ==> final(self).frames_emitted() == old(self).frames_emitted(),
            r matches Err(e) ==> !old(self).has_decoder() && processing_error_with(e, "H264 decoder init: "@)
                && final(self).frames_emitted() == old(self).frames_emitted(),
            process_spec(old(self).reassembly().0, old(self).reassembly().1, payload@).1 matches Some(n) ==> (
            final(self).has_decoder() ==> final(self).last_decoded() == Some(n)) && (!final(self).has_decoder()
                ==> r is Err),
            process_spec(old(self).reassembly().0, old(self).reassembly().1, payload@).1 is Some
                && final(self).has_decoder() ==> match final(self).last_picture() {
                Some(p) => (packable(p) ==> (r matches Ok(Some(f)) && picture_frame(f.payload, p))) && (!packable(p)
                    ==> r matches Ok(None)),
                None => r matches Ok(None),
            },
    {
        let nal = match self.depacketizer.process_rtp(payload) {
            Some(n) => n,
            None => return Ok(None),
        };
        let mut decoder = match self.decoder.take() {
            Some(dec) => dec,
            None => match H264Decoder::open() {
                Ok(dec) => dec,
                Err(e) => return Err(h264_failure("H264 decoder init: ", &e)),
            },
        };
        let decoded = decode_nal(&mut decoder, nal.as_slice());
        self.decoder = Some(decoder);
        match decoded {
            Ok(Some(planes)) => Ok(self.frame_from_planes(planes)),
            Ok(None) => Ok(None),
            Err(_) => Ok(None),
        }
    }
}

/// Whether `rows` rows of `cols` bytes at `stride` fit in `len` bytes, computed without overflow.
fn fits_plane(len: usize, stride: usize, cols: usize, rows: usize) -> (r: bool)
    ensures
        r == plane_fits(len as int, stride as int, cols as int, rows as int),
{
    if rows == 0 {
        return true;
    }
    match stride.checked_mul(rows - 1) {
        Some(before_last) => match before_last.checked_add(cols) {
            Some(need) => need <= len,
            None => false,
        },
        None => false,
    }
}

/// The sink is configured through the pipeline's element configuration.
impl ElementConfig for WebRtcVideoSinkConfig {}

} // verus!
