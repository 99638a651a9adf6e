use aiko::frame::FrameId;
use aiko::media::{PixelFormat, VideoFrame};
use aiko::video::{
    pack_i420_planes, DecodedPlanes, VideoDecoderStage, VideoEncoderStage, VideoSinkSchedule,
    WebRtcVideoSinkConfig,
};
use openh264::formats::YUVSlices;

#[test]
fn video_sink_test_config_default() {
    let config = WebRtcVideoSinkConfig::default();
    assert_eq!(config.fps, 30);
    assert_eq!(config.keyframe_interval_secs, 2);
}

#[test]
fn test_i420_frame_for_encoding() {
    let vf = VideoFrame::new(640, 480, PixelFormat::I420);
    let (y, u, v) = vf.i420_planes();
    assert_eq!(y.len(), 640 * 480);
    assert_eq!(u.len(), 320 * 240);
    assert_eq!(v.len(), 320 * 240);

    let _yuv = YUVSlices::new((y, u, v), (640, 480), (640, 320, 320));
}

#[test]
fn keyframes_follow_the_configured_interval() {
    let mut schedule = VideoSinkSchedule::new();
    assert_eq!(schedule.keyframe_interval_frames, 60);
    schedule.configure(WebRtcVideoSinkConfig { fps: 10, keyframe_interval_secs: 3 });
    assert_eq!(schedule.keyframe_interval_frames, 30);
    assert_eq!(schedule.frame_duration_ms(), 100);
    let mut due = Vec::new();
    for _ in 0..61 {
        due.push(schedule.keyframe_due());
        schedule.frame_done();
    }
    let due_at: Vec<usize> = due.iter().enumerate().filter(|(_, d)| **d).map(|(i, _)| i).collect();
    assert_eq!(due_at, vec![30, 60]);
}

#[test]
fn packing_drops_stride_padding() {
    // 4x2 picture, Y stride 6, chroma stride 3
    let y: Vec<u8> = vec![1, 2, 3, 4, 0, 0, 5, 6, 7, 8];
    let u: Vec<u8> = vec![9, 10];
    let v: Vec<u8> = vec![11, 12];
    let data = pack_i420_planes(&y, &u, &v, 6, 3, 3, 4, 2);
    assert_eq!(data, vec![1, 2, 3, 4, 5, 6, 7, 8, 9, 10, 11, 12]);
}

#[test]
fn decoded_planes_become_numbered_frames() {
    let mut stage = VideoDecoderStage::new();
    let planes = DecodedPlanes {
        width: 2,
        height: 2,
        y_stride: 3,
        u_stride: 1,
        v_stride: 1,
        y: vec![1, 2, 0, 3, 4],
        u: vec![5],
        v: vec![6],
    };
    let frame = stage.frame_from_planes(planes.clone()).unwrap();
    assert_eq!(frame.frame_id(), FrameId(0));
    assert_eq!(frame.payload.format, PixelFormat::I420);
    assert_eq!(frame.payload.data, vec![1, 2, 3, 4, 5, 6]);
    let again = stage.frame_from_planes(planes).unwrap();
    assert_eq!(again.frame_id(), FrameId(1));
    assert_eq!(again.stream_id(), frame.stream_id());

    let short = DecodedPlanes {
        width: 2,
        height: 2,
        y_stride: 2,
        u_stride: 1,
        v_stride: 1,
        y: vec![1, 2, 3],
        u: vec![5],
        v: vec![6],
    };
    assert!(stage.frame_from_planes(short).is_none());
    assert_eq!(stage.frame_count(), 2);
}

#[test]
fn encoder_stage_produces_h264() {
    let mut stage = VideoEncoderStage::new();
    let mut frame = VideoFrame::new(64, 48, PixelFormat::I420);
    for b in frame.data.iter_mut() {
        *b = 128;
    }
    let bytes = stage.encode(&frame).unwrap();
    assert!(!bytes.is_empty());
    assert_eq!(&bytes[..4], &[0, 0, 0, 1]);
    stage.frame_done();
    assert_eq!(stage.schedule().frame_count, 1);
}

fn nal_units(stream: &[u8]) -> Vec<Vec<u8>> {
    let mut starts = Vec::new();
    let mut i = 0;
    while i + 3 <= stream.len() {
        if stream[i] == 0 && stream[i + 1] == 0 && stream[i + 2] == 1 {
            starts.push(i + 3);
            i += 3;
        } else {
            i += 1;
        }
    }
    let mut units = Vec::new();
    for (k, &s) in starts.iter().enumerate() {
        let mut end = if k + 1 < starts.len() { starts[k + 1] - 3 } else { stream.len() };
        while end > s && stream[end - 1] == 0 {
            end -= 1;
        }
        units.push(stream[s..end].to_vec());
    }
    units
}

#[test]
fn encoded_picture_decodes_through_stap_a() {
    let mut encoder = VideoEncoderStage::new();
    let mut frame = VideoFrame::new(64, 48, PixelFormat::I420);
    for b in frame.data.iter_mut() {
        *b = 128;
    }
    let bytes = encoder.encode(&frame).unwrap();
    let mut payload = vec![24u8];
    for unit in nal_units(&bytes) {
        payload.push((unit.len() >> 8) as u8);
        payload.push((unit.len() & 0xff) as u8);
        payload.extend_from_slice(&unit);
    }
    let mut decoder = VideoDecoderStage::new();
    decoder.prepare().unwrap();
    let decoded = decoder.on_rtp_payload(&payload).unwrap().unwrap();
    assert_eq!(decoded.payload.width, 64);
    assert_eq!(decoded.payload.height, 48);
    assert_eq!(decoded.frame_id(), FrameId(0));
    assert_eq!(decoded.payload.data.len(), 64 * 48 * 3 / 2);
}

#[test]
fn odd_sized_i420_planes_follow_the_documented_layout() {
    let vf = VideoFrame {
        width: 3,
        height: 3,
        format: PixelFormat::I420,
        data: vec![1, 2, 3, 4, 5, 6, 7, 8, 9, 10, 11, 12, 13],
    };
    let (y, u, v) = vf.i420_planes();
    assert_eq!(y, &[1, 2, 3, 4, 5, 6, 7, 8, 9]);
    assert_eq!(u, &[10]);
    assert_eq!(v, &[11]);
}

#[test]
fn encoder_input_hands_planes_in_order() {
    let mut stage = VideoEncoderStage::new();
    stage.configure(WebRtcVideoSinkConfig { fps: 1, keyframe_interval_secs: 1 });
    let vf = VideoFrame {
        width: 4,
        height: 2,
        format: PixelFormat::I420,
        data: vec![1, 2, 3, 4, 5, 6, 7, 8, 9, 10, 11, 12],
    };
    let req = stage.encoder_input(&vf);
    assert_eq!(req.y, &[1, 2, 3, 4, 5, 6, 7, 8]);
    assert_eq!(req.u, &[9, 10]);
    assert_eq!(req.v, &[11, 12]);
    assert_eq!((req.width, req.height), (4, 2));
    assert_eq!((req.y_stride, req.uv_stride), (4, 2));
    assert!(!req.force_keyframe);
    stage.frame_done();
    let req = stage.encoder_input(&vf);
    assert!(req.force_keyframe);
}

#[test]
fn odd_sized_pictures_become_frames() {
    let mut stage = VideoDecoderStage::new();
    let planes = DecodedPlanes {
        width: 3,
        height: 3,
        y_stride: 4,
        u_stride: 2,
        v_stride: 2,
        y: vec![1, 2, 3, 0, 4, 5, 6, 0, 7, 8, 9],
        u: vec![10],
        v: vec![11],
    };
    let frame = stage.frame_from_planes(planes).unwrap();
    assert_eq!(frame.frame_id(), FrameId(0));
    assert_eq!((frame.payload.width, frame.payload.height), (3, 3));
    assert_eq!(frame.payload.data, vec![1, 2, 3, 4, 5, 6, 7, 8, 9, 10, 11, 0, 0]);
    let (y, u, v) = frame.payload.i420_planes();
    assert_eq!((y.len(), u, v), (9, &[10u8][..], &[11u8][..]));
}

#[test]
fn released_codecs_are_created_again() {
    let mut sink = VideoEncoderStage::new();
    let frame = VideoFrame::new(64, 48, PixelFormat::I420);
    assert!(!sink.encode(&frame).unwrap().is_empty());
    sink.release_encoder();
    assert!(!sink.encode(&frame).unwrap().is_empty());

    let mut source = VideoDecoderStage::new();
    assert!(source.prepare().is_ok());
    source.release_decoder();
    assert!(source.prepare().is_ok());
    assert_eq!(source.frame_count(), 0);
}
