use aiko::media::{AudioFrame, PixelFormat, SampleFormat, VideoFrame};

#[test]
fn test_pixel_format_frame_size() {
    assert_eq!(PixelFormat::I420.frame_size(640, 480), 640 * 480 * 3 / 2);
    assert_eq!(PixelFormat::Rgb8.frame_size(640, 480), 640 * 480 * 3);
    assert_eq!(PixelFormat::Rgba8.frame_size(640, 480), 640 * 480 * 4);
    assert_eq!(PixelFormat::Gray8.frame_size(640, 480), 640 * 480);
}

#[test]
fn test_video_frame_new() {
    let frame = VideoFrame::new(640, 480, PixelFormat::I420);
    assert_eq!(frame.width, 640);
    assert_eq!(frame.height, 480);
    assert_eq!(frame.format, PixelFormat::I420);
    assert_eq!(frame.data.len(), 640 * 480 * 3 / 2);
}

#[test]
fn test_video_frame_i420_planes() {
    let mut frame = VideoFrame::new(4, 2, PixelFormat::I420);
    let y_size = 4 * 2;
    let uv_size = 2 * 1;
    frame.data[..y_size].fill(1);
    frame.data[y_size..y_size + uv_size].fill(2);
    frame.data[y_size + uv_size..].fill(3);

    let (y, u, v) = frame.i420_planes();
    assert_eq!(y.len(), 8);
    assert_eq!(u.len(), 2);
    assert_eq!(v.len(), 2);
    assert!(y.iter().all(|&b| b == 1));
    assert!(u.iter().all(|&b| b == 2));
    assert!(v.iter().all(|&b| b == 3));
}

#[test]
fn test_audio_frame_silence() {
    let frame = AudioFrame::silence(48000, 2, SampleFormat::I16Le, 960);
    assert_eq!(frame.sample_rate, 48000);
    assert_eq!(frame.channels, 2);
    assert_eq!(frame.data.len(), 960 * 2 * 2);
    assert_eq!(frame.samples_per_channel(), 960);
}

#[test]
fn test_sample_format_bytes() {
    assert_eq!(SampleFormat::I16Le.bytes_per_sample(), 2);
    assert_eq!(SampleFormat::F32Le.bytes_per_sample(), 4);
}

#[test]
fn video_frame_sizes_of_every_format() {
    assert_eq!(PixelFormat::I420.frame_size(3, 3), 13);
    assert_eq!(VideoFrame::new(2, 2, PixelFormat::Rgba8).data.len(), 16);
    assert!(VideoFrame::new(2, 2, PixelFormat::Gray8).data.iter().all(|&b| b == 0));
}

#[test]
fn from_raw_keeps_matching_data() {
    let frame = VideoFrame::from_raw(2, 2, PixelFormat::Gray8, vec![1, 2, 3, 4]);
    assert_eq!(frame.data, vec![1, 2, 3, 4]);
    assert_eq!(frame.format, PixelFormat::Gray8);
}

#[test]
fn samples_per_channel_of_float_and_empty_frames() {
    let f = AudioFrame::new(48000, 2, SampleFormat::F32Le, vec![0u8; 80]);
    assert_eq!(f.samples_per_channel(), 10);
    let none = AudioFrame::new(48000, 0, SampleFormat::I16Le, vec![0u8; 8]);
    assert_eq!(none.samples_per_channel(), 0);
}
