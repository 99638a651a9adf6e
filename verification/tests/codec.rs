use aiko::codec::{CodecError, FrameEnvelope, NetworkSerializable};
use aiko::frame::{Frame, FrameId, StreamId};
use aiko::media::{AudioFrame, VideoFrame};
use aiko::mqtt::ImageData;
use aiko::rtc::AudioSample;

#[test]
fn codec_test_frame_envelope_roundtrip() {
    let frame = Frame::new(StreamId::new(), FrameId(42), "hello world".to_string());

    let bytes = bincode::serialize(&frame.payload).unwrap();
    let envelope = FrameEnvelope::from_payload::<String>(frame.metadata, bytes);
    assert_eq!(envelope.payload_type, "string");

    let (metadata, payload) = envelope.into_payload::<String>().unwrap();
    let recovered: Frame<String> = Frame::with_metadata(metadata, bincode::deserialize(&payload).unwrap());
    assert_eq!(recovered.payload, "hello world");
    assert_eq!(recovered.frame_id(), FrameId(42));
}

#[test]
fn test_type_mismatch_error() {
    let frame = Frame::new(StreamId::new(), FrameId(0), 42i32);
    let bytes = bincode::serialize(&frame.payload).unwrap();
    let envelope = FrameEnvelope::from_payload::<i32>(frame.metadata, bytes);

    let result = envelope.into_payload::<String>();
    assert!(result.is_err());
    let err = result.unwrap_err();
    assert!(matches!(err, CodecError::TypeMismatch { .. }));
}

#[test]
fn test_bytes_roundtrip() {
    let data = vec![1u8, 2, 3, 4, 5];
    let frame = Frame::new(StreamId::new(), FrameId(0), data.clone());
    let bytes = bincode::serialize(&frame.payload).unwrap();
    let envelope = FrameEnvelope::from_payload::<Vec<u8>>(frame.metadata, bytes);
    let (metadata, payload) = envelope.into_payload::<Vec<u8>>().unwrap();
    let recovered: Frame<Vec<u8>> = Frame::with_metadata(metadata, bincode::deserialize(&payload).unwrap());
    assert_eq!(recovered.payload, data);
}

#[test]
fn type_tags_are_distinct() {
    assert_eq!(<Vec<u8> as NetworkSerializable>::type_tag(), "bytes");
    assert_eq!(<String as NetworkSerializable>::type_tag(), "string");
    assert_eq!(<i32 as NetworkSerializable>::type_tag(), "i32");
    assert_eq!(<i64 as NetworkSerializable>::type_tag(), "i64");
    assert_eq!(VideoFrame::type_tag(), "video_frame");
    assert_eq!(AudioFrame::type_tag(), "audio_frame");
    assert_eq!(ImageData::type_tag(), "image");
    assert_eq!(AudioSample::type_tag(), "audio_sample");
}

#[test]
fn mismatch_names_both_types() {
    let frame = Frame::new(StreamId(1), FrameId(0), 1i64);
    let envelope = FrameEnvelope::from_payload::<i64>(frame.metadata, vec![0u8; 8]);
    match envelope.into_payload::<i32>() {
        Err(CodecError::TypeMismatch { expected, actual }) => {
            assert_eq!(expected, "i32");
            assert_eq!(actual, "i64");
        }
        _ => panic!("expected a type mismatch"),
    }
}
