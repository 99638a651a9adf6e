use aiko::frame::{Frame, FrameId, FrameMetadata, FrameSequencer, Properties, StreamId};

#[test]
fn test_frame_creation() {
    let stream_id = StreamId::new();
    let frame_id = FrameId(0);
    let frame = Frame::new(stream_id, frame_id, "hello".to_string());

    assert_eq!(frame.stream_id(), stream_id);
    assert_eq!(frame.frame_id(), frame_id);
    assert_eq!(frame.payload, "hello");
}

#[test]
fn test_frame_map() {
    let frame = Frame::new(StreamId::new(), FrameId(0), 42i32);
    let mapped = frame.map(|x| x * 2);
    assert_eq!(mapped.payload, 84);
}

#[test]
fn frame_id_next_counts_up() {
    assert_eq!(FrameId(41).next(), FrameId(42));
    assert_eq!(FrameId::default(), FrameId(0));
}

#[test]
fn metadata_source_and_properties() {
    let meta = FrameMetadata::new(StreamId(7), FrameId(3))
        .with_source("camera")
        .with_property("k", "v1")
        .with_property("other", "x")
        .with_property("k", "v2");
    assert_eq!(meta.source_element.as_deref(), Some("camera"));
    assert_eq!(meta.properties.get("k").map(|s| s.as_str()), Some("v2"));
    assert_eq!(meta.properties.get("other").map(|s| s.as_str()), Some("x"));
    assert!(meta.properties.get("missing").is_none());
    assert_eq!(meta.frame_id, FrameId(3));
    assert_eq!(meta.stream_id, StreamId(7));
}

#[test]
fn properties_insert_replaces() {
    let mut p = Properties::new();
    p.insert("a".to_string(), "1".to_string());
    p.insert("a".to_string(), "2".to_string());
    assert_eq!(p.get("a").unwrap(), "2");
}

#[test]
fn try_map_keeps_metadata_and_errors() {
    let frame = Frame::new(StreamId(1), FrameId(9), 5i32);
    let ok: Result<Frame<String>, String> = frame.clone().try_map(|x| Ok(x.to_string()));
    let ok = ok.unwrap();
    assert_eq!(ok.payload, "5");
    assert_eq!(ok.frame_id(), FrameId(9));
    let err: Result<Frame<i32>, String> = frame.try_map(|_| Err("bad".to_string()));
    assert_eq!(err.unwrap_err(), "bad");
}

#[test]
fn sequencer_numbers_frames_of_one_stream() {
    let mut seq = FrameSequencer::new();
    let a = seq.stamp("a");
    let b = seq.stamp("b");
    assert_eq!(a.frame_id(), FrameId(0));
    assert_eq!(b.frame_id(), FrameId(1));
    assert_eq!(a.stream_id(), b.stream_id());
    assert_eq!(a.stream_id(), seq.stream_id());
    assert_eq!(seq.frames_stamped(), 2);
}
