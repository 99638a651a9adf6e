use aiko::h264::{H264Depacketizer, NAL_TYPE_STAP_A};

#[test]
fn test_single_nal_unit() {
    let mut depkt = H264Depacketizer::new();
    let payload = vec![0x65, 0x88, 0x84, 0x00];
    let result = depkt.process_rtp(&payload);
    assert_eq!(result, Some(payload));
}

#[test]
fn test_fu_a_reassembly() {
    let mut depkt = H264Depacketizer::new();

    let start = vec![0x7C, 0x85, 0xAA, 0xBB];
    assert!(depkt.process_rtp(&start).is_none());

    let middle = vec![0x7C, 0x05, 0xCC, 0xDD];
    assert!(depkt.process_rtp(&middle).is_none());

    let end = vec![0x7C, 0x45, 0xEE, 0xFF];
    let result = depkt.process_rtp(&end).unwrap();

    assert_eq!(result, vec![0x65, 0xAA, 0xBB, 0xCC, 0xDD, 0xEE, 0xFF]);
}

#[test]
fn test_stap_a_packet() {
    let mut depkt = H264Depacketizer::new();

    let mut payload = vec![NAL_TYPE_STAP_A];
    payload.extend_from_slice(&[0x00, 0x02]);
    payload.extend_from_slice(&[0x67, 0x42]);
    payload.extend_from_slice(&[0x00, 0x02]);
    payload.extend_from_slice(&[0x68, 0xCE]);

    let result = depkt.process_rtp(&payload).unwrap();

    let expected = vec![0x00, 0x00, 0x00, 0x01, 0x67, 0x42, 0x00, 0x00, 0x00, 0x01, 0x68, 0xCE];
    assert_eq!(result, expected);
}

#[test]
fn test_orphan_fu_a_middle_discarded() {
    let mut depkt = H264Depacketizer::new();

    let middle = vec![0x7C, 0x05, 0xCC, 0xDD];
    assert!(depkt.process_rtp(&middle).is_none());

    let end = vec![0x7C, 0x45, 0xEE, 0xFF];
    assert!(depkt.process_rtp(&end).is_none());
}

#[test]
fn test_empty_payload() {
    let mut depkt = H264Depacketizer::new();
    assert!(depkt.process_rtp(&[]).is_none());
}

#[test]
fn truncated_stap_a_unit_ends_the_list() {
    let mut depkt = H264Depacketizer::new();
    let payload = vec![NAL_TYPE_STAP_A, 0x00, 0x01, 0x09, 0x00, 0x05, 0x01];
    assert_eq!(depkt.process_rtp(&payload), Some(vec![0x00, 0x00, 0x00, 0x01, 0x09]));
}

#[test]
fn single_nal_unit_drops_partial_fragment() {
    let mut depkt = H264Depacketizer::new();
    assert!(depkt.process_rtp(&[0x7C, 0x85, 0xAA]).is_none());
    assert_eq!(depkt.process_rtp(&[0x41, 0x01]), Some(vec![0x41, 0x01]));
    assert!(depkt.process_rtp(&[0x7C, 0x45, 0xEE]).is_none());
}

#[test]
fn unsupported_types_are_ignored() {
    let mut depkt = H264Depacketizer::new();
    assert!(depkt.process_rtp(&[0x00, 0x01]).is_none());
    assert!(depkt.process_rtp(&[0x1D, 0x01]).is_none());
}

#[test]
fn new_start_fragment_restarts_reassembly() {
    let mut depkt = H264Depacketizer::new();
    assert!(depkt.process_rtp(&[0x7C, 0x85, 0x01]).is_none());
    assert!(depkt.process_rtp(&[0x7C, 0x81, 0x02]).is_none());
    assert_eq!(depkt.process_rtp(&[0x7C, 0x41, 0x03]), Some(vec![0x61, 0x02, 0x03]));
}
