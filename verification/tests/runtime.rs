use aiko::actor::{default_supervision, mailbox_continues, Delivery, SupervisionAction};
use aiko::element::{ElementContext, FilterElement, MapElement, PassThrough};
use aiko::error::ElementError;
use aiko::executor::{SinkProgress, SourceRunState, SyncExecutor};
use aiko::frame::{Frame, FrameId, StreamId};
use aiko::message::{ActorId, ControlMessage, NetworkEnvelope};

#[test]
fn source_control_messages() {
    let mut state = SourceRunState::new();
    assert!(!state.is_running());
    assert!(state.on_control(&ControlMessage::Start));
    assert!(state.is_running());
    assert!(!state.on_control(&ControlMessage::Pause));
    assert!(!state.is_running());
    assert!(state.on_control(&ControlMessage::Resume));
    assert!(!state.on_control(&ControlMessage::Configure(serde_json::Value::Null)));
    assert!(state.is_running());
    state.on_produced();
    state.on_produced();
    assert_eq!(state.frames_produced(), 2);
    assert!(!state.on_control(&ControlMessage::Stop));
    assert!(!state.is_running());
}

#[test]
fn sink_counts_frames() {
    let mut progress = SinkProgress::new();
    progress.on_consumed();
    assert_eq!(progress.frames_consumed, 1);
}

#[test]
fn sync_executor_runs_the_chain_once() {
    let input = Frame::new(StreamId(1), FrameId(4), 21i32);
    let out: Result<Option<Frame<i32>>, ElementError> =
        SyncExecutor::run_once(input, |f: Frame<i32>| Ok(Some(f.map(|x| x * 2))));
    let out = out.unwrap().unwrap();
    assert_eq!(out.payload, 42);
    assert_eq!(out.frame_id(), FrameId(4));
}

#[test]
fn supervision_and_mailbox() {
    assert_eq!(default_supervision(), SupervisionAction::Escalate);
    assert!(mailbox_continues(Delivery::Message));
    assert!(!mailbox_continues(Delivery::StopRequested));
    assert!(!mailbox_continues(Delivery::Closed));
}

#[test]
fn element_building_blocks() {
    let ctx = ElementContext::new("double", "main");
    assert_eq!(ctx.element_name, "double");
    assert_eq!(ctx.pipeline_name, "main");
    let pass: PassThrough<i32> = PassThrough::new("pass");
    assert_eq!(pass.name(), "pass");
    let mut map = MapElement::new("double", |x: i32| x * 2);
    assert_eq!(map.name(), "double");
    assert_eq!((map.function_mut())(4), 8);
    let mut filter = FilterElement::new("even", |x: &i32| *x % 2 == 0);
    assert_eq!(filter.name(), "even");
    assert!((filter.predicate_mut())(&2));
}

#[test]
fn elements_process_frames() {
    let mut pass: PassThrough<i32> = PassThrough::new("pass");
    let frame = Frame::new(StreamId(3), FrameId(1), 7i32);
    assert_eq!(pass.process_frame(frame).unwrap().payload, 7);

    let mut map = MapElement::new("to_string", |x: i32| x.to_string());
    let out = map.process_frame(Frame::new(StreamId(3), FrameId(2), 12i32)).unwrap();
    assert_eq!(out.payload, "12");
    assert_eq!(out.frame_id(), FrameId(2));
    assert_eq!(out.stream_id(), StreamId(3));

    let mut filter = FilterElement::new("even", |x: &i32| *x % 2 == 0);
    assert!(filter.process_frame(Frame::new(StreamId(3), FrameId(3), 4i32)).is_some());
    assert!(filter.process_frame(Frame::new(StreamId(3), FrameId(4), 5i32)).is_none());
}

#[test]
fn network_envelope_fields() {
    let target = ActorId(5);
    let env = NetworkEnvelope::new("a", "b", target, vec![1, 2], "bytes");
    assert_eq!(env.source_node, "a");
    assert_eq!(env.target_node, "b");
    assert_eq!(env.target_actor, target);
    assert_eq!(env.payload, vec![1, 2]);
    assert_eq!(env.payload_type, "bytes");
    let other = NetworkEnvelope::new("a", "b", target, vec![], "bytes");
    assert_ne!(env.id, other.id);
    assert_ne!(ActorId::new(), ActorId::new());
}

#[test]
fn fresh_ids_are_version_four_uuids() {
    for bits in [ActorId::new().0, StreamId::new().0] {
        assert_eq!((bits >> 76) & 0xf, 4);
        assert_eq!((bits >> 62) & 0x3, 2);
    }
}
