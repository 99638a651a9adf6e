use aiko::message::ActorId;
use aiko::topics::{TopicBuilder, TopicKind, TopicMatcher};

#[test]
fn test_topic_builder() {
    let topics = TopicBuilder::new("test");

    assert_eq!(topics.service_status("node1"), "aiko/test/services/node1/status");
    assert_eq!(topics.pipeline_frames("pipeline1"), "aiko/test/pipelines/pipeline1/frames");
    assert_eq!(topics.discovery(), "aiko/test/discovery");
}

#[test]
fn test_topic_matcher() {
    let matcher = TopicMatcher::new("test");

    let parsed = matcher.parse("aiko/test/services/node1/status").unwrap();
    assert_eq!(parsed.kind, TopicKind::ServiceStatus);
    assert_eq!(parsed.id, "node1");

    let parsed = matcher.parse("aiko/test/pipelines/p1/frames").unwrap();
    assert_eq!(parsed.kind, TopicKind::PipelineFrames);
    assert_eq!(parsed.id, "p1");

    assert!(matcher.parse("invalid/topic").is_none());
    assert!(matcher.parse("aiko/other/discovery").is_none());
}

#[test]
fn wildcard_and_other_topics() {
    let topics = TopicBuilder::new("ns");
    assert_eq!(topics.namespace(), "ns");
    assert_eq!(topics.service_control("a"), "aiko/ns/services/a/control");
    assert_eq!(topics.pipeline_events("p"), "aiko/ns/pipelines/p/events");
    assert_eq!(topics.all_service_status(), "aiko/ns/services/+/status");
    assert_eq!(topics.all_pipeline_frames(), "aiko/ns/pipelines/+/frames");
    assert_eq!(topics.all_pipeline_events(), "aiko/ns/pipelines/+/events");
}

#[test]
fn actor_inbox_uses_hyphenated_uuid() {
    let topics = TopicBuilder::new("ns");
    let id = ActorId(0x0123_4567_89ab_cdef_0011_2233_4455_6677);
    let topic = topics.actor_inbox(&id);
    assert_eq!(topic, "aiko/ns/actors/01234567-89ab-cdef-0011-223344556677/inbox");
    let parsed = TopicMatcher::new("ns").parse(&topic).unwrap();
    assert_eq!(parsed.kind, TopicKind::ActorInbox);
    assert_eq!(parsed.id, "01234567-89ab-cdef-0011-223344556677");
}

#[test]
fn built_topics_parse_back() {
    let topics = TopicBuilder::new("lab");
    let matcher = TopicMatcher::new("lab");
    let cases = vec![
        (topics.service_status("s1"), TopicKind::ServiceStatus, "s1"),
        (topics.service_control("s2"), TopicKind::ServiceControl, "s2"),
        (topics.pipeline_frames("p1"), TopicKind::PipelineFrames, "p1"),
        (topics.pipeline_events("p2"), TopicKind::PipelineEvents, "p2"),
        (topics.discovery(), TopicKind::Discovery, ""),
    ];
    for (topic, kind, id) in cases {
        let parsed = matcher.parse(&topic).unwrap();
        assert_eq!(parsed.kind, kind);
        assert_eq!(parsed.id, id);
    }
}

#[test]
fn unknown_sections_and_short_topics() {
    let matcher = TopicMatcher::new("lab");
    let parsed = matcher.parse("aiko/lab/services/x/other").unwrap();
    assert_eq!(parsed.kind, TopicKind::Unknown);
    assert_eq!(parsed.id, "x");
    assert!(matcher.parse("aiko/lab/elsewhere").is_none());
    assert!(matcher.parse("aiko/lab/services/x").is_none());
    assert!(matcher.parse("aiko/lab").is_none());
    assert!(matcher.parse("").is_none());
}

#[test]
fn wildcard_slots_take_the_id() {
    let tb = TopicBuilder::new("prod");
    assert_eq!(tb.all_service_status().replacen('+', "svc-1", 1), tb.service_status("svc-1"));
    assert_eq!(tb.all_pipeline_frames().replacen('+', "cam", 1), tb.pipeline_frames("cam"));
    assert_eq!(tb.all_pipeline_events().replacen('+', "cam", 1), tb.pipeline_events("cam"));
}
