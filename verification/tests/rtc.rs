use aiko::rtc::{
    AudioSample, ConnectionState, IceServer, LocalTrackConfig, MediaKind, PeerRole, PeerState, WebRtcConfig,
};
use aiko::signaling::{next_action, opening_offer, CandidateInit, SignalingAction, SignalingEvent, SignalingMessage};

#[test]
fn test_audio_sample() {
    let sample = AudioSample::new(48000, 2, vec![0u8; 960]);
    assert_eq!(sample.sample_rate, 48000);
    assert_eq!(sample.channels, 2);
    assert_eq!(sample.data.len(), 960);
}

#[test]
fn default_config_uses_public_stun() {
    let config = WebRtcConfig::new();
    assert_eq!(config.role, PeerRole::Offerer);
    assert!(config.ordered_channels);
    assert_eq!(config.ice_servers.len(), 1);
    assert_eq!(config.ice_servers[0].urls, vec!["stun:stun.l.google.com:19302".to_string()]);
    assert!(config.ice_servers[0].username.is_none());
}

#[test]
fn config_builders_replace_and_append() {
    let turn = IceServer::new(vec!["turn:a".to_string(), "turn:b".to_string()]).with_credentials("u", "p");
    let config = WebRtcConfig::default()
        .with_role(PeerRole::Answerer)
        .with_ice_server(turn)
        .with_ordered_channels(false);
    assert_eq!(config.role, PeerRole::Answerer);
    assert!(!config.ordered_channels);
    assert_eq!(config.ice_servers.len(), 2);
    assert_eq!(config.ice_servers[1].username.as_deref(), Some("u"));
    assert_eq!(config.ice_servers[1].credential.as_deref(), Some("p"));
    let replaced = config.with_ice_servers(vec![IceServer::stun("stun:x")]);
    assert_eq!(replaced.ice_servers.len(), 1);
    assert_eq!(replaced.role, PeerRole::Answerer);
}

#[test]
fn stack_fields_fill_in_empty_credentials() {
    let (urls, user, cred) = IceServer::stun("stun:x").stack_fields();
    assert_eq!(urls, vec!["stun:x".to_string()]);
    assert_eq!(user, "");
    assert_eq!(cred, "");
    let (_, user, cred) = IceServer::stun("turn:y").with_credentials("me", "secret").stack_fields();
    assert_eq!(user, "me");
    assert_eq!(cred, "secret");
}

#[test]
fn track_configs_and_clocks() {
    let audio = LocalTrackConfig::audio("a0", "s0");
    assert_eq!(audio.kind, MediaKind::Audio);
    assert_eq!(audio.codec_mime_type, "audio/opus");
    assert_eq!(audio.codec_clock(), (48000, 2));
    let video = LocalTrackConfig::video("v0", "s0");
    assert_eq!(video.codec_mime_type, "video/VP8");
    assert_eq!(video.codec_clock(), (90000, 0));
    let h264 = LocalTrackConfig::h264_video("v1", "s1");
    assert_eq!(h264.kind, MediaKind::Video);
    assert_eq!(h264.codec_mime_type, "video/H264");
    assert_eq!(h264.id, "v1");
    assert_eq!(h264.stream_id, "s1");
}

#[test]
fn connection_states_map_to_peer_states() {
    assert_eq!(PeerState::from(ConnectionState::Unspecified), PeerState::New);
    assert_eq!(PeerState::from(ConnectionState::New), PeerState::New);
    assert_eq!(PeerState::from(ConnectionState::Connecting), PeerState::Connecting);
    assert_eq!(PeerState::from(ConnectionState::Connected), PeerState::Connected);
    assert_eq!(PeerState::from(ConnectionState::Disconnected), PeerState::Disconnected);
    assert_eq!(PeerState::from(ConnectionState::Failed), PeerState::Failed);
    assert_eq!(PeerState::from(ConnectionState::Closed), PeerState::Closed);
}

#[test]
fn signaling_pump_decisions() {
    assert!(opening_offer(PeerRole::Offerer));
    assert!(!opening_offer(PeerRole::Answerer));

    let local = CandidateInit {
        candidate: "candidate:1".to_string(),
        sdp_mid: Some("0".to_string()),
        sdp_mline_index: Some(0),
        username_fragment: Some("frag".to_string()),
    };
    let sent = match next_action(SignalingEvent::LocalCandidate(local)) {
        SignalingAction::Send(m) => m,
        _ => panic!("a local candidate is sent"),
    };
    match next_action(SignalingEvent::Received(sent)) {
        SignalingAction::AddRemoteCandidate(c) => {
            assert_eq!(c.candidate, "candidate:1");
            assert_eq!(c.sdp_mid.as_deref(), Some("0"));
            assert_eq!(c.sdp_mline_index, Some(0));
            assert!(c.username_fragment.is_none());
        }
        _ => panic!("a remote candidate is added"),
    }
    match next_action(SignalingEvent::Received(SignalingMessage::Offer { sdp: "v=0".to_string() })) {
        SignalingAction::AnswerOffer(sdp) => assert_eq!(sdp, "v=0"),
        _ => panic!("an offer is answered"),
    }
    match next_action(SignalingEvent::Received(SignalingMessage::Answer { sdp: "v=1".to_string() })) {
        SignalingAction::ApplyAnswer(sdp) => assert_eq!(sdp, "v=1"),
        _ => panic!("an answer is applied"),
    }
    assert!(matches!(next_action(SignalingEvent::ChannelClosed), SignalingAction::Stop));
    assert!(matches!(next_action(SignalingEvent::ReceiveFailed), SignalingAction::Fail));
    assert!(matches!(next_action(SignalingEvent::ShutdownSignal(true)), SignalingAction::Stop));
    assert!(matches!(next_action(SignalingEvent::ShutdownSignal(false)), SignalingAction::Continue));
}
