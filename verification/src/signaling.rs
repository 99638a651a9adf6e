//! Signaling: the messages peers exchange to set up a WebRTC connection, and the
//! decisions of the signaling pump that relays them.
//!
//! The pump itself (awaiting the signaling channel, the local ICE candidates and
//! the shutdown signal, and driving the peer connection) runs outside; for each
//! thing that happens it asks [`next_action`] what to do.

use vstd::prelude::*;
use crate::rtc::PeerRole;

verus! {

/// A signaling message exchanged between peers to establish a WebRTC connection.
#[derive(Clone, Debug)]
pub enum SignalingMessage {
    /// SDP offer from the offerer.
    Offer { sdp: String },
    /// SDP answer from the answerer.
    Answer { sdp: String },
    /// ICE candidate for connectivity checks.
    IceCandidate { candidate: String, sdp_mid: Option<String>, sdp_mline_index: Option<u16> },
}

/// An ICE candidate as the peer connection takes and gives it.
#[derive(Clone, Debug)]
pub struct CandidateInit {
    pub candidate: String,
    pub sdp_mid: Option<String>,
    pub sdp_mline_index: Option<u16>,
    pub username_fragment: Option<String>,
}

/// What the signaling pump observed.
#[derive(Clone, Debug)]
pub enum SignalingEvent {
    /// The local peer gathered an ICE candidate.
    LocalCandidate(CandidateInit),
    /// A message arrived from the remote peer.
    Received(SignalingMessage),
    /// The signaling channel closed.
    ChannelClosed,
    /// Receiving from the signaling channel failed for another reason.
    ReceiveFailed,
    /// The shutdown signal changed to the given value.
    ShutdownSignal(bool),
}

/// What the signaling pump does next.
#[derive(Clone, Debug)]
pub enum SignalingAction {
    /// Send this message to the remote peer.
    Send(SignalingMessage),
    /// Apply the remote offer with this SDP, then create, apply and send an answer.
    AnswerOffer(String),
    /// Apply the remote answer with this SDP.
    ApplyAnswer(String),
    /// Add this remote ICE candidate.
    AddRemoteCandidate(CandidateInit),
    /// Nothing to do; keep pumping.
    Continue,
    /// Leave the pump normally.
    Stop,
    /// Leave the pump with the receive error.
    Fail,
}

/// Whether the pump opens by creating, applying and sending an offer.
pub open spec fn opens_with_offer(role: PeerRole) -> bool {
    role == PeerRole::Offerer
}

/// The action for each event.
pub open spec fn action_for(e: SignalingEvent) -> SignalingAction {
    match e {
        SignalingEvent::LocalCandidate(c) => SignalingAction::Send(
            SignalingMessage::IceCandidate {
                candidate: c.candidate,
                sdp_mid: c.sdp_mid,
                sdp_mline_index: c.sdp_mline_index,
            },
        ),
        SignalingEvent::Received(SignalingMessage::Offer { sdp }) => SignalingAction::AnswerOffer(sdp),
        SignalingEvent::Received(SignalingMessage::Answer { sdp }) => SignalingAction::ApplyAnswer(sdp),
        SignalingEvent::Received(SignalingMessage::IceCandidate { candidate, sdp_mid, sdp_mline_index }) =>
            SignalingAction::AddRemoteCandidate(
            CandidateInit { candidate, sdp_mid, sdp_mline_index, username_fragment: None },
        ),
        SignalingEvent::ChannelClosed => SignalingAction::Stop,
        SignalingEvent::ReceiveFailed => SignalingAction::Fail,
        SignalingEvent::ShutdownSignal(down) => if down {
            SignalingAction::Stop
        } else {
            SignalingAction::Continue
        },
    }
}

/// Whether the pump opens by sending an offer: the offerer does, the answerer waits.
pub fn opening_offer(role: PeerRole) -> (r: bool)
    ensures
        r == opens_with_offer(role),
{
    match role {
        PeerRole::Offerer => true,
        PeerRole::Answerer => false,
    }
}

/// The action for an event: local candidates are sent to the remote peer, remote
/// offers are answered, remote answers and candidates are applied, a closed
/// channel or a raised shutdown signal ends the pump, and a receive error fails it.
pub fn next_action(e: SignalingEvent) -> (r: SignalingAction)
    ensures
        r == action_for(e),
{
    match e {
        SignalingEvent::LocalCandidate(c) => SignalingAction::Send(
            SignalingMessage::IceCandidate {
                candidate: c.candidate,
                sdp_mid: c.sdp_mid,
                sdp_mline_index: c.sdp_mline_index,
            },
        ),
        SignalingEvent::Received(m) => match m {
            SignalingMessage::Offer { sdp } => SignalingAction::AnswerOffer(sdp),
            SignalingMessage::Answer { sdp } => SignalingAction::ApplyAnswer(sdp),
            SignalingMessage::IceCandidate { candidate, sdp_mid, sdp_mline_index } =>
                SignalingAction::AddRemoteCandidate(
                CandidateInit { candidate, sdp_mid, sdp_mline_index, username_fragment: None },
            ),
        },
        SignalingEvent::ChannelClosed => SignalingAction::Stop,
        SignalingEvent::ReceiveFailed => SignalingAction::Fail,
        SignalingEvent::ShutdownSignal(down) => if down {
            SignalingAction::Stop
        } else {
            SignalingAction::Continue
        },
    }
}

/// A candidate gathered on one side and relayed through signaling reaches the
/// other side with the same candidate line, media id and media line index.
pub proof fn law_candidate_relay(c: CandidateInit)
    ensures
        action_for(SignalingEvent::LocalCandidate(c)) matches SignalingAction::Send(m) && action_for(
            SignalingEvent::Received(m),
        ) matches SignalingAction::AddRemoteCandidate(d) && d.candidate == c.candidate && d.sdp_mid
            == c.sdp_mid && d.sdp_mline_index == c.sdp_mline_index,
{
}

} // verus!
