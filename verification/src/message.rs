//! Identifiers and messages exchanged between actors and nodes.

use vstd::prelude::*;
use crate::ident::{is_random_uuid, random_uuid_bits, unix_time_ns};

verus! {

/// `serde_json::Value`, carried opaquely inside configuration messages.
#[verifier::external_type_specification]
#[verifier::external_body]
pub struct ExJsonValue(serde_json::Value);

/// `Clone` of `serde_json::Value`; nothing is stated of the copy.
pub assume_specification[ <serde_json::Value as Clone>::clone ](v: &serde_json::Value) -> serde_json::Value;

/// Unique identifier for an actor: the 128 bits of a random (version 4) UUID.
#[derive(Clone, Copy, PartialEq, Eq, Hash, Debug, Structural)]
pub struct ActorId(pub u128);

impl ActorId {
    /// A fresh random identifier.
    pub fn new() -> (r: ActorId)
        ensures
            is_random_uuid(r.0),
    {
        ActorId(random_uuid_bits())
    }
}

impl Default for ActorId {
    fn default() -> (r: ActorId)
        ensures
            is_random_uuid(r.0),
    {
        ActorId::new()
    }
}

/// Control messages for managing actor lifecycle and behavior.
#[derive(Clone, Debug)]
pub enum ControlMessage {
    /// Start processing.
    Start,
    /// Pause processing.
    Pause,
    /// Resume processing.
    Resume,
    /// Stop and shut down gracefully.
    Stop,
    /// Update configuration with a JSON value.
    Configure(serde_json::Value),
}

/// Reason for an actor stopping.
#[derive(Clone, Debug)]
pub enum StopReason {
    /// Normal shutdown.
    Normal,
    /// Shutdown due to an error.
    Error(String),
    /// Forcefully killed.
    Killed,
}

/// System messages for actor coordination.
#[derive(Clone, Debug)]
pub enum SystemMessage {
    /// Health check ping.
    Ping { reply_to: ActorId },
    /// Health check response.
    Pong { from: ActorId, timestamp_ns: u64 },
    /// Actor has started.
    Started { actor_id: ActorId, name: String },
    /// Actor has stopped.
    Stopped { actor_id: ActorId, reason: StopReason },
    /// Actor encountered an error.
    Error { actor_id: ActorId, error: String },
}

/// Envelope for network-serializable messages.
#[derive(Clone, Debug)]
pub struct NetworkEnvelope {
    /// Unique message id: the 128 bits of a random UUID.
    pub id: u128,
    /// Source node identifier.
    pub source_node: String,
    /// Target node identifier.
    pub target_node: String,
    /// Target actor.
    pub target_actor: ActorId,
    /// Creation time in nanoseconds since the Unix epoch.
    pub timestamp_ns: u64,
    /// Serialized message payload.
    pub payload: Vec<u8>,
    /// Type identifier for the payload.
    pub payload_type: String,
}

impl NetworkEnvelope {
    /// A new envelope with a fresh id, stamped with the current time.
    pub fn new(
        source_node: &str,
        target_node: &str,
        target_actor: ActorId,
        payload: Vec<u8>,
        payload_type: &str,
    ) -> (r: NetworkEnvelope)
        ensures
            r.source_node@ == source_node@,
            r.target_node@ == target_node@,
            r.target_actor == target_actor,
            r.payload@ == payload@,
            r.payload_type@ == payload_type@,
            is_random_uuid(r.id),
    {
        NetworkEnvelope {
            id: random_uuid_bits(),
            source_node: String::from_str(source_node),
            target_node: String::from_str(target_node),
            target_actor,
            timestamp_ns: unix_time_ns(),
            payload,
            payload_type: String::from_str(payload_type),
        }
    }
}

} // verus!
