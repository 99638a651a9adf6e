//! MQTT transport: the connection configuration, the image payload of ML
//! pipelines, and the decisions of the event loop that polls the broker.
//!
//! The polling itself (a network call) runs outside; each poll outcome is handed
//! to [`on_poll`], which says how the connection flag changes and what to do.

use vstd::prelude::*;
use crate::codec::NetworkSerializable;
use crate::ident::{is_random_uuid, uuid_string, uuid_text, random_uuid_bits};
use crate::media::zeroed;

verus! {

/// `rumqttc::QoS`, carried through with incoming messages.
#[verifier::external_type_specification]
#[verifier::external_body]
pub struct ExQoS(rumqttc::QoS);

/// `Clone` of `rumqttc::QoS`, which derives `Clone` and `Copy`: the copy is the value itself.
pub assume_specification[ <rumqttc::QoS as Clone>::clone ](q: &rumqttc::QoS) -> (r: rumqttc::QoS)
    ensures
        r == *q,
;

/// Configuration for an MQTT connection.
#[derive(Clone, Debug)]
pub struct MqttConfig {
    pub client_id: String,
    pub broker_host: String,
    pub broker_port: u16,
    pub namespace: String,
    pub keep_alive_secs: u64,
    pub clean_session: bool,
    pub username: Option<String>,
    pub password: Option<String>,
}

/// A client id of the generated form `aiko-<uuid>`, with a random (version 4) UUID.
pub open spec fn generated_client_id(id: Seq<char>) -> bool {
    exists|bits: u128| is_random_uuid(bits) && id == "aiko-"@ + #[trigger] uuid_text(bits)
}

/// The settings every fresh configuration starts with, the broker address aside:
/// the `default` namespace, a 30 s keep-alive, a clean session and no credentials.
pub open spec fn default_session(c: MqttConfig) -> bool {
    &&& generated_client_id(c.client_id@)
    &&& c.namespace@ == "default"@
    &&& c.keep_alive_secs == 30
    &&& c.clean_session
    &&& c.username is None
    &&& c.password is None
}

impl Default for MqttConfig {
    /// A configuration for a broker on `localhost:1883`, with a fresh client id.
    fn default() -> (r: MqttConfig)
        ensures
            default_session(r),
            r.broker_host@ == "localhost"@,
            r.broker_port == 1883,
    {
        let bits = random_uuid_bits();
        let mut client_id = String::from_str("aiko-");
        let tail = uuid_string(bits);
        client_id.append(tail.as_str());
        assert(client_id@ == "aiko-"@ + uuid_text(bits));
        MqttConfig {
            client_id,
            broker_host: String::from_str("localhost"),
            broker_port: 1883,
            namespace: String::from_str("default"),
            keep_alive_secs: 30,
            clean_session: true,
            username: None,
            password: None,
        }
    }
}

impl MqttConfig {
    /// A configuration for the broker at `broker_host:broker_port`.
    pub fn new(broker_host: &str, broker_port: u16) -> (r: MqttConfig)
        ensures
            default_session(r),
            r.broker_host@ == broker_host@,
            r.broker_port == broker_port,
    {
        MqttConfig { broker_host: String::from_str(broker_host), broker_port, ..MqttConfig::default() }
    }

    /// The same configuration with another client id.
    pub fn with_client_id(self, client_id: &str) -> (r: MqttConfig)
        ensures
            r.client_id@ == client_id@,
            r == (MqttConfig { client_id: r.client_id, ..self }),
    {
        MqttConfig { client_id: String::from_str(client_id), ..self }
    }

    /// The same configuration with another namespace.
    pub fn with_namespace(self, namespace: &str) -> (r: MqttConfig)
        ensures
            r.namespace@ == namespace@,
            r == (MqttConfig { namespace: r.namespace, ..self }),
    {
        MqttConfig { namespace: String::from_str(namespace), ..self }
    }

    /// The same configuration with a user name and password.
    pub fn with_credentials(self, username: &str, password: &str) -> (r: MqttConfig)
        ensures
            r.username matches Some(u) && u@ == username@,
            r.password matches Some(p) && p@ == password@,
            r == (MqttConfig { username: r.username, password: r.password, ..self }),
    {
        MqttConfig {
            username: Some(String::from_str(username)),
            password: Some(String::from_str(password)),
            ..self
        }
    }

    /// The credentials to log in with: only when both a user name and a password are set.
    pub fn credentials(&self) -> (r: Option<(&String, &String)>)
        ensures
            r matches Some((u, p)) ==> self.username == Some(*u) && self.password == Some(*p),
            r is None <==> (self.username is None || self.password is None),
    {
        match (&self.username, &self.password) {
            (Some(u), Some(p)) => Some((u, p)),
            _ => None,
        }
    }
}

/// A message received from the broker.
#[derive(Clone, Debug)]
pub struct IncomingMessage {
    pub topic: String,
    pub payload: Vec<u8>,
    pub qos: rumqttc::QoS,
}

/// The outcome of one poll of the broker connection.
#[derive(Clone, Debug)]
pub enum PollOutcome {
    /// A message was published to a subscribed topic.
    Publish(IncomingMessage),
    /// The broker acknowledged the connection.
    ConnAck,
    /// The broker closed the connection.
    Disconnect,
    /// Any other packet or outgoing event.
    Other,
    /// The connection failed.
    Failed,
}

/// What the event loop does after a poll.
#[derive(Clone, Debug)]
pub enum LoopAction {
    /// Hand the message to the subscribers.
    Deliver(IncomingMessage),
    /// Poll again.
    Continue,
    /// Pause for this many milliseconds before polling again.
    PauseMs(u64),
}

/// Pause after a failed poll in the plain event loop.
pub const ERROR_PAUSE_MS: u64 = 1000;

/// Pause after a failed poll in the event loop that also watches a shutdown signal.
pub const SHUTDOWN_AWARE_ERROR_PAUSE_MS: u64 = 100;

/// How a poll outcome changes the connection flag, and what follows it.
pub open spec fn poll_step(connected: bool, outcome: PollOutcome, error_pause_ms: u64) -> (bool, LoopAction) {
    match outcome {
        PollOutcome::Publish(m) => (connected, LoopAction::Deliver(m)),
        PollOutcome::ConnAck => (true, LoopAction::Continue),
        PollOutcome::Disconnect => (false, LoopAction::Continue),
        PollOutcome::Other => (connected, LoopAction::Continue),
        PollOutcome::Failed => (false, LoopAction::PauseMs(error_pause_ms)),
    }
}

/// The connection flag after a poll and the action that follows: published
/// messages are delivered, an acknowledgement marks the connection up, a
/// disconnect or a failure marks it down, and a failure pauses before the next poll.
pub fn on_poll(connected: bool, outcome: PollOutcome, error_pause_ms: u64) -> (r: (bool, LoopAction))
    ensures
        r == poll_step(connected, outcome, error_pause_ms),
{
    match outcome {
        PollOutcome::Publish(m) => (connected, LoopAction::Deliver(m)),
        PollOutcome::ConnAck => (true, LoopAction::Continue),
        PollOutcome::Disconnect => (false, LoopAction::Continue),
        PollOutcome::Other => (connected, LoopAction::Continue),
        PollOutcome::Failed => (false, LoopAction::PauseMs(error_pause_ms)),
    }
}

/// Image format.
#[derive(Clone, Copy, Debug, PartialEq, Eq, Structural)]
pub enum ImageFormat {
    Rgb8,
    Rgba8,
    Gray8,
    Bgr8,
}

/// Image data for ML pipelines.
#[derive(Clone, Debug)]
pub struct ImageData {
    pub width: u32,
    pub height: u32,
    pub channels: u8,
    pub format: ImageFormat,
    pub data: Vec<u8>,
}

impl ImageData {
    /// A zeroed image of `width * height * channels` bytes.
    pub fn new(width: u32, height: u32, channels: u8, format: ImageFormat) -> (r: ImageData)
        requires
            width * height <= u32::MAX,
            width * height * channels <= u32::MAX,
        ensures
            r.width == width,
            r.height == height,
            r.channels == channels,
            r.format == format,
            r.data@ == Seq::new((width * height * channels) as nat, |i: int| 0u8),
    {
        let area: u32 = width * height;
        assert(area * (channels as u32) == width * height * channels) by (nonlinear_arith)
            requires
                area == width * height,
        ;
        let size: u32 = area * (channels as u32);
        ImageData { width, height, channels, format, data: zeroed(size as usize) }
    }

    /// An image over existing data.
    pub fn from_raw(width: u32, height: u32, channels: u8, format: ImageFormat, data: Vec<u8>) -> (r: ImageData)
        ensures
            r.width == width,
            r.height == height,
            r.channels == channels,
            r.format == format,
            r.data@ == data@,
    {
        ImageData { width, height, channels, format, data }
    }
}

impl NetworkSerializable for ImageData {
    open spec fn spec_type_tag() -> Seq<char> {
        "image"@
    }

    fn type_tag() -> (r: &'static str) {
        "image"
    }
}

} // verus!
