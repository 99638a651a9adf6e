//! WebRTC transport configuration: ICE servers, the peer's role, local media
//! track descriptions, the connection state and the audio sample payload.

use vstd::prelude::*;
use crate::codec::NetworkSerializable;

verus! {

/// ICE server configuration.
#[derive(Clone, Debug)]
pub struct IceServer {
    pub urls: Vec<String>,
    pub username: Option<String>,
    pub credential: Option<String>,
}

/// The characters of each string of `v`, in order.
pub open spec fn texts(v: Seq<String>) -> Seq<Seq<char>> {
    v.map_values(|s: String| s@)
}

/// `s` is a server reached at the single URL `url`, without credentials.
pub open spec fn single_url_server(s: IceServer, url: Seq<char>) -> bool {
    &&& texts(s.urls@) == seq![url]
    &&& s.username is None
    &&& s.credential is None
}

impl IceServer {
    /// An ICE server with the given URLs and no credentials.
    pub fn new(urls: Vec<String>) -> (r: IceServer)
        ensures
            r.urls@ == urls@,
            r.username is None,
            r.credential is None,
    {
        IceServer { urls, username: None, credential: None }
    }

    /// A STUN server entry for one URL.
    pub fn stun(url: &str) -> (r: IceServer)
        ensures
            single_url_server(r, url@),
    {
        let mut urls: Vec<String> = Vec::new();
        urls.push(String::from_str(url));
        let r = IceServer::new(urls);
        assert(texts(r.urls@) =~= seq![url@]);
        r
    }

    /// The same server with credentials (for TURN servers).
    pub fn with_credentials(self, username: &str, credential: &str) -> (r: IceServer)
        ensures
            r.urls@ == self.urls@,
            r.username matches Some(u) && u@ == username@,
            r.credential matches Some(c) && c@ == credential@,
    {
        IceServer {
            urls: self.urls,
            username: Some(String::from_str(username)),
            credential: Some(String::from_str(credential)),
        }
    }
}

/// The text of an optional string, or the empty text when there is none.
pub open spec fn text_or_empty(o: Option<String>) -> Seq<char> {
    match o {
        Some(s) => s@,
        None => Seq::empty(),
    }
}

impl IceServer {
    /// The fields the WebRTC stack takes for this server: its URLs, and its user name
    /// and credential, each empty when unset.
    pub fn stack_fields(&self) -> (r: (Vec<String>, String, String))
        ensures
            r.0@ == self.urls@,
            r.1@ == text_or_empty(self.username),
            r.2@ == text_or_empty(self.credential),
    {
        let mut urls: Vec<String> = Vec::new();
        let n: usize = self.urls.len();
        let mut i: usize = 0;
        while i < n
            invariant
                n == self.urls@.len(),
                i <= n,
                urls@ == self.urls@.subrange(0, i as int),
            decreases n - i,
        {
            urls.push(self.urls[i].clone());
            i = i + 1;
            proof {
                assert(urls@ =~= self.urls@.subrange(0, i as int));
            }
        }
        let username = match &self.username {
            Some(u) => u.clone(),
            None => String::new(),
        };
        let credential = match &self.credential {
            Some(c) => c.clone(),
            None => String::new(),
        };
        (urls, username, credential)
    }
}

/// Role of this peer in the WebRTC connection.
#[derive(Clone, Copy, Debug, PartialEq, Eq, Structural)]
pub enum PeerRole {
    /// This peer creates the offer.
    Offerer,
    /// This peer receives the offer and creates an answer.
    Answerer,
}

/// Configuration for a WebRTC connection.
#[derive(Clone, Debug)]
pub struct WebRtcConfig {
    pub role: PeerRole,
    pub ice_servers: Vec<IceServer>,
    pub ordered_channels: bool,
}

/// The public STUN server used when nothing else is configured.
pub open spec fn default_stun_url() -> Seq<char> {
    "stun:stun.l.google.com:19302"@
}

/// The default configuration: offerer, one public STUN server, ordered channels.
pub open spec fn is_default_config(c: WebRtcConfig) -> bool {
    &&& c.role == PeerRole::Offerer
    &&& c.ice_servers@.len() == 1
    &&& single_url_server(c.ice_servers@[0], default_stun_url())
    &&& c.ordered_channels
}

impl Default for WebRtcConfig {
    fn default() -> (r: WebRtcConfig)
        ensures
            is_default_config(r),
    {
        let mut ice_servers: Vec<IceServer> = Vec::new();
        ice_servers.push(IceServer::stun("stun:stun.l.google.com:19302"));
        WebRtcConfig { role: PeerRole::Offerer, ice_servers, ordered_channels: true }
    }
}

impl WebRtcConfig {
    /// The default configuration.
    pub fn new() -> (r: WebRtcConfig)
        ensures
            is_default_config(r),
    {
        WebRtcConfig::default()
    }

    /// The same configuration with another role.
    pub fn with_role(self, role: PeerRole) -> (r: WebRtcConfig)
        ensures
            r.role == role,
            r.ice_servers@ == self.ice_servers@,
            r.ordered_channels == self.ordered_channels,
    {
        WebRtcConfig { role, ..self }
    }

    /// The same configuration with one more ICE server, after the others.
    pub fn with_ice_server(self, server: IceServer) -> (r: WebRtcConfig)
        ensures
            r.role == self.role,
            r.ice_servers@ == self.ice_servers@.push(server),
            r.ordered_channels == self.ordered_channels,
    {
        let mut c = self;
        c.ice_servers.push(server);
        c
    }

    /// The same configuration with its ICE servers replaced.
    pub fn with_ice_servers(self, servers: Vec<IceServer>) -> (r: WebRtcConfig)
        ensures
            r.role == self.role,
            r.ice_servers@ == servers@,
            r.ordered_channels == self.ordered_channels,
    {
        WebRtcConfig { ice_servers: servers, ..self }
    }

    /// The same configuration with ordered or unordered data channels.
    pub fn with_ordered_channels(self, ordered: bool) -> (r: WebRtcConfig)
        ensures
            r.role == self.role,
            r.ice_servers@ == self.ice_servers@,
            r.ordered_channels == ordered,
    {
        WebRtcConfig { ordered_channels: ordered, ..self }
    }
}

/// The kind of media track.
#[derive(Clone, Copy, Debug, PartialEq, Eq, Structural)]
pub enum MediaKind {
    Audio,
    Video,
}

/// Configuration for creating a local media track.
#[derive(Clone, Debug)]
pub struct LocalTrackConfig {
    pub kind: MediaKind,
    pub codec_mime_type: String,
    pub id: String,
    pub stream_id: String,
}

/// The RTP clock rate and channel count of a track kind: Opus audio runs at
/// 48 kHz in stereo, video at the 90 kHz RTP clock with no channels.
pub open spec fn clock_of(kind: MediaKind) -> (u32, u16) {
    match kind {
        MediaKind::Audio => (48000, 2),
        MediaKind::Video => (90000, 0),
    }
}

impl LocalTrackConfig {
    /// An Opus audio track.
    pub fn audio(id: &str, stream_id: &str) -> (r: LocalTrackConfig)
        ensures
            r.kind == MediaKind::Audio,
            r.codec_mime_type@ == "audio/opus"@,
            r.id@ == id@,
            r.stream_id@ == stream_id@,
    {
        LocalTrackConfig {
            kind: MediaKind::Audio,
            codec_mime_type: String::from_str("audio/opus"),
            id: String::from_str(id),
            stream_id: String::from_str(stream_id),
        }
    }

    /// A VP8 video track.
    pub fn video(id: &str, stream_id: &str) -> (r: LocalTrackConfig)
        ensures
            r.kind == MediaKind::Video,
            r.codec_mime_type@ == "video/VP8"@,
            r.id@ == id@,
            r.stream_id@ == stream_id@,
    {
        LocalTrackConfig {
            kind: MediaKind::Video,
            codec_mime_type: String::from_str("video/VP8"),
            id: String::from_str(id),
            stream_id: String::from_str(stream_id),
        }
    }

    /// An H.264 video track (used by the video sink and source elements).
    pub fn h264_video(id: &str, stream_id: &str) -> (r: LocalTrackConfig)
        ensures
            r.kind == MediaKind::Video,
            r.codec_mime_type@ == "video/H264"@,
            r.id@ == id@,
            r.stream_id@ == stream_id@,
    {
        LocalTrackConfig {
            kind: MediaKind::Video,
            codec_mime_type: String::from_str("video/H264"),
            id: String::from_str(id),
            stream_id: String::from_str(stream_id),
        }
    }

    /// The RTP clock rate and channel count of the track's codec capability.
    pub fn codec_clock(&self) -> (r: (u32, u16))
        ensures
            r == clock_of(self.kind),
    {
        match self.kind {
            MediaKind::Audio => (48000, 2),
            MediaKind::Video => (90000, 0),
        }
    }
}

/// The connection states that the WebRTC stack reports, one for one.
#[derive(Clone, Copy, Debug, PartialEq, Eq, Structural)]
pub enum ConnectionState {
    Unspecified,
    New,
    Connecting,
    Connected,
    Disconnected,
    Failed,
    Closed,
}

/// State of the WebRTC peer connection.
#[derive(Clone, Copy, Debug, PartialEq, Eq, Structural)]
pub enum PeerState {
    New,
    Connecting,
    Connected,
    Disconnected,
    Failed,
    Closed,
}

/// The peer state of a reported connection state: an unspecified state counts as new.
pub open spec fn peer_state_of(s: ConnectionState) -> PeerState {
    match s {
        ConnectionState::Unspecified => PeerState::New,
        ConnectionState::New => PeerState::New,
        ConnectionState::Connecting => PeerState::Connecting,
        ConnectionState::Connected => PeerState::Connected,
        ConnectionState::Disconnected => PeerState::Disconnected,
        ConnectionState::Failed => PeerState::Failed,
        ConnectionState::Closed => PeerState::Closed,
    }
}

impl From<ConnectionState> for PeerState {
    fn from(s: ConnectionState) -> (r: PeerState) {
        match s {
            ConnectionState::Unspecified => PeerState::New,
            ConnectionState::New => PeerState::New,
            ConnectionState::Connecting => PeerState::Connecting,
            ConnectionState::Connected => PeerState::Connected,
            ConnectionState::Disconnected => PeerState::Disconnected,
            ConnectionState::Failed => PeerState::Failed,
            ConnectionState::Closed => PeerState::Closed,
        }
    }
}

impl vstd::std_specs::convert::FromSpecImpl<ConnectionState> for PeerState {
    open spec fn obeys_from_spec() -> bool {
        true
    }

    open spec fn from_spec(s: ConnectionState) -> PeerState {
        peer_state_of(s)
    }
}

/// A message received on a data channel.
#[derive(Clone, Debug)]
pub struct IncomingMessage {
    /// The label of the data channel the message arrived on.
    pub channel: String,
    /// The raw payload bytes.
    pub payload: Vec<u8>,
}

/// Audio sample data for media pipelines (superseded by [`crate::media::AudioFrame`]).
#[derive(Clone, Debug)]
pub struct AudioSample {
    pub sample_rate: u32,
    pub channels: u16,
    pub data: Vec<u8>,
}

impl AudioSample {
    /// An audio sample with the given rate, channel count and data.
    pub fn new(sample_rate: u32, channels: u16, data: Vec<u8>) -> (r: AudioSample)
        ensures
            r.sample_rate == sample_rate,
            r.channels == channels,
            r.data@ == data@,
    {
        AudioSample { sample_rate, channels, data }
    }
}

impl NetworkSerializable for AudioSample {
    open spec fn spec_type_tag() -> Seq<char> {
        "audio_sample"@
    }

    fn type_tag() -> (r: &'static str) {
        "audio_sample"
    }
}

} // verus!
