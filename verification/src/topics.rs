//! MQTT topic structure of the distributed pipeline system.
//!
//! Topic hierarchy:
//! - `aiko/{namespace}/services/{service_id}/status` - service heartbeat/status
//! - `aiko/{namespace}/services/{service_id}/control` - control messages
//! - `aiko/{namespace}/pipelines/{pipeline_id}/frames` - frame data
//! - `aiko/{namespace}/pipelines/{pipeline_id}/events` - pipeline events
//! - `aiko/{namespace}/actors/{actor_id}/inbox` - actor messages
//! - `aiko/{namespace}/discovery` - service discovery

use vstd::prelude::*;
use crate::ident::{uuid_string, uuid_text};
use crate::message::ActorId;
use crate::text::{range_eq, split_on, to_chars, lemma_split_concat, lemma_split_no_delim, lemma_split_nonempty};

verus! {

/// Joins `parts` with `/` between consecutive parts.
pub open spec fn join_path(parts: Seq<Seq<char>>) -> Seq<char>
    decreases parts.len(),
{
    if parts.len() == 0 {
        Seq::<char>::empty()
    } else if parts.len() == 1 {
        parts[0]
    } else {
        join_path(parts.drop_last()) + seq!['/'] + parts.last()
    }
}

/// The topic `aiko/{ns}/{section}/{id}/{leaf}`.
pub open spec fn topic_of(ns: Seq<char>, section: Seq<char>, id: Seq<char>, leaf: Seq<char>) -> Seq<char> {
    join_path(seq!["aiko"@, ns, section, id, leaf])
}

/// The topic `aiko/{ns}/discovery`.
pub open spec fn discovery_topic(ns: Seq<char>) -> Seq<char> {
    join_path(seq!["aiko"@, ns, "discovery"@])
}

/// Builder for constructing MQTT topics.
#[derive(Clone, Debug)]
pub struct TopicBuilder {
    namespace: String,
}

impl View for TopicBuilder {
    type V = Seq<char>;

    /// The namespace.
    closed spec fn view(&self) -> Seq<char> {
        self.namespace@
    }
}

proof fn lemma_prefix_text()
    ensures
        "aiko/"@ == "aiko"@ + seq!['/'],
{
    reveal_strlit("aiko/");
    reveal_strlit("aiko");
    assert("aiko/"@ =~= "aiko"@ + seq!['/']);
}

/// `aiko/{ns}{mid}{id}{tail}` where `mid` is `/{section}/` and `tail` is `/{leaf}`.
proof fn lemma_topic_shape(ns: Seq<char>, id: Seq<char>, section: Seq<char>, leaf: Seq<char>, mid: Seq<char>, tail: Seq<char>)
    requires
        mid == seq!['/'] + section + seq!['/'],
        tail == seq!['/'] + leaf,
    ensures
        "aiko/"@ + ns + mid + id + tail == topic_of(ns, section, id, leaf),
{
    lemma_prefix_text();
    let p5 = seq!["aiko"@, ns, section, id, leaf];
    let p4 = seq!["aiko"@, ns, section, id];
    let p3 = seq!["aiko"@, ns, section];
    let p2 = seq!["aiko"@, ns];
    let p1 = seq!["aiko"@];
    assert(p5.drop_last() =~= p4);
    assert(p4.drop_last() =~= p3);
    assert(p3.drop_last() =~= p2);
    assert(p2.drop_last() =~= p1);
    assert(join_path(p1) == "aiko"@);
    assert(join_path(p2) == "aiko"@ + seq!['/'] + ns);
    assert(join_path(p3) == "aiko"@ + seq!['/'] + ns + seq!['/'] + section);
    assert(join_path(p4) == "aiko"@ + seq!['/'] + ns + seq!['/'] + section + seq!['/'] + id);
    assert(join_path(p5) == "aiko"@ + seq!['/'] + ns + seq!['/'] + section + seq!['/'] + id + seq!['/'] + leaf);
    assert("aiko/"@ + ns + mid + id + tail =~= topic_of(ns, section, id, leaf));
}

impl TopicBuilder {
    /// A topic builder for the given namespace.
    pub fn new(namespace: &str) -> (r: TopicBuilder)
        ensures
            r@ == namespace@,
    {
        TopicBuilder { namespace: String::from_str(namespace) }
    }

    /// The namespace.
    pub fn namespace(&self) -> (r: &str)
        ensures
            r@ == self@,
    {
        self.namespace.as_str()
    }

    fn build(&self, mid: &str, id: &str, tail: &str) -> (r: String)
        ensures
            r@ == "aiko/"@ + self@ + mid@ + id@ + tail@,
    {
        let mut s = String::from_str("aiko/");
        s.append(self.namespace.as_str());
        s.append(mid);
        s.append(id);
        s.append(tail);
        s
    }

    /// Service status topic (for publishing heartbeats): `aiko/{ns}/services/{id}/status`.
    pub fn service_status(&self, service_id: &str) -> (r: String)
        ensures
            r@ == topic_of(self@, "services"@, service_id@, "status"@),
    {
        proof {
            reveal_strlit("/services/");
            reveal_strlit("services");
            reveal_strlit("/status");
            reveal_strlit("status");
            assert("/services/"@ =~= seq!['/'] + "services"@ + seq!['/']);
            assert("/status"@ =~= seq!['/'] + "status"@);
            lemma_topic_shape(self@, service_id@, "services"@, "status"@, "/services/"@, "/status"@);
        }
        self.build("/services/", service_id, "/status")
    }

    /// Service control topic (for receiving commands): `aiko/{ns}/services/{id}/control`.
    pub fn service_control(&self, service_id: &str) -> (r: String)
        ensures
            r@ == topic_of(self@, "services"@, service_id@, "control"@),
    {
        proof {
            reveal_strlit("/services/");
            reveal_strlit("services");
            reveal_strlit("/control");
            reveal_strlit("control");
            assert("/services/"@ =~= seq!['/'] + "services"@ + seq!['/']);
            assert("/control"@ =~= seq!['/'] + "control"@);
            lemma_topic_shape(self@, service_id@, "services"@, "control"@, "/services/"@, "/control"@);
        }
        self.build("/services/", service_id, "/control")
    }

    /// Pipeline frames topic: `aiko/{ns}/pipelines/{id}/frames`.
    pub fn pipeline_frames(&self, pipeline_id: &str) -> (r: String)
        ensures
            r@ == topic_of(self@, "pipelines"@, pipeline_id@, "frames"@),
    {
        proof {
            reveal_strlit("/pipelines/");
            reveal_strlit("pipelines");
            reveal_strlit("/frames");
            reveal_strlit("frames");
            assert("/pipelines/"@ =~= seq!['/'] + "pipelines"@ + seq!['/']);
            assert("/frames"@ =~= seq!['/'] + "frames"@);
            lemma_topic_shape(self@, pipeline_id@, "pipelines"@, "frames"@, "/pipelines/"@, "/frames"@);
        }
        self.build("/pipelines/", pipeline_id, "/frames")
    }

    /// Pipeline events topic: `aiko/{ns}/pipelines/{id}/events`.
    pub fn pipeline_events(&self, pipeline_id: &str) -> (r: String)
        ensures
            r@ == topic_of(self@, "pipelines"@, pipeline_id@, "events"@),
    {
        proof {
            reveal_strlit("/pipelines/");
            reveal_strlit("pipelines");
            reveal_strlit("/events");
            reveal_strlit("events");
            assert("/pipelines/"@ =~= seq!['/'] + "pipelines"@ + seq!['/']);
            assert("/events"@ =~= seq!['/'] + "events"@);
            lemma_topic_shape(self@, pipeline_id@, "pipelines"@, "events"@, "/pipelines/"@, "/events"@);
        }
        self.build("/pipelines/", pipeline_id, "/events")
    }

    /// Actor inbox topic: `aiko/{ns}/actors/{uuid}/inbox`, the actor id in hyphenated form.
    pub fn actor_inbox(&self, actor_id: &ActorId) -> (r: String)
        ensures
            r@ == topic_of(self@, "actors"@, uuid_text(actor_id.0), "inbox"@),
    {
        let id = uuid_string(actor_id.0);
        proof {
            reveal_strlit("/actors/");
            reveal_strlit("actors");
            reveal_strlit("/inbox");
            reveal_strlit("inbox");
            assert("/actors/"@ =~= seq!['/'] + "actors"@ + seq!['/']);
            assert("/inbox"@ =~= seq!['/'] + "inbox"@);
            lemma_topic_shape(self@, id@, "actors"@, "inbox"@, "/actors/"@, "/inbox"@);
        }
        self.build("/actors/", id.as_str(), "/inbox")
    }

    /// Discovery topic: `aiko/{ns}/discovery`.
    pub fn discovery(&self) -> (r: String)
        ensures
            r@ == discovery_topic(self@),
    {
        let mut s = String::from_str("aiko/");
        s.append(self.namespace.as_str());
        s.append("/discovery");
        proof {
            lemma_prefix_text();
            reveal_strlit("/discovery");
            reveal_strlit("discovery");
            let p3 = seq!["aiko"@, self@, "discovery"@];
            let p2 = seq!["aiko"@, self@];
            let p1 = seq!["aiko"@];
            assert(p3.drop_last() =~= p2);
            assert(p2.drop_last() =~= p1);
            assert(join_path(p1) == "aiko"@);
            assert(join_path(p2) == "aiko"@ + seq!['/'] + self@);
            assert(join_path(p3) == "aiko"@ + seq!['/'] + self@ + seq!['/'] + "discovery"@);
            assert("/discovery"@ =~= seq!['/'] + "discovery"@);
            assert(s@ =~= discovery_topic(self@));
        }
        s
    }

    /// Wildcard subscription for all service status: `aiko/{ns}/services/+/status`.
    pub fn all_service_status(&self) -> (r: String)
        ensures
            r@ == topic_of(self@, "services"@, "+"@, "status"@),
    {
        self.service_status("+")
    }

    /// Wildcard for all pipeline frames: `aiko/{ns}/pipelines/+/frames`.
    pub fn all_pipeline_frames(&self) -> (r: String)
        ensures
            r@ == topic_of(self@, "pipelines"@, "+"@, "frames"@),
    {
        self.pipeline_frames("+")
    }

    /// Wildcard for all pipeline events: `aiko/{ns}/pipelines/+/events`.
    pub fn all_pipeline_events(&self) -> (r: String)
        ensures
            r@ == topic_of(self@, "pipelines"@, "+"@, "events"@),
    {
        self.pipeline_events("+")
    }
}

/// Types of topics in the system.
#[derive(Clone, Copy, Debug, PartialEq, Eq, Structural)]
pub enum TopicKind {
    ServiceStatus,
    ServiceControl,
    PipelineFrames,
    PipelineEvents,
    ActorInbox,
    Discovery,
    Unknown,
}

/// Parsed topic information.
#[derive(Clone, Debug)]
pub struct ParsedTopic {
    pub kind: TopicKind,
    pub id: String,
}

/// What `TopicMatcher::parse` yields for `topic` under namespace `ns`:
/// the topic's `/`-separated parts are read as `aiko/{ns}/{section}/{id}/{leaf}`.
pub open spec fn parse_spec(ns: Seq<char>, topic: Seq<char>) -> Option<(TopicKind, Seq<char>)> {
    let p = split_on(topic, '/');
    if p.len() < 3 || p[0] != "aiko"@ || p[1] != ns {
        None
    } else if p[2] == "services"@ && p.len() >= 5 {
        Some((
            if p[4] == "status"@ {
                TopicKind::ServiceStatus
            } else if p[4] == "control"@ {
                TopicKind::ServiceControl
            } else {
                TopicKind::Unknown
            },
            p[3],
        ))
    } else if p[2] == "pipelines"@ && p.len() >= 5 {
        Some((
            if p[4] == "frames"@ {
                TopicKind::PipelineFrames
            } else if p[4] == "events"@ {
                TopicKind::PipelineEvents
            } else {
                TopicKind::Unknown
            },
            p[3],
        ))
    } else if p[2] == "actors"@ && p.len() >= 5 {
        Some((TopicKind::ActorInbox, p[3]))
    } else if p[2] == "discovery"@ {
        Some((TopicKind::Discovery, Seq::<char>::empty()))
    } else {
        None
    }
}

/// Whether `r` is what `parse_spec` describes.
pub open spec fn parsed_as(r: Option<ParsedTopic>, s: Option<(TopicKind, Seq<char>)>) -> bool {
    match (r, s) {
        (None, None) => true,
        (Some(p), Some((k, id))) => p.kind == k && p.id@ == id,
        _ => false,
    }
}

/// Topic pattern matcher.
pub struct TopicMatcher {
    namespace: String,
}

impl View for TopicMatcher {
    type V = Seq<char>;

    /// The namespace.
    closed spec fn view(&self) -> Seq<char> {
        self.namespace@
    }
}

/// `bounds[k]` delimits the `k`-th `/`-separated part of `s`.
pub open spec fn bounds_match(s: Seq<char>, bounds: Seq<(usize, usize)>) -> bool {
    let p = split_on(s, '/');
    &&& p.len() == bounds.len()
    &&& forall|k: int|
        #![trigger bounds[k]]
        0 <= k < bounds.len() ==> bounds[k].0 <= bounds[k].1 <= s.len() && p[k] == s.subrange(
            bounds[k].0 as int,
            bounds[k].1 as int,
        )
}

/// Positions of the `/`-separated parts of `chars`.
fn split_bounds(chars: &Vec<char>) -> (r: Vec<(usize, usize)>)
    ensures
        bounds_match(chars@, r@),
{
    let n: usize = chars.len();
    let mut bounds: Vec<(usize, usize)> = Vec::new();
    let mut start: usize = 0;
    let mut i: usize = 0;
    proof {
        assert(chars@.take(0) =~= Seq::<char>::empty());
        assert(chars@.subrange(0, 0) =~= Seq::<char>::empty());
    }
    while i < n
        invariant
            n == chars@.len(),
            start <= i <= n,
            split_on(chars@.take(i as int), '/').len() == bounds@.len() + 1,
            forall|k: int|
                #![trigger bounds@[k]]
                0 <= k < bounds@.len() ==> bounds@[k].0 <= bounds@[k].1 <= i && split_on(
                    chars@.take(i as int),
                    '/',
                )[k] == chars@.subrange(bounds@[k].0 as int, bounds@[k].1 as int),
            split_on(chars@.take(i as int), '/').last() == chars@.subrange(start as int, i as int),
        decreases n - i,
    {
        let ghost prev = split_on(chars@.take(i as int), '/');
        proof {
            assert(chars@.take(i + 1).drop_last() =~= chars@.take(i as int));
            assert(chars@.take(i + 1).last() == chars@[i as int]);
        }
        if chars[i] == '/' {
            bounds.push((start, i));
            start = i + 1;
            proof {
                assert(chars@.subrange(start as int, i + 1) =~= Seq::<char>::empty());
            }
        } else {
            proof {
                lemma_split_nonempty(chars@.take(i as int), '/');
                assert(chars@.subrange(start as int, i + 1) =~= chars@.subrange(start as int, i as int).push(chars@[i as int]));
            }
        }
        i = i + 1;
    }
    bounds.push((start, n));
    proof {
        assert(chars@.take(n as int) =~= chars@);
        lemma_split_nonempty(chars@, '/');
    }
    bounds
}

impl TopicMatcher {
    /// A topic matcher for the given namespace.
    pub fn new(namespace: &str) -> (r: TopicMatcher)
        ensures
            r@ == namespace@,
    {
        TopicMatcher { namespace: String::from_str(namespace) }
    }

    /// Parse a topic and extract its kind and id.
    pub fn parse(&self, topic: &str) -> (r: Option<ParsedTopic>)
        ensures
            parsed_as(r, parse_spec(self@, topic@)),
    {
        let chars = to_chars(topic);
        let bounds = split_bounds(&chars);
        let ghost p = split_on(topic@, '/');
        let m: usize = bounds.len();
        if m < 3 {
            return None;
        }
        let (s0, e0) = bounds[0];
        let (s1, e1) = bounds[1];
        let (s2, e2) = bounds[2];
        if !range_eq(&chars, s0, e0, "aiko") || !range_eq(&chars, s1, e1, self.namespace.as_str()) {
            return None;
        }
        if range_eq(&chars, s2, e2, "services") && m >= 5 {
            let (s3, e3) = bounds[3];
            let (s4, e4) = bounds[4];
            let kind = if range_eq(&chars, s4, e4, "status") {
                TopicKind::ServiceStatus
            } else if range_eq(&chars, s4, e4, "control") {
                TopicKind::ServiceControl
            } else {
                TopicKind::Unknown
            };
            return Some(ParsedTopic { kind, id: String::from_str(topic.substring_char(s3, e3)) });
        }
        if range_eq(&chars, s2, e2, "pipelines") && m >= 5 {
            let (s3, e3) = bounds[3];
            let (s4, e4) = bounds[4];
            let kind = if range_eq(&chars, s4, e4, "frames") {
                TopicKind::PipelineFrames
            } else if range_eq(&chars, s4, e4, "events") {
                TopicKind::PipelineEvents
            } else {
                TopicKind::Unknown
            };
            return Some(ParsedTopic { kind, id: String::from_str(topic.substring_char(s3, e3)) });
        }
        if range_eq(&chars, s2, e2, "actors") && m >= 5 {
            let (s3, e3) = bounds[3];
            return Some(
                ParsedTopic { kind: TopicKind::ActorInbox, id: String::from_str(topic.substring_char(s3, e3)) },
            );
        }
        if range_eq(&chars, s2, e2, "discovery") {
            return Some(ParsedTopic { kind: TopicKind::Discovery, id: String::new() });
        }
        None
    }
}


/// Splitting a joined path at `/` gives back its parts, when no part holds a `/`.
pub proof fn lemma_split_join(parts: Seq<Seq<char>>)
    requires
        parts.len() >= 1,
        forall|k: int| 0 <= k < parts.len() ==> !(#[trigger] parts[k]).contains('/'),
    ensures
        split_on(join_path(parts), '/') == parts,
    decreases parts.len(),
{
    if parts.len() == 1 {
        lemma_split_no_delim(parts[0], '/');
        assert(seq![parts[0]] =~= parts);
    } else {
        let front = parts.drop_last();
        assert forall|k: int| 0 <= k < front.len() implies !(#[trigger] front[k]).contains('/') by {
            assert(front[k] == parts[k]);
        }
        lemma_split_join(front);
        lemma_split_concat(join_path(front), parts.last(), '/');
        lemma_split_no_delim(parts.last(), '/');
        assert(front + seq![parts.last()] =~= parts);
    }
}

proof fn lemma_topic_parts(ns: Seq<char>, section: Seq<char>, id: Seq<char>, leaf: Seq<char>)
    requires
        !ns.contains('/'),
        !section.contains('/'),
        !id.contains('/'),
        !leaf.contains('/'),
    ensures
        split_on(topic_of(ns, section, id, leaf), '/') == seq!["aiko"@, ns, section, id, leaf],
{
    reveal_strlit("aiko");
    let parts = seq!["aiko"@, ns, section, id, leaf];
    assert forall|k: int| 0 <= k < parts.len() implies !(#[trigger] parts[k]).contains('/') by {
        if k == 0 {
            if "aiko"@.contains('/') {
                let j = choose|j: int| 0 <= j < "aiko"@.len() && "aiko"@[j] == '/';
                assert(false);
            }
        }
    }
    lemma_split_join(parts);
}

proof fn lemma_literal_texts()
    ensures
        "services"@ != "pipelines"@,
        "services"@ != "actors"@,
        "pipelines"@ != "actors"@,
        "status"@ != "control"@,
        "frames"@ != "events"@,
        "aiko"@.len() == 4,
{
    reveal_strlit("services");
    reveal_strlit("pipelines");
    reveal_strlit("actors");
    reveal_strlit("status");
    reveal_strlit("control");
    reveal_strlit("frames");
    reveal_strlit("events");
    reveal_strlit("aiko");
    assert("services"@.len() != "pipelines"@.len());
    assert("status"@.len() != "control"@.len());
    assert("services"@[0] != "actors"@[0]);
    assert("pipelines"@[0] != "actors"@[0]);
    assert("frames"@[0] != "events"@[0]);
}

proof fn lemma_literal_has_no_slash(s: &str)
    requires
        s@ == "services"@ || s@ == "status"@ || s@ == "control"@ || s@ == "pipelines"@
            || s@ == "frames"@ || s@ == "events"@ || s@ == "actors"@ || s@ == "inbox"@
            || s@ == "discovery"@,
    ensures
        !s@.contains('/'),
{
    reveal_strlit("services");
    reveal_strlit("status");
    reveal_strlit("control");
    reveal_strlit("pipelines");
    reveal_strlit("frames");
    reveal_strlit("events");
    reveal_strlit("actors");
    reveal_strlit("inbox");
    reveal_strlit("discovery");
    if s@.contains('/') {
        let j = choose|j: int| 0 <= j < s@.len() && s@[j] == '/';
        assert(false);
    }
}

/// A service status topic parses back to its service id, under its own namespace.
pub proof fn law_parse_service_status(ns: Seq<char>, id: Seq<char>)
    requires
        !ns.contains('/'),
        !id.contains('/'),
    ensures
        parse_spec(ns, topic_of(ns, "services"@, id, "status"@)) == Some((TopicKind::ServiceStatus, id)),
{
    lemma_literal_has_no_slash("services");
    lemma_literal_has_no_slash("status");
    lemma_topic_parts(ns, "services"@, id, "status"@);
    lemma_literal_texts();
}

/// A service control topic parses back to its service id, under its own namespace.
pub proof fn law_parse_service_control(ns: Seq<char>, id: Seq<char>)
    requires
        !ns.contains('/'),
        !id.contains('/'),
    ensures
        parse_spec(ns, topic_of(ns, "services"@, id, "control"@)) == Some((TopicKind::ServiceControl, id)),
{
    lemma_literal_has_no_slash("services");
    lemma_literal_has_no_slash("control");
    lemma_topic_parts(ns, "services"@, id, "control"@);
    lemma_literal_texts();
}

/// A pipeline frames topic parses back to its pipeline id, under its own namespace.
pub proof fn law_parse_pipeline_frames(ns: Seq<char>, id: Seq<char>)
    requires
        !ns.contains('/'),
        !id.contains('/'),
    ensures
        parse_spec(ns, topic_of(ns, "pipelines"@, id, "frames"@)) == Some((TopicKind::PipelineFrames, id)),
{
    lemma_literal_has_no_slash("pipelines");
    lemma_literal_has_no_slash("frames");
    lemma_topic_parts(ns, "pipelines"@, id, "frames"@);
    lemma_literal_texts();
}

/// A pipeline events topic parses back to its pipeline id, under its own namespace.
pub proof fn law_parse_pipeline_events(ns: Seq<char>, id: Seq<char>)
    requires
        !ns.contains('/'),
        !id.contains('/'),
    ensures
        parse_spec(ns, topic_of(ns, "pipelines"@, id, "events"@)) == Some((TopicKind::PipelineEvents, id)),
{
    lemma_literal_has_no_slash("pipelines");
    lemma_literal_has_no_slash("events");
    lemma_topic_parts(ns, "pipelines"@, id, "events"@);
    lemma_literal_texts();
}

/// An actor inbox topic parses back to the actor id, under its own namespace.
pub proof fn law_parse_actor_inbox(ns: Seq<char>, id: Seq<char>)
    requires
        !ns.contains('/'),
        !id.contains('/'),
    ensures
        parse_spec(ns, topic_of(ns, "actors"@, id, "inbox"@)) == Some((TopicKind::ActorInbox, id)),
{
    lemma_literal_has_no_slash("actors");
    lemma_literal_has_no_slash("inbox");
    lemma_topic_parts(ns, "actors"@, id, "inbox"@);
    lemma_literal_texts();
}

/// The discovery topic parses as discovery with an empty id, under its own namespace.
pub proof fn law_parse_discovery(ns: Seq<char>)
    requires
        !ns.contains('/'),
    ensures
        parse_spec(ns, discovery_topic(ns)) == Some((TopicKind::Discovery, Seq::<char>::empty())),
{
    reveal_strlit("aiko");
    lemma_literal_has_no_slash("discovery");
    lemma_literal_texts();
    let parts = seq!["aiko"@, ns, "discovery"@];
    assert forall|k: int| 0 <= k < parts.len() implies !(#[trigger] parts[k]).contains('/') by {
        if k == 0 {
            if "aiko"@.contains('/') {
                let j = choose|j: int| 0 <= j < "aiko"@.len() && "aiko"@[j] == '/';
                assert(false);
            }
        }
    }
    lemma_split_join(parts);
    reveal_strlit("services");
    reveal_strlit("pipelines");
    reveal_strlit("actors");
    reveal_strlit("discovery");
    assert("discovery"@.len() != "services"@.len());
    assert("discovery"@[0] != "pipelines"@[0]);
    assert("discovery"@.len() != "actors"@.len());
}

/// A topic built under one namespace is not recognised under another.
pub proof fn law_parse_other_namespace(ns: Seq<char>, other: Seq<char>, section: Seq<char>, id: Seq<char>, leaf: Seq<char>)
    requires
        !ns.contains('/'),
        !section.contains('/'),
        !id.contains('/'),
        !leaf.contains('/'),
        other != ns,
    ensures
        parse_spec(other, topic_of(ns, section, id, leaf)) is None,
{
    lemma_topic_parts(ns, section, id, leaf);
}

/// The hyphenated form of an identifier holds no `/`.
proof fn lemma_uuid_text_has_no_slash(bits: u128)
    ensures
        !uuid_text(bits).contains('/'),
{
    let t = uuid_text(bits);
    if t.contains('/') {
        let j = choose|j: int| 0 <= j < t.len() && t[j] == '/';
        let k = j - crate::ident::hyphens_before(j);
        vstd::arithmetic::power::lemma_pow_positive(16, (31 - k) as nat);
        let d = crate::ident::nibble(bits, k);
        assert(0 <= d < 16);
        assert(false);
    }
}

/// The inbox topic of an actor, as [`TopicBuilder::actor_inbox`] builds it, parses back
/// to the hyphenated form of the actor's id, under its own namespace.
pub proof fn law_parse_actor_inbox_of_id(ns: Seq<char>, id: ActorId)
    requires
        !ns.contains('/'),
    ensures
        parse_spec(ns, topic_of(ns, "actors"@, uuid_text(id.0), "inbox"@)) == Some((TopicKind::ActorInbox, uuid_text(id.0))),
{
    lemma_uuid_text_has_no_slash(id.0);
    law_parse_actor_inbox(ns, uuid_text(id.0));
}

/// `s` with its first occurrence of `c`, if any, replaced by `to`.
pub open spec fn replace_first(s: Seq<char>, c: char, to: Seq<char>) -> Seq<char>
    decreases s.len(),
{
    if s.len() == 0 {
        s
    } else if s[0] == c {
        to + s.drop_first()
    } else {
        seq![s[0]] + replace_first(s.drop_first(), c, to)
    }
}

proof fn lemma_replace_first_after(a: Seq<char>, b: Seq<char>, c: char, to: Seq<char>)
    requires
        !a.contains(c),
    ensures
        replace_first(a + b, c, to) == a + replace_first(b, c, to),
    decreases a.len(),
{
    if a.len() > 0 {
        let t = a.drop_first();
        assert(!t.contains(c)) by {
            if t.contains(c) {
                let j = choose|j: int| 0 <= j < t.len() && t[j] == c;
                assert(a[j + 1] == c);
            }
        }
        assert(a[0] != c);
        lemma_replace_first_after(t, b, c, to);
        assert((a + b).drop_first() =~= t + b);
        assert(a =~= seq![a[0]] + t);
        assert(seq![a[0]] + (t + replace_first(b, c, to)) =~= a + replace_first(b, c, to));
    }
}

proof fn lemma_topic_around_id(ns: Seq<char>, section: Seq<char>, id: Seq<char>, leaf: Seq<char>)
    ensures
        topic_of(ns, section, id, leaf) == ("aiko"@ + seq!['/'] + ns + seq!['/'] + section + seq!['/']) + (id + (
        seq!['/'] + leaf)),
{
    let parts = seq!["aiko"@, ns, section, id, leaf];
    assert(parts.drop_last() =~= seq!["aiko"@, ns, section, id]);
    assert(parts.drop_last().drop_last() =~= seq!["aiko"@, ns, section]);
    assert(parts.drop_last().drop_last().drop_last() =~= seq!["aiko"@, ns]);
    assert(parts.drop_last().drop_last().drop_last().drop_last() =~= seq!["aiko"@]);
    assert(join_path(seq!["aiko"@]) == "aiko"@);
    assert(join_path(seq!["aiko"@, ns]) == "aiko"@ + seq!['/'] + ns);
    assert(join_path(seq!["aiko"@, ns, section]) == "aiko"@ + seq!['/'] + ns + seq!['/'] + section);
    assert(join_path(seq!["aiko"@, ns, section, id]) == "aiko"@ + seq!['/'] + ns + seq!['/'] + section
        + seq!['/'] + id);
    assert(topic_of(ns, section, id, leaf) =~= ("aiko"@ + seq!['/'] + ns + seq!['/'] + section + seq!['/']) + (id
        + (seq!['/'] + leaf)));
}

/// Replacing the `+` of the wildcard topic `aiko/{ns}/{section}/+/{leaf}` by an id gives
/// that id's topic, when neither the namespace nor the section holds a `+`.
pub proof fn law_wildcard_slot(ns: Seq<char>, section: Seq<char>, leaf: Seq<char>, id: Seq<char>)
    requires
        !ns.contains('+'),
        !section.contains('+'),
    ensures
        replace_first(topic_of(ns, section, "+"@, leaf), '+', id) == topic_of(ns, section, id, leaf),
{
    reveal_strlit("aiko");
    reveal_strlit("+");
    let pre = "aiko"@ + seq!['/'] + ns + seq!['/'] + section + seq!['/'];
    assert(!pre.contains('+')) by {
        if pre.contains('+') {
            let j = choose|j: int| 0 <= j < pre.len() && pre[j] == '+';
            let a = "aiko"@.len();
            if j >= a + 1 && j < a + 1 + ns.len() {
                assert(ns[j - a - 1] == '+');
            } else if j >= a + 2 + ns.len() && j < a + 2 + ns.len() + section.len() {
                assert(section[j - a - 2 - ns.len()] == '+');
            }
        }
    }
    lemma_topic_around_id(ns, section, "+"@, leaf);
    lemma_topic_around_id(ns, section, id, leaf);
    lemma_replace_first_after(pre, "+"@ + (seq!['/'] + leaf), '+', id);
    let rest = "+"@ + (seq!['/'] + leaf);
    assert(rest[0] == '+');
    assert(rest.drop_first() =~= seq!['/'] + leaf);
}

proof fn lemma_literal_has_no_plus(s: &str)
    requires
        s@ == "services"@ || s@ == "pipelines"@,
    ensures
        !s@.contains('+'),
{
    reveal_strlit("services");
    reveal_strlit("pipelines");
    if s@.contains('+') {
        let j = choose|j: int| 0 <= j < s@.len() && s@[j] == '+';
        assert(false);
    }
}

/// The id slot of the wildcard service status topic: putting a service id in place of
/// its `+` gives that service's status topic.
pub proof fn law_all_service_status_slot(ns: Seq<char>, id: Seq<char>)
    requires
        !ns.contains('+'),
    ensures
        replace_first(topic_of(ns, "services"@, "+"@, "status"@), '+', id) == topic_of(ns, "services"@, id, "status"@),
{
    lemma_literal_has_no_plus("services");
    law_wildcard_slot(ns, "services"@, "status"@, id);
}

/// The id slot of the wildcard pipeline frames topic: putting a pipeline id in place of
/// its `+` gives that pipeline's frames topic.
pub proof fn law_all_pipeline_frames_slot(ns: Seq<char>, id: Seq<char>)
    requires
        !ns.contains('+'),
    ensures
        replace_first(topic_of(ns, "pipelines"@, "+"@, "frames"@), '+', id) == topic_of(ns, "pipelines"@, id, "frames"@),
{
    lemma_literal_has_no_plus("pipelines");
    law_wildcard_slot(ns, "pipelines"@, "frames"@, id);
}

/// The id slot of the wildcard pipeline events topic: putting a pipeline id in place of
/// its `+` gives that pipeline's events topic.
pub proof fn law_all_pipeline_events_slot(ns: Seq<char>, id: Seq<char>)
    requires
        !ns.contains('+'),
    ensures
        replace_first(topic_of(ns, "pipelines"@, "+"@, "events"@), '+', id) == topic_of(ns, "pipelines"@, id, "events"@),
{
    lemma_literal_has_no_plus("pipelines");
    law_wildcard_slot(ns, "pipelines"@, "events"@, id);
}

/// A pipeline topic whose leaf is neither `frames` nor `events` is recognised as a
/// pipeline topic of unknown kind, with its pipeline id: only the `events` leaf makes
/// an events topic, and only the `frames` leaf a frames topic.
pub proof fn law_parse_pipeline_other_leaf(ns: Seq<char>, id: Seq<char>, leaf: Seq<char>)
    requires
        !ns.contains('/'),
        !id.contains('/'),
        !leaf.contains('/'),
        leaf != "frames"@,
        leaf != "events"@,
    ensures
        parse_spec(ns, topic_of(ns, "pipelines"@, id, leaf)) == Some((TopicKind::Unknown, id)),
{
    lemma_literal_has_no_slash("pipelines");
    lemma_topic_parts(ns, "pipelines"@, id, leaf);
    lemma_literal_texts();
}

/// A service topic whose leaf is neither `status` nor `control` is recognised as a
/// service topic of unknown kind, with its service id.
pub proof fn law_parse_service_other_leaf(ns: Seq<char>, id: Seq<char>, leaf: Seq<char>)
    requires
        !ns.contains('/'),
        !id.contains('/'),
        !leaf.contains('/'),
        leaf != "status"@,
        leaf != "control"@,
    ensures
        parse_spec(ns, topic_of(ns, "services"@, id, leaf)) == Some((TopicKind::Unknown, id)),
{
    lemma_literal_has_no_slash("services");
    lemma_topic_parts(ns, "services"@, id, leaf);
    lemma_literal_texts();
}

/// Any actor topic with an id and a leaf is recognised as that actor's inbox.
pub proof fn law_parse_actor_any_leaf(ns: Seq<char>, id: Seq<char>, leaf: Seq<char>)
    requires
        !ns.contains('/'),
        !id.contains('/'),
        !leaf.contains('/'),
    ensures
        parse_spec(ns, topic_of(ns, "actors"@, id, leaf)) == Some((TopicKind::ActorInbox, id)),
{
    lemma_literal_has_no_slash("actors");
    lemma_topic_parts(ns, "actors"@, id, leaf);
    lemma_literal_texts();
}

} // verus!
