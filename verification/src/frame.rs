//! Frames: the units of data flowing through pipelines.

use vstd::prelude::*;
use crate::ident::{is_random_uuid, random_uuid_bits, unix_time_ns};

verus! {

/// Unique identifier for a stream of frames: the 128 bits of a random (version 4) UUID.
#[derive(Clone, Copy, PartialEq, Eq, Hash, Debug, Structural)]
pub struct StreamId(pub u128);

impl StreamId {
    /// A fresh random stream identifier.
    pub fn new() -> (r: StreamId)
        ensures
            is_random_uuid(r.0),
    {
        StreamId(random_uuid_bits())
    }
}

impl Default for StreamId {
    fn default() -> (r: StreamId)
        ensures
            is_random_uuid(r.0),
    {
        StreamId::new()
    }
}

/// Identifier of a frame within a stream.
#[derive(Clone, Copy, PartialEq, Eq, Hash, Debug, Default, Structural)]
pub struct FrameId(pub u64);

impl FrameId {
    /// The identifier that follows this one.
    pub fn next(&self) -> (r: FrameId)
        requires
            self.0 < u64::MAX,
        ensures
            r.0 == self.0 + 1,
    {
        FrameId(self.0 + 1)
    }
}

/// The map that a list of `(key, value)` entries stands for; a later entry for a key wins.
pub open spec fn entries_map(s: Seq<(String, String)>) -> Map<Seq<char>, Seq<char>>
    decreases s.len(),
{
    if s.len() == 0 {
        Map::empty()
    } else {
        entries_map(s.drop_last()).insert(s.last().0@, s.last().1@)
    }
}

/// No key occurs twice among the entries.
pub open spec fn keys_distinct(s: Seq<(String, String)>) -> bool {
    forall|i: int, j: int| 0 <= i < j < s.len() ==> s[i].0@ != s[j].0@
}

proof fn lemma_entries_map_lookup(s: Seq<(String, String)>, i: int)
    requires
        keys_distinct(s),
        0 <= i < s.len(),
    ensures
        entries_map(s).contains_key(s[i].0@),
        entries_map(s)[s[i].0@] == s[i].1@,
    decreases s.len(),
{
    if i < s.len() - 1 {
        lemma_entries_map_lookup(s.drop_last(), i);
    }
}

proof fn lemma_entries_map_absent(s: Seq<(String, String)>, k: Seq<char>)
    requires
        forall|i: int| 0 <= i < s.len() ==> s[i].0@ != k,
    ensures
        !entries_map(s).contains_key(k),
    decreases s.len(),
{
    if s.len() > 0 {
        lemma_entries_map_absent(s.drop_last(), k);
    }
}

proof fn lemma_entries_map_update(s: Seq<(String, String)>, i: int, e: (String, String))
    requires
        keys_distinct(s),
        0 <= i < s.len(),
        s[i].0@ == e.0@,
    ensures
        entries_map(s.update(i, e)) == entries_map(s).insert(e.0@, e.1@),
        keys_distinct(s.update(i, e)),
    decreases s.len(),
{
    let t = s.update(i, e);
    if i == s.len() - 1 {
        assert(t.drop_last() =~= s.drop_last());
        assert(entries_map(t) =~= entries_map(s).insert(e.0@, e.1@));
    } else {
        lemma_entries_map_update(s.drop_last(), i, e);
        assert(t.drop_last() =~= s.drop_last().update(i, e));
        assert(s.last().0@ != e.0@);
        assert(entries_map(t) =~= entries_map(s).insert(e.0@, e.1@));
    }
}

/// String properties attached to a frame: a map from keys to values.
#[derive(Clone, Debug)]
pub struct Properties {
    entries: Vec<(String, String)>,
}

impl View for Properties {
    type V = Map<Seq<char>, Seq<char>>;

    closed spec fn view(&self) -> Map<Seq<char>, Seq<char>> {
        entries_map(self.entries@)
    }
}

impl Properties {
    /// No key occurs twice.
    pub closed spec fn wf(&self) -> bool {
        keys_distinct(self.entries@)
    }

    /// An empty property map.
    pub fn new() -> (r: Properties)
        ensures
            r.wf(),
            r@ == Map::<Seq<char>, Seq<char>>::empty(),
    {
        Properties { entries: Vec::new() }
    }

    fn position(&self, key: &String) -> (r: Option<usize>)
        ensures
            r matches Some(i) ==> i < self.entries@.len() && self.entries@[i as int].0@ == key@,
            r is None ==> forall|i: int| 0 <= i < self.entries@.len() ==> self.entries@[i].0@ != key@,
    {
        let mut i: usize = 0;
        while i < self.entries.len()
            invariant
                i <= self.entries@.len(),
                forall|j: int| 0 <= j < i ==> self.entries@[j].0@ != key@,
            decreases self.entries@.len() - i,
        {
            if self.entries[i].0 == *key {
                return Some(i);
            }
            i = i + 1;
        }
        None
    }

    /// Sets `key` to `value`, replacing any earlier value of `key`.
    pub fn insert(&mut self, key: String, value: String)
        requires
            old(self).wf(),
        ensures
            final(self).wf(),
            final(self)@ == old(self)@.insert(key@, value@),
    {
        match self.position(&key) {
            Some(i) => {
                proof {
                    lemma_entries_map_update(self.entries@, i as int, (key, value));
                }
                self.entries.set(i, (key, value));
            },
            None => {
                self.entries.push((key, value));
                proof {
                    assert(self.entries@.drop_last() =~= old(self).entries@);
                }
            },
        }
    }

    /// The `(key, value)` entries, each key once.
    pub fn entries(&self) -> (r: &Vec<(String, String)>)
        ensures
            entries_map(r@) == self@,
            self.wf() ==> keys_distinct(r@),
    {
        &self.entries
    }

    /// The value of `key`, if it has one.
    pub fn get(&self, key: &str) -> (r: Option<&String>)
        requires
            self.wf(),
        ensures
            r matches Some(v) ==> self@.contains_key(key@) && self@[key@] == v@,
            r is None ==> !self@.contains_key(key@),
    {
        let k = String::from_str(key);
        match self.position(&k) {
            Some(i) => {
                proof {
                    lemma_entries_map_lookup(self.entries@, i as int);
                }
                Some(&self.entries[i].1)
            },
            None => {
                proof {
                    lemma_entries_map_absent(self.entries@, key@);
                }
                None
            },
        }
    }
}

/// Metadata attached to every frame.
#[derive(Clone, Debug)]
pub struct FrameMetadata {
    pub stream_id: StreamId,
    pub frame_id: FrameId,
    pub timestamp_ns: u64,
    pub source_element: Option<String>,
    pub properties: Properties,
}

impl FrameMetadata {
    /// Metadata for the given stream and frame, stamped with the current time,
    /// with no source element and no properties.
    pub fn new(stream_id: StreamId, frame_id: FrameId) -> (r: FrameMetadata)
        ensures
            r.stream_id == stream_id,
            r.frame_id == frame_id,
            r.source_element is None,
            r.properties.wf(),
            r.properties@ == Map::<Seq<char>, Seq<char>>::empty(),
    {
        FrameMetadata {
            stream_id,
            frame_id,
            timestamp_ns: unix_time_ns(),
            source_element: None,
            properties: Properties::new(),
        }
    }

    /// Sets the source element name.
    pub fn with_source(self, source: &str) -> (r: FrameMetadata)
        ensures
            r.stream_id == self.stream_id,
            r.frame_id == self.frame_id,
            r.timestamp_ns == self.timestamp_ns,
            r.source_element matches Some(s) && s@ == source@,
            r.properties == self.properties,
    {
        FrameMetadata { source_element: Some(String::from_str(source)), ..self }
    }

    /// Adds a property, replacing any earlier value of the key.
    pub fn with_property(self, key: &str, value: &str) -> (r: FrameMetadata)
        requires
            self.properties.wf(),
        ensures
            r.stream_id == self.stream_id,
            r.frame_id == self.frame_id,
            r.timestamp_ns == self.timestamp_ns,
            r.source_element == self.source_element,
            r.properties.wf(),
            r.properties@ == self.properties@.insert(key@, value@),
    {
        let mut m = self;
        m.properties.insert(String::from_str(key), String::from_str(value));
        m
    }
}

/// A frame: a unit of data flowing through the pipeline, generic over its payload type.
#[derive(Clone, Debug)]
pub struct Frame<T> {
    pub metadata: FrameMetadata,
    pub payload: T,
}

impl<T> Frame<T> {
    /// A new frame with fresh metadata for the given stream and frame ids.
    pub fn new(stream_id: StreamId, frame_id: FrameId, payload: T) -> (r: Frame<T>)
        ensures
            r.metadata.stream_id == stream_id,
            r.metadata.frame_id == frame_id,
            r.metadata.source_element is None,
            r.metadata.properties.wf(),
            r.metadata.properties@ == Map::<Seq<char>, Seq<char>>::empty(),
            r.payload == payload,
    {
        Frame { metadata: FrameMetadata::new(stream_id, frame_id), payload }
    }

    /// A frame with existing metadata.
    pub fn with_metadata(metadata: FrameMetadata, payload: T) -> (r: Frame<T>)
        ensures
            r.metadata == metadata,
            r.payload == payload,
    {
        Frame { metadata, payload }
    }

    /// Transforms the payload while preserving the metadata.
    pub fn map<U, F: FnOnce(T) -> U>(self, f: F) -> (r: Frame<U>)
        requires
            f.requires((self.payload,)),
        ensures
            r.metadata == self.metadata,
            f.ensures((self.payload,), r.payload),
    {
        Frame { metadata: self.metadata, payload: f(self.payload) }
    }

    /// Transforms the payload with a fallible function, preserving the metadata;
    /// the function's error comes back unchanged.
    pub fn try_map<U, E, F: FnOnce(T) -> Result<U, E>>(self, f: F) -> (r: Result<Frame<U>, E>)
        requires
            f.requires((self.payload,)),
        ensures
            match r {
                Ok(fr) => fr.metadata == self.metadata && f.ensures((self.payload,), Ok::<U, E>(fr.payload)),
                Err(e) => f.ensures((self.payload,), Err::<U, E>(e)),
            },
    {
        let metadata = self.metadata;
        match f(self.payload) {
            Ok(payload) => Ok(Frame { metadata, payload }),
            Err(e) => Err(e),
        }
    }

    /// The stream id.
    pub fn stream_id(&self) -> (r: StreamId)
        ensures
            r == self.metadata.stream_id,
    {
        self.metadata.stream_id
    }

    /// The frame id.
    pub fn frame_id(&self) -> (r: FrameId)
        ensures
            r == self.metadata.frame_id,
    {
        self.metadata.frame_id
    }
}

/// Stamps the frames of one stream with consecutive frame ids, starting at 0.
pub struct FrameSequencer {
    stream_id: StreamId,
    next_id: u64,
}

impl FrameSequencer {
    /// A sequencer for a fresh random stream.
    pub fn new() -> (r: FrameSequencer)
        ensures
            r.next_id() == 0,
    {
        FrameSequencer { stream_id: StreamId::new(), next_id: 0 }
    }

    /// The stream the frames belong to.
    pub closed spec fn stream(&self) -> StreamId {
        self.stream_id
    }

    /// The id the next frame gets: the number of frames stamped so far.
    pub closed spec fn next_id(&self) -> nat {
        self.next_id as nat
    }

    /// The stream id.
    pub fn stream_id(&self) -> (r: StreamId)
        ensures
            r == self.stream(),
    {
        self.stream_id
    }

    /// The number of frames stamped so far.
    pub fn frames_stamped(&self) -> (r: u64)
        ensures
            r == self.next_id(),
    {
        self.next_id
    }

    /// A new frame of the stream carrying `payload`, with the next id.
    pub fn stamp<T>(&mut self, payload: T) -> (r: Frame<T>)
        requires
            old(self).next_id() < u64::MAX,
        ensures
            final(self).stream() == old(self).stream(),
            final(self).next_id() == old(self).next_id() + 1,
            r.metadata.stream_id == old(self).stream(),
            r.metadata.frame_id == FrameId(old(self).next_id() as u64),
            r.metadata.source_element is None,
            r.metadata.properties.wf(),
            r.metadata.properties@ == Map::<Seq<char>, Seq<char>>::empty(),
            r.payload == payload,
    {
        let id = FrameId(self.next_id);
        self.next_id = self.next_id + 1;
        Frame::new(self.stream_id, id, payload)
    }
}

/// A property set on metadata reads back as the value it was set to, and
/// leaves every other property as it was.
pub proof fn law_property_read_back(m: Map<Seq<char>, Seq<char>>, k: Seq<char>, v: Seq<char>, other: Seq<char>)
    requires
        other != k,
    ensures
        m.insert(k, v)[k] == v,
        m.insert(k, v).contains_key(other) == m.contains_key(other),
        m.contains_key(other) ==> m.insert(k, v)[other] == m[other],
{
}

} // verus!
