//! Frame envelopes for network transport.
//!
//! An envelope carries a frame's metadata, the serialized payload and the name of
//! the payload's type, so that the receiver can check that it is decoding the type
//! that was sent.

use vstd::prelude::*;
use crate::frame::FrameMetadata;
use crate::media::{AudioFrame, VideoFrame};
use crate::mqtt::ImageData;
use crate::rtc::AudioSample;

verus! {

/// `bincode::ErrorKind`, carried opaquely by [`CodecError::Serialization`].
#[verifier::external_type_specification]
#[verifier::external_body]
pub struct ExBincodeErrorKind(bincode::ErrorKind);

/// Errors that can occur during codec operations.
#[derive(Debug)]
pub enum CodecError {
    /// The payload could not be serialized or deserialized.
    Serialization(bincode::Error),
    /// The envelope holds another payload type than the one asked for.
    TypeMismatch { expected: String, actual: String },
    /// The payload is invalid.
    InvalidPayload,
}

impl From<bincode::Error> for CodecError {
    fn from(e: bincode::Error) -> (r: CodecError) {
        CodecError::Serialization(e)
    }
}

impl vstd::std_specs::convert::FromSpecImpl<bincode::Error> for CodecError {
    open spec fn obeys_from_spec() -> bool {
        true
    }

    open spec fn from_spec(v: bincode::Error) -> CodecError {
        CodecError::Serialization(v)
    }
}

/// Types that can travel in a [`FrameEnvelope`].
///
/// Each implementor names itself with a unique `type_tag()`, used to tag
/// serialized payloads.
pub trait NetworkSerializable {
    /// The type name, as characters.
    spec fn spec_type_tag() -> Seq<char>;

    /// The type name used to tag serialized payloads.
    fn type_tag() -> (r: &'static str)
        ensures
            r@ == Self::spec_type_tag(),
    ;
}

impl NetworkSerializable for Vec<u8> {
    open spec fn spec_type_tag() -> Seq<char> {
        "bytes"@
    }

    fn type_tag() -> (r: &'static str) {
        "bytes"
    }
}

impl NetworkSerializable for String {
    open spec fn spec_type_tag() -> Seq<char> {
        "string"@
    }

    fn type_tag() -> (r: &'static str) {
        "string"
    }
}

impl NetworkSerializable for i32 {
    open spec fn spec_type_tag() -> Seq<char> {
        "i32"@
    }

    fn type_tag() -> (r: &'static str) {
        "i32"
    }
}

impl NetworkSerializable for i64 {
    open spec fn spec_type_tag() -> Seq<char> {
        "i64"@
    }

    fn type_tag() -> (r: &'static str) {
        "i64"
    }
}

/// Serializable frame envelope for network transport.
#[derive(Clone, Debug)]
pub struct FrameEnvelope {
    pub metadata: FrameMetadata,
    pub payload_type: String,
    pub payload: Vec<u8>,
}

/// `e` is the envelope of a `T` payload with the given metadata and serialized bytes.
pub open spec fn packed_as<T: NetworkSerializable>(e: FrameEnvelope, metadata: FrameMetadata, payload: Seq<u8>) -> bool {
    &&& e.metadata == metadata
    &&& e.payload_type@ == T::spec_type_tag()
    &&& e.payload@ == payload
}

/// `r` is what unpacking `e` as a `T` gives: its metadata and bytes when it holds a `T`,
/// a type mismatch naming both types otherwise.
pub open spec fn unpacked_as<T: NetworkSerializable>(e: FrameEnvelope, r: Result<(FrameMetadata, Vec<u8>), CodecError>) -> bool {
    if e.payload_type@ == T::spec_type_tag() {
        r matches Ok((m, p)) && m == e.metadata && p@ == e.payload@
    } else {
        r matches Err(CodecError::TypeMismatch { expected, actual }) && expected@ == T::spec_type_tag()
            && actual@ == e.payload_type@
    }
}

impl FrameEnvelope {
    /// An envelope for a payload of type `T`, already serialized to `payload`.
    pub fn from_payload<T: NetworkSerializable>(metadata: FrameMetadata, payload: Vec<u8>) -> (r: FrameEnvelope)
        ensures
            packed_as::<T>(r, metadata, payload@),
    {
        FrameEnvelope { metadata, payload_type: String::from_str(T::type_tag()), payload }
    }

    /// The metadata and serialized payload, when the envelope holds a `T`;
    /// a type mismatch naming both types otherwise.
    pub fn into_payload<T: NetworkSerializable>(self) -> (r: Result<(FrameMetadata, Vec<u8>), CodecError>)
        ensures
            unpacked_as::<T>(self, r),
    {
        let expected = String::from_str(T::type_tag());
        if self.payload_type != expected {
            return Err(CodecError::TypeMismatch { expected, actual: self.payload_type });
        }
        Ok((self.metadata, self.payload))
    }
}

/// Unpacking an envelope as the type it was packed as gives back the metadata and
/// the bytes that went in; unpacking it as a type with another tag is a mismatch
/// naming the type asked for and the type it holds.
pub proof fn law_envelope_roundtrip<T: NetworkSerializable, U: NetworkSerializable>(
    e: FrameEnvelope,
    metadata: FrameMetadata,
    payload: Seq<u8>,
    r: Result<(FrameMetadata, Vec<u8>), CodecError>,
    q: Result<(FrameMetadata, Vec<u8>), CodecError>,
)
    requires
        packed_as::<T>(e, metadata, payload),
        unpacked_as::<T>(e, r),
        unpacked_as::<U>(e, q),
    ensures
        r matches Ok((m, p)) && m == metadata && p@ == payload,
        U::spec_type_tag() != T::spec_type_tag() ==> (q matches Err(CodecError::TypeMismatch { expected, actual })
            && expected@ == U::spec_type_tag() && actual@ == T::spec_type_tag()),
{
}

/// The type tags of the library's payload types, in one list.
pub open spec fn library_tags() -> Seq<Seq<char>> {
    seq![
        <Vec<u8> as NetworkSerializable>::spec_type_tag(),
        <String as NetworkSerializable>::spec_type_tag(),
        <i32 as NetworkSerializable>::spec_type_tag(),
        <i64 as NetworkSerializable>::spec_type_tag(),
        VideoFrame::spec_type_tag(),
        AudioFrame::spec_type_tag(),
        ImageData::spec_type_tag(),
        AudioSample::spec_type_tag(),
    ]
}

/// The payload types of the library name themselves differently, so an envelope
/// of one never unpacks as another.
pub proof fn law_type_tags_distinct()
    ensures
        forall|i: int, j: int| 0 <= i < j < library_tags().len() ==> library_tags()[i] != library_tags()[j],
{
    reveal_strlit("bytes");
    reveal_strlit("string");
    reveal_strlit("i32");
    reveal_strlit("i64");
    reveal_strlit("video_frame");
    reveal_strlit("audio_frame");
    reveal_strlit("image");
    reveal_strlit("audio_sample");
    let t = library_tags();
    assert(t[0][0] != t[6][0]);
    assert(t[2][1] != t[3][1]);
    assert(t[4][0] != t[5][0]);
    assert forall|i: int, j: int| 0 <= i < j < t.len() implies t[i] != t[j] by {
        if t[i].len() == t[j].len() {
            if i == 0 && j == 6 {
                assert(t[i][0] != t[j][0]);
            } else if i == 2 && j == 3 {
                assert(t[i][1] != t[j][1]);
            } else if i == 4 && j == 5 {
                assert(t[i][0] != t[j][0]);
            }
        }
    }
}

} // verus!
