//! Envelope decoder: splits one raw text frame into its
//! `{"type": ..., "content": ...}` wire wrapper. The `content` field
//! is either a JSON object or a JSON-encoded string holding an object;
//! the string form is detected and unwrapped transparently. Decode
//! failure is a value, never a connection-level error.

use crate::json::{
    json_top, obj_lookup, parse_top, FieldData, JsonField, JsonObj, JsonTop, TopData,
};
use crate::json::{copy_bytes, obj_get};
use vstd::prelude::*;

verus! {

/// Key `type` of the wire wrapper.
pub open spec fn type_key() -> Seq<u8> {
    seq![0x74u8, 0x79, 0x70, 0x65]
}

/// Key `content` of the wire wrapper.
pub open spec fn content_key() -> Seq<u8> {
    seq![0x63u8, 0x6f, 0x6e, 0x74, 0x65, 0x6e, 0x74]
}

/// Tag used when a frame has no string `type` field: `unknown`.
pub open spec fn unknown_tag() -> Seq<u8> {
    seq![0x75u8, 0x6e, 0x6b, 0x6e, 0x6f, 0x77, 0x6e]
}

/// Decoded `content`: an object ready for schema interpretation, or
/// any other value (which no event schema accepts).
#[derive(Debug)]
pub enum ContentValue {
    Obj(JsonObj),
    Other,
}

/// Spec-level shape of decoded content.
pub enum ContentData {
    Obj(Seq<(Seq<u8>, FieldData)>),
    Other,
}

impl View for ContentValue {
    type V = ContentData;

    open spec fn view(&self) -> ContentData {
        match self {
            ContentValue::Obj(o) => ContentData::Obj(o@),
            ContentValue::Other => ContentData::Other,
        }
    }
}

/// Why a frame was rejected at the decode stage.
#[derive(Clone, Copy, PartialEq, Eq, Structural, Debug)]
pub enum DecodeError {
    /// The frame itself is not one well-formed JSON value.
    MalformedFrame,
    /// The `content` field is a string that does not hold JSON.
    MalformedContent,
}

/// One decoded frame: its event-type tag and its content value.
#[derive(Debug)]
pub struct Envelope {
    pub event_type: Vec<u8>,
    pub content: ContentValue,
}

/// What decoding one frame yields, at the spec level.
pub enum EnvelopeSpec {
    Frame(Seq<u8>, ContentData),
    BadFrame,
    BadContent,
}

/// The decoder's full behaviour on a frame's bytes:
/// - a frame that is not one JSON value is a decode failure;
/// - the tag is the string `type` field, or `unknown` when the frame
///   is no object or has no string `type` field;
/// - an object `content` is taken as it stands; a string `content` is
///   parsed again as JSON (the upstream protocol double-encodes some
///   event types), and a string that holds no JSON is a decode
///   failure; anything else leaves content that no schema accepts.
pub open spec fn envelope_spec(s: Seq<u8>) -> EnvelopeSpec {
    match json_top(s) {
        None => EnvelopeSpec::BadFrame,
        Some(TopData::Scalar(v)) => EnvelopeSpec::Frame(unknown_tag(), ContentData::Other),
        Some(TopData::Obj(fields)) => {
            let ty = match obj_lookup(fields, type_key()) {
                Some(FieldData::Str(t)) => t,
                _ => unknown_tag(),
            };
            match obj_lookup(fields, content_key()) {
                Some(FieldData::Str(b)) => match json_top(b) {
                    None => EnvelopeSpec::BadContent,
                    Some(TopData::Obj(f2)) => EnvelopeSpec::Frame(ty, ContentData::Obj(f2)),
                    Some(TopData::Scalar(v)) => EnvelopeSpec::Frame(ty, ContentData::Other),
                },
                Some(FieldData::Composite(raw)) => match json_top(raw) {
                    Some(TopData::Obj(f2)) => EnvelopeSpec::Frame(ty, ContentData::Obj(f2)),
                    _ => EnvelopeSpec::Frame(ty, ContentData::Other),
                },
                _ => EnvelopeSpec::Frame(ty, ContentData::Other),
            }
        },
    }
}

/// Decode one raw text frame into its envelope.
///
/// Returns exactly what `envelope_spec` assigns to the bytes: the
/// `(event_type, content)` pair on success, and the distinct decode
/// failure value otherwise.
pub fn decode_frame(s: &[u8]) -> (r: Result<Envelope, DecodeError>)
    ensures
        match r {
            Ok(env) => envelope_spec(s@) == EnvelopeSpec::Frame(env.event_type@, env.content@),
            Err(DecodeError::MalformedFrame) => envelope_spec(s@) == EnvelopeSpec::BadFrame,
            Err(DecodeError::MalformedContent) => envelope_spec(s@) == EnvelopeSpec::BadContent,
        },
{
    let unknown: Vec<u8> = vec![0x75u8, 0x6e, 0x6b, 0x6e, 0x6f, 0x77, 0x6e];
    proof {
        assert(unknown@ =~= unknown_tag());
    }
    match parse_top(s) {
        None => Err(DecodeError::MalformedFrame),
        Some(JsonTop::Scalar(_v)) => Ok(
            Envelope { event_type: unknown, content: ContentValue::Other },
        ),
        Some(JsonTop::Obj(o)) => {
            let tkey: Vec<u8> = vec![0x74u8, 0x79, 0x70, 0x65];
            let ckey: Vec<u8> = vec![0x63u8, 0x6f, 0x6e, 0x74, 0x65, 0x6e, 0x74];
            proof {
                assert(tkey@ =~= type_key());
                assert(ckey@ =~= content_key());
            }
            let ty: Vec<u8> = match obj_get(&o, tkey.as_slice()) {
                Some(JsonField::Str(t)) => copy_bytes(t),
                _ => unknown,
            };
            match obj_get(&o, ckey.as_slice()) {
                Some(JsonField::Str(b)) => match parse_top(b.as_slice()) {
                    None => Err(DecodeError::MalformedContent),
                    Some(JsonTop::Obj(f2)) => Ok(
                        Envelope { event_type: ty, content: ContentValue::Obj(f2) },
                    ),
                    Some(JsonTop::Scalar(_v)) => Ok(
                        Envelope { event_type: ty, content: ContentValue::Other },
                    ),
                },
                Some(JsonField::Composite(raw)) => match parse_top(raw.as_slice()) {
                    Some(JsonTop::Obj(f2)) => Ok(
                        Envelope { event_type: ty, content: ContentValue::Obj(f2) },
                    ),
                    _ => Ok(Envelope { event_type: ty, content: ContentValue::Other }),
                },
                _ => Ok(Envelope { event_type: ty, content: ContentValue::Other }),
            }
        },
    }
}

} // verus!
