//! The envelope: the wire wrapper around an opaque application payload,
//! optionally with the time at which it was sent.
//!
//! On the wire an envelope is the payload's length as eight little-endian
//! bytes, the payload, one byte that is 1 where a timestamp follows and 0
//! where none does, and the timestamp as eight little-endian bytes.

use vstd::bytes::spec_u64_to_le_bytes;
use vstd::prelude::*;

verus! {

/// `bincode::ErrorKind`, which is carried and never read.
#[verifier::external_type_specification]
#[verifier::external_body]
pub struct ExErrorKind(bincode::ErrorKind);

/// A payload with the time, if any, at which it was sent.
#[derive(Debug, Clone, PartialEq, Eq)]
pub struct Envelope {
    /// The application's data, already encoded.
    pub payload: Vec<u8>,
    /// When the payload was sent, in milliseconds since the Unix epoch.
    pub timestamp: Option<u64>,
}

/// An envelope as a mathematical value.
pub struct EnvelopeView {
    pub payload: Seq<u8>,
    pub timestamp: Option<u64>,
}

impl View for Envelope {
    type V = EnvelopeView;

    open spec fn view(&self) -> EnvelopeView {
        EnvelopeView { payload: self.payload@, timestamp: self.timestamp }
    }
}

/// Why an envelope did not pass the wire.
#[derive(Clone, Copy, Debug, PartialEq, Eq, Structural)]
pub enum EnvelopeError {
    Serialize,
    Deserialize,
}

/// The wire form of an envelope.
pub open spec fn envelope_frame(payload: Seq<u8>, timestamp: Option<u64>) -> Seq<u8> {
    spec_u64_to_le_bytes(payload.len() as u64) + payload + (match timestamp {
        Some(sent) => seq![1u8] + spec_u64_to_le_bytes(sent),
        None => seq![0u8],
    })
}

/// What the encoder gives for an envelope: its bytes, or `None` where it
/// fails.
pub uninterp spec fn bincode_envelope(payload: Seq<u8>, timestamp: Option<u64>) -> Option<Seq<u8>>;

/// What the decoder reads from a byte string: the payload and the timestamp,
/// or `None` where it fails.
pub uninterp spec fn bincode_envelope_parse(bytes: Seq<u8>) -> Option<(Seq<u8>, Option<u64>)>;

/// Calls `bincode::serialize` on the pair of the payload and the timestamp.
/// With the configuration of that function a byte vector is written as its
/// length in eight little-endian bytes and its bytes, an `Option` as one byte,
/// 0 or 1, and a `u64` as eight little-endian bytes.
#[verifier::external_body]
fn serialize(payload: &Vec<u8>, timestamp: &Option<u64>) -> (r: Result<
    Vec<u8>,
    Box<bincode::ErrorKind>,
>)
    ensures
        r.is_ok() == bincode_envelope(payload@, *timestamp).is_some(),
        r matches Ok(bytes) ==> bincode_envelope(payload@, *timestamp) == Some(bytes@) && bytes@
            == envelope_frame(payload@, *timestamp),
{
    bincode::serialize(&(payload, timestamp))
}

/// Calls `bincode::deserialize` for a pair of a byte vector and an optional
/// `u64`.
#[verifier::external_body]
fn deserialize(bytes: &Vec<u8>) -> (r: Result<(Vec<u8>, Option<u64>), Box<bincode::ErrorKind>>)
    ensures
        r.is_ok() == bincode_envelope_parse(bytes@).is_some(),
        r matches Ok(parts) ==> bincode_envelope_parse(bytes@) == Some((parts.0@, parts.1)),
{
    bincode::deserialize::<(Vec<u8>, Option<u64>)>(bytes.as_slice())
}

/// What [`Envelope::encode`] answers.
pub open spec fn encoded(envelope: EnvelopeView) -> Result<Seq<u8>, EnvelopeError> {
    match bincode_envelope(envelope.payload, envelope.timestamp) {
        Some(bytes) => Ok(bytes),
        None => Err(EnvelopeError::Serialize),
    }
}

/// What [`Envelope::decode`] answers.
pub open spec fn decoded(bytes: Seq<u8>) -> Result<EnvelopeView, EnvelopeError> {
    match bincode_envelope_parse(bytes) {
        Some(parts) => Ok(EnvelopeView { payload: parts.0, timestamp: parts.1 }),
        None => Err(EnvelopeError::Deserialize),
    }
}

impl Envelope {
    /// Wraps a payload.
    pub fn new(payload: Vec<u8>, timestamp: Option<u64>) -> (envelope: Envelope)
        ensures
            envelope@ == (EnvelopeView { payload: payload@, timestamp }),
    {
        Envelope { payload, timestamp }
    }

    /// The wire form of this envelope. Where it is given, it is the frame
    /// that the module describes.
    pub fn encode(&self) -> (r: Result<Vec<u8>, EnvelopeError>)
        ensures
            match (r, encoded(self@)) {
                (Ok(bytes), Ok(expected)) => bytes@ == expected && bytes@ == envelope_frame(
                    self.payload@,
                    self.timestamp,
                ),
                (Err(e), Err(expected)) => e == expected,
                _ => false,
            },
    {
        match serialize(&self.payload, &self.timestamp) {
            Ok(bytes) => Ok(bytes),
            Err(_) => Err(EnvelopeError::Serialize),
        }
    }

    /// Reads an envelope from its wire form.
    pub fn decode(bytes: &Vec<u8>) -> (r: Result<Envelope, EnvelopeError>)
        ensures
            match (r, decoded(bytes@)) {
                (Ok(envelope), Ok(expected)) => envelope@ == expected,
                (Err(e), Err(expected)) => e == expected,
                _ => false,
            },
    {
        match deserialize(bytes) {
            Ok(parts) => Ok(Envelope { payload: parts.0, timestamp: parts.1 }),
            Err(_) => Err(EnvelopeError::Deserialize),
        }
    }
}

} // verus!
