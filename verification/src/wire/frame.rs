//! Whole frames: an envelope to bytes and back, with a limit on the size of what is
//! read.

use crate::proto::{Envelope, EnvelopeView};
use crate::wire::fields::fields_bytes;
use crate::wire::laws::{envelope_fits, lemma_envelope_roundtrip};
use crate::wire::messages::{decode_envelope, encode_envelope, envelope_fields, envelope_of_bytes};
use vstd::prelude::*;

verus! {

/// Why a frame was not decoded.
#[derive(Clone, Copy, Debug, PartialEq, Eq, Structural)]
pub enum DecodeError {
    /// The frame is longer than the limit.
    TooLarge,
    /// The bytes are not an envelope.
    Malformed,
}

/// The bytes of the frame that carries `env`.
pub open spec fn frame_bytes(env: EnvelopeView) -> Seq<u8> {
    fields_bytes(envelope_fields(env))
}

/// What decoding `bytes` under the size limit `max_len` gives.
pub open spec fn frame_decoded(bytes: Seq<u8>, max_len: usize) -> Result<EnvelopeView, DecodeError> {
    if bytes.len() > max_len {
        Err(DecodeError::TooLarge)
    } else {
        match envelope_of_bytes(bytes) {
            Some(env) => Ok(env),
            None => Err(DecodeError::Malformed),
        }
    }
}

/// Encodes an envelope as one frame.
pub fn encode_frame(env: &Envelope) -> (bytes: Vec<u8>)
    ensures
        bytes@ == frame_bytes(env@),
{
    let mut out: Vec<u8> = Vec::new();
    encode_envelope(&mut out, env);
    proof {
        assert(out@ =~= frame_bytes(env@));
    }
    out
}

/// Decodes one frame. A frame of more than `max_len` bytes is refused unread.
pub fn decode_frame(bytes: &[u8], max_len: usize) -> (r: Result<Envelope, DecodeError>)
    ensures
        match frame_decoded(bytes@, max_len) {
            Ok(env) => r is Ok && r->Ok_0@ == env,
            Err(e) => r is Err && r->Err_0 == e,
        },
{
    if bytes.len() > max_len {
        return Err(DecodeError::TooLarge);
    }
    match decode_envelope(bytes) {
        Some(env) => Ok(env),
        None => Err(DecodeError::Malformed),
    }
}

/// Decoding the frame of an envelope gives the envelope back, whatever its payload
/// and whatever the values of its fields, provided the frame is within the size
/// limit.
pub proof fn lemma_frame_roundtrip(env: EnvelopeView, max_len: usize)
    requires
        envelope_fits(env),
        frame_bytes(env).len() <= max_len,
    ensures
        frame_decoded(frame_bytes(env), max_len) == Ok::<EnvelopeView, DecodeError>(env),
{
    lemma_envelope_roundtrip(env);
}

/// A frame is refused for its size exactly when it is longer than the limit: one of
/// exactly `max_len` bytes is read, one byte more is not.
pub proof fn lemma_frame_size_limit(bytes: Seq<u8>, max_len: usize)
    ensures
        frame_decoded(bytes, max_len) == Err::<EnvelopeView, DecodeError>(DecodeError::TooLarge) <==> bytes.len()
            > max_len,
{
}

/// A message as the transport hands it over: a binary frame with its bytes, or one of
/// the kinds that carry nothing of the protocol.
#[derive(Debug)]
pub enum InboundMessage {
    Binary(Vec<u8>),
    Text,
    Ping,
    Pong,
    Close,
}

/// The mathematical value of an `InboundMessage`.
pub enum InboundMessageView {
    Binary(Seq<u8>),
    Text,
    Ping,
    Pong,
    Close,
}

impl View for InboundMessage {
    type V = InboundMessageView;

    open spec fn view(&self) -> InboundMessageView {
        match self {
            InboundMessage::Binary(b) => InboundMessageView::Binary(b@),
            InboundMessage::Text => InboundMessageView::Text,
            InboundMessage::Ping => InboundMessageView::Ping,
            InboundMessage::Pong => InboundMessageView::Pong,
            InboundMessage::Close => InboundMessageView::Close,
        }
    }
}


} // verus!
