//! Canonical payload encoding.
//!
//! The payload bytes that get signed are the only pinned external contract
//! of the device: an independent verifier must reproduce them exactly from
//! the logical values, so the encoding is a pure function with a fixed
//! field order (version, event tag and fields, timestamp, counter),
//! fixed-width little-endian integers, and a stable one-byte tag per event
//! variant. None of these may change without bumping the version byte.
//!
//! A decoder is provided for verifiers; an event tag it does not recognize
//! decodes to the explicit [`AttestationEvent::Unknown`] outcome rather
//! than silently misinterpreting bytes.

use vstd::bytes::*;
use vstd::prelude::*;
use vstd::slice::*;

use crate::attestation::AttestationEvent;

verus! {

/// Wire-format version written as the leading byte of every payload.
pub const PROTOCOL_VERSION: u8 = 1;

/// Wire tag of [`AttestationEvent::ButtonPress`], followed by the GPIO number.
pub const TAG_BUTTON_PRESS: u8 = 0;

/// Wire tag of [`AttestationEvent::Unknown`]; carries no fields.
pub const TAG_UNKNOWN: u8 = 1;

/// The structured value that gets signed. Constructed fresh per
/// attestation, encoded, signed, and discarded; never persisted.
#[derive(Debug, Clone, Copy, PartialEq, Eq, Structural)]
pub struct AttestationPayload {
    /// Protocol version (for future compatibility).
    pub version: u8,
    /// The triggering event.
    pub event: AttestationEvent,
    /// Milliseconds since device boot.
    pub timestamp_ms: u64,
    /// Monotonic counter (survives soft resets within a power cycle).
    pub counter: u32,
}

/// Canonical bytes of one event: its tag, then its fields in order.
pub open spec fn spec_event_bytes(e: AttestationEvent) -> Seq<u8> {
    match e {
        AttestationEvent::ButtonPress { gpio } => seq![TAG_BUTTON_PRESS, gpio],
        AttestationEvent::Unknown => seq![TAG_UNKNOWN],
    }
}

/// Canonical bytes of one payload: version byte, event bytes, timestamp
/// as 8 little-endian bytes, counter as 4 little-endian bytes.
pub open spec fn spec_encode(p: AttestationPayload) -> Seq<u8> {
    seq![p.version] + spec_event_bytes(p.event) + spec_u64_to_le_bytes(p.timestamp_ms)
        + spec_u32_to_le_bytes(p.counter)
}

/// Encode a payload into its canonical byte string.
///
/// The result is a pure function of the logical value: identical payloads
/// always yield byte-identical output.
pub fn encode(p: &AttestationPayload) -> (r: Vec<u8>)
    ensures
        r@ == spec_encode(*p),
{
    let mut out: Vec<u8> = Vec::new();
    out.push(p.version);
    match p.event {
        AttestationEvent::ButtonPress { gpio } => {
            out.push(TAG_BUTTON_PRESS);
            out.push(gpio);
        },
        AttestationEvent::Unknown => {
            out.push(TAG_UNKNOWN);
        },
    }
    let mut ts_bytes = u64_to_le_bytes(p.timestamp_ms);
    out.append(&mut ts_bytes);
    let mut counter_bytes = u32_to_le_bytes(p.counter);
    out.append(&mut counter_bytes);
    proof {
        assert(out@ =~= spec_encode(*p));
    }
    out
}

/// What `decode` returns for a given byte string.
pub open spec fn spec_decode(bytes: Seq<u8>) -> Option<AttestationPayload> {
    if bytes.len() < 2 {
        None
    } else if bytes[1] == TAG_BUTTON_PRESS {
        if bytes.len() == 15 {
            Some(
                AttestationPayload {
                    version: bytes[0],
                    event: AttestationEvent::ButtonPress { gpio: bytes[2] },
                    timestamp_ms: spec_u64_from_le_bytes(bytes.subrange(3, 11)),
                    counter: spec_u32_from_le_bytes(bytes.subrange(11, 15)),
                },
            )
        } else {
            None
        }
    } else {
        if bytes.len() == 14 {
            Some(
                AttestationPayload {
                    version: bytes[0],
                    event: AttestationEvent::Unknown,
                    timestamp_ms: spec_u64_from_le_bytes(bytes.subrange(2, 10)),
                    counter: spec_u32_from_le_bytes(bytes.subrange(10, 14)),
                },
            )
        } else {
            None
        }
    }
}

/// Decode a canonical byte string back into its logical payload.
///
/// Returns `None` if the length does not match the recognized shape. Any
/// event tag other than the known ones yields the explicit
/// [`AttestationEvent::Unknown`] outcome, so payloads from newer firmware
/// decode gracefully on an older schema reader.
pub fn decode(bytes: &[u8]) -> (r: Option<AttestationPayload>)
    ensures
        r == spec_decode(bytes@),
{
    if bytes.len() < 2 {
        return None;
    }
    let tag = *slice_index_get(bytes, 1);
    if tag == TAG_BUTTON_PRESS {
        if bytes.len() == 15 {
            let version = *slice_index_get(bytes, 0);
            let gpio = *slice_index_get(bytes, 2);
            let timestamp_ms = u64_from_le_bytes(slice_subrange(bytes, 3, 11));
            let counter = u32_from_le_bytes(slice_subrange(bytes, 11, 15));
            Some(
                AttestationPayload {
                    version,
                    event: AttestationEvent::ButtonPress { gpio },
                    timestamp_ms,
                    counter,
                },
            )
        } else {
            None
        }
    } else {
        if bytes.len() == 14 {
            let version = *slice_index_get(bytes, 0);
            let timestamp_ms = u64_from_le_bytes(slice_subrange(bytes, 2, 10));
            let counter = u32_from_le_bytes(slice_subrange(bytes, 10, 14));
            Some(
                AttestationPayload {
                    version,
                    event: AttestationEvent::Unknown,
                    timestamp_ms,
                    counter,
                },
            )
        } else {
            None
        }
    }
}

/// Canonical encoding is deterministic: one logical value has exactly one
/// byte string, because the encoding is a pure function of the value.
pub proof fn lemma_encode_deterministic(p1: AttestationPayload, p2: AttestationPayload)
    requires
        p1 == p2,
    ensures
        spec_encode(p1) == spec_encode(p2),
{
}

/// Decoding round-trips: every payload decodes back from its own
/// canonical encoding to an equal logical value.
pub proof fn lemma_encode_decode_roundtrip(p: AttestationPayload)
    ensures
        spec_decode(spec_encode(p)) == Some(p),
{
    lemma_auto_spec_u64_to_from_le_bytes();
    lemma_auto_spec_u32_to_from_le_bytes();
    let bytes = spec_encode(p);
    match p.event {
        AttestationEvent::ButtonPress { gpio } => {
            assert(bytes.subrange(3, 11) =~= spec_u64_to_le_bytes(p.timestamp_ms));
            assert(bytes.subrange(11, 15) =~= spec_u32_to_le_bytes(p.counter));
        },
        AttestationEvent::Unknown => {
            assert(bytes.subrange(2, 10) =~= spec_u64_to_le_bytes(p.timestamp_ms));
            assert(bytes.subrange(10, 14) =~= spec_u32_to_le_bytes(p.counter));
        },
    }
}

/// One byte string stands for at most one logical value: two payloads with
/// the same canonical encoding are equal.
pub proof fn lemma_encode_injective(p1: AttestationPayload, p2: AttestationPayload)
    requires
        spec_encode(p1) == spec_encode(p2),
    ensures
        p1 == p2,
{
    lemma_encode_decode_roundtrip(p1);
    lemma_encode_decode_roundtrip(p2);
}

} // verus!
