//! Core attestation logic.
//!
//! An attestation is the public, verifiable record of one physical event:
//! the event, a timestamp, a fresh Ed25519 public key and a signature
//! over the canonical payload bytes. The private key is generated for
//! exactly one signature and zeroized before control returns to the
//! caller, so no key or device identity survives across two attestations.

use vstd::prelude::*;
use vstd::slice::*;

use crate::codec::{encode, spec_encode, AttestationPayload, PROTOCOL_VERSION};
use crate::keys::{all_zero, ed25519_public_key, ed25519_signature, EphemeralSigningKey};

verus! {

/// GPIO pin of the attestation trigger button (the BOOT button on most
/// devkits).
pub const BUTTON_PIN: u8 = 0;

/// Events that can trigger an attestation.
#[derive(Debug, Clone, Copy, PartialEq, Eq, Structural)]
pub enum AttestationEvent {
    /// Physical button press on the given GPIO pin.
    ButtonPress { gpio: u8 },
    /// Event kinds this schema does not recognize (from newer firmware).
    Unknown,
}

/// Failure modes of attestation creation.
#[derive(Debug, Clone, Copy, PartialEq, Eq, Structural)]
pub enum AttestError {
    /// Hardware RNG unavailable or failed its sanity check; fatal for the
    /// current attempt, retryable by the caller.
    EntropyFault,
    /// Payload could not be canonically encoded. Unreachable for the
    /// fixed-shape payload, but handled explicitly rather than crashing
    /// while key material may still be live.
    EncodingFault,
}

/// Process-wide monotonic counter: 0 at boot, incremented once per
/// attestation attempt, reset only by a power cycle.
pub struct MonotonicCounter {
    pub value: u32,
}

/// The increment relation of one attestation attempt: the attempt
/// consumes `taken` and leaves the counter at `post`.
pub open spec fn spec_counter_step(pre: u32, post: u32, taken: u32) -> bool {
    &&& taken == pre
    &&& post == (if pre < u32::MAX {
        (pre + 1) as u32
    } else {
        0u32
    })
}

impl MonotonicCounter {
    /// Fresh counter at boot.
    pub fn new() -> (r: MonotonicCounter)
        ensures
            r.value == 0,
    {
        MonotonicCounter { value: 0 }
    }
}

/// Increment the counter and return the value consumed by this attempt.
///
/// This runs before signing is attempted: counter values are consumed
/// even if the attempt later fails.
pub fn increment_counter(counter: &mut MonotonicCounter) -> (r: u32)
    ensures
        spec_counter_step(old(counter).value, final(counter).value, r),
{
    let v = counter.value;
    counter.value = if v < u32::MAX {
        v + 1
    } else {
        0
    };
    v
}

/// No two attestation attempts within one power cycle share a counter
/// value: while the counter has not wrapped around `u32::MAX`, of two
/// consecutive attempts the second consumes exactly the next value, so
/// consumed values form a strictly increasing sequence.
pub proof fn lemma_counter_strictly_increases(
    pre: u32,
    mid: u32,
    post: u32,
    r1: u32,
    r2: u32,
)
    requires
        spec_counter_step(pre, mid, r1),
        spec_counter_step(mid, post, r2),
        pre < u32::MAX,
    ensures
        r2 == r1 + 1,
        r1 < r2,
{
}

/// The ASCII code of one lowercase hex digit.
pub open spec fn spec_hex_ascii_digit(n: u8) -> u8 {
    if n < 10 {
        (48 + n) as u8
    } else {
        (87 + n) as u8
    }
}

/// The character of one lowercase hex digit.
pub open spec fn spec_hex_char(n: u8) -> char {
    spec_hex_ascii_digit(n) as char
}

/// The lowercase hex rendering of a byte string: two digits per byte,
/// high nibble first.
pub open spec fn spec_hex(bytes: Seq<u8>) -> Seq<char> {
    Seq::new(
        2 * bytes.len(),
        |i: int|
            if i % 2 == 0 {
                spec_hex_char(bytes[i / 2] / 16)
            } else {
                spec_hex_char(bytes[i / 2] % 16)
            },
    )
}

/// Relies on `String::from_utf8`: bytes below 0x80 are single-byte UTF-8
/// sequences, so ASCII input decodes to exactly one char per byte, and
/// decoding cannot fail on it.
#[verifier::external_body]
fn ascii_to_string(bytes: Vec<u8>) -> (s: String)
    requires
        forall|i: int| 0 <= i < bytes@.len() ==> bytes@[i] < 128,
    ensures
        s@.len() == bytes@.len(),
        forall|i: int| 0 <= i < bytes@.len() ==> s@[i] == (bytes@[i] as char),
{
    match String::from_utf8(bytes) {
        Ok(s) => s,
        Err(_) => String::new(),
    }
}

/// Simple lowercase hex encoding (no external dependency).
pub fn hex_encode(bytes: &[u8]) -> (s: String)
    ensures
        s@ == spec_hex(bytes@),
{
    let mut ascii: Vec<u8> = Vec::new();
    let mut idx: usize = 0;
    while idx < bytes.len()
        invariant
            idx <= bytes@.len(),
            ascii@.len() == 2 * idx,
            forall|j: int|
                0 <= j < idx ==> #[trigger] ascii@[2 * j] == spec_hex_ascii_digit(
                    bytes@[j] / 16,
                ) && ascii@[2 * j + 1] == spec_hex_ascii_digit(bytes@[j] % 16),
        decreases bytes@.len() - idx,
    {
        let b = *slice_index_get(bytes, idx);
        let hi = b / 16;
        let lo = b % 16;
        let hi_digit = if hi < 10 {
            48 + hi
        } else {
            87 + hi
        };
        let lo_digit = if lo < 10 {
            48 + lo
        } else {
            87 + lo
        };
        ascii.push(hi_digit);
        ascii.push(lo_digit);
        idx += 1;
    }
    assert forall|i: int| 0 <= i < ascii@.len() implies ascii@[i] < 128 by {
        let j = i / 2;
        if i % 2 == 0 {
            assert(i == 2 * j);
            assert(ascii@[2 * j] == spec_hex_ascii_digit(bytes@[j] / 16));
        } else {
            assert(i == 2 * j + 1);
            assert(ascii@[2 * j] == spec_hex_ascii_digit(bytes@[j] / 16));
            assert(ascii@[2 * j + 1] == spec_hex_ascii_digit(bytes@[j] % 16));
        }
    }
    let s = ascii_to_string(ascii);
    proof {
        assert forall|i: int| 0 <= i < s@.len() implies s@[i] == spec_hex(bytes@)[i] by {
            let j = i / 2;
            if i % 2 == 0 {
                assert(i == 2 * j);
                assert(ascii@[2 * j] == spec_hex_ascii_digit(bytes@[j] / 16));
            } else {
                assert(i == 2 * j + 1);
                assert(ascii@[2 * j] == spec_hex_ascii_digit(bytes@[j] / 16));
                assert(ascii@[2 * j + 1] == spec_hex_ascii_digit(bytes@[j] % 16));
            }
        }
        assert(s@ =~= spec_hex(bytes@));
    }
    s
}

/// A completed attestation: public data only, the private key is already
/// zeroized. Freely copyable, loggable, transmissible.
pub struct Attestation {
    pub event: AttestationEvent,
    pub timestamp_ms: u64,
    pub public_key: [u8; 32],
    pub signature: [u8; 64],
}

impl Attestation {
    /// Create a new attestation for the given event.
    ///
    /// The caller supplies the 32 seed bytes drawn from the entropy
    /// source, the current timestamp, and the counter; creation consumes
    /// one counter value, canonically encodes the payload, derives the
    /// one-time keypair, signs, and zeroizes the key. On return — on
    /// every path — the seed buffer has been overwritten with zero.
    ///
    /// Encoding the fixed-shape payload is total, so creation always
    /// succeeds; the `Result` keeps the failure surface explicit for
    /// callers, which must not treat a fault as an attestation.
    pub fn create(
        seed: &mut [u8; 32],
        event: AttestationEvent,
        timestamp_ms: u64,
        counter: &mut MonotonicCounter,
    ) -> (r: Result<Attestation, AttestError>)
        ensures
            all_zero(final(seed)@),
            spec_counter_step(old(counter).value, final(counter).value, old(counter).value),
            r is Ok,
            r matches Ok(a) ==> ({
                &&& a.event == event
                &&& a.timestamp_ms == timestamp_ms
                &&& a.public_key@ == ed25519_public_key(old(seed)@)
                &&& a.signature@ == ed25519_signature(
                    old(seed)@,
                    spec_encode(
                        (AttestationPayload {
                            version: PROTOCOL_VERSION,
                            event,
                            timestamp_ms,
                            counter: old(counter).value,
                        }),
                    ),
                )
            }),
    {
        let counter_value = increment_counter(counter);

        let payload = AttestationPayload {
            version: PROTOCOL_VERSION,
            event,
            timestamp_ms,
            counter: counter_value,
        };

        let payload_bytes = encode(&payload);

        let mut signing_key = EphemeralSigningKey::new(seed);
        let public_key = signing_key.verifying_key();
        let signature = signing_key.sign(payload_bytes.as_slice());
        signing_key.wipe();

        Ok(Attestation { event, timestamp_ms, public_key, signature })
    }

    /// The triggering event.
    pub fn event(&self) -> (r: AttestationEvent)
        ensures
            r == self.event,
    {
        self.event
    }

    /// Milliseconds since device boot at creation time.
    pub fn timestamp_ms(&self) -> (r: u64)
        ensures
            r == self.timestamp_ms,
    {
        self.timestamp_ms
    }

    /// The raw 32 bytes of the one-time public key.
    pub fn public_key_bytes(&self) -> (r: &[u8; 32])
        ensures
            r@ == self.public_key@,
    {
        &self.public_key
    }

    /// The raw 64 bytes of the signature.
    pub fn signature_bytes(&self) -> (r: &[u8; 64])
        ensures
            r@ == self.signature@,
    {
        &self.signature
    }

    /// The public key as lowercase hex.
    pub fn public_key_hex(&self) -> (s: String)
        ensures
            s@ == spec_hex(self.public_key@),
    {
        hex_encode(self.public_key.as_slice())
    }

    /// The signature as lowercase hex.
    pub fn signature_hex(&self) -> (s: String)
        ensures
            s@ == spec_hex(self.signature@),
    {
        hex_encode(self.signature.as_slice())
    }
}

/// Generate a fresh attestation for a button press on [`BUTTON_PIN`].
pub fn generate_attestation(
    seed: &mut [u8; 32],
    timestamp_ms: u64,
    counter: &mut MonotonicCounter,
) -> (r: Result<Attestation, AttestError>)
    ensures
        all_zero(final(seed)@),
        spec_counter_step(old(counter).value, final(counter).value, old(counter).value),
        r is Ok,
        r matches Ok(a) ==> ({
            &&& a.event == (AttestationEvent::ButtonPress { gpio: BUTTON_PIN })
            &&& a.timestamp_ms == timestamp_ms
            &&& a.public_key@ == ed25519_public_key(old(seed)@)
            &&& a.signature@ == ed25519_signature(
                old(seed)@,
                spec_encode(
                    (AttestationPayload {
                        version: PROTOCOL_VERSION,
                        event: AttestationEvent::ButtonPress { gpio: BUTTON_PIN },
                        timestamp_ms,
                        counter: old(counter).value,
                    }),
                ),
            )
        }),
{
    let event = AttestationEvent::ButtonPress { gpio: BUTTON_PIN };
    Attestation::create(seed, event, timestamp_ms, counter)
}

} // verus!
