use ed25519_dalek::{Signature, Verifier, VerifyingKey};

use icesickle::attestation::{
    generate_attestation, hex_encode, increment_counter, Attestation, AttestationEvent,
    MonotonicCounter, BUTTON_PIN,
};
use icesickle::attestation::AttestError;
use icesickle::codec::{encode, AttestationPayload, PROTOCOL_VERSION};
use icesickle::entropy::entropy_self_check;

fn dalek_verify(att: &Attestation, payload: &AttestationPayload) -> bool {
    let vk = VerifyingKey::from_bytes(att.public_key_bytes()).expect("valid public key bytes");
    let sig = Signature::from_bytes(att.signature_bytes());
    vk.verify(&encode(payload), &sig).is_ok()
}

#[test]
fn test_hex_encode() {
    assert_eq!(hex_encode(&[0xde, 0xad, 0xbe, 0xef]), "deadbeef");
    assert_eq!(hex_encode(&[0x00, 0xff]), "00ff");
}

#[test]
fn test_hex_encode_empty() {
    assert_eq!(hex_encode(&[]), "");
}

#[test]
fn test_entropy_self_check() {
    assert_eq!(entropy_self_check(&[0, 0, 0, 0]), Err(AttestError::EntropyFault));
    assert_eq!(entropy_self_check(&[0, 0, 0, 1]), Ok(()));
    assert_eq!(entropy_self_check(&[0xab, 0, 0, 0]), Ok(()));
}

#[test]
fn test_counter_starts_at_zero_and_increments() {
    let mut counter = MonotonicCounter::new();
    assert_eq!(increment_counter(&mut counter), 0);
    assert_eq!(increment_counter(&mut counter), 1);
    assert_eq!(increment_counter(&mut counter), 2);
}

#[test]
fn test_create_end_to_end() {
    // Fresh boot: counter at 0; a button press on GPIO 0 at 12345 ms.
    let mut seed = [0x42u8; 32];
    let mut counter = MonotonicCounter::new();
    let event = AttestationEvent::ButtonPress { gpio: 0 };
    let att = Attestation::create(&mut seed, event, 12345, &mut counter).expect("create succeeds");

    assert_eq!(att.event(), AttestationEvent::ButtonPress { gpio: 0 });
    assert_eq!(att.timestamp_ms(), 12345);
    assert_eq!(att.public_key_bytes().len(), 32);
    assert_eq!(att.signature_bytes().len(), 64);

    // Re-encode the logical payload independently and verify the signature.
    let payload = AttestationPayload {
        version: PROTOCOL_VERSION,
        event,
        timestamp_ms: 12345,
        counter: 0,
    };
    assert!(dalek_verify(&att, &payload));
}

#[test]
fn test_create_signature_is_bound_to_payload() {
    let mut seed = [0x42u8; 32];
    let mut counter = MonotonicCounter::new();
    let event = AttestationEvent::ButtonPress { gpio: 0 };
    let att = Attestation::create(&mut seed, event, 12345, &mut counter).expect("create succeeds");

    // A payload that differs in any field must not verify.
    let other = AttestationPayload {
        version: PROTOCOL_VERSION,
        event,
        timestamp_ms: 12346,
        counter: 0,
    };
    assert!(!dalek_verify(&att, &other));
}

#[test]
fn test_create_unknown_event_verifies() {
    let mut seed = [0x07u8; 32];
    let mut counter = MonotonicCounter::new();
    let att = Attestation::create(&mut seed, AttestationEvent::Unknown, 99, &mut counter)
        .expect("create succeeds");
    let payload = AttestationPayload {
        version: PROTOCOL_VERSION,
        event: AttestationEvent::Unknown,
        timestamp_ms: 99,
        counter: 0,
    };
    assert!(dalek_verify(&att, &payload));
}

#[test]
fn test_create_zeroizes_seed() {
    let mut seed = [0x5au8; 32];
    let mut counter = MonotonicCounter::new();
    let _ = Attestation::create(
        &mut seed,
        AttestationEvent::ButtonPress { gpio: 3 },
        7,
        &mut counter,
    )
    .expect("create succeeds");
    assert_eq!(seed, [0u8; 32]);
}

#[test]
fn test_generate_attestation_uses_button_pin() {
    let mut seed = [0x11u8; 32];
    let mut counter = MonotonicCounter::new();
    let att = generate_attestation(&mut seed, 500, &mut counter).expect("create succeeds");
    assert_eq!(att.event(), AttestationEvent::ButtonPress { gpio: BUTTON_PIN });
    assert_eq!(seed, [0u8; 32]);
    let payload = AttestationPayload {
        version: PROTOCOL_VERSION,
        event: AttestationEvent::ButtonPress { gpio: BUTTON_PIN },
        timestamp_ms: 500,
        counter: 0,
    };
    assert!(dalek_verify(&att, &payload));
}

#[test]
fn test_hex_accessors_match_raw_bytes() {
    let mut seed = [0x99u8; 32];
    let mut counter = MonotonicCounter::new();
    let att = generate_attestation(&mut seed, 1, &mut counter).expect("create succeeds");
    assert_eq!(att.public_key_hex(), hex_encode(att.public_key_bytes()));
    assert_eq!(att.signature_hex(), hex_encode(att.signature_bytes()));
    assert_eq!(att.public_key_hex().len(), 64);
    assert_eq!(att.signature_hex().len(), 128);
}

#[test]
fn test_many_creates_distinct_keys_and_counters() {
    // Distinct entropy per attestation must give pairwise distinct public
    // keys, and the counter values form a strictly increasing sequence.
    let mut counter = MonotonicCounter::new();
    let mut keys: Vec<[u8; 32]> = Vec::new();
    for i in 0..1000u64 {
        let mut seed = [0x33u8; 32];
        seed[..8].copy_from_slice(&i.to_le_bytes());
        let before = counter.value;
        let att = generate_attestation(&mut seed, i, &mut counter).expect("create succeeds");
        assert_eq!(before, i as u32);
        assert_eq!(counter.value, i as u32 + 1);
        keys.push(*att.public_key_bytes());
    }
    keys.sort_unstable();
    for pair in keys.windows(2) {
        assert_ne!(pair[0], pair[1]);
    }
}
