//! Hardware-assisted ephemeral attestation.
//!
//! When a physical event occurs (a button press), the device generates a
//! fresh Ed25519 keypair from hardware entropy, signs a canonically encoded
//! attestation payload, zeroizes the private key, and returns only public
//! data: the event, timestamp, public key and signature. No key or device
//! identity survives across two attestations.

pub mod attestation;
pub mod codec;
pub mod cooldown;
pub mod entropy;
pub mod keys;
