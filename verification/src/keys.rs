//! Ephemeral key lifecycle: generate, sign once, zeroize.
//!
//! A signing key exists only inside one attestation creation. Its seed is
//! drawn from hardware entropy by the caller, the Ed25519 keypair is
//! derived from it, exactly one message is signed, and every buffer that
//! held the seed is overwritten with zero before control returns — on
//! every exit path. No key is ever reused or persisted, which is what
//! makes attestations unlinkable.

use ed25519_dalek::Signer;
use vstd::prelude::*;
use zeroize::Zeroize;

verus! {

/// True when every byte of `s` is zero.
pub open spec fn all_zero(s: Seq<u8>) -> bool {
    forall|i: int| 0 <= i < s.len() ==> s[i] == 0u8
}

/// The 32 public-key bytes that Ed25519 derives from a 32-byte seed.
///
/// The derivation (SHA-512 expansion, clamping, scalar multiplication,
/// point compression) depends on the seed bytes alone.
pub uninterp spec fn ed25519_public_key(seed: Seq<u8>) -> Seq<u8>;

/// The 64 signature bytes of deterministic Ed25519 over a message, under
/// the key derived from `seed`.
///
/// Ed25519 signing consumes no randomness: the signature is a function of
/// the seed and the message alone.
pub uninterp spec fn ed25519_signature(seed: Seq<u8>, msg: Seq<u8>) -> Seq<u8>;

/// Relies on `ed25519_dalek::SigningKey::from_bytes`,
/// `SigningKey::verifying_key` and `VerifyingKey::to_bytes`: the verifying
/// key is computed from the secret seed alone when the signing key is
/// constructed, and `verifying_key`/`to_bytes` only hand out its bytes.
#[verifier::external_body]
fn derive_public_key(seed: &[u8; 32]) -> (pk: [u8; 32])
    ensures
        pk@ == ed25519_public_key(seed@),
{
    ed25519_dalek::SigningKey::from_bytes(seed).verifying_key().to_bytes()
}

/// Relies on `ed25519_dalek::SigningKey::from_bytes` and `Signer::sign`:
/// Ed25519 signing is deterministic, computed with SHA-512 from the
/// seed-derived scalar, prefix and verifying key, and the message bytes;
/// `try_sign` never fails for this signer, so `sign` does not panic.
#[verifier::external_body]
fn sign_with_seed(seed: &[u8; 32], msg: &[u8]) -> (sig: [u8; 64])
    ensures
        sig@ == ed25519_signature(seed@, msg@),
{
    ed25519_dalek::SigningKey::from_bytes(seed).sign(msg).to_bytes()
}

/// Relies on `zeroize::Zeroize` for `[u8; 32]`: every element is
/// overwritten with its zero value through a volatile write that the
/// optimizer cannot elide.
#[verifier::external_body]
fn zeroize_bytes(buf: &mut [u8; 32])
    ensures
        all_zero(final(buf)@),
{
    buf.zeroize();
}

/// The one-time signing key of a single attestation.
///
/// Constructing it wipes the caller's seed buffer at once; [`Self::wipe`]
/// erases the retained copy and must run before the key goes out of
/// scope, on every exit path of the creation flow.
pub(crate) struct EphemeralSigningKey {
    pub(crate) seed: [u8; 32],
}

impl EphemeralSigningKey {
    /// Derive the one-time key from 32 seed bytes and zeroize the input
    /// buffer immediately, whether or not the key retains a transformed
    /// copy internally.
    pub(crate) fn new(seed_buf: &mut [u8; 32]) -> (k: EphemeralSigningKey)
        ensures
            k.seed@ == old(seed_buf)@,
            all_zero(final(seed_buf)@),
    {
        let k = EphemeralSigningKey { seed: *seed_buf };
        zeroize_bytes(seed_buf);
        k
    }

    /// The 32 public bytes of the derived verifying key.
    pub(crate) fn verifying_key(&self) -> (pk: [u8; 32])
        ensures
            pk@ == ed25519_public_key(self.seed@),
    {
        derive_public_key(&self.seed)
    }

    /// Produce the 64-byte deterministic Ed25519 signature over exactly
    /// the supplied message bytes.
    pub(crate) fn sign(&self, msg: &[u8]) -> (sig: [u8; 64])
        ensures
            sig@ == ed25519_signature(self.seed@, msg@),
    {
        sign_with_seed(&self.seed, msg)
    }

    /// Overwrite the private seed with zero. After this, no secret
    /// material remains readable in the key.
    pub(crate) fn wipe(&mut self)
        ensures
            all_zero(final(self).seed@),
    {
        zeroize_bytes(&mut self.seed);
    }
}

} // verus!
