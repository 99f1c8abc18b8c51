//! Entropy source self-check.
//!
//! The hardware noise generator itself lives with the device glue: it
//! fills plain byte buffers that are handed to this library. What the
//! library owns is the sanity rule applied to a freshly drawn sample at
//! initialization — a degenerate (all-zero) sample signals a broken noise
//! source, which must surface as [`AttestError::EntropyFault`] rather
//! than feed key generation.

use vstd::prelude::*;

use crate::attestation::AttestError;
use crate::keys::all_zero;

verus! {

/// Hardware self-check for the entropy source: accept a freshly drawn
/// sample unless it is degenerate (all zeros), in which case the current
/// attempt fails with [`AttestError::EntropyFault`].
pub fn entropy_self_check(sample: &[u8; 4]) -> (r: Result<(), AttestError>)
    ensures
        r is Ok <==> !all_zero(sample@),
        r is Err ==> r == Err::<(), AttestError>(AttestError::EntropyFault),
{
    if sample[0] != 0 || sample[1] != 0 || sample[2] != 0 || sample[3] != 0 {
        Ok(())
    } else {
        Err(AttestError::EntropyFault)
    }
}

} // verus!
