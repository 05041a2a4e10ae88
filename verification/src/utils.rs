//! Fresh blinding factors from the system's random source.

use crate::error::RangeProofError;
use crate::scalar::group_order;
use crate::scalar::le_value;
use crate::scalar::BlindingFactor;
use vstd::prelude::*;

verus! {

/// Calls `getrandom::fill` on a 32-byte buffer.
///
/// Trusted, and nothing is claimed: the bytes are random, and the source
/// may fail.
#[verifier::external_body]
fn fill_random(buffer: &mut [u8; 32]) -> (filled: Result<(), getrandom::Error>) {
    getrandom::fill(buffer)
}

/// Turns what the random source handed back into a blinding factor: the
/// drawn number reduced modulo the group order, or the source's failure.
pub fn blinding_from_entropy(filled: Result<(), getrandom::Error>, bytes: [u8; 32]) -> (drawn: Result<
    BlindingFactor,
    RangeProofError,
>)
    ensures
        match filled {
            Ok(_) => drawn matches Ok(blinding) && blinding.wf() && le_value(blinding@)
                == le_value(bytes@) % group_order(),
            Err(e) => drawn == Err::<BlindingFactor, RangeProofError>(
                RangeProofError::RandomnessUnavailable(e),
            ),
        },
{
    match filled {
        Ok(_) => Ok(BlindingFactor::from_bytes_mod_order(bytes)),
        Err(e) => Err(RangeProofError::RandomnessUnavailable(e)),
    }
}

/// Draws a fresh, uniformly random blinding factor.
///
/// Each call asks the random source once; nothing is cached or reused.  What
/// comes back differs from call to call, so only this is promised: a blinding
/// factor that came back is canonical, and the one failure is that of the
/// random source.
pub fn generate_random_bindings() -> (drawn: Result<BlindingFactor, RangeProofError>)
    ensures
        match drawn {
            Ok(blinding) => blinding.wf(),
            Err(e) => e is RandomnessUnavailable,
        },
{
    let mut bytes = [0u8; 32];
    let filled = fill_random(&mut bytes);
    blinding_from_entropy(filled, bytes)
}

} // verus!
