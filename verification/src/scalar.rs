//! Blinding factors: the secret scalars that mask a committed value.

use crate::text::fingerprint;
use crate::text::fingerprint_string;
use vstd::prelude::*;

verus! {

/// The order of the group in which commitments live:
/// `2^252 + 27742317777372353535851937790883648493`.
pub open spec fn group_order() -> nat {
    7237005577332262213973186563042994240857116359379907606001950938285454250989nat
}

/// The number that `bytes` spells, least significant byte first.
pub open spec fn le_value(bytes: Seq<u8>) -> nat
    decreases bytes.len(),
{
    if bytes.len() == 0 {
        0
    } else {
        bytes[0] as nat + 256 * le_value(bytes.drop_first())
    }
}

/// Whether `bytes` is the one 32-byte spelling of a scalar: a number below
/// the group order.
pub open spec fn is_canonical_scalar(bytes: Seq<u8>) -> bool {
    bytes.len() == 32 && le_value(bytes) < group_order()
}

/// A secret scalar that masks a committed value.
///
/// It is drawn afresh for every commitment and never derived from the value
/// it hides.  The bytes are the scalar's canonical little-endian spelling.
#[derive(Clone, Copy, Debug, PartialEq, Eq)]
pub struct BlindingFactor {
    bytes: [u8; 32],
}

impl View for BlindingFactor {
    type V = Seq<u8>;

    closed spec fn view(&self) -> Seq<u8> {
        self.bytes@
    }
}

impl BlindingFactor {
    #[verifier::type_invariant]
    spec fn canonical(self) -> bool {
        is_canonical_scalar(self.bytes@)
    }

    /// Holds of every blinding factor that this crate hands out: the bytes
    /// spell a number below the group order.
    pub open spec fn wf(&self) -> bool {
        is_canonical_scalar(self@)
    }

    /// The scalar that a 256-bit little-endian number stands for: the number
    /// reduced modulo the group order.
    pub fn from_bytes_mod_order(bytes: [u8; 32]) -> (blinding: BlindingFactor)
        ensures
            blinding.wf(),
            le_value(blinding@) == le_value(bytes@) % group_order(),
    {
        BlindingFactor { bytes: reduce_mod_order(&bytes) }
    }

    /// The scalar's canonical spelling, least significant byte first.
    pub fn to_bytes(&self) -> (bytes: [u8; 32])
        ensures
            bytes@ == self@,
            self.wf(),
    {
        proof {
            use_type_invariant(self);
        }
        self.bytes
    }
}

/// A blinding factor's fingerprint, for showing it where the secret may be
/// shown at all.
pub fn display_scalar(scalar: &BlindingFactor) -> (text: String)
    ensures
        text@ == fingerprint(scalar@),
{
    let bytes = scalar.to_bytes();
    fingerprint_string(&bytes)
}

/// Calls `curve25519_dalek::Scalar::from_bytes_mod_order` and hands back the
/// bytes of the scalar it built.
///
/// Trusted: the result spells the input number reduced modulo the group
/// order, so it is below the group order.
#[verifier::external_body]
fn reduce_mod_order(bytes: &[u8; 32]) -> (reduced: [u8; 32])
    ensures
        is_canonical_scalar(reduced@),
        le_value(reduced@) == le_value(bytes@) % group_order(),
{
    curve25519_dalek::Scalar::from_bytes_mod_order(*bytes).to_bytes()
}

} // verus!
