//! The trusted boundary around the BLAKE3 engine.
//!
//! The engine's state is modelled by two spec-level observations: the
//! sequence of bytes it has absorbed so far, and whether it is in the
//! ordinary hashing mode (the regular, unkeyed hash begun at input offset
//! zero). The extensible output itself is modelled as an unbounded stream of
//! bytes determined by the absorbed message alone; `xof` names its prefixes.

use vstd::prelude::*;

verus! {

#[verifier::external_type_specification]
#[verifier::external_body]
pub struct ExHasher(blake3::Hasher);

/// The bytes the engine has absorbed so far, in order.
pub uninterp spec fn absorbed(h: blake3::Hasher) -> Seq<u8>;

/// Whether the engine computes the regular hash: unkeyed, not in
/// key-derivation mode, and begun at input offset zero. Engines made by
/// `blake3::Hasher::new` are ordinary; the keyed, derive-key and
/// hazmat-offset constructions are not.
pub uninterp spec fn ordinary(h: blake3::Hasher) -> bool;

/// Byte `i` of the extensible output stream for the message `m`.
pub uninterp spec fn xof_byte(m: Seq<u8>, i: nat) -> u8;

/// The first `n` bytes of the extensible output stream for the message `m`.
pub open spec fn xof(m: Seq<u8>, n: nat) -> Seq<u8> {
    Seq::new(n, |i: int| xof_byte(m, i as nat))
}

/// Relies on blake3::Hasher::new: a fresh engine for the regular hash
/// (unkeyed, no derive-key context, input offset zero) with nothing
/// absorbed yet.
#[verifier::external_body]
pub fn new_hasher() -> (h: blake3::Hasher)
    ensures
        ordinary(h),
        absorbed(h) == Seq::<u8>::empty(),
{
    blake3::Hasher::new()
}

/// Relies on blake3::Hasher::clone (the derived impl): an exact copy of
/// the engine's state.
#[verifier::external_body]
pub fn clone_hasher(h: &blake3::Hasher) -> (r: blake3::Hasher)
    ensures
        r == *h,
{
    h.clone()
}

/// Relies on blake3::Hasher::update: appends the given bytes to the
/// absorbed message and changes nothing else observable here. It panics
/// only for engines given a nonzero input offset through the hazmat
/// interface, which `ordinary` rules out.
#[verifier::external_body]
pub fn update_hasher(h: &mut blake3::Hasher, data: &[u8])
    requires
        ordinary(*old(h)),
    ensures
        ordinary(*final(h)),
        absorbed(*final(h)) == absorbed(*old(h)) + data@,
{
    h.update(data);
}

/// Relies on blake3::Hasher::finalize_xof and blake3::OutputReader::fill:
/// finalizing does not consume the engine, and filling a buffer from a
/// fresh output reader writes the leading bytes of the extensible output
/// stream for the absorbed message, filling the buffer completely. Both
/// panic only for hazmat-offset engines, which `ordinary` rules out.
#[verifier::external_body]
pub fn fill_xof(h: &blake3::Hasher, out: &mut Vec<u8>)
    requires
        ordinary(*h),
    ensures
        final(out)@.len() == old(out)@.len(),
        forall|i: int|
            0 <= i < old(out)@.len() ==> final(out)@[i] == xof_byte(absorbed(*h), i as nat),
{
    h.finalize_xof().fill(out.as_mut_slice());
}

} // verus!
