//! Laws of the adapter, stated over the spec-level model: the absorbed
//! message of an engine and the extensible output stream `xof`.

use vstd::prelude::*;
use vstd::seq_lib::*;
use crate::adapter::Blake3;
use crate::engine::{absorbed, xof};

verus! {

/// Determinism: the output is a function of the absorbed message and the
/// requested length alone, so hashing the same message twice and extracting
/// the same number of bytes yields identical output both times.
pub proof fn lemma_deterministic(m1: Seq<u8>, m2: Seq<u8>, n: nat)
    requires
        m1 == m2,
    ensures
        xof(m1, n) == xof(m2, n),
{
}

/// Chunk invariance: feeding `m1` and then `m2` extends the absorbed
/// message by `m1 + m2`, exactly as feeding the concatenation in one call
/// does, whatever was absorbed before. With `update`'s postcondition this
/// makes the finalize result independent of how a message is chunked.
pub proof fn lemma_chunk_invariance(s0: Seq<u8>, m1: Seq<u8>, m2: Seq<u8>)
    ensures
        (s0 + m1) + m2 == s0 + (m1 + m2),
{
    assert((s0 + m1) + m2 =~= s0 + (m1 + m2));
}

/// Output-length prefix property: for one message, a shorter output is
/// exactly the leading bytes of a longer one.
pub proof fn lemma_output_prefix(m: Seq<u8>, n1: nat, n2: nat)
    requires
        n1 <= n2,
    ensures
        xof(m, n1) == xof(m, n2).take(n1 as int),
{
    assert(xof(m, n1) =~= xof(m, n2).take(n1 as int));
}

/// Round trip: wrapping an engine and unwrapping the adapter again gives
/// back the very engine that went in, so every future output it can
/// produce is identical to what the original engine would have produced.
pub proof fn lemma_wrap_unwrap(h: blake3::Hasher, a: Blake3, h2: blake3::Hasher)
    requires
        a.engine_state() == h,
        h2 == a.engine_state(),
    ensures
        h2 == h,
        forall|n: nat| xof(absorbed(h2), n) == xof(absorbed(h), n),
{
}

/// The absorbed message after writing each part of `parts`, in order, on
/// top of an already absorbed `s0`; one step per `write` call, following
/// `write`'s postcondition.
pub open spec fn absorbed_after(s0: Seq<u8>, parts: Seq<Seq<u8>>) -> Seq<u8>
    decreases parts.len(),
{
    if parts.len() == 0 {
        s0
    } else {
        absorbed_after(s0 + parts.first(), parts.drop_first())
    }
}

/// Byte-sink conformance: writing a sequence of slices through the sink
/// interface absorbs exactly their concatenation, so finalizing afterwards
/// equals one `update` with the concatenation followed by finalizing.
pub proof fn lemma_sink_conformance(s0: Seq<u8>, parts: Seq<Seq<u8>>)
    ensures
        absorbed_after(s0, parts) == s0 + parts.flatten(),
    decreases parts.len(),
{
    if parts.len() == 0 {
        assert(s0 + parts.flatten() =~= s0);
    } else {
        lemma_sink_conformance(s0 + parts.first(), parts.drop_first());
        assert(s0 + (parts.first() + parts.drop_first().flatten()) =~= (s0 + parts.first())
            + parts.drop_first().flatten());
    }
}

} // verus!
