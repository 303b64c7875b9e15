//! The adapter type: a BLAKE3 engine behind a streaming-hash interface.

use vstd::prelude::*;
use crate::engine::{absorbed, clone_hasher, fill_xof, new_hasher, ordinary, update_hasher, xof};

verus! {

/// A streaming hasher that owns a BLAKE3 engine. Bytes are fed in
/// incrementally; finalizing extracts a caller-chosen number of bytes from
/// the engine's extensible output. Its view is the message absorbed so far.
pub struct Blake3 {
    hasher: blake3::Hasher,
}

impl View for Blake3 {
    type V = Seq<u8>;

    closed spec fn view(&self) -> Seq<u8> {
        absorbed(self.hasher)
    }
}

impl Blake3 {
    /// The adapter is well formed when its engine computes the regular
    /// hash: unkeyed, no derive-key context, input offset zero.
    pub closed spec fn wf(self) -> bool {
        ordinary(self.hasher)
    }

    /// The exact state of the wrapped engine.
    pub closed spec fn engine_state(self) -> blake3::Hasher {
        self.hasher
    }

    /// A fresh adapter around a newly initialized engine: nothing absorbed.
    pub fn new() -> (r: Self)
        ensures
            r.wf(),
            r@ == Seq::<u8>::empty(),
    {
        Blake3 { hasher: new_hasher() }
    }

    /// Wrap an engine already in progress; its absorbed message carries
    /// over exactly. The adapter is well formed when the engine computes
    /// the regular hash.
    pub fn from_hasher(h: blake3::Hasher) -> (r: Self)
        ensures
            r.engine_state() == h,
            r@ == absorbed(h),
            ordinary(h) ==> r.wf(),
    {
        Blake3 { hasher: h }
    }

    /// Unwrap the adapter: the engine comes back exactly as it stood, for
    /// continued use through its native interface.
    pub fn into_hasher(self) -> (h: blake3::Hasher)
        ensures
            h == self.engine_state(),
            absorbed(h) == self@,
            self.wf() ==> ordinary(h),
    {
        self.hasher
    }

    /// Read access to the wrapped engine, for native operations the
    /// adapter does not re-expose.
    pub fn engine(&self) -> (r: &blake3::Hasher)
        ensures
            *r == self.engine_state(),
    {
        &self.hasher
    }

    /// Write access to the wrapped engine; whatever the caller leaves
    /// behind the reference becomes the adapter's engine.
    pub fn engine_mut(&mut self) -> (r: &mut blake3::Hasher)
        ensures
            *r == old(self).engine_state(),
            final(self).engine_state() == *final(r),
    {
        &mut self.hasher
    }

    /// Feed bytes into the engine. Any chunking of a message leaves the
    /// adapter in the same state as feeding the message whole, because the
    /// absorbed message is extended by exactly the bytes given.
    pub fn update(&mut self, data: &[u8])
        requires
            old(self).wf(),
        ensures
            final(self).wf(),
            final(self)@ == old(self)@ + data@,
    {
        update_hasher(&mut self.hasher, data);
    }

    /// The byte-sink form of `update`: every byte supplied is consumed,
    /// and the number of bytes consumed is returned. It cannot fail.
    pub fn write(&mut self, buf: &[u8]) -> (n: usize)
        requires
            old(self).wf(),
        ensures
            final(self).wf(),
            final(self)@ == old(self)@ + buf@,
            n == buf@.len(),
    {
        self.update(buf);
        buf.len()
    }

    /// Nothing is buffered, so there is nothing to flush; the adapter is
    /// left exactly as it was. It cannot fail.
    pub fn flush(&mut self)
        ensures
            *final(self) == *old(self),
    {
    }

    /// Consume the adapter and fill the whole buffer with the leading
    /// bytes of the extensible output for the absorbed message. The buffer
    /// chooses the output length, which must be positive.
    pub fn finalize_into(self, out: &mut Vec<u8>)
        requires
            self.wf(),
            old(out)@.len() >= 1,
        ensures
            final(out)@ == xof(self@, old(out)@.len() as nat),
    {
        fill_xof(&self.hasher, out);
        proof {
            assert(out@ =~= xof(absorbed(self.hasher), out@.len() as nat));
        }
    }
}

impl Clone for Blake3 {
    /// An exact copy: same engine state, same absorbed message.
    fn clone(&self) -> (r: Self)
        ensures
            r == *self,
    {
        Blake3 { hasher: clone_hasher(&self.hasher) }
    }
}

impl Default for Blake3 {
    /// Same as `new`: a fresh adapter with nothing absorbed.
    fn default() -> (r: Self)
        ensures
            r.wf(),
            r@ == Seq::<u8>::empty(),
    {
        Blake3::new()
    }
}

} // verus!
