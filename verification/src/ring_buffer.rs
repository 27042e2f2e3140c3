//! A fixed-capacity append buffer used to stage one frame at a time.
//!
//! The caller supplies the backing storage once, at construction; the buffer
//! never resizes it. Bytes are appended at the logical end until the capacity
//! is reached, and `clear` resets the logical length to zero so the same
//! storage can hold the next frame.

use vstd::prelude::*;

verus! {

/// The one failure an append can meet: the buffer is full.
#[derive(Copy, Clone, PartialEq, Eq, Structural, Debug)]
pub enum Error {
    Exhausted,
}

/// A bounded append buffer over caller-supplied storage.
pub struct RingBuffer {
    storage: Vec<u8>,
    length: usize,
}

impl View for RingBuffer {
    type V = Seq<u8>;

    /// The bytes written so far, in append order.
    closed spec fn view(&self) -> Seq<u8> {
        self.storage@.subrange(0, self.length as int)
    }
}

impl RingBuffer {
    /// The buffer is well formed: the logical length never exceeds the
    /// capacity of the backing storage.
    pub closed spec fn wf(&self) -> bool {
        self.length <= self.storage@.len()
    }

    /// The fixed capacity: the size of the backing storage.
    pub closed spec fn spec_capacity(&self) -> nat {
        self.storage@.len()
    }

    /// The buffer after a `clear`: same storage, logical length zero.
    pub closed spec fn spec_cleared(self) -> RingBuffer {
        RingBuffer { storage: self.storage, length: 0 }
    }

    /// Wraps the given backing storage as an empty buffer. The storage's
    /// size becomes the fixed capacity.
    pub fn new(storage: Vec<u8>) -> (r: RingBuffer)
        ensures
            r.wf(),
            r@ == Seq::<u8>::empty(),
            r.spec_capacity() == storage@.len(),
    {
        let r = RingBuffer { storage, length: 0 };
        proof {
            assert(r@ =~= Seq::<u8>::empty());
        }
        r
    }

    /// Resets the logical length to zero. The capacity and the backing
    /// storage are untouched, so clearing twice is the same as clearing once.
    pub fn clear(&mut self)
        ensures
            *final(self) == old(self).spec_cleared(),
            final(self).wf(),
            final(self)@ == Seq::<u8>::empty(),
            final(self).spec_capacity() == old(self).spec_capacity(),
    {
        self.length = 0;
        proof {
            assert(self@ =~= Seq::<u8>::empty());
        }
    }

    /// The fixed capacity.
    pub fn capacity(&self) -> (r: usize)
        ensures
            r == self.spec_capacity(),
    {
        self.storage.len()
    }

    /// The number of bytes written so far.
    pub fn len(&self) -> (r: usize)
        requires
            self.wf(),
        ensures
            r == self@.len(),
    {
        self.length
    }

    /// How many more bytes fit before the buffer is full.
    pub fn window(&self) -> (r: usize)
        requires
            self.wf(),
        ensures
            r == self.spec_capacity() - self@.len(),
    {
        self.storage.len() - self.length
    }

    /// How many more bytes fit in one contiguous run. The buffer appends
    /// linearly from the front of its storage, so the whole window is
    /// always contiguous.
    pub fn contiguous_window(&self) -> (r: usize)
        requires
            self.wf(),
        ensures
            r == self.spec_capacity() - self@.len(),
    {
        self.storage.len() - self.length
    }

    /// Whether nothing has been written since the last clear.
    pub fn is_empty(&self) -> (r: bool)
        requires
            self.wf(),
        ensures
            r == (self@.len() == 0),
    {
        self.length == 0
    }

    /// Whether the buffer holds as many bytes as its capacity.
    pub fn is_full(&self) -> (r: bool)
        requires
            self.wf(),
        ensures
            r == (self@.len() == self.spec_capacity()),
    {
        self.storage.len() - self.length == 0
    }

    /// Appends one byte at the logical end. Fails with `Exhausted`, leaving
    /// the buffer entirely unchanged, exactly when the buffer is full.
    pub fn push_single(&mut self, value: u8) -> (r: Result<(), Error>)
        requires
            old(self).wf(),
        ensures
            final(self).wf(),
            final(self).spec_capacity() == old(self).spec_capacity(),
            old(self)@.len() == old(self).spec_capacity() ==> r == Result::<(), Error>::Err(
                Error::Exhausted,
            ) && *final(self) == *old(self),
            old(self)@.len() < old(self).spec_capacity() ==> r == Result::<(), Error>::Ok(())
                && final(self)@ == old(self)@.push(value),
    {
        if self.storage.len() - self.length == 0 {
            return Err(Error::Exhausted);
        }
        self.storage.set(self.length, value);
        self.length = self.length + 1;
        proof {
            assert(self@ =~= old(self)@.push(value));
        }
        Ok(())
    }

    /// A copy of the bytes written so far, in append order.
    pub fn get_written(&self) -> (r: Vec<u8>)
        requires
            self.wf(),
        ensures
            r@ == self@,
    {
        let mut out: Vec<u8> = Vec::new();
        let mut i: usize = 0;
        while i < self.length
            invariant
                self.wf(),
                i <= self.length,
                out@ == self@.subrange(0, i as int),
            decreases self.length - i,
        {
            out.push(self.storage[i]);
            proof {
                assert(out@ =~= self@.subrange(0, i as int + 1));
            }
            i = i + 1;
        }
        proof {
            assert(self@.subrange(0, self.length as int) =~= self@);
        }
        out
    }
}

/// Clearing is idempotent: a second `clear` right after a first leaves the
/// buffer exactly as the first did.
pub proof fn lemma_clear_idempotent(buffer: RingBuffer)
    ensures
        buffer.spec_cleared().spec_cleared() == buffer.spec_cleared(),
{
}

} // verus!
