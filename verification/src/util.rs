//! Small helpers shared by the operation library: completion-result
//! translation, the lock flag that keeps a value alive across a kernel
//! round trip, and the cursor buffer used by the buffered I/O machines.

use vstd::prelude::*;

use crate::error::Error;

verus! {

/// Translates a raw completion result into the runtime's error type.
///
/// A nonnegative result is the success payload (a byte count, a new
/// descriptor); a negative result is the negated OS error code.
pub fn ioret(ret: i32) -> (r: Result<i32, Error>)
    requires
        ret > i32::MIN,
    ensures
        ret >= 0 ==> r == Ok::<i32, Error>(ret),
        ret < 0 ==> r == Err::<i32, Error>(Error::Os { code: -ret as i32 }),
{
    if ret >= 0 {
        Ok(ret)
    } else {
        Err(Error::Os { code: -ret })
    }
}

/// A value paired with a flag that records whether the kernel currently
/// references it.  While locked, the holder must keep the value alive and
/// must not hand it out.
pub struct MaybeLock<T> {
    /// Whether an in-flight kernel operation references the value.
    pub lock: bool,
    /// The held value.
    pub inner: T,
}

impl<T> MaybeLock<T> {
    /// The lock flag.
    pub open spec fn spec_is_locked(&self) -> bool {
        self.lock
    }

    /// The held value.
    pub open spec fn spec_inner(&self) -> &T {
        &self.inner
    }

    /// Wraps a value, initially unlocked.
    pub fn new(inner: T) -> (r: MaybeLock<T>)
        ensures
            !r.spec_is_locked(),
            r.spec_inner() == inner,
    {
        MaybeLock { lock: false, inner }
    }

    /// Whether the kernel currently references the value.
    pub fn is_locked(&self) -> (r: bool)
        ensures
            r == self.spec_is_locked(),
    {
        self.lock
    }

    /// Marks the value as referenced by an in-flight operation.
    pub fn start(&mut self)
        ensures
            final(self).spec_is_locked(),
            final(self).spec_inner() == old(self).spec_inner(),
    {
        self.lock = true;
    }

    /// Clears the mark once the operation's completion has been observed.
    pub fn end(&mut self)
        ensures
            !final(self).spec_is_locked(),
            final(self).spec_inner() == old(self).spec_inner(),
    {
        self.lock = false;
    }

    /// Reads the held value.
    pub fn inner(&self) -> (r: &T)
        ensures
            r == self.spec_inner(),
    {
        &self.inner
    }

    /// Borrows the held value for mutation.
    pub fn inner_mut(&mut self) -> (r: &mut T)
        ensures
            *r == *old(self).spec_inner(),
            *final(self).spec_inner() == *final(r),
            final(self).spec_is_locked() == old(self).spec_is_locked(),
    {
        &mut self.inner
    }

    /// Takes the value back out.  Only an unlocked value may be taken:
    /// a locked one is still referenced by the kernel.
    pub fn into_inner(self) -> (r: T)
        requires
            !self.spec_is_locked(),
        ensures
            r == *self.spec_inner(),
    {
        self.inner
    }
}

/// A byte buffer with a write cursor and a read cursor over fixed storage.
///
/// Bytes between the read cursor and the write cursor are readable; bytes
/// from the write cursor to the end of the storage are writable.
pub struct Buffer {
    /// The backing storage.
    pub buf: Vec<u8>,
    /// The write cursor: bytes below it have been written.
    pub wlen: usize,
    /// The read cursor: bytes below it have been consumed.
    pub rlen: usize,
}

impl Buffer {
    /// The cursors never pass each other or the end of the storage.
    pub open spec fn wf(&self) -> bool {
        self.rlen <= self.wlen <= self.buf.len()
    }

    /// Total storage capacity.
    pub open spec fn spec_capacity(&self) -> nat {
        self.buf@.len()
    }

    /// The readable bytes: written but not yet consumed.
    pub open spec fn readable(&self) -> Seq<u8> {
        self.buf@.subrange(self.rlen as int, self.wlen as int)
    }

    /// Position of the write cursor.
    pub open spec fn spec_written(&self) -> nat {
        self.wlen as nat
    }

    /// Position of the read cursor.
    pub open spec fn spec_consumed(&self) -> nat {
        self.rlen as nat
    }

    /// The whole backing storage.
    pub open spec fn storage(&self) -> Seq<u8> {
        self.buf@
    }

    /// Allocates a buffer with `n` bytes of storage and both cursors at
    /// the start.
    pub fn new(n: usize) -> (r: Buffer)
        ensures
            r.wf(),
            r.spec_capacity() == n,
            r.spec_written() == 0,
            r.spec_consumed() == 0,
    {
        let mut buf: Vec<u8> = Vec::new();
        buf.resize(n, 0u8);
        Buffer { buf, wlen: 0, rlen: 0 }
    }

    /// Rewinds both cursors, making the whole storage writable again.
    pub fn clear(&mut self)
        ensures
            final(self).wf(),
            final(self).spec_capacity() == old(self).spec_capacity(),
            final(self).spec_written() == 0,
            final(self).spec_consumed() == 0,
    {
        self.wlen = 0;
        self.rlen = 0;
    }

    /// Number of readable bytes.
    pub fn remaining(&self) -> (r: usize)
        requires
            self.wf(),
        ensures
            r == self.readable().len(),
    {
        self.wlen - self.rlen
    }

    /// Whether any bytes are readable.
    pub fn has_remaining(&self) -> (r: bool)
        requires
            self.wf(),
        ensures
            r == (self.readable().len() > 0),
    {
        self.wlen > self.rlen
    }

    /// Number of writable bytes.
    pub fn remaining_mut(&self) -> (r: usize)
        requires
            self.wf(),
        ensures
            r == self.spec_capacity() - self.spec_written(),
    {
        self.buf.len() - self.wlen
    }

    /// Whether any bytes are writable.
    pub fn has_remaining_mut(&self) -> (r: bool)
        requires
            self.wf(),
        ensures
            r == (self.spec_capacity() > self.spec_written()),
    {
        self.buf.len() > self.wlen
    }

    /// Consumes `n` readable bytes.
    pub fn advance(&mut self, n: usize)
        requires
            old(self).wf(),
            old(self).spec_consumed() + n <= old(self).spec_written(),
        ensures
            final(self).wf(),
            final(self).storage() == old(self).storage(),
            final(self).spec_written() == old(self).spec_written(),
            final(self).spec_consumed() == old(self).spec_consumed() + n,
            final(self).readable() == old(self).readable().skip(n as int),
    {
        self.rlen = self.rlen + n;
        assert(self.readable() =~= old(self).readable().skip(n as int));
    }

    /// Marks `n` writable bytes as written, extending the readable region
    /// with whatever the kernel placed in the storage.
    pub fn advance_mut(&mut self, n: usize)
        requires
            old(self).wf(),
            old(self).spec_written() + n <= old(self).spec_capacity(),
        ensures
            final(self).wf(),
            final(self).storage() == old(self).storage(),
            final(self).spec_written() == old(self).spec_written() + n,
            final(self).spec_consumed() == old(self).spec_consumed(),
            final(self).readable() == old(self).storage().subrange(
                old(self).spec_consumed() as int,
                old(self).spec_written() + n,
            ),
    {
        self.wlen = self.wlen + n;
    }

    /// Reads the byte at offset `i` of the readable region.
    pub fn read_byte(&self, i: usize) -> (r: u8)
        requires
            self.wf(),
            i < self.readable().len(),
        ensures
            r == self.readable()[i as int],
    {
        self.buf[self.rlen + i]
    }

    /// Overwrites the byte at offset `i` of the storage.  The embedding
    /// uses this to place kernel-read bytes before `advance_mut`.
    pub fn set_byte(&mut self, i: usize, b: u8)
        requires
            old(self).wf(),
            i < old(self).spec_capacity(),
        ensures
            final(self).wf(),
            final(self).storage() == old(self).storage().update(i as int, b),
            final(self).spec_written() == old(self).spec_written(),
            final(self).spec_consumed() == old(self).spec_consumed(),
    {
        self.buf.set(i, b);
    }

    /// Appends the first `n` bytes of `src` to the written region.
    pub fn put_prefix(&mut self, src: &[u8], n: usize)
        requires
            old(self).wf(),
            n <= src@.len(),
            old(self).spec_written() + n <= old(self).spec_capacity(),
        ensures
            final(self).wf(),
            final(self).spec_capacity() == old(self).spec_capacity(),
            final(self).spec_written() == old(self).spec_written() + n,
            final(self).spec_consumed() == old(self).spec_consumed(),
            final(self).readable() == old(self).readable() + src@.subrange(0, n as int),
    {
        let ghost orig = *self;
        let mut i: usize = 0;
        while i < n
            invariant
                self.wf(),
                i <= n,
                n <= src@.len(),
                self.spec_capacity() == orig.spec_capacity(),
                self.spec_consumed() == orig.spec_consumed(),
                self.spec_written() == orig.spec_written() + i,
                orig.spec_written() + n <= orig.spec_capacity(),
                self.readable() == orig.readable() + src@.subrange(0, i as int),
            decreases n - i,
        {
            let b = src[i];
            let w = self.wlen;
            let ghost prev = *self;
            self.buf.set(w, b);
            self.wlen = w + 1;
            i = i + 1;
            proof {
                assert(self.buf@ == prev.buf@.update(w as int, b));
                assert(prev.readable() == orig.readable() + src@.subrange(0, i - 1));
                assert(self.readable().len() == prev.readable().len() + 1);
                assert forall|k: int| 0 <= k < prev.readable().len() implies self.readable()[k]
                    == prev.readable()[k] by {
                    assert(self.readable()[k] == self.buf@[self.rlen + k]);
                    assert(prev.readable()[k] == prev.buf@[prev.rlen + k]);
                }
                assert(self.readable()[self.readable().len() - 1] == b);
                let ghost rhs = orig.readable() + src@.subrange(0, i as int);
                assert forall|k: int| 0 <= k < rhs.len() implies self.readable()[k] == rhs[k] by {
                    if k < orig.readable().len() {
                        assert(rhs[k] == orig.readable()[k]);
                        assert(prev.readable()[k] == orig.readable()[k]);
                    } else if k < rhs.len() - 1 {
                        assert(rhs[k] == src@[k - orig.readable().len()]);
                        assert(prev.readable()[k]
                            == src@.subrange(0, i - 1)[k - orig.readable().len()]);
                    } else {
                        assert(rhs[k] == src@[i - 1]);
                    }
                }
                assert(self.readable() =~= rhs);
            }
        }
    }

    /// Appends the bytes of `src` to the written region.
    pub fn put_slice(&mut self, src: &[u8])
        requires
            old(self).wf(),
            old(self).spec_written() + src@.len() <= old(self).spec_capacity(),
        ensures
            final(self).wf(),
            final(self).spec_capacity() == old(self).spec_capacity(),
            final(self).spec_written() == old(self).spec_written() + src@.len(),
            final(self).spec_consumed() == old(self).spec_consumed(),
            final(self).readable() == old(self).readable() + src@,
    {
        let ghost orig = *self;
        let mut i: usize = 0;
        while i < src.len()
            invariant
                self.wf(),
                i <= src@.len(),
                self.spec_capacity() == orig.spec_capacity(),
                self.spec_consumed() == orig.spec_consumed(),
                self.spec_written() == orig.spec_written() + i,
                orig.spec_written() + src@.len() <= orig.spec_capacity(),
                self.readable() == orig.readable() + src@.subrange(0, i as int),
            decreases src@.len() - i,
        {
            let b = src[i];
            let w = self.wlen;
            let ghost prev = *self;
            self.buf.set(w, b);
            self.wlen = w + 1;
            i = i + 1;
            proof {
                assert(self.buf@ == prev.buf@.update(w as int, b));
                assert(prev.readable() == orig.readable() + src@.subrange(0, i - 1));
                assert(self.readable().len() == prev.readable().len() + 1);
                assert forall|k: int| 0 <= k < prev.readable().len() implies self.readable()[k]
                    == prev.readable()[k] by {
                    assert(self.readable()[k] == self.buf@[self.rlen + k]);
                    assert(prev.readable()[k] == prev.buf@[prev.rlen + k]);
                }
                assert(self.readable()[self.readable().len() - 1] == b);
                let ghost rhs = orig.readable() + src@.subrange(0, i as int);
                assert forall|k: int| 0 <= k < rhs.len() implies self.readable()[k] == rhs[k] by {
                    if k < orig.readable().len() {
                        assert(rhs[k] == orig.readable()[k]);
                        assert(prev.readable()[k] == orig.readable()[k]);
                    } else if k < rhs.len() - 1 {
                        assert(rhs[k] == src@[k - orig.readable().len()]);
                        assert(prev.readable()[k]
                            == src@.subrange(0, i - 1)[k - orig.readable().len()]);
                    } else {
                        assert(rhs[k] == src@[i - 1]);
                    }
                }
                assert(self.readable() =~= rhs);
            }
        }
        assert(src@.subrange(0, src@.len() as int) =~= src@);
    }
}

} // verus!
