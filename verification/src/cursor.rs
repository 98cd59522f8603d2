use vstd::prelude::*;
use vstd::string::StringSliceAdditionalSpecFns;

verus! {

/// The bytes of `buf` after writing `data` at position `off`: the bytes before
/// `off` and after `off + data.len()` are those of `buf`.
pub open spec fn spec_write_at(buf: Seq<u8>, off: int, data: Seq<u8>) -> Seq<u8> {
    buf.subrange(0, off) + data + buf.subrange(off + data.len(), buf.len() as int)
}

/// The `len` bytes of `buf` that start at `off`.
pub open spec fn spec_read_at(buf: Seq<u8>, off: int, len: int) -> Seq<u8> {
    buf.subrange(off, off + len)
}

/// Reading back the bytes just written at an offset gives them.
pub proof fn lemma_read_back(buf: Seq<u8>, off: int, data: Seq<u8>)
    requires
        0 <= off,
        off + data.len() <= buf.len(),
    ensures
        spec_read_at(spec_write_at(buf, off, data), off, data.len() as int) == data,
        spec_write_at(buf, off, data).len() == buf.len(),
        forall|i: int|
            0 <= i < buf.len() && !(off <= i < off + data.len()) ==> #[trigger] spec_write_at(
                buf,
                off,
                data,
            )[i] == buf[i],
{
    assert(spec_read_at(spec_write_at(buf, off, data), off, data.len() as int) =~= data);
    assert forall|i: int|
        0 <= i < buf.len() && !(off <= i < off + data.len()) implies #[trigger] spec_write_at(
            buf,
            off,
            data,
        )[i] == buf[i] by {
        if i < off {
        } else {
        }
    }
}

/// After a write at the offset, the bytes before the new offset are those before the old
/// offset followed by the written bytes.
pub proof fn lemma_written_grows(buf: Seq<u8>, off: int, data: Seq<u8>)
    requires
        0 <= off,
        off + data.len() <= buf.len(),
    ensures
        spec_write_at(buf, off, data).subrange(0, off + data.len()) == buf.subrange(0, off) + data,
{
    assert(spec_write_at(buf, off, data).subrange(0, off + data.len()) =~= buf.subrange(0, off)
        + data);
}

/// The bytes of several writes, one after the other.
pub open spec fn spec_concat(ds: Seq<Seq<u8>>) -> Seq<u8>
    decreases ds.len(),
{
    if ds.len() == 0 {
        Seq::empty()
    } else {
        spec_concat(ds.drop_last()) + ds.last()
    }
}

/// The buffer after writing each of `ds` in turn from offset `off`, each one where the ones
/// before it ended.
pub open spec fn spec_write_all(buf: Seq<u8>, off: int, ds: Seq<Seq<u8>>) -> Seq<u8>
    decreases ds.len(),
{
    if ds.len() == 0 {
        buf
    } else {
        spec_write_at(
            spec_write_all(buf, off, ds.drop_last()),
            off + spec_concat(ds.drop_last()).len(),
            ds.last(),
        )
    }
}

/// After any number of successful writes from offset `off`, the bytes before the offset reached
/// are those before `off` followed by all the written bytes in order; refused writes change
/// neither the buffer nor the offset, so they add nothing. From a new cursor (offset 0) the
/// written bytes are the concatenation of the successful writes.
pub proof fn lemma_written_concat(buf: Seq<u8>, off: int, ds: Seq<Seq<u8>>)
    requires
        0 <= off,
        off + spec_concat(ds).len() <= buf.len(),
    ensures
        spec_write_all(buf, off, ds).len() == buf.len(),
        spec_write_all(buf, off, ds).subrange(0, off + spec_concat(ds).len()) == buf.subrange(0, off)
            + spec_concat(ds),
    decreases ds.len(),
{
    if ds.len() > 0 {
        let prev = ds.drop_last();
        lemma_written_concat(buf, off, prev);
        let before = spec_write_all(buf, off, prev);
        let p = off + spec_concat(prev).len();
        lemma_written_grows(before, p, ds.last());
        lemma_read_back(before, p, ds.last());
        assert(before.subrange(0, p) + ds.last() =~= buf.subrange(0, off) + spec_concat(ds));
    }
}

/// The cursor that is used to read and write to and from a byte buffer, coordinated by an offset.
pub struct Cursor {
    buf: Vec<u8>,
    /// The value that the cursor location is offset by.
    pub offset: usize,
}

/// The error that is returned if the cursor attempts an invalid operation.
#[derive(Debug, PartialEq, Eq, Structural)]
pub enum CursorError {
    /// There is not enough bytes in the cursor or buffer that is being read from
    /// compared to the size of the buffer or cursor that is being read to.
    OversizeError(usize),
}

impl Cursor {
    /// The bytes of the underlying buffer.
    pub closed spec fn buf(&self) -> Seq<u8> {
        self.buf@
    }

    /// The cursor's offset.
    pub closed spec fn pos(&self) -> usize {
        self.offset
    }

    /// The cursor's offset lies within its buffer.
    pub closed spec fn wf(&self) -> bool {
        self.offset <= self.buf().len()
    }

    /// The number of bytes between the offset and the end of the buffer.
    pub closed spec fn remaining(&self) -> int {
        self.buf().len() - self.offset
    }

    /// What `wf` and `remaining` are, in terms of the buffer and the offset.
    pub proof fn lemma_wf_remaining(&self)
        ensures
            0 <= self.pos(),
            self.wf() <==> self.pos() <= self.buf().len(),
            self.remaining() == self.buf().len() - self.pos(),
    {
    }

    /// Creates new Cursor over `buf` with offset 0.
    pub fn new(buf: Vec<u8>) -> (c: Self)
        ensures
            c.buf() == buf@,
            c.pos() == 0,
            c.wf(),
    {
        Cursor { buf, offset: 0 }
    }

    /// Gives the underlying buffer back.
    pub fn into_inner(self) -> (buf: Vec<u8>)
        ensures
            buf@ == self.buf(),
    {
        self.buf
    }

    /// The cursor's offset.
    pub fn get_offset(&self) -> (o: usize)
        ensures
            o == self.pos(),
    {
        self.offset
    }

    /// Moves the cursor to `offset`; the buffer is kept. The cursor stays well formed exactly when
    /// the offset lies within the buffer.
    pub fn set_offset(&mut self, offset: usize)
        ensures
            final(self).pos() == offset,
            final(self).buf() == old(self).buf(),
            final(self).wf() <==> offset <= old(self).buf().len(),
    {
        self.offset = offset;
    }

    /// Read bytes from this cursor into a buffer.
    /// If there is not enough bytes in the cursor to do so,
    /// return an error with how many bytes are left in the cursor.
    pub fn read_into(&mut self, other: &mut [u8]) -> (r: Result<(), CursorError>)
        requires
            old(self).wf(),
        ensures
            final(self).wf(),
            final(self).buf() == old(self).buf(),
            old(self).remaining() < old(other)@.len() ==> {
                &&& r == Err::<(), CursorError>(CursorError::OversizeError(old(self).remaining() as usize))
                &&& final(self).pos() == old(self).pos()
                &&& final(other)@ == old(other)@
            },
            old(self).remaining() >= old(other)@.len() ==> {
                &&& r is Ok
                &&& final(other)@ == spec_read_at(old(self).buf(), old(self).pos() as int, old(other)@.len() as int)
                &&& final(self).pos() == old(self).pos() + old(other)@.len()
            },
    {
        let remaining = self.buf.len() - self.offset;
        let n = other.len();
        if remaining < n {
            return Err(CursorError::OversizeError(remaining));
        }
        let ghost start = self.offset as int;
        let mut i: usize = 0;
        while i < n
            invariant
                self.wf(),
                self.offset == start,
                self.buf.len() - self.offset >= n,
                n == other@.len(),
                i <= n,
                forall|k: int| 0 <= k < i ==> other@[k] == self.buf@[start + k],
            decreases n - i,
        {
            other[i] = self.buf[self.offset + i];
            i = i + 1;
        }
        self.offset = self.offset + n;
        proof {
            assert(other@ =~= spec_read_at(self.buf@, start, n as int));
        }
        Ok(())
    }

    /// Read bytes from a buffer into this cursor.
    /// If there is not enough bytes in the cursor to do so,
    /// return an error with how many bytes are left in the cursor.
    pub fn read_from(&mut self, other: &[u8]) -> (r: Result<(), CursorError>)
        requires
            old(self).wf(),
        ensures
            final(self).wf(),
            old(self).remaining() < other@.len() ==> {
                &&& r == Err::<(), CursorError>(CursorError::OversizeError(old(self).remaining() as usize))
                &&& final(self).pos() == old(self).pos()
                &&& final(self).buf() == old(self).buf()
            },
            old(self).remaining() >= other@.len() ==> {
                &&& r is Ok
                &&& final(self).buf() == spec_write_at(old(self).buf(), old(self).pos() as int, other@)
                &&& final(self).pos() == old(self).pos() + other@.len()
            },
    {
        let remaining = self.buf.len() - self.offset;
        let n = other.len();
        if remaining < n {
            return Err(CursorError::OversizeError(remaining));
        }
        let ghost start = self.offset as int;
        let ghost old_buf = self.buf@;
        let mut i: usize = 0;
        while i < n
            invariant
                self.offset == start,
                self.buf.len() == old_buf.len(),
                0 <= start,
                self.buf@.len() == old_buf.len(),
                old_buf.len() - start >= n,
                n == other@.len(),
                i <= n,
                forall|k: int| 0 <= k < start ==> self.buf@[k] == old_buf[k],
                forall|k: int| start + n <= k < old_buf.len() ==> self.buf@[k] == old_buf[k],
                forall|k: int| 0 <= k < i ==> self.buf@[start + k] == other@[k],
            decreases n - i,
        {
            let pos = self.offset + i;
            self.buf.set(pos, other[i]);
            i = i + 1;
        }
        self.offset = self.offset + n;
        proof {
            assert(self.buf@ =~= spec_write_at(old_buf, start, other@));
        }
        Ok(())
    }

    /// Writes the bytes of `s` into this cursor, as `read_from` does with them.
    pub fn write_str(&mut self, s: &str) -> (r: Result<(), CursorError>)
        requires
            old(self).wf(),
        ensures
            final(self).wf(),
            old(self).remaining() < s.spec_bytes().len() ==> {
                &&& r is Err
                &&& final(self).pos() == old(self).pos()
                &&& final(self).buf() == old(self).buf()
            },
            old(self).remaining() >= s.spec_bytes().len() ==> {
                &&& r is Ok
                &&& final(self).buf() == spec_write_at(old(self).buf(), old(self).pos() as int, s.spec_bytes())
                &&& final(self).pos() == old(self).pos() + s.spec_bytes().len()
            },
    {
        self.read_from(s.as_bytes())
    }

    /// Retrieves the values that were written into the cursor: the bytes before the offset.
    pub fn written(&self) -> (w: &[u8])
        requires
            self.wf(),
        ensures
            w@ == self.buf().subrange(0, self.pos() as int),
    {
        let s = self.buf.as_slice();
        &s[0..self.offset]
    }
}

} // verus!
