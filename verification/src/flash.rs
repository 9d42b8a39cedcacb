//! In-memory flash storage with erase/write semantics. Every byte is either
//! erased (it reads as the all-ones sentinel `0xFF`) or written. A write may
//! only target erased bytes; writing a written byte is refused as a fault
//! before anything is changed. An erase returns a whole range to the erased
//! state.

use vstd::prelude::*;

verus! {

/// The erased sentinel: an erased byte reads as all ones.
pub const ERASED_BYTE: u8 = 0xFF;

/// The Device's addressable storage: a byte range `[0, size)` where each
/// byte carries its value and whether it has been written since the last
/// erase covering it.
pub struct Flash {
    data: Vec<u8>,
    written: Vec<bool>,
}

/// `post` is `pre` with `[start, start + len)` returned to the erased state
/// and every other byte unchanged.
pub open spec fn flash_erased_range(pre: Flash, post: Flash, start: int, len: int) -> bool {
    &&& post.size() == pre.size()
    &&& forall|i: int| start <= i < start + len ==> !post.is_written(i)
    &&& forall|i: int| start <= i < start + len ==> post.byte_at(i) == ERASED_BYTE
    &&& forall|i: int|
        0 <= i < pre.size() && !(start <= i < start + len) ==> post.is_written(i)
            == pre.is_written(i) && post.byte_at(i) == pre.byte_at(i)
}

/// `post` is `pre` with `data` written at `[start, start + data.len())` and
/// every other byte unchanged.
pub open spec fn flash_wrote_range(pre: Flash, post: Flash, start: int, data: Seq<u8>) -> bool {
    &&& post.size() == pre.size()
    &&& forall|i: int| start <= i < start + data.len() ==> post.is_written(i)
    &&& forall|i: int| start <= i < start + data.len() ==> post.byte_at(i) == data[i - start]
    &&& forall|i: int|
        0 <= i < pre.size() && !(start <= i < start + data.len()) ==> post.is_written(i)
            == pre.is_written(i) && post.byte_at(i) == pre.byte_at(i)
}

impl Flash {
    /// Number of addressable bytes.
    pub closed spec fn size(self) -> nat {
        self.data@.len()
    }

    /// The value the byte at address `i` reads as.
    pub closed spec fn byte_at(self, i: int) -> u8 {
        self.data@[i]
    }

    /// Whether the byte at address `i` has been written since it was last
    /// erased.
    pub closed spec fn is_written(self, i: int) -> bool {
        self.written@[i]
    }

    /// Well-formed storage: every byte not written reads as the erased
    /// sentinel.
    pub closed spec fn wf(self) -> bool {
        &&& self.data@.len() == self.written@.len()
        &&& forall|i: int|
            0 <= i < self.data@.len() && !self.written@[i] ==> self.data@[i] == ERASED_BYTE
    }

    /// In well-formed storage an unwritten byte reads as the erased
    /// sentinel.
    pub proof fn lemma_wf_blank(self)
        requires
            self.wf(),
        ensures
            forall|i: int|
                0 <= i < self.size() && !self.is_written(i) ==> self.byte_at(i) == ERASED_BYTE,
    {
    }

    /// Fresh storage of `total_size` bytes, fully erased.
    pub fn new(total_size: usize) -> (f: Flash)
        ensures
            f.wf(),
            f.size() == total_size,
            forall|i: int| 0 <= i < total_size ==> !f.is_written(i),
            forall|i: int| 0 <= i < total_size ==> f.byte_at(i) == ERASED_BYTE,
    {
        let mut data: Vec<u8> = Vec::new();
        let mut written: Vec<bool> = Vec::new();
        let mut i: usize = 0;
        while i < total_size
            invariant
                i <= total_size,
                data@.len() == i,
                written@.len() == i,
                forall|j: int| 0 <= j < i ==> data@[j] == ERASED_BYTE,
                forall|j: int| 0 <= j < i ==> !written@[j],
            decreases total_size - i,
        {
            data.push(ERASED_BYTE);
            written.push(false);
            i = i + 1;
        }
        Flash { data, written }
    }

    /// Returns the storage to the erased state over `[start, start + len)`,
    /// leaving everything else unchanged. Fails, changing nothing, exactly
    /// when the range does not lie inside the storage.
    pub fn erase_sector(&mut self, start: usize, len: usize) -> (r: Result<(), ()>)
        requires
            old(self).wf(),
        ensures
            final(self).wf(),
            r is Ok <==> start + len <= old(self).size(),
            r is Ok ==> flash_erased_range(*old(self), *final(self), start as int, len as int),
            r is Err ==> *final(self) == *old(self),
    {
        if len > self.data.len() || start > self.data.len() - len {
            return Err(());
        }
        let mut i: usize = 0;
        while i < len
            invariant
                i <= len,
                start + len <= self.data@.len(),
                start + len <= usize::MAX,
                self.data@.len() == self.written@.len(),
                self.data@.len() == old(self).size(),
                forall|j: int|
                    0 <= j < self.data@.len() && !self.written@[j] ==> self.data@[j] == ERASED_BYTE,
                forall|j: int| start <= j < start + i ==> !self.written@[j],
                forall|j: int| start <= j < start + i ==> self.data@[j] == ERASED_BYTE,
                forall|j: int|
                    0 <= j < self.data@.len() && !(start <= j < start + i) ==> self.written@[j]
                        == old(self).is_written(j) && self.data@[j] == old(self).byte_at(j),
            decreases len - i,
        {
            self.data[start + i] = ERASED_BYTE;
            self.written[start + i] = false;
            i = i + 1;
        }
        Ok(())
    }

    /// Writes `data` at `[start, start + data.len())`, leaving everything
    /// else unchanged. Fails, changing nothing, exactly when the range does
    /// not lie inside the storage or some target byte is already written.
    pub fn write_chunk(&mut self, start: usize, data: &[u8]) -> (r: Result<(), ()>)
        requires
            old(self).wf(),
        ensures
            final(self).wf(),
            r is Ok <==> start + data@.len() <= old(self).size() && (forall|i: int|
                start <= i < start + data@.len() ==> !old(self).is_written(i)),
            r is Ok ==> flash_wrote_range(*old(self), *final(self), start as int, data@),
            r is Err ==> *final(self) == *old(self),
    {
        if data.len() > self.data.len() || start > self.data.len() - data.len() {
            return Err(());
        }
        let mut i: usize = 0;
        while i < data.len()
            invariant
                i <= data@.len(),
                start + data@.len() <= self.written@.len(),
                start + data@.len() <= usize::MAX,
                old(self).wf(),
                *self == *old(self),
                forall|j: int| start <= j < start + i ==> !self.written@[j],
            decreases data@.len() - i,
        {
            if self.written[start + i] {
                proof {
                    assert(old(self).is_written(start + i));
                }
                return Err(());
            }
            i = i + 1;
        }
        let mut k: usize = 0;
        while k < data.len()
            invariant
                k <= data@.len(),
                start + data@.len() <= self.data@.len(),
                start + data@.len() <= usize::MAX,
                self.data@.len() == self.written@.len(),
                self.data@.len() == old(self).size(),
                forall|j: int|
                    0 <= j < self.data@.len() && !self.written@[j] ==> self.data@[j] == ERASED_BYTE,
                forall|j: int| start <= j < start + k ==> self.written@[j],
                forall|j: int| start <= j < start + k ==> self.data@[j] == data@[j - start],
                forall|j: int|
                    0 <= j < self.data@.len() && !(start <= j < start + k) ==> self.written@[j]
                        == old(self).is_written(j) && self.data@[j] == old(self).byte_at(j),
            decreases data@.len() - k,
        {
            self.data[start + k] = data[k];
            self.written[start + k] = true;
            k = k + 1;
        }
        Ok(())
    }

    /// Number of addressable bytes.
    pub fn len(&self) -> (n: usize)
        ensures
            n == self.size(),
    {
        self.data.len()
    }

    /// Reads `len` bytes starting at `start`. Fails exactly when the range
    /// does not lie inside the storage.
    pub fn read(&self, start: usize, len: usize) -> (r: Result<Vec<u8>, ()>)
        ensures
            r is Ok <==> start + len <= self.size(),
            r matches Ok(bytes) ==> bytes@.len() == len && (forall|i: int|
                0 <= i < len ==> bytes@[i] == self.byte_at(start + i)),
    {
        if len > self.data.len() || start > self.data.len() - len {
            return Err(());
        }
        let mut out: Vec<u8> = Vec::new();
        let mut i: usize = 0;
        while i < len
            invariant
                i <= len,
                start + len <= self.data@.len(),
                start + len <= usize::MAX,
                out@.len() == i,
                forall|j: int| 0 <= j < i ==> out@[j] == self.byte_at(start + j),
            decreases len - i,
        {
            out.push(self.data[start + i]);
            i = i + 1;
        }
        Ok(out)
    }
}

} // verus!
