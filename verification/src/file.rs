//! The byte buffer of a regular file, with its mode bits.

use vstd::prelude::*;
use vstd::std_specs::cmp::PartialEqSpecImpl;
use crate::io::FileModes;
use crate::{FileSystemError, Modes};

verus! {

/// The bytes that a buffer holds once `data` has been written at `offset`:
/// the written region holds `data`, what lay outside it stays, and a gap
/// between the old end and `offset` holds zeros.
pub open spec fn spec_write(before: Seq<u8>, data: Seq<u8>, offset: int) -> Seq<u8> {
    let end = if before.len() >= offset + data.len() {
        before.len() as int
    } else {
        offset + data.len()
    };
    Seq::new(
        end as nat,
        |i: int|
            if offset <= i < offset + data.len() {
                data[i - offset]
            } else if i < before.len() {
                before[i]
            } else {
                0u8
            },
    )
}

/// What a destination holds once `src` has been copied to its front: `src`,
/// followed by what the destination held behind it.
pub open spec fn spec_fill(dst: Seq<u8>, src: Seq<u8>) -> Seq<u8> {
    src + dst.subrange(src.len() as int, dst.len() as int)
}

/// By how many bytes a file of `size` bytes must grow to take `len` bytes at
/// `offset`; none where the end of the written region does not fit in
/// `usize`.
pub open spec fn spec_growth(size: int, len: int, offset: int) -> Option<usize> {
    if offset + len > usize::MAX {
        None
    } else if offset + len <= size {
        Some(0usize)
    } else {
        Some((offset + len - size) as usize)
    }
}

/// By how many bytes a file of `size` bytes must grow to take `len` bytes at
/// `offset`: 0 where the written region ends inside the file, else what its
/// end lies behind the end of the file; none where that end does not fit in
/// `usize`.
pub fn growth(size: usize, len: usize, offset: usize) -> (more: Option<usize>)
    ensures
        more == spec_growth(size as int, len as int, offset as int),
{
    match offset.checked_add(len) {
        Some(end) => {
            if end > size {
                Some(end - size)
            } else {
                Some(0)
            }
        },
        None => None,
    }
}

/// A growable byte buffer whose mode bits are fixed when it is made.
#[derive(Debug)]
pub struct File {
    mode: FileModes,
    data: Vec<u8>,
}

impl File {
    /// The bytes of the file, in order.
    pub closed spec fn bytes(&self) -> Seq<u8> {
        self.data@
    }

    /// The mode bits that the file was made with.
    pub closed spec fn mode_bits(&self) -> u64 {
        self.mode.bits
    }

    /// An empty file with the given mode bits.
    pub fn new(modes: Modes) -> (r: Result<File, FileSystemError>)
        ensures
            r is Ok,
            r->Ok_0.bytes() == Seq::<u8>::empty(),
            r->Ok_0.mode_bits() == modes,
    {
        Ok(File { mode: FileModes::new(modes), data: Vec::new() })
    }

    /// The number of bytes in the file.
    pub fn get_size(&self) -> (n: usize)
        ensures
            n == self.bytes().len(),
    {
        self.data.len()
    }

    /// The mode bits of the file.
    pub fn get_mode(&self) -> (m: FileModes)
        ensures
            m.bits == self.mode_bits(),
    {
        self.mode
    }

    /// Writes the first `len` bytes of `buffer` at `offset`, growing the file
    /// where the region ends behind its end. The caller says in `reserved`
    /// whether the memory for the growth was granted.
    ///
    /// The write succeeds exactly when the end of the region fits in `usize`
    /// and the file need not grow or the growth was granted. A refused write
    /// leaves the file as it was.
    pub fn write_reserved(
        &mut self,
        buffer: &[u8],
        len: usize,
        offset: usize,
        reserved: bool,
    ) -> (r: Result<usize, FileSystemError>)
        requires
            len <= buffer@.len(),
        ensures
            final(self).mode_bits() == old(self).mode_bits(),
            r is Ok <==> offset + len <= usize::MAX && (reserved || offset + len
                <= old(self).bytes().len()),
            r is Ok ==> r == Ok::<usize, FileSystemError>(len) && final(self).bytes() == spec_write(
                old(self).bytes(),
                buffer@.subrange(0, len as int),
                offset as int,
            ),
            r is Err ==> r == Err::<usize, FileSystemError>(FileSystemError::OutOfMemory)
                && final(self).bytes() == old(self).bytes(),
    {
        let end: usize = match offset.checked_add(len) {
            Some(end) => end,
            None => { return Err(FileSystemError::OutOfMemory); },
        };
        if end > self.data.len() && !reserved {
            return Err(FileSystemError::OutOfMemory);
        }
        let ghost before = self.data@;
        let ghost mode = self.mode;
        let ghost data = buffer@.subrange(0, len as int);
        while self.data.len() < offset
            invariant
                self.mode == mode,
                before.len() <= offset ==> before.len() <= self.data@.len() <= offset,
                before.len() > offset ==> self.data@ == before,
                forall|i: int|
                    0 <= i < self.data@.len() && i < before.len() ==> self.data@[i] == before[i],
                forall|i: int| before.len() <= i < self.data@.len() ==> self.data@[i] == 0u8,
            decreases offset - self.data@.len(),
        {
            self.data.push(0u8);
        }
        let mut i: usize = 0;
        while i < len
            invariant
                self.mode == mode,
                i <= len <= buffer@.len(),
                offset + len == end,
                data == buffer@.subrange(0, len as int),
                self.data@.len() >= offset,
                self.data@.len() >= before.len(),
                self.data@.len() == (if before.len() >= offset + i {
                    before.len() as int
                } else {
                    offset + i
                }),
                forall|j: int|
                    0 <= j < self.data@.len() ==> self.data@[j] == (if offset <= j < offset + i {
                        data[j - offset]
                    } else if j < before.len() {
                        before[j]
                    } else {
                        0u8
                    }),
            decreases len - i,
        {
            let b: u8 = buffer[i];
            if offset + i < self.data.len() {
                self.data[offset + i] = b;
            } else {
                self.data.push(b);
            }
            i = i + 1;
        }
        assert(self.data@ =~= spec_write(before, data, offset as int));
        Ok(len)
    }

    /// Writes the first `len` bytes of `buffer` at `offset` and returns `len`.
    /// A gap between the old end of the file and `offset` is filled with
    /// zeros.
    ///
    /// A write that stays inside the file always succeeds. One that grows the
    /// file asks the allocator first, for as many bytes as `growth` says, and
    /// fails with `OutOfMemory`, leaving the file untouched, where the
    /// allocator refuses or the end of the region does not fit in `usize`.
    pub fn write_file(&mut self, buffer: &[u8], len: usize, offset: usize) -> (r: Result<
        usize,
        FileSystemError,
    >)
        requires
            len <= buffer@.len(),
        ensures
            final(self).mode_bits() == old(self).mode_bits(),
            offset + len <= old(self).bytes().len() ==> r is Ok,
            offset + len > usize::MAX ==> r is Err,
            r is Ok ==> r == Ok::<usize, FileSystemError>(len) && final(self).bytes() == spec_write(
                old(self).bytes(),
                buffer@.subrange(0, len as int),
                offset as int,
            ),
            r is Err ==> r == Err::<usize, FileSystemError>(FileSystemError::OutOfMemory)
                && final(self).bytes() == old(self).bytes(),
    {
        let reserved: bool = match growth(self.data.len(), len, offset) {
            Some(more) => more == 0 || self.data.try_reserve(more).is_ok(),
            None => false,
        };
        self.write_reserved(buffer, len, offset, reserved)
    }

    /// Copies the bytes `start..end` of the file to the front of `buffer` and
    /// returns their number. What `buffer` holds behind them stays.
    pub fn read_file(&self, buffer: &mut [u8], start: usize, end: usize) -> (r: Result<
        usize,
        FileSystemError,
    >)
        requires
            start <= end <= self.bytes().len(),
            end - start <= old(buffer)@.len(),
        ensures
            r == Ok::<usize, FileSystemError>((end - start) as usize),
            final(buffer)@ == spec_fill(
                old(buffer)@,
                self.bytes().subrange(start as int, end as int),
            ),
    {
        let n: usize = end - start;
        let ghost before = buffer@;
        let mut i: usize = 0;
        while i < n
            invariant
                i <= n,
                n == end - start,
                end <= self.data@.len(),
                buffer@.len() == before.len(),
                n <= before.len(),
                forall|j: int| 0 <= j < i ==> buffer@[j] == self.data@[start + j],
                forall|j: int| i <= j < before.len() ==> buffer@[j] == before[j],
            decreases n - i,
        {
            buffer[i] = self.data[start + i];
            i = i + 1;
        }
        assert(buffer@ =~= spec_fill(before, self.data@.subrange(start as int, end as int)));
        Ok(n)
    }

    /// Drops the contents; the mode bits stay.
    pub fn file_truncate(&mut self)
        ensures
            final(self).bytes() == Seq::<u8>::empty(),
            final(self).mode_bits() == old(self).mode_bits(),
    {
        self.data.clear();
    }
}

impl PartialEq for File {
    /// Two files are equal when their mode bits and their bytes are.
    fn eq(&self, other: &Self) -> (r: bool) {
        if self.mode.bits != other.mode.bits || self.data.len() != other.data.len() {
            return false;
        }
        let mut i: usize = 0;
        while i < self.data.len()
            invariant
                i <= self.data@.len(),
                self.data@.len() == other.data@.len(),
                forall|j: int| 0 <= j < i ==> self.data@[j] == other.data@[j],
            decreases self.data@.len() - i,
        {
            if self.data[i] != other.data[i] {
                return false;
            }
            i = i + 1;
        }
        assert(self.data@ =~= other.data@);
        true
    }
}

impl PartialEqSpecImpl for File {
    open spec fn obeys_eq_spec() -> bool {
        true
    }

    open spec fn eq_spec(&self, other: &Self) -> bool {
        self.mode_bits() == other.mode_bits() && self.bytes() == other.bytes()
    }
}

} // verus!
