//! Mode bits, open flags and the metadata record of a file.

use vstd::prelude::*;
use vstd::std_specs::convert::FromSpecImpl;

verus! {

/// User read bit of a mode.
pub const S_IRUSR: u64 = 0o400;

/// User write bit of a mode.
pub const S_IWUSR: u64 = 0o200;

/// User execute bit of a mode.
pub const S_IXUSR: u64 = 0o100;

/// User read, write and execute together.
pub const S_IRWXU: u64 = 0o700;

/// Whether the user-read bit is set in `bits`.
pub open spec fn spec_readable(bits: u64) -> bool {
    bits & S_IRUSR == S_IRUSR
}

/// Whether the user-write bit is set in `bits`.
pub open spec fn spec_writable(bits: u64) -> bool {
    bits & S_IWUSR == S_IWUSR
}

/// The mode bits of a file. Only the user-read and the user-write bit carry
/// meaning.
#[derive(Debug, Clone, Copy, PartialEq, Eq, Structural)]
pub struct FileModes {
    pub bits: u64,
}

impl FileModes {
    /// The mode with exactly the given bits.
    pub fn new(bits: u64) -> (m: FileModes)
        ensures
            m.bits == bits,
    {
        FileModes { bits }
    }

    /// True iff the user-read bit is set.
    pub fn is_readable(&self) -> (r: bool)
        ensures
            r == spec_readable(self.bits),
    {
        self.bits & S_IRUSR == S_IRUSR
    }

    /// True iff the user-write bit is set.
    pub fn is_writable(&self) -> (r: bool)
        ensures
            r == spec_writable(self.bits),
    {
        self.bits & S_IWUSR == S_IWUSR
    }
}

/// `S_IRWXU` is honoured as readable and writable.
pub proof fn lemma_rwxu_reads_and_writes()
    ensures
        spec_readable(S_IRWXU),
        spec_writable(S_IRWXU),
{
    assert(0o700u64 & 0o400u64 == 0o400u64) by (bit_vector);
    assert(0o700u64 & 0o200u64 == 0o200u64) by (bit_vector);
}

/// The metadata of a file: its size in bytes, then the number of its type.
#[derive(Debug, Clone, Copy, PartialEq, Eq, Structural)]
pub struct FileInfo {
    pub fsize: u64,
    pub ftype: u64,
}

/// The flags that a file was opened with. They are carried along with a
/// descriptor; no bit of them has a meaning to the file system.
#[derive(Debug, Clone, Copy, PartialEq, Eq, Structural)]
pub struct FileFlags {
    pub bits: u64,
}

impl FileFlags {
    /// The flags with exactly the given bits.
    pub fn new(bits: u64) -> (f: FileFlags)
        ensures
            f.bits == bits,
    {
        FileFlags { bits }
    }
}

impl Default for FileFlags {
    /// No flag set.
    fn default() -> (f: FileFlags)
        ensures
            f.bits == 0,
    {
        FileFlags { bits: 0 }
    }
}

impl Default for FileModes {
    /// No mode bit set.
    fn default() -> (m: FileModes)
        ensures
            m.bits == 0,
    {
        FileModes { bits: 0 }
    }
}

impl From<FileModes> for u64 {
    /// The bits of the mode.
    fn from(m: FileModes) -> (bits: u64) {
        m.bits
    }
}

impl FromSpecImpl<FileModes> for u64 {
    open spec fn obeys_from_spec() -> bool {
        true
    }

    open spec fn from_spec(m: FileModes) -> u64 {
        m.bits
    }
}

impl From<u64> for FileModes {
    /// The mode with exactly the given bits.
    fn from(bits: u64) -> (m: FileModes) {
        FileModes { bits }
    }
}

impl FromSpecImpl<u64> for FileModes {
    open spec fn obeys_from_spec() -> bool {
        true
    }

    open spec fn from_spec(bits: u64) -> FileModes {
        FileModes { bits }
    }
}

} // verus!
