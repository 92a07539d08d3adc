//! An in-memory file system: a flat name table rooted at `/`, byte-addressable
//! files held in volatile memory, and the sharded reader-writer lock protocol
//! that mediates access to the memnode table.

use vstd::prelude::*;

pub mod fd;
pub mod file;
pub mod io;
pub mod laws;
pub mod lock_model;
pub mod memfs;
pub mod mnode;
pub mod padded;
pub mod rwlock;
pub mod table;
pub mod topology;

pub use fd::{Fd, FileDescriptor};
pub use io::{FileFlags, FileInfo, FileModes};
pub use memfs::{FileSystem, MemFS};
pub use mnode::{MemNode, NodeType};

verus! {

/// The maximum number of open files for a process.
pub const MAX_FILES_PER_PROCESS: usize = 1024;

/// Mnode number.
pub type Mnode = u64;

/// Flags for fs calls.
pub type Flags = u64;

/// Modes for fs calls.
pub type Modes = u64;

/// File descriptor.
pub type FD = u64;

/// Userspace buffer pointer to read or write a file.
pub type Buffer = u64;

/// Number of bytes to read or write a file.
pub type Len = u64;

/// Userspace-pointer to filename.
pub type Filename = u64;

/// File offset.
pub type Offset = i64;

/// Everything that a file-system call can report instead of a result.
#[derive(Debug, Clone, Copy, PartialEq, Eq, Structural)]
pub enum FileSystemError {
    /// Supplied file descriptor was invalid.
    InvalidFileDescriptor,
    /// Supplied file was invalid.
    InvalidFile,
    /// Supplied flags were invalid.
    InvalidFlags,
    /// Supplied offset was invalid.
    InvalidOffset,
    /// File/directory can't be read or written.
    PermissionError,
    /// Fd/File already exists.
    AlreadyPresent,
    /// Can't read or write to a directory.
    DirectoryError,
    /// Maximum files are opened for a process.
    OpenFileLimit,
    /// Unable to allocate memory for file.
    OutOfMemory,
}

impl FileSystemError {
    /// What the error says, in words.
    pub open spec fn message(self) -> Seq<char> {
        match self {
            FileSystemError::InvalidFileDescriptor => "Supplied file descriptor was invalid"@,
            FileSystemError::InvalidFile => "Supplied file was invalid"@,
            FileSystemError::InvalidFlags => "Supplied flags were invalid"@,
            FileSystemError::InvalidOffset => "Supplied offset was invalid"@,
            FileSystemError::PermissionError => "File/directory can't be read or written"@,
            FileSystemError::AlreadyPresent => "Fd/File already exists"@,
            FileSystemError::DirectoryError => "Can't read or write to a directory"@,
            FileSystemError::OpenFileLimit => "Maximum files are opened for a process"@,
            FileSystemError::OutOfMemory => "Unable to allocate memory for file"@,
        }
    }

    /// What the error says, in words.
    pub fn to_string(&self) -> (s: String)
        ensures
            s@ == self.message(),
    {
        let text: &str = match self {
            FileSystemError::InvalidFileDescriptor => "Supplied file descriptor was invalid",
            FileSystemError::InvalidFile => "Supplied file was invalid",
            FileSystemError::InvalidFlags => "Supplied flags were invalid",
            FileSystemError::InvalidOffset => "Supplied offset was invalid",
            FileSystemError::PermissionError => "File/directory can't be read or written",
            FileSystemError::AlreadyPresent => "Fd/File already exists",
            FileSystemError::DirectoryError => "Can't read or write to a directory",
            FileSystemError::OpenFileLimit => "Maximum files are opened for a process",
            FileSystemError::OutOfMemory => "Unable to allocate memory for file",
        };
        text.to_owned()
    }
}

} // verus!
