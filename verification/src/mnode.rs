//! A memnode: the record that an mnode number resolves to.

use vstd::prelude::*;
use vstd::std_specs::cmp::PartialEqSpecImpl;
use vstd::std_specs::convert::FromSpecImpl;
use crate::file::{spec_fill, spec_write, File};
use crate::io::{spec_readable, spec_writable};
use crate::{FileSystemError, Mnode, Modes};

verus! {

/// Each memory-node can be of two types: directory or a file.
#[derive(Debug, Clone, Copy, PartialEq, Eq, Structural)]
pub enum NodeType {
    /// The mnode is of directory type.
    Directory,
    /// The mnode is of regular type.
    File,
}

impl NodeType {
    /// The number that stands for the type in a metadata record.
    pub open spec fn spec_code(self) -> u64 {
        match self {
            NodeType::Directory => 1,
            NodeType::File => 2,
        }
    }

    /// The number that stands for the type in a metadata record: 1 for a
    /// directory, 2 for a file.
    pub fn code(self) -> (c: u64)
        ensures
            c == self.spec_code(),
    {
        match self {
            NodeType::Directory => 1,
            NodeType::File => 2,
        }
    }
}

impl From<NodeType> for u64 {
    /// The number that stands for the type in a metadata record.
    fn from(t: NodeType) -> (c: u64) {
        t.code()
    }
}

impl FromSpecImpl<NodeType> for u64 {
    open spec fn obeys_from_spec() -> bool {
        true
    }

    open spec fn from_spec(t: NodeType) -> u64 {
        t.spec_code()
    }
}

/// What a memnode is, as plain values.
pub struct MemNodeView {
    /// The mnode number.
    pub id: u64,
    /// The name that the node was made with.
    pub name: Seq<char>,
    /// Directory or file.
    pub kind: NodeType,
    /// The mode bits of the file; 0 for a directory.
    pub mode: u64,
    /// The bytes of the file; empty for a directory.
    pub bytes: Seq<u8>,
}

impl MemNodeView {
    /// A node that a write may change: a writable file.
    pub open spec fn writable(self) -> bool {
        self.kind == NodeType::File && spec_writable(self.mode)
    }

    /// A node that may be read: a readable file.
    pub open spec fn readable(self) -> bool {
        self.kind == NodeType::File && spec_readable(self.mode)
    }

    /// The node with other bytes.
    pub open spec fn with_bytes(self, bytes: Seq<u8>) -> MemNodeView {
        MemNodeView { bytes, ..self }
    }

    /// The number of bytes that a read of `n` bytes at `offset` copies.
    pub open spec fn read_len(self, n: int, offset: int) -> int {
        if self.bytes.len() - offset <= n {
            self.bytes.len() - offset
        } else {
            n
        }
    }

    /// What a read into a buffer of `n` bytes at `offset` returns: the
    /// number of bytes copied, or the reason why none is.
    pub open spec fn read_result(self, n: int, offset: int) -> Result<usize, FileSystemError> {
        if !self.readable() {
            Err(FileSystemError::PermissionError)
        } else if offset > self.bytes.len() || self.read_len(n, offset) <= 0 {
            Err(FileSystemError::InvalidOffset)
        } else {
            Ok(self.read_len(n, offset) as usize)
        }
    }

    /// What a buffer holds after a read at `offset`: on success the bytes
    /// read, followed by what it held behind them; else what it held.
    pub open spec fn read_buffer(self, buffer: Seq<u8>, offset: int) -> Seq<u8> {
        if self.read_result(buffer.len() as int, offset) is Ok {
            spec_fill(
                buffer,
                self.bytes.subrange(offset, offset + self.read_len(buffer.len() as int, offset)),
            )
        } else {
            buffer
        }
    }

    /// The node after a truncation: a writable file loses its bytes, any
    /// other node stays as it is.
    pub open spec fn truncated(self) -> MemNodeView {
        if self.writable() {
            self.with_bytes(Seq::empty())
        } else {
            self
        }
    }

    /// The node after a write of `data` at `offset` that was carried out.
    pub open spec fn written(self, data: Seq<u8>, offset: int) -> MemNodeView {
        self.with_bytes(spec_write(self.bytes, data, offset))
    }

    /// What a write of `n` bytes at `offset` returns, given whether memory
    /// is granted where the file must grow: a node that is no writable file
    /// refuses, a write that stays inside the file succeeds, and one that
    /// grows the file succeeds where the memory is granted and the end of
    /// the written region fits in `usize`.
    pub open spec fn write_result(self, n: int, offset: int, granted: bool) -> Result<
        usize,
        FileSystemError,
    > {
        if !self.writable() {
            Err(FileSystemError::PermissionError)
        } else if offset + n <= self.bytes.len() || (granted && offset + n <= usize::MAX) {
            Ok(n as usize)
        } else {
            Err(FileSystemError::OutOfMemory)
        }
    }

    /// The node after a write: changed where the write succeeds, else as it
    /// was.
    pub open spec fn after_write(self, data: Seq<u8>, offset: int, granted: bool) -> MemNodeView {
        if self.write_result(data.len() as int, offset, granted) is Ok {
            self.written(data, offset)
        } else {
            self
        }
    }
}

/// Memnode representation, similar to Inode for a memory-fs.
#[derive(Debug)]
pub struct MemNode {
    mnode_num: Mnode,
    name: String,
    node_type: NodeType,
    file: Option<File>,
}

impl View for MemNode {
    type V = MemNodeView;

    closed spec fn view(&self) -> MemNodeView {
        MemNodeView {
            id: self.mnode_num,
            name: self.name@,
            kind: self.node_type,
            mode: match self.file {
                Some(f) => f.mode_bits(),
                None => 0,
            },
            bytes: match self.file {
                Some(f) => f.bytes(),
                None => Seq::empty(),
            },
        }
    }
}

impl MemNode {
    /// Whether the node has a byte buffer, as every file has.
    pub closed spec fn has_buffer(&self) -> bool {
        self.file is Some
    }

    /// Initialize a memory-node for a directory or a file: a file starts
    /// empty with the given modes, a directory has no buffer.
    pub fn new(mnode_num: Mnode, pathname: &str, modes: Modes, node_type: NodeType) -> (r: Result<
        MemNode,
        FileSystemError,
    >)
        ensures
            r is Ok,
            r->Ok_0.has_buffer() == (node_type == NodeType::File),
            r->Ok_0@ == (MemNodeView {
                id: mnode_num,
                name: pathname@,
                kind: node_type,
                mode: if node_type == NodeType::File { modes } else { 0 },
                bytes: Seq::empty(),
            }),
    {
        let file = match node_type {
            NodeType::Directory => None,
            NodeType::File => match File::new(modes) {
                Ok(file) => Some(file),
                Err(e) => { return Err(e); },
            },
        };
        Ok(MemNode { mnode_num, name: pathname.to_owned(), node_type, file })
    }

    /// Write to an in-memory file: all of `buffer` at `offset`.
    ///
    /// A directory or a file without the write bit gives `PermissionError`.
    /// Else the bytes are written and their number returned, unless the file
    /// must grow and the memory for it is not to be had: `OutOfMemory`. A
    /// write that stays inside the file always succeeds. Any failure leaves
    /// the node as it was.
    ///
    /// Whether memory was granted shows in the result alone, so the contract
    /// reads the grant off it.
    pub fn write(&mut self, buffer: &[u8], offset: usize) -> (r: Result<usize, FileSystemError>)
        ensures
            final(self).has_buffer() == old(self).has_buffer(),
            r == old(self)@.write_result(buffer@.len() as int, offset as int, r is Ok),
            final(self)@ == old(self)@.after_write(buffer@, offset as int, r is Ok),
    {
        if self.node_type != NodeType::File {
            return Err(FileSystemError::PermissionError);
        }
        let len: usize = buffer.len();
        assert(buffer@.subrange(0, len as int) =~= buffer@);
        match &mut self.file {
            Some(f) => {
                if !f.get_mode().is_writable() {
                    return Err(FileSystemError::PermissionError);
                }
                f.write_file(buffer, len, offset)
            },
            None => {
                assert(0u64 & 0o200u64 != 0o200u64) by (bit_vector);
                Err(FileSystemError::PermissionError)
            },
        }
    }

    /// Read from an in-memory file into the front of `buffer`, starting at
    /// `offset`.
    ///
    /// A directory or a file without the read bit gives `PermissionError`; an
    /// offset behind the end of the file, or a read that would copy nothing
    /// (at the end of the file, or into an empty buffer), `InvalidOffset`.
    /// Else as many bytes are copied as the file holds from `offset` on and
    /// the buffer takes, and their number is returned.
    pub fn read(&self, buffer: &mut [u8], offset: usize) -> (r: Result<usize, FileSystemError>)
        ensures
            r == self@.read_result(old(buffer)@.len() as int, offset as int),
            final(buffer)@ == self@.read_buffer(old(buffer)@, offset as int),
    {
        let file: &File = match &self.file {
            Some(f) => f,
            None => {
                assert(0u64 & 0o400u64 != 0o400u64) by (bit_vector);
                return Err(FileSystemError::PermissionError);
            },
        };
        if self.node_type != NodeType::File || !file.get_mode().is_readable() {
            return Err(FileSystemError::PermissionError);
        }
        let len: usize = buffer.len();
        let file_size: usize = file.get_size();
        if offset > file_size {
            return Err(FileSystemError::InvalidOffset);
        }
        let bytes_to_read: usize = if file_size - offset <= len {
            file_size - offset
        } else {
            len
        };
        let new_offset: usize = offset + bytes_to_read;
        if offset >= new_offset || new_offset > file_size {
            return Err(FileSystemError::InvalidOffset);
        }
        file.read_file(buffer, offset, new_offset)
    }

    /// Truncate the file: a writable file loses its bytes. A directory or a
    /// file without the write bit gives `PermissionError` and stays as it is.
    pub fn file_truncate(&mut self) -> (r: Result<bool, FileSystemError>)
        ensures
            final(self).has_buffer() == old(self).has_buffer(),
            final(self)@ == old(self)@.truncated(),
            r == (if old(self)@.writable() {
                Ok::<bool, FileSystemError>(true)
            } else {
                Err::<bool, FileSystemError>(FileSystemError::PermissionError)
            }),
    {
        if self.node_type != NodeType::File {
            return Err(FileSystemError::PermissionError);
        }
        match &mut self.file {
            Some(f) => {
                if !f.get_mode().is_writable() {
                    return Err(FileSystemError::PermissionError);
                }
                f.file_truncate();
                Ok(true)
            },
            None => {
                assert(0u64 & 0o200u64 != 0o200u64) by (bit_vector);
                Err(FileSystemError::PermissionError)
            },
        }
    }

    /// Get the file size; a directory has size 0.
    pub fn get_file_size(&self) -> (n: usize)
        ensures
            n == self@.bytes.len(),
    {
        match &self.file {
            Some(f) => f.get_size(),
            None => 0,
        }
    }

    /// Get the type of mnode; Directory or file.
    pub fn get_mnode_type(&self) -> (t: NodeType)
        ensures
            t == self@.kind,
    {
        self.node_type
    }
}

/// Two memnodes are equal when number, name, type and file are.
impl PartialEq for MemNode {
    fn eq(&self, other: &Self) -> (r: bool) {
        let files: bool = match (&self.file, &other.file) {
            (Some(a), Some(b)) => a == b,
            (None, None) => true,
            _ => false,
        };
        self.mnode_num == other.mnode_num && self.name == other.name && self.node_type
            == other.node_type && files
    }
}

impl PartialEqSpecImpl for MemNode {
    open spec fn obeys_eq_spec() -> bool {
        true
    }

    open spec fn eq_spec(&self, other: &Self) -> bool {
        self@ == other@ && self.has_buffer() == other.has_buffer()
    }
}

} // verus!
