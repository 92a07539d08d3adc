//! The in-memory file system: a flat name table over a table of memnodes.

use vstd::prelude::*;
use std::sync::Arc;
use crate::io::FileInfo;
use crate::mnode::{MemNode, MemNodeView, NodeType};
use crate::table::{holders, node_entries, path_entries, share, NodeTable, PathTable};
use crate::{FileSystemError, Mnode, Modes};

verus! {

/// The mnode number of the root directory.
pub const ROOT_MNODE: Mnode = 1;

/// The first mnode number that a new file gets.
pub const FIRST_FILE_MNODE: Mnode = 2;

/// The name of the root directory.
pub open spec fn root_name() -> Seq<char> {
    "/"@
}

/// Whether the name is that of the root directory.
pub fn is_root_name(pathname: &str) -> (r: bool)
    ensures
        r == (pathname@ == root_name()),
{
    proof {
        reveal_strlit("/");
    }
    let r = pathname.unicode_len() == 1 && pathname.get_char(0) == '/';
    assert(r ==> pathname@ =~= "/"@);
    r
}

/// What a file system is, as plain values.
pub struct MemFSView {
    /// The name table: each name leads to an mnode number.
    pub paths: Map<Seq<char>, Mnode>,
    /// The memnode table: each live mnode number leads to its memnode.
    pub mnodes: Map<Mnode, MemNodeView>,
    /// The number that the next new file gets.
    pub next_id: u64,
    /// The name and the number of the root directory, as set at the start.
    pub root: (Seq<char>, Mnode),
}

impl MemFSView {
    /// What holds between calls: every name leads to a live memnode, no two
    /// names lead to the same one, every live number is below the next one
    /// to be given out and is the number of its memnode, and a directory
    /// has no bytes and no mode bits.
    pub open spec fn inv(self) -> bool {
        &&& self.next_id >= FIRST_FILE_MNODE
        &&& self.root == (root_name(), ROOT_MNODE)
        &&& forall|p: Seq<char>| #[trigger]
            self.paths.contains_key(p) ==> self.mnodes.contains_key(self.paths[p])
        &&& forall|p: Seq<char>, q: Seq<char>|
            self.paths.contains_key(p) && self.paths.contains_key(q) && #[trigger] self.paths[p]
                == #[trigger] self.paths[q] ==> p == q
        &&& forall|id: Mnode| #[trigger]
            self.mnodes.contains_key(id) ==> {
                &&& ROOT_MNODE <= id < self.next_id
                &&& self.mnodes[id].id == id
                &&& self.mnodes[id].kind == NodeType::Directory ==> self.mnodes[id].bytes
                    == Seq::<u8>::empty() && self.mnodes[id].mode == 0
            }
    }

    /// The root is in place: `/` leads to number 1, a directory.
    pub open spec fn rooted(self) -> bool {
        &&& self.paths.contains_key(root_name())
        &&& self.paths[root_name()] == ROOT_MNODE
        &&& self.mnodes.contains_key(ROOT_MNODE)
        &&& self.mnodes[ROOT_MNODE].kind == NodeType::Directory
    }

    /// The file system as it starts: the root directory under `/`, and
    /// nothing else.
    pub open spec fn initial() -> MemFSView {
        MemFSView {
            paths: Map::empty().insert(root_name(), ROOT_MNODE),
            mnodes: Map::empty().insert(
                ROOT_MNODE,
                MemNodeView {
                    id: ROOT_MNODE,
                    name: root_name(),
                    kind: NodeType::Directory,
                    mode: 0,
                    bytes: Seq::empty(),
                },
            ),
            next_id: FIRST_FILE_MNODE,
            root: (root_name(), ROOT_MNODE),
        }
    }

    /// A file that has just been made: empty, with the given name and modes.
    pub open spec fn fresh_file(id: Mnode, path: Seq<char>, modes: Modes) -> MemNodeView {
        MemNodeView { id, name: path, kind: NodeType::File, mode: modes, bytes: Seq::empty() }
    }

    /// What `create` returns: the next number, unless the name is taken or
    /// no number is left to give out.
    pub open spec fn create_result(self, path: Seq<char>) -> Result<Mnode, FileSystemError> {
        if self.paths.contains_key(path) {
            Err(FileSystemError::AlreadyPresent)
        } else if self.next_id == u64::MAX {
            Err(FileSystemError::OutOfMemory)
        } else {
            Ok(self.next_id)
        }
    }

    /// The file system after `create`: where a number was given out, the
    /// name leads to it, it leads to a fresh file, and the next number is
    /// one more. Else nothing has changed.
    pub open spec fn after_create(self, path: Seq<char>, modes: Modes) -> MemFSView {
        if self.create_result(path) is Ok {
            MemFSView {
                paths: self.paths.insert(path, self.next_id),
                mnodes: self.mnodes.insert(
                    self.next_id,
                    Self::fresh_file(self.next_id, path, modes),
                ),
                next_id: (self.next_id + 1) as u64,
                ..self
            }
        } else {
            self
        }
    }

    /// What a write of `n` bytes to the memnode `id` returns, given
    /// whether memory is granted where the file must grow.
    pub open spec fn write_result(self, id: Mnode, n: int, offset: int, granted: bool) -> Result<
        usize,
        FileSystemError,
    > {
        if !self.mnodes.contains_key(id) {
            Err(FileSystemError::InvalidFile)
        } else {
            self.mnodes[id].write_result(n, offset, granted)
        }
    }

    /// The file system after a write to the memnode `id`: where the write
    /// succeeds the memnode holds the written bytes; everything else stays.
    pub open spec fn after_write(
        self,
        id: Mnode,
        data: Seq<u8>,
        offset: int,
        granted: bool,
    ) -> MemFSView {
        if self.write_result(id, data.len() as int, offset, granted) is Ok {
            MemFSView {
                mnodes: self.mnodes.insert(id, self.mnodes[id].written(data, offset)),
                ..self
            }
        } else {
            self
        }
    }

    /// What a read of the memnode `id` into a buffer of `n` bytes returns.
    pub open spec fn read_result(self, id: Mnode, n: int, offset: int) -> Result<
        usize,
        FileSystemError,
    > {
        if !self.mnodes.contains_key(id) {
            Err(FileSystemError::InvalidFile)
        } else {
            self.mnodes[id].read_result(n, offset)
        }
    }

    /// What a buffer holds after a read of the memnode `id`.
    pub open spec fn read_buffer(self, id: Mnode, buffer: Seq<u8>, offset: int) -> Seq<u8> {
        if !self.mnodes.contains_key(id) {
            buffer
        } else {
            self.mnodes[id].read_buffer(buffer, offset)
        }
    }

    /// What `truncate` returns: `true` for a writable file.
    pub open spec fn truncate_result(self, path: Seq<char>) -> Result<bool, FileSystemError> {
        if !self.paths.contains_key(path) || !self.mnodes.contains_key(self.paths[path]) {
            Err(FileSystemError::InvalidFile)
        } else if self.mnodes[self.paths[path]].writable() {
            Ok(true)
        } else {
            Err(FileSystemError::PermissionError)
        }
    }

    /// The file system after `truncate`: a writable file has lost its
    /// bytes; else nothing has changed.
    pub open spec fn after_truncate(self, path: Seq<char>) -> MemFSView {
        if self.truncate_result(path) is Ok {
            MemFSView {
                mnodes: self.mnodes.insert(
                    self.paths[path],
                    self.mnodes[self.paths[path]].truncated(),
                ),
                ..self
            }
        } else {
            self
        }
    }

    /// What `delete` returns, given whether the table's handle on the
    /// number is the only one alive. The root is never deleted.
    pub open spec fn delete_result(self, path: Seq<char>, unique: bool) -> Result<
        bool,
        FileSystemError,
    > {
        if !self.paths.contains_key(path) {
            Err(FileSystemError::InvalidFile)
        } else if path == root_name() {
            Err(FileSystemError::PermissionError)
        } else if unique {
            Ok(true)
        } else {
            Err(FileSystemError::PermissionError)
        }
    }

    /// The file system after `delete`: on success the name and the memnode
    /// that it led to are gone; else nothing has changed.
    pub open spec fn after_delete(self, path: Seq<char>, unique: bool) -> MemFSView {
        if self.delete_result(path, unique) is Ok {
            MemFSView {
                paths: self.paths.remove(path),
                mnodes: self.mnodes.remove(self.paths[path]),
                ..self
            }
        } else {
            self
        }
    }

    /// What `rename` returns, given whether the table's handle on the
    /// number of the new name, where that name is taken, is the only one
    /// alive. The root is neither renamed nor renamed onto.
    pub open spec fn rename_result(self, from: Seq<char>, to: Seq<char>, unique: bool) -> Result<
        bool,
        FileSystemError,
    > {
        if !self.paths.contains_key(from) {
            Err(FileSystemError::InvalidFile)
        } else if from == root_name() || to == root_name() {
            Err(FileSystemError::PermissionError)
        } else if self.paths.contains_key(to) && !unique {
            Err(FileSystemError::PermissionError)
        } else {
            Ok(true)
        }
    }

    /// The file system after `rename`: on success what the new name led to
    /// is deleted, the old name is gone and the new name leads to the number
    /// that the old one led to; else nothing has changed. A name that is
    /// renamed to itself stays as it is.
    pub open spec fn after_rename(self, from: Seq<char>, to: Seq<char>, unique: bool) -> MemFSView {
        if from == to {
            self
        } else if self.rename_result(from, to, unique) is Ok {
            let cleared = self.after_delete(to, true);
            MemFSView { paths: cleared.paths.remove(from).insert(to, self.paths[from]), ..cleared }
        } else {
            self
        }
    }

    /// The number that `path` leads to, if any.
    pub open spec fn lookup(self, path: Seq<char>) -> Option<Mnode> {
        if self.paths.contains_key(path) {
            Some(self.paths[path])
        } else {
            None
        }
    }

    /// The metadata of the memnode `id`: a directory has size 0.
    pub open spec fn info(self, id: Mnode) -> FileInfo {
        let node = self.mnodes[id];
        match node.kind {
            NodeType::Directory => FileInfo { fsize: 0, ftype: NodeType::Directory.spec_code() },
            NodeType::File => FileInfo {
                fsize: node.bytes.len() as u64,
                ftype: NodeType::File.spec_code(),
            },
        }
    }
}

/// The in-memory file-system representation.
pub struct MemFS {
    mnodes: NodeTable,
    files: PathTable,
    root: (String, Mnode),
    nextmemnode: u64,
}

impl View for MemFS {
    type V = MemFSView;

    closed spec fn view(&self) -> MemFSView {
        MemFSView {
            paths: path_entries(self.files),
            mnodes: node_entries(self.mnodes).map_values(|n: MemNode| n@),
            next_id: self.nextmemnode,
            root: (self.root.0@, self.root.1),
        }
    }
}

/// Abstract definition of file-system interface operations.
pub trait FileSystem {
    /// The file system as plain values.
    spec fn model(&self) -> MemFSView;

    /// Create a file relative to the root directory. The new file is empty
    /// and gets the next mnode number; a name that is taken gives
    /// `AlreadyPresent`, and the number is then not used up.
    fn create(&mut self, pathname: &str, modes: Modes) -> (r: Result<Mnode, FileSystemError>)
        ensures
            r == old(self).model().create_result(pathname@),
            final(self).model() == old(self).model().after_create(pathname@, modes),
    ;

    /// Check if a file exists in the file system or not: a handle on the
    /// number that the name leads to, if any.
    fn lookup(&self, pathname: &str) -> (r: Option<Arc<Mnode>>)
        ensures
            r is Some <==> self.model().paths.contains_key(pathname@),
            r is Some ==> *r->Some_0 == self.model().paths[pathname@],
    ;

    /// Find the size and type by giving the mnode number.
    fn file_info(&self, mnode: Mnode) -> (r: FileInfo)
        requires
            self.model().mnodes.contains_key(mnode),
        ensures
            r == self.model().info(mnode),
    ;

    /// Write data to a file: all of `buffer` at `offset`.
    ///
    /// A number that is not live gives `InvalidFile`, a directory or a file
    /// without the write bit `PermissionError`. Else the bytes are written
    /// and their number returned, unless the file must grow and the memory
    /// for it is not to be had: `OutOfMemory`. A write that stays inside the
    /// file always succeeds. Any failure leaves the file system as it was.
    fn write(&mut self, mnode_num: Mnode, buffer: &[u8], offset: usize) -> (r: Result<
        usize,
        FileSystemError,
    >)
        ensures
            r == old(self).model().write_result(
                mnode_num,
                buffer@.len() as int,
                offset as int,
                r is Ok,
            ),
            final(self).model() == old(self).model().after_write(
                mnode_num,
                buffer@,
                offset as int,
                r is Ok,
            ),
    ;

    /// Read data from a file into the front of `buffer`, starting at
    /// `offset`.
    ///
    /// A number that is not live gives `InvalidFile`, a directory or a file
    /// without the read bit `PermissionError`, an offset behind the end of
    /// the file or a read that would copy nothing `InvalidOffset`. Else as
    /// many bytes are copied as the file holds from `offset` on and the
    /// buffer takes, and their number is returned.
    fn read(&self, mnode_num: Mnode, buffer: &mut [u8], offset: usize) -> (r: Result<
        usize,
        FileSystemError,
    >)
        ensures
            r == self.model().read_result(mnode_num, old(buffer)@.len() as int, offset as int),
            final(buffer)@ == self.model().read_buffer(mnode_num, old(buffer)@, offset as int),
    ;

    /// Truncate the file that the name leads to: a writable file loses its
    /// bytes. A name that leads nowhere gives `InvalidFile`, a directory or
    /// a file without the write bit `PermissionError`.
    fn truncate(&mut self, pathname: &str) -> (r: Result<bool, FileSystemError>)
        ensures
            r == old(self).model().truncate_result(pathname@),
            final(self).model() == old(self).model().after_truncate(pathname@),
    ;

    /// Delete a file from the file-system: the name and the memnode that it
    /// leads to go together.
    ///
    /// A name that leads nowhere gives `InvalidFile`. The root, and a name
    /// whose number somebody else still holds a handle on, give
    /// `PermissionError`. Any failure leaves the file system as it was.
    fn delete(&mut self, pathname: &str) -> (r: Result<bool, FileSystemError>)
        ensures
            !old(self).model().paths.contains_key(pathname@) ==> r == Err::<bool, FileSystemError>(
                FileSystemError::InvalidFile,
            ),
            old(self).model().paths.contains_key(pathname@) && pathname@ == root_name() ==> r
                == Err::<bool, FileSystemError>(FileSystemError::PermissionError),
            r == old(self).model().delete_result(pathname@, r is Ok),
            final(self).model() == old(self).model().after_delete(pathname@, r is Ok),
    ;

    /// Rename a file from oldname to newname. What the new name led to
    /// before is deleted first.
    ///
    /// An old name that leads nowhere gives `InvalidFile`. The root as old
    /// or as new name, and a new name whose number somebody else still holds
    /// a handle on, give `PermissionError`. Any failure leaves the file
    /// system as it was, and so does renaming a name to itself.
    fn rename(&mut self, oldname: &str, newname: &str) -> (r: Result<bool, FileSystemError>)
        ensures
            !old(self).model().paths.contains_key(oldname@) ==> r == Err::<bool, FileSystemError>(
                FileSystemError::InvalidFile,
            ),
            old(self).model().paths.contains_key(oldname@) && (oldname@ == root_name() || newname@
                == root_name()) ==> r == Err::<bool, FileSystemError>(
                FileSystemError::PermissionError,
            ),
            old(self).model().rename_result(oldname@, newname@, false) is Ok ==> r is Ok,
            r == old(self).model().rename_result(oldname@, newname@, r is Ok),
            final(self).model() == old(self).model().after_rename(oldname@, newname@, r is Ok),
    ;
}

impl Default for MemFS {
    /// Initialize the file system from the root directory.
    fn default() -> (fs: MemFS)
        ensures
            fs@ == MemFSView::initial(),
    {
        let rootdir = "/";
        let rootmnode: Mnode = 1;
        let mut mnodes = NodeTable::new();
        let node = MemNode::new(rootmnode, rootdir, 0, NodeType::Directory).unwrap();
        mnodes.insert(rootmnode, node);
        let mut files = PathTable::new();
        files.insert(rootdir.to_owned(), Arc::new(rootmnode));
        let fs = MemFS { mnodes, files, root: (rootdir.to_owned(), rootmnode), nextmemnode: 2 };
        assert(fs@.mnodes =~= MemFSView::initial().mnodes);
        assert(fs@.paths =~= MemFSView::initial().paths);
        fs
    }
}

impl MemFS {
    /// Whether the mnode number is live: whether it leads to a memnode.
    pub fn contains(&self, mnode: Mnode) -> (live: bool)
        ensures
            live == self@.mnodes.contains_key(mnode),
    {
        self.mnodes.get(mnode).is_some()
    }

    /// The name and the mnode number of the root directory, as set at the
    /// start.
    pub fn root(&self) -> (r: (&str, Mnode))
        ensures
            r.0@ == self@.root.0,
            r.1 == self@.root.1,
    {
        (self.root.0.as_str(), self.root.1)
    }

    /// How many handles are alive on the number that the name leads to: who
    /// else holds one decides. A name that leads nowhere has 0.
    fn observers(&self, pathname: &str) -> (n: usize)
        ensures
            !self@.paths.contains_key(pathname@) ==> n == 0,
    {
        match self.files.get(pathname) {
            Some(mnode) => holders(mnode),
            None => 0,
        }
    }

    /// Deletes as `delete` does, for a given number of handles alive on the
    /// number that the name leads to: the file goes exactly when the name
    /// leads somewhere, is not the root, and that number is 1, the table's
    /// own handle.
    pub fn delete_observed(&mut self, pathname: &str, handles: usize) -> (r: Result<
        bool,
        FileSystemError,
    >)
        ensures
            r == old(self)@.delete_result(pathname@, handles == 1),
            final(self)@ == old(self)@.after_delete(pathname@, handles == 1),
    {
        if self.files.get(pathname).is_none() {
            return Err(FileSystemError::InvalidFile);
        }
        if is_root_name(pathname) {
            return Err(FileSystemError::PermissionError);
        }
        match self.files.remove(pathname) {
            Some(mnode) => {
                if handles == 1 {
                    self.mnodes.remove(*mnode);
                    assert(self@.mnodes =~= old(self)@.after_delete(pathname@, true).mnodes);
                    Ok(true)
                } else {
                    self.files.insert(pathname.to_owned(), mnode);
                    assert(self@.paths =~= old(self)@.paths);
                    Err(FileSystemError::PermissionError)
                }
            },
            None => Err(FileSystemError::InvalidFile),
        }
    }

    /// Renames as `rename` does, for a given number of handles alive on the
    /// number that the new name leads to.
    pub fn rename_observed(&mut self, oldname: &str, newname: &str, handles: usize) -> (r: Result<
        bool,
        FileSystemError,
    >)
        ensures
            r == old(self)@.rename_result(oldname@, newname@, handles == 1),
            final(self)@ == old(self)@.after_rename(oldname@, newname@, handles == 1),
    {
        if self.files.get(oldname).is_none() {
            return Err(FileSystemError::InvalidFile);
        }
        if is_root_name(oldname) || is_root_name(newname) {
            return Err(FileSystemError::PermissionError);
        }
        if self.files.get(newname).is_some() && handles != 1 {
            return Err(FileSystemError::PermissionError);
        }
        match self.files.remove(oldname) {
            Some(value) => {
                // If the newfile exists then overwrite it with the oldfile.
                match self.files.remove(newname) {
                    Some(target) => {
                        self.mnodes.remove(*target);
                    },
                    None => {},
                }
                match self.files.insert(newname.to_owned(), value) {
                    None => {
                        assert(self@.paths =~= old(self)@.after_rename(
                            oldname@,
                            newname@,
                            true,
                        ).paths);
                        assert(self@.mnodes =~= old(self)@.after_rename(
                            oldname@,
                            newname@,
                            true,
                        ).mnodes);
                        Ok(true)
                    },
                    Some(_) => Err(FileSystemError::PermissionError),
                }
            },
            None => Err(FileSystemError::InvalidFile),
        }
    }
}

impl FileSystem for MemFS {
    open spec fn model(&self) -> MemFSView {
        self@
    }

    fn create(&mut self, pathname: &str, modes: Modes) -> (r: Result<Mnode, FileSystemError>) {
        match self.files.get(pathname) {
            Some(_) => { return Err(FileSystemError::AlreadyPresent); },
            None => {},
        }
        if self.nextmemnode == u64::MAX {
            return Err(FileSystemError::OutOfMemory);
        }
        let mnode_num: Mnode = self.nextmemnode;
        let memnode = match MemNode::new(mnode_num, pathname, modes, NodeType::File) {
            Ok(memnode) => memnode,
            Err(e) => { return Err(e); },
        };
        self.nextmemnode = mnode_num + 1;
        self.files.insert(pathname.to_owned(), Arc::new(mnode_num));
        self.mnodes.insert(mnode_num, memnode);
        assert(self@.mnodes =~= old(self)@.after_create(pathname@, modes).mnodes);
        Ok(mnode_num)
    }

    fn lookup(&self, pathname: &str) -> (r: Option<Arc<Mnode>>) {
        match self.files.get(pathname) {
            Some(mnode) => Some(share(mnode)),
            None => None,
        }
    }

    fn file_info(&self, mnode: Mnode) -> (r: FileInfo) {
        match self.mnodes.get(mnode) {
            Some(node) => match node.get_mnode_type() {
                NodeType::Directory => FileInfo { fsize: 0, ftype: NodeType::Directory.code() },
                NodeType::File => FileInfo {
                    fsize: node.get_file_size() as u64,
                    ftype: NodeType::File.code(),
                },
            },
            None => FileInfo { fsize: 0, ftype: 0 },
        }
    }
    fn write(&mut self, mnode_num: Mnode, buffer: &[u8], offset: usize) -> (r: Result<
        usize,
        FileSystemError,
    >) {
        let r = match self.mnodes.get_mut(mnode_num) {
            Some(mnode) => mnode.write(buffer, offset),
            None => Err(FileSystemError::InvalidFile),
        };
        assert(self@.mnodes =~= old(self)@.after_write(
            mnode_num,
            buffer@,
            offset as int,
            r is Ok,
        ).mnodes);
        r
    }

    fn read(&self, mnode_num: Mnode, buffer: &mut [u8], offset: usize) -> (r: Result<
        usize,
        FileSystemError,
    >) {
        match self.mnodes.get(mnode_num) {
            Some(mnode) => mnode.read(buffer, offset),
            None => Err(FileSystemError::InvalidFile),
        }
    }

    fn truncate(&mut self, pathname: &str) -> (r: Result<bool, FileSystemError>) {
        let mnode_num: Mnode = match self.files.get(pathname) {
            Some(mnode) => **mnode,
            None => { return Err(FileSystemError::InvalidFile); },
        };
        let r = match self.mnodes.get_mut(mnode_num) {
            Some(memnode) => memnode.file_truncate(),
            None => Err(FileSystemError::InvalidFile),
        };
        assert(self@.mnodes =~= old(self)@.after_truncate(pathname@).mnodes);
        r
    }
    fn delete(&mut self, pathname: &str) -> (r: Result<bool, FileSystemError>) {
        let handles: usize = self.observers(pathname);
        self.delete_observed(pathname, handles)
    }

    fn rename(&mut self, oldname: &str, newname: &str) -> (r: Result<bool, FileSystemError>) {
        let handles: usize = self.observers(newname);
        self.rename_observed(oldname, newname, handles)
    }
}

} // verus!
