//! A file descriptor: an mnode number, the flags it was opened with, and an
//! offset into the file.

use vstd::prelude::*;
use core::sync::atomic::{AtomicUsize, Ordering};
use crate::io::FileFlags;
use crate::Mnode;

verus! {

/// The mnode number of a descriptor that is bound to no file yet.
pub const UNBOUND_MNODE: Mnode = u64::MAX;

/// Abstract definition of a file descriptor.
pub trait FileDescriptor {
    /// The mnode number that the descriptor is bound to.
    spec fn mnode(&self) -> Mnode;

    /// The flags that the descriptor was bound with.
    spec fn flags(&self) -> FileFlags;

    /// A descriptor that is bound to no file.
    fn init_fd() -> Fd;

    /// Binds the descriptor to a file. The offset is not touched.
    fn update_fd(&mut self, mnode: Mnode, flags: FileFlags)
        ensures
            final(self).mnode() == mnode,
            final(self).flags() == flags,
    ;

    /// The mnode number that the descriptor is bound to.
    fn get_mnode(&self) -> (m: Mnode)
        ensures
            m == self.mnode(),
    ;

    /// The flags that the descriptor was bound with.
    fn get_flags(&self) -> (f: FileFlags)
        ensures
            f == self.flags(),
    ;

    /// The offset into the file, as it reads just now. The offset is shared
    /// through `&self`: whoever holds the descriptor may have moved it.
    fn get_offset(&self) -> usize;

    /// Moves the offset. The binding is not touched.
    fn update_offset(&self, new_offset: usize);
}

/// A file descriptor representation. The offset is an atomic word, so that
/// it can be moved through a shared descriptor.
#[derive(Debug)]
pub struct Fd {
    mnode: Mnode,
    flags: FileFlags,
    offset: AtomicUsize,
}

impl Default for Fd {
    /// A descriptor with every field at its default: mnode number 0, no flag
    /// set, offset 0.
    fn default() -> (fd: Fd)
        ensures
            fd.mnode() == 0,
            fd.flags().bits == 0,
    {
        Fd { mnode: 0, flags: FileFlags::new(0), offset: AtomicUsize::new(0) }
    }
}

impl FileDescriptor for Fd {
    closed spec fn mnode(&self) -> Mnode {
        self.mnode
    }

    closed spec fn flags(&self) -> FileFlags {
        self.flags
    }

    /// A descriptor that is bound to no file: its mnode number is the
    /// placeholder `u64::MAX`, no flag is set and the offset is 0.
    fn init_fd() -> (fd: Fd)
        ensures
            fd.mnode() == UNBOUND_MNODE,
            fd.flags().bits == 0,
    {
        Fd { mnode: u64::MAX, flags: FileFlags::new(0), offset: AtomicUsize::new(0) }
    }

    fn update_fd(&mut self, mnode: Mnode, flags: FileFlags) {
        self.mnode = mnode;
        self.flags = flags;
    }

    fn get_mnode(&self) -> (m: Mnode) {
        self.mnode
    }

    fn get_flags(&self) -> (f: FileFlags) {
        self.flags
    }

    fn get_offset(&self) -> usize {
        self.offset.load(Ordering::Relaxed)
    }

    fn update_offset(&self, new_offset: usize) {
        self.offset.store(new_offset, Ordering::Release);
    }
}

} // verus!
