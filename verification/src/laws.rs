//! What holds of the file system over every sequence of calls.

use vstd::prelude::*;
use crate::file::spec_write;
use crate::memfs::{root_name, MemFSView, ROOT_MNODE};
use crate::mnode::NodeType;
use crate::{Mnode, Modes};

verus! {

/// One call that may change the file system, with what the outside world
/// decides of it: whether memory is granted to a growing write, and whether
/// the table's handle on a number is the only one alive.
pub enum Call {
    Create { path: Seq<char>, modes: Modes },
    Write { id: Mnode, data: Seq<u8>, offset: int, granted: bool },
    Truncate { path: Seq<char> },
    Delete { path: Seq<char>, unique: bool },
    Rename { from: Seq<char>, to: Seq<char>, unique: bool },
}

/// The file system after one call.
pub open spec fn step(v: MemFSView, c: Call) -> MemFSView {
    match c {
        Call::Create { path, modes } => v.after_create(path, modes),
        Call::Write { id, data, offset, granted } => v.after_write(id, data, offset, granted),
        Call::Truncate { path } => v.after_truncate(path),
        Call::Delete { path, unique } => v.after_delete(path, unique),
        Call::Rename { from, to, unique } => v.after_rename(from, to, unique),
    }
}

/// The file system after a sequence of calls, the first one first.
pub open spec fn run(v: MemFSView, calls: Seq<Call>) -> MemFSView
    decreases calls.len(),
{
    if calls.len() == 0 {
        v
    } else {
        step(run(v, calls.drop_last()), calls.last())
    }
}

/// The file system starts well-formed, with the root in place.
pub proof fn lemma_initial_inv()
    ensures
        MemFSView::initial().inv(),
        MemFSView::initial().rooted(),
{
}

/// Every call keeps the file system well-formed: afterwards every name
/// still leads to a live memnode.
pub proof fn lemma_step_inv(v: MemFSView, c: Call)
    requires
        v.inv(),
    ensures
        step(v, c).inv(),
{
    let w = step(v, c);
    assert forall|p: Seq<char>| #[trigger] w.paths.contains_key(p) implies w.mnodes.contains_key(
        w.paths[p],
    ) by {
        match c {
            Call::Rename { from, to, unique } => {
                if w != v && p != to {
                    assert(v.paths.contains_key(p));
                    assert(v.paths.contains_key(from));
                }
                if w != v && p == to {
                    assert(v.paths.contains_key(from));
                }
            },
            Call::Delete { path, unique } => {
                if w != v {
                    assert(v.paths.contains_key(p));
                    assert(v.paths.contains_key(path));
                }
            },
            _ => {
                if v.paths.contains_key(p) {
                    assert(v.mnodes.contains_key(v.paths[p]));
                }
            },
        }
    }
    assert forall|p: Seq<char>, q: Seq<char>|
        w.paths.contains_key(p) && w.paths.contains_key(q) && #[trigger] w.paths[p]
            == #[trigger] w.paths[q] implies p == q by {
        match c {
            Call::Create { path, modes } => {
                if w != v {
                    if p != path {
                        assert(v.mnodes.contains_key(v.paths[p]));
                    }
                    if q != path {
                        assert(v.mnodes.contains_key(v.paths[q]));
                    }
                }
            },
            Call::Rename { from, to, unique } => {
                if w != v {
                    assert(v.paths.contains_key(from));
                    if p != to {
                        assert(v.paths.contains_key(p));
                    }
                    if q != to {
                        assert(v.paths.contains_key(q));
                    }
                }
            },
            _ => {
                assert(v.paths.contains_key(p));
                assert(v.paths.contains_key(q));
            },
        }
    }
    assert forall|id: Mnode| #[trigger] w.mnodes.contains_key(id) implies {
        &&& ROOT_MNODE <= id < w.next_id
        &&& w.mnodes[id].id == id
        &&& w.mnodes[id].kind == NodeType::Directory ==> w.mnodes[id].bytes
            == Seq::<u8>::empty() && w.mnodes[id].mode == 0
    } by {
        if v.mnodes.contains_key(id) {
        }
    }
}

/// The root is never removed: after any call `/` still leads to number 1,
/// and that is still a directory.
pub proof fn lemma_step_root(v: MemFSView, c: Call)
    requires
        v.inv(),
        v.rooted(),
    ensures
        step(v, c).rooted(),
        step(v, c).lookup(root_name()) == Some(ROOT_MNODE),
        step(v, c).info(ROOT_MNODE).ftype == NodeType::Directory.spec_code(),
{
    let w = step(v, c);
    match c {
        Call::Delete { path, unique } => {
            if w != v {
                assert(v.paths.contains_key(path));
                assert(v.paths[path] != v.paths[root_name()]);
            }
        },
        Call::Rename { from, to, unique } => {
            if w != v {
                assert(v.paths.contains_key(from));
                if v.paths.contains_key(to) {
                    assert(v.paths[to] != v.paths[root_name()]);
                }
            }
        },
        _ => {},
    }
}

/// The next number to be given out never goes down, and every call that
/// gives one out raises it by one. A call that fails before a number is
/// given out leaves it as it is.
pub proof fn lemma_step_next_id(v: MemFSView, c: Call)
    ensures
        step(v, c).next_id >= v.next_id,
        c matches Call::Create { path, modes } ==> {
            &&& v.create_result(path) is Ok <==> step(v, c).next_id == v.next_id + 1
            &&& v.create_result(path) is Err ==> step(v, c) == v
        },
        !(c is Create) ==> step(v, c).next_id == v.next_id,
{
}

/// After any sequence of calls on a well-formed file system, the file
/// system is well-formed: every name leads to a live memnode, and every live
/// number is below the next one to be given out, which has not gone down.
pub proof fn lemma_run_inv(v: MemFSView, calls: Seq<Call>)
    requires
        v.inv(),
    ensures
        run(v, calls).inv(),
        run(v, calls).next_id >= v.next_id,
    decreases calls.len(),
{
    if calls.len() > 0 {
        lemma_run_inv(v, calls.drop_last());
        lemma_step_inv(run(v, calls.drop_last()), calls.last());
        lemma_step_next_id(run(v, calls.drop_last()), calls.last());
    }
}

/// After any sequence of calls, the root is in place: `/` leads to number
/// 1, and that is a directory.
pub proof fn lemma_run_root(v: MemFSView, calls: Seq<Call>)
    requires
        v.inv(),
        v.rooted(),
    ensures
        run(v, calls).rooted(),
        run(v, calls).lookup(root_name()) == Some(ROOT_MNODE),
        run(v, calls).info(ROOT_MNODE).ftype == NodeType::Directory.spec_code(),
    decreases calls.len(),
{
    if calls.len() > 0 {
        lemma_run_root(v, calls.drop_last());
        lemma_run_inv(v, calls.drop_last());
        lemma_step_root(run(v, calls.drop_last()), calls.last());
    }
}

/// After a `create` that succeeds, the name leads to the number that it
/// returned, and that number leads to an empty file.
pub proof fn lemma_create_then_lookup(v: MemFSView, path: Seq<char>, modes: Modes)
    requires
        v.create_result(path) is Ok,
    ensures
        v.after_create(path, modes).lookup(path) == Some(v.create_result(path)->Ok_0),
        v.after_create(path, modes).info(v.create_result(path)->Ok_0).fsize == 0,
        v.after_create(path, modes).info(v.create_result(path)->Ok_0).ftype
            == NodeType::File.spec_code(),
{
}

/// After a `create` that succeeds and a `delete` of the same name while
/// nobody else holds a handle, the name leads nowhere, and names and
/// memnodes are what they were before the two calls.
pub proof fn lemma_create_then_delete(v: MemFSView, path: Seq<char>, modes: Modes)
    requires
        v.inv(),
        v.rooted(),
        v.create_result(path) is Ok,
    ensures
        v.after_create(path, modes).delete_result(path, true) == Ok::<bool, crate::FileSystemError>(
            true,
        ),
        v.after_create(path, modes).after_delete(path, true).lookup(path) is None,
        v.after_create(path, modes).after_delete(path, true).paths == v.paths,
        v.after_create(path, modes).after_delete(path, true).mnodes == v.mnodes,
{
    let w = v.after_create(path, modes).after_delete(path, true);
    assert(w.paths =~= v.paths);
    assert(w.mnodes =~= v.mnodes);
}

/// What was written is read back: after a write of `data` at `offset` that
/// succeeds, a read at `offset` into a buffer that takes at least `data`
/// succeeds, where the file may be read and `data` is not empty, and the
/// buffer then starts with `data`. (A buffer is no longer than `usize`
/// allows.)
pub proof fn lemma_write_then_read(
    v: MemFSView,
    id: Mnode,
    data: Seq<u8>,
    offset: int,
    granted: bool,
    buffer: Seq<u8>,
)
    requires
        0 <= offset,
        v.write_result(id, data.len() as int, offset, granted) is Ok,
        v.mnodes[id].readable(),
        0 < data.len() <= buffer.len() <= usize::MAX,
    ensures
        v.after_write(id, data, offset, granted).read_result(id, buffer.len() as int, offset) is Ok,
        v.after_write(id, data, offset, granted).read_result(id, buffer.len() as int, offset)->Ok_0
            >= data.len(),
        v.after_write(id, data, offset, granted).read_buffer(id, buffer, offset).subrange(
            0,
            data.len() as int,
        ) == data,
{
    let w = v.after_write(id, data, offset, granted);
    let node = w.mnodes[id];
    assert(node.bytes == spec_write(v.mnodes[id].bytes, data, offset));
    assert(node.bytes.len() >= offset + data.len());
    let got = node.read_len(buffer.len() as int, offset);
    assert(got >= data.len());
    assert(w.read_buffer(id, buffer, offset).subrange(0, data.len() as int) =~= data);
}

/// Truncating twice is truncating once, and a truncated file has size 0.
pub proof fn lemma_truncate_twice(v: MemFSView, path: Seq<char>)
    ensures
        v.after_truncate(path).after_truncate(path) == v.after_truncate(path),
        v.after_truncate(path).truncate_result(path) == v.truncate_result(path),
        v.truncate_result(path) is Ok ==> v.after_truncate(path).info(v.paths[path]).fsize == 0,
{
    let w = v.after_truncate(path);
    assert(w.after_truncate(path).mnodes =~= w.mnodes);
}

/// A rename keeps the number: after a rename that succeeds, the new name
/// leads to the number that the old name led to, and the old name leads
/// nowhere.
pub proof fn lemma_rename_keeps_id(v: MemFSView, from: Seq<char>, to: Seq<char>, unique: bool)
    requires
        from != to,
        v.rename_result(from, to, unique) is Ok,
    ensures
        v.after_rename(from, to, unique).lookup(to) == v.lookup(from),
        v.after_rename(from, to, unique).lookup(from) is None,
        v.inv() ==> v.after_rename(from, to, unique).mnodes.contains_key(v.paths[from])
            && v.after_rename(from, to, unique).mnodes[v.paths[from]] == v.mnodes[v.paths[from]],
{
    if v.inv() {
        assert(v.paths.contains_key(from));
        if v.paths.contains_key(to) {
            assert(v.paths[to] != v.paths[from]);
        }
    }
}

} // verus!
