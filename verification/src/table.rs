//! The two hash tables of the file system: mnode numbers to memnodes, and
//! names to shared handles on mnode numbers.

use vstd::prelude::*;
use std::sync::Arc;
use crate::mnode::MemNode;
use crate::Mnode;

verus! {

/// A `hashbrown::HashMap` from mnode numbers to memnodes.
#[verifier::external_body]
pub struct NodeTable {
    inner: hashbrown::HashMap<Mnode, MemNode>,
}

/// The memnodes that a node table holds, by mnode number.
pub uninterp spec fn node_entries(t: NodeTable) -> Map<Mnode, MemNode>;

/// The node table that holds nothing.
pub open spec fn no_nodes() -> Map<Mnode, MemNode> {
    Map::empty()
}

impl NodeTable {
    /// `hashbrown::HashMap::new`: a table that holds nothing.
    #[verifier::external_body]
    pub(crate) fn new() -> (table: NodeTable)
        ensures
            node_entries(table) == no_nodes(),
    {
        NodeTable { inner: hashbrown::HashMap::new() }
    }

    /// `hashbrown::HashMap::insert`: afterwards the table holds `node` under
    /// `id` and everything else as before; the node that `id` led to before,
    /// if any, is handed back.
    #[verifier::external_body]
    pub(crate) fn insert(&mut self, id: Mnode, node: MemNode) -> (prev: Option<MemNode>)
        ensures
            node_entries(*final(self)) == node_entries(*old(self)).insert(id, node),
            prev is Some <==> node_entries(*old(self)).contains_key(id),
            prev is Some ==> prev->Some_0 == node_entries(*old(self))[id],
    {
        self.inner.insert(id, node)
    }

    /// `hashbrown::HashMap::remove`: afterwards the table holds nothing under
    /// `id` and everything else as before; the node that `id` led to, if any,
    /// is handed back.
    #[verifier::external_body]
    pub(crate) fn remove(&mut self, id: Mnode) -> (prev: Option<MemNode>)
        ensures
            node_entries(*final(self)) == node_entries(*old(self)).remove(id),
            prev is Some <==> node_entries(*old(self)).contains_key(id),
            prev is Some ==> prev->Some_0 == node_entries(*old(self))[id],
    {
        self.inner.remove(&id)
    }

    /// `hashbrown::HashMap::get`: the node that `id` leads to, if any.
    #[verifier::external_body]
    pub(crate) fn get(&self, id: Mnode) -> (node: Option<&MemNode>)
        ensures
            node is Some <==> node_entries(*self).contains_key(id),
            node is Some ==> *node->Some_0 == node_entries(*self)[id],
    {
        self.inner.get(&id)
    }

    /// `hashbrown::HashMap::get_mut`: the node that `id` leads to, if any, to
    /// be changed in place. What the node is when the borrow ends is what the
    /// table then holds under `id`; everything else stays.
    #[verifier::external_body]
    pub(crate) fn get_mut(&mut self, id: Mnode) -> (node: Option<&mut MemNode>)
        ensures
            node is Some <==> node_entries(*old(self)).contains_key(id),
            node is Some ==> *node->Some_0 == node_entries(*old(self))[id],
            node is Some ==> node_entries(*final(self)) == node_entries(*old(self)).insert(
                id,
                *final(node->Some_0),
            ),
            node is None ==> node_entries(*final(self)) == node_entries(*old(self)),
    {
        self.inner.get_mut(&id)
    }
}

/// A `hashbrown::HashMap` from names to shared handles on mnode numbers.
#[verifier::external_body]
pub struct PathTable {
    inner: hashbrown::HashMap<String, Arc<Mnode>>,
}

/// The mnode numbers that a path table holds, by name.
pub uninterp spec fn path_entries(t: PathTable) -> Map<Seq<char>, Mnode>;

/// The path table that holds nothing.
pub open spec fn no_paths() -> Map<Seq<char>, Mnode> {
    Map::empty()
}

impl PathTable {
    /// `hashbrown::HashMap::new`: a table that holds nothing.
    #[verifier::external_body]
    pub(crate) fn new() -> (table: PathTable)
        ensures
            path_entries(table) == no_paths(),
    {
        PathTable { inner: hashbrown::HashMap::new() }
    }

    /// `hashbrown::HashMap::insert`: afterwards the table holds the handle
    /// under `name` and everything else as before; the handle that `name`
    /// led to before, if any, is handed back.
    #[verifier::external_body]
    pub(crate) fn insert(&mut self, name: String, handle: Arc<Mnode>) -> (prev: Option<Arc<Mnode>>)
        ensures
            path_entries(*final(self)) == path_entries(*old(self)).insert(name@, *handle),
            prev is Some <==> path_entries(*old(self)).contains_key(name@),
            prev is Some ==> *prev->Some_0 == path_entries(*old(self))[name@],
    {
        self.inner.insert(name, handle)
    }

    /// `hashbrown::HashMap::remove`: afterwards the table holds nothing under
    /// `name` and everything else as before; the handle that `name` led to,
    /// if any, is handed back.
    #[verifier::external_body]
    pub(crate) fn remove(&mut self, name: &str) -> (prev: Option<Arc<Mnode>>)
        ensures
            path_entries(*final(self)) == path_entries(*old(self)).remove(name@),
            prev is Some <==> path_entries(*old(self)).contains_key(name@),
            prev is Some ==> *prev->Some_0 == path_entries(*old(self))[name@],
    {
        self.inner.remove(name)
    }

    /// `hashbrown::HashMap::get`: the handle that `name` leads to, if any.
    #[verifier::external_body]
    pub(crate) fn get(&self, name: &str) -> (handle: Option<&Arc<Mnode>>)
        ensures
            handle is Some <==> path_entries(*self).contains_key(name@),
            handle is Some ==> **handle->Some_0 == path_entries(*self)[name@],
    {
        self.inner.get(name)
    }
}

/// `Arc::clone`: one more handle on the same mnode number.
#[verifier::external_body]
pub(crate) fn share(handle: &Arc<Mnode>) -> (shared: Arc<Mnode>)
    ensures
        *shared == **handle,
{
    Arc::clone(handle)
}

/// `Arc::strong_count`: how many handles on the number are alive just now.
/// That depends on who else holds one, so nothing is said of it.
#[verifier::external_body]
pub(crate) fn holders(handle: &Arc<Mnode>) -> (n: usize) {
    Arc::strong_count(handle)
}

} // verus!
