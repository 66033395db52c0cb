//! Identity of collections and the authoritative selection state.
use vstd::prelude::*;
use crate::collections::MapKey;
use crate::text::owned;

verus! {

/// Identity key for collections (real collections and virtual ones).
#[derive(Debug, Clone, Copy, PartialEq, Eq, Structural, Hash)]
pub enum CollectionKey {
    /// Virtual collection displaying all papers.
    All,
    /// Real collection identified by its id.
    Real(u128),
    /// Virtual collection displaying recently added papers.
    RecentlyAdded,
    /// Virtual collection displaying papers not in any collection.
    Unfiled,
    /// Virtual collection displaying papers without any tags.
    Untagged,
}

/// The id of a real collection; `None` for the virtual ones.
pub open spec fn key_uuid(k: CollectionKey) -> Option<u128> {
    match k {
        CollectionKey::Real(id) => Some(id),
        _ => None,
    }
}

impl CollectionKey {
    /// Returns the id if this key stands for a real collection.
    pub fn as_uuid(&self) -> (r: Option<u128>)
        ensures
            r == key_uuid(*self),
    {
        match self {
            CollectionKey::Real(id) => Some(*id),
            _ => None,
        }
    }
}

impl MapKey for CollectionKey {
    fn same_key(&self, other: &Self) -> (b: bool) {
        match (self, other) {
            (CollectionKey::All, CollectionKey::All) => true,
            (CollectionKey::Real(a), CollectionKey::Real(b)) => *a == *b,
            (CollectionKey::RecentlyAdded, CollectionKey::RecentlyAdded) => true,
            (CollectionKey::Unfiled, CollectionKey::Unfiled) => true,
            (CollectionKey::Untagged, CollectionKey::Untagged) => true,
            _ => false,
        }
    }
}

/// Authoritative selection state: the list indices of the interface are
/// recomputed from it.
#[derive(Debug, Clone, Copy, PartialEq, Eq, Structural)]
pub struct SelectionState {
    /// Key of the selected collection.
    pub collection: CollectionKey,
    /// Id of the selected paper, if any.
    pub paper_id: Option<u128>,
    /// Id of the selected TOC entry, if any.
    pub toc_id: Option<u128>,
}

impl Default for SelectionState {
    fn default() -> (s: Self)
        ensures
            s == (SelectionState { collection: CollectionKey::All, paper_id: None, toc_id: None }),
    {
        SelectionState { collection: CollectionKey::All, paper_id: None, toc_id: None }
    }
}

/// An entry of the Collections panel.
#[derive(Debug)]
pub struct CollectionItem {
    /// Key of the collection (real or virtual).
    pub key: CollectionKey,
    /// Id of a real collection; `None` for virtual ones.
    pub id: Option<u128>,
    /// Display name.
    pub name: String,
    /// Number of papers in the collection.
    pub paper_count: usize,
    /// Nesting depth in the tree (0 for roots and virtual collections).
    pub depth: usize,
    /// Parent collection, if any.
    pub parent_id: Option<u128>,
}

impl Clone for CollectionItem {
    fn clone(&self) -> (r: Self)
        ensures
            r == *self,
    {
        CollectionItem {
            key: self.key,
            id: self.id,
            name: self.name.clone(),
            paper_count: self.paper_count,
            depth: self.depth,
            parent_id: self.parent_id,
        }
    }
}

/// The key a collection id stands for: a real collection, or "All" for none.
pub open spec fn key_of_id(id: Option<u128>) -> CollectionKey {
    match id {
        Some(u) => CollectionKey::Real(u),
        None => CollectionKey::All,
    }
}

impl CollectionItem {
    /// A root collection item for an optional id ("All Papers" for `None`).
    pub fn new(id: Option<u128>, name: &str, paper_count: usize) -> (r: Self)
        ensures
            r.key == key_of_id(id),
            r.id == id,
            r.name@ == name@,
            r.paper_count == paper_count,
            r.depth == 0,
            r.parent_id is None,
    {
        let key = match id {
            Some(u) => CollectionKey::Real(u),
            None => CollectionKey::All,
        };
        Self::with_key_and_hierarchy(key, name, paper_count, 0, None)
    }

    /// A collection item with a depth and a parent in the tree.
    pub fn with_hierarchy(
        id: Option<u128>,
        name: &str,
        paper_count: usize,
        depth: usize,
        parent_id: Option<u128>,
    ) -> (r: Self)
        ensures
            r.key == key_of_id(id),
            r.id == id,
            r.name@ == name@,
            r.paper_count == paper_count,
            r.depth == depth,
            r.parent_id == parent_id,
    {
        let key = match id {
            Some(u) => CollectionKey::Real(u),
            None => CollectionKey::All,
        };
        Self::with_key_and_hierarchy(key, name, paper_count, depth, parent_id)
    }

    /// A root collection item for an explicit key.
    pub fn from_key(key: CollectionKey, name: &str, paper_count: usize) -> (r: Self)
        ensures
            r.key == key,
            r.id == key_uuid(key),
            r.name@ == name@,
            r.paper_count == paper_count,
            r.depth == 0,
            r.parent_id is None,
    {
        Self::with_key_and_hierarchy(key, name, paper_count, 0, None)
    }

    /// A collection item for an explicit key, depth and parent.
    pub fn with_key_and_hierarchy(
        key: CollectionKey,
        name: &str,
        paper_count: usize,
        depth: usize,
        parent_id: Option<u128>,
    ) -> (r: Self)
        ensures
            r.key == key,
            r.id == key_uuid(key),
            r.name@ == name@,
            r.paper_count == paper_count,
            r.depth == depth,
            r.parent_id == parent_id,
    {
        let id = key.as_uuid();
        CollectionItem { key, id, name: owned(name), paper_count, depth, parent_id }
    }
}

/// The id of an item always agrees with its key when it was built by one of
/// the constructors: a real key carries its id, a virtual key none.
pub proof fn lemma_key_id_roundtrip(id: Option<u128>)
    ensures
        key_uuid(key_of_id(id)) == id,
{
}

} // verus!
