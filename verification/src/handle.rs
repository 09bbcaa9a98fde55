//! Pointer-like handles as plain values.
//!
//! A raw handle is an address word plus the metadata word of a fat
//! pointer: nothing for a thin pointer, the element count for a handle on
//! a slice, the dispatch-table address for a dynamic-dispatch handle.
//! Projections rewrite only the address word; the metadata travels
//! through verbatim.
//!
//! One handle type exists per kind the crate projects: read-only raw,
//! mutable raw, shared reference, exclusive reference, and a pinned
//! wrapper around the reference kinds.  All carry the same two words; the
//! kinds differ only in what the caller may do with them, which is why
//! the aliasable kinds are `Copy` and the exclusive kind is not.

use vstd::prelude::*;
use crate::Invariant;

verus! {

/// The metadata word of a fat handle.
#[derive(Clone, Copy, PartialEq, Eq, Structural, Debug)]
pub enum Metadata {
    /// A thin handle: the referent is sized, there is no metadata.
    Thin,
    /// The referent is a slice; the metadata is its element count.
    SliceLen(usize),
    /// The referent is behind dynamic dispatch; the metadata is the
    /// address of its dispatch table.
    DynTable(usize),
}

/// A read-only raw handle on a value of type `T`.
pub struct ConstHandle<T> {
    /// The address word.
    pub addr: usize,
    /// The metadata word.
    pub meta: Metadata,
    /// Phantom typing of the referent.
    pub typing: Invariant<T>,
}

/// A mutable raw handle on a value of type `T`.
pub struct MutHandle<T> {
    /// The address word.
    pub addr: usize,
    /// The metadata word.
    pub meta: Metadata,
    /// Phantom typing of the referent.
    pub typing: Invariant<T>,
}

/// A shared (aliasable, read-only) reference handle on a value of `T`.
pub struct SharedHandle<T> {
    /// The address word.
    pub addr: usize,
    /// The metadata word.
    pub meta: Metadata,
    /// Phantom typing of the referent.
    pub typing: Invariant<T>,
}

/// An exclusive (unique, writable) reference handle on a value of `T`.
///
/// Not duplicable: a split into field handles goes through a field set,
/// whose disjointness obligation makes the split sound.
pub struct ExclusiveHandle<T> {
    /// The address word.
    pub addr: usize,
    /// The metadata word.
    pub meta: Metadata,
    /// Phantom typing of the referent.
    pub typing: Invariant<T>,
}

/// A pinned handle: the referent will not be relocated for the life of
/// the handle.  Wraps a shared or an exclusive handle.
pub struct Pinned<H> {
    /// The handle whose referent is pinned.
    pub handle: H,
}

impl<T> ConstHandle<T> {
    /// A read-only raw handle from its two words.
    pub fn new(addr: usize, meta: Metadata) -> (r: ConstHandle<T>)
        ensures
            r.addr == addr,
            r.meta == meta,
    {
        ConstHandle { addr, meta, typing: Invariant::new() }
    }

}

impl<T> Clone for ConstHandle<T> {
    fn clone(&self) -> (r: Self)
        ensures
            r == *self,
    {
        ConstHandle { addr: self.addr, meta: self.meta, typing: self.typing }
    }
}

impl<T> Copy for ConstHandle<T> {}

impl<T> MutHandle<T> {
    /// A mutable raw handle from its two words.
    pub fn new(addr: usize, meta: Metadata) -> (r: MutHandle<T>)
        ensures
            r.addr == addr,
            r.meta == meta,
    {
        MutHandle { addr, meta, typing: Invariant::new() }
    }

    /// The same two words as a read-only raw handle.
    pub fn as_const(&self) -> (r: ConstHandle<T>)
        ensures
            r.addr == self.addr,
            r.meta == self.meta,
    {
        ConstHandle { addr: self.addr, meta: self.meta, typing: Invariant::new() }
    }
}

impl<T> Clone for MutHandle<T> {
    fn clone(&self) -> (r: Self)
        ensures
            r == *self,
    {
        MutHandle { addr: self.addr, meta: self.meta, typing: self.typing }
    }
}

impl<T> Copy for MutHandle<T> {}

impl<T> SharedHandle<T> {
    /// A shared reference handle from its two words.
    pub fn new(addr: usize, meta: Metadata) -> (r: SharedHandle<T>)
        ensures
            r.addr == addr,
            r.meta == meta,
    {
        SharedHandle { addr, meta, typing: Invariant::new() }
    }

    /// The underlying read-only raw handle.
    pub fn as_raw(&self) -> (r: ConstHandle<T>)
        ensures
            r.addr == self.addr,
            r.meta == self.meta,
    {
        ConstHandle { addr: self.addr, meta: self.meta, typing: Invariant::new() }
    }

}

impl<T> Clone for SharedHandle<T> {
    fn clone(&self) -> (r: Self)
        ensures
            r == *self,
    {
        SharedHandle { addr: self.addr, meta: self.meta, typing: self.typing }
    }
}

impl<T> Copy for SharedHandle<T> {}

impl<T> ExclusiveHandle<T> {
    /// An exclusive reference handle from its two words.  The caller
    /// asserts that no other handle on the referent is live.
    pub fn new(addr: usize, meta: Metadata) -> (r: ExclusiveHandle<T>)
        ensures
            r.addr == addr,
            r.meta == meta,
    {
        ExclusiveHandle { addr, meta, typing: Invariant::new() }
    }

    /// The underlying mutable raw handle.
    pub fn as_raw_mut(&self) -> (r: MutHandle<T>)
        ensures
            r.addr == self.addr,
            r.meta == self.meta,
    {
        MutHandle { addr: self.addr, meta: self.meta, typing: Invariant::new() }
    }
}

impl<H> Pinned<H> {
    /// Pins a handle.  The caller asserts that the referent will stay at
    /// its address for the life of the handle.
    pub fn new(handle: H) -> (r: Pinned<H>)
        ensures
            r.handle == handle,
    {
        Pinned { handle }
    }

    /// Gives the pinned handle up.
    pub fn into_inner(self) -> (r: H)
        ensures
            r == self.handle,
    {
        self.handle
    }
}

impl<T> Pinned<SharedHandle<T>> {
    /// A second pinned handle on the same referent; pinned shared
    /// references alias freely.
    pub fn dup(&self) -> (r: Pinned<SharedHandle<T>>)
        ensures
            r == *self,
    {
        Pinned { handle: self.handle }
    }
}

} // verus!
