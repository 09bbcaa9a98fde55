//! Generic field projection.
//!
//! A field descriptor is a first-class value that stands for "a field
//! inside a parent aggregate": it carries the byte offset of the field and
//! phantom typing connecting the parent type to the field type.  Applying
//! a descriptor to a pointer-like handle on the parent yields a handle on
//! the field.  Descriptors compose (field of field of field) and group
//! into sets that split one parent handle into several field handles at
//! once.
//!
//! The crate manipulates handles as plain values: a handle is an address
//! word together with the metadata word of a fat pointer (a slice length
//! or a dispatch-table address), which every projection carries through
//! unchanged.  Dereferencing a projected handle is the caller's business;
//! the contracts here pin down the address arithmetic, the name paths and
//! the disjointness obligations exactly.

use vstd::prelude::*;
use core::marker::PhantomData;

pub mod addr;
pub mod handle;
pub mod descriptor;
pub mod chain;
pub mod set;
pub mod project;
pub mod pin;

use crate::addr::wrap_add;
use crate::handle::ConstHandle;
use crate::handle::MutHandle;

pub use crate::chain::Chain;
pub use crate::descriptor::FieldDescriptor;
pub use crate::descriptor::NamedField;
pub use crate::set::FieldSet;

verus! {

/// Phantom marker that ties a value to the type parameter `T` without
/// holding any data of it.  Used by descriptors and handles for their
/// parent and field typing.
pub struct Invariant<T>(pub PhantomData<T>);

impl<T> Invariant<T> {
    /// The one value of the marker.
    pub fn new() -> Invariant<T> {
        Invariant(PhantomData)
    }
}

impl<T> Clone for Invariant<T> {
    fn clone(&self) -> (r: Self)
        ensures
            r == *self,
    {
        Invariant(PhantomData)
    }
}

impl<T> Copy for Invariant<T> {}

/// A field capability: a value that stands for one field (or a nested
/// field) of the aggregate `Parent`, able to report its fully qualified
/// name path and to move a raw handle from the parent to the field.
///
/// Every projection is a pure function of the capability and the input
/// address: it adds `offset_spec()` bytes to the address word, wrapping
/// around the top of the address space, and carries the metadata word
/// through unchanged.  The mutable and the shared projector agree on the
/// address they produce.
pub trait Field: Sized {
    /// The aggregate the field lives in.
    type Parent;

    /// The type of the field itself.
    type Type;

    /// The byte offset of the field from the start of the parent, summed
    /// along the path for nested fields.
    spec fn offset_spec(&self) -> nat;

    /// The fully qualified name path from the parent to the field, one
    /// segment per level of nesting, outer first.
    spec fn path_spec(&self) -> Seq<Seq<char>>;

    /// The name path as segments, outer-to-inner.
    fn name(&self) -> (r: Vec<&'static str>)
        ensures
            r@.len() == self.path_spec().len(),
            forall|i: int| 0 <= i < r@.len() ==> r@[i]@ == self.path_spec()[i],
    ;

    /// Moves a read-only raw handle from the parent to the field.
    fn project_raw(&self, p: ConstHandle<Self::Parent>) -> (r: ConstHandle<Self::Type>)
        ensures
            r.addr == wrap_add(p.addr, self.offset_spec()),
            r.meta == p.meta,
    ;

    /// Moves a mutable raw handle from the parent to the field, to the
    /// same address as `project_raw`.
    fn project_raw_mut(&self, p: MutHandle<Self::Parent>) -> (r: MutHandle<Self::Type>)
        ensures
            r.addr == wrap_add(p.addr, self.offset_spec()),
            r.meta == p.meta,
    ;

}

impl<F: Field> Field for &F {
    type Parent = F::Parent;

    type Type = F::Type;

    #[verifier::inline]
    open spec fn offset_spec(&self) -> nat {
        (**self).offset_spec()
    }

    #[verifier::inline]
    open spec fn path_spec(&self) -> Seq<Seq<char>> {
        (**self).path_spec()
    }

    fn name(&self) -> (r: Vec<&'static str>) {
        (**self).name()
    }

    fn project_raw(&self, p: ConstHandle<F::Parent>) -> (r: ConstHandle<F::Type>) {
        (**self).project_raw(p)
    }

    fn project_raw_mut(&self, p: MutHandle<F::Parent>) -> (r: MutHandle<F::Type>) {
        (**self).project_raw_mut(p)
    }
}

/// Projects one handle kind through a single field capability.
///
/// Implemented once per handle kind; `projection_ok` pins the address and
/// the metadata of the output handle.
pub trait ProjectTo<F: Field>: Sized {
    /// The field handle produced for this handle kind.
    type Projection;

    /// Exactly which outputs the projection may return.
    spec fn projection_ok(self, field: F, r: Self::Projection) -> bool;

    /// Projects this handle to the given field.
    fn project_to(self, field: F) -> (r: Self::Projection)
        ensures
            self.projection_ok(field, r),
    ;
}

/// Projects one handle kind through a field set, yielding one field
/// handle per member in order.
///
/// `projection_req` is the obligation of the handle kind: splitting an
/// exclusive handle demands that the members of the set be pairwise
/// disjoint; the aliasable kinds demand nothing.
pub trait ProjectToSet<F: FieldSet>: Sized {
    /// The tuple of field handles produced for this handle kind.
    type Projection;

    /// What the caller owes before projecting.
    spec fn projection_req(self, field: F) -> bool;

    /// Exactly which outputs the projection may return.
    spec fn projection_ok(self, field: F, r: Self::Projection) -> bool;

    /// Projects this handle through every member of the set.
    fn project_set_to(self, field: F) -> (r: Self::Projection)
        requires
            self.projection_req(field),
        ensures
            self.projection_ok(field, r),
    ;
}

} // verus!
