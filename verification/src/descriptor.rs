//! Offset-based field descriptors.
//!
//! A [`FieldDescriptor`] is the smallest description of a field inside a
//! parent aggregate: a byte offset plus phantom `(Parent, Type)` typing.
//! Its projectors add the offset to the address word of a handle and
//! carry the metadata word through unchanged.  The checked projectors
//! wrap around the top of the address space and may be fed any address;
//! the unchecked ones demand that the sum stays inside the address space
//! and return the plain sum.
//!
//! A [`NamedField`] pairs a descriptor with its field name, which is what
//! a code-generation frontend emits for every named field of an
//! aggregate: the offset is then the true in-memory byte offset, and the
//! name path is the one-segment path `[name]`.

use vstd::prelude::*;
use crate::Invariant;
use crate::Field;
use crate::addr::wrap_add;
use crate::addr::wrapping_offset;
use crate::addr::lemma_wrap_add_exact;
use crate::handle::ConstHandle;
use crate::handle::MutHandle;
use crate::chain::Chain;

verus! {

/// A byte offset into `Parent` at which a value of type `Type` lies.
///
/// A well-formed descriptor holds the offset of one field of `Parent`
/// for every instance of `Parent`: the offset is a property of the type
/// layout, not of any one value.  The constructors put that claim in the
/// caller's hands; the projectors only do the arithmetic.
pub struct FieldDescriptor<Parent, Type> {
    /// The byte offset of the field from the start of the parent.
    pub offset: usize,
    /// Phantom typing of the parent and the field.
    pub field: Invariant<(Parent, Type)>,
}

impl<Parent, Type> FieldDescriptor<Parent, Type> {
    /// A descriptor from a bare offset.  The caller asserts that `offset`
    /// is a valid field offset for `(Parent, Type)`.
    pub fn from_offset(offset: usize) -> (r: FieldDescriptor<Parent, Type>)
        ensures
            r.offset == offset,
    {
        FieldDescriptor { offset, field: Invariant::new() }
    }

    /// A descriptor from two handles into the same live allocation: the
    /// field's address minus the parent's address.  Metadata plays no
    /// part; only the address words are read.  On handles into different
    /// allocations the result is meaningless.
    pub fn from_pointers(parent: &MutHandle<Parent>, field: &MutHandle<Type>) -> (r:
        FieldDescriptor<Parent, Type>)
        requires
            parent.addr <= field.addr,
        ensures
            r.offset == field.addr - parent.addr,
    {
        FieldDescriptor { offset: field.addr - parent.addr, field: Invariant::new() }
    }

    /// Projects a read-only raw handle on the parent to the field,
    /// wrapping around the top of the address space.  Safe on any
    /// address; dereferencing the result is the caller's obligation.
    pub fn project_raw(&self, parent: ConstHandle<Parent>) -> (r: ConstHandle<Type>)
        ensures
            r.addr == wrap_add(parent.addr, self.offset as nat),
            r.meta == parent.meta,
    {
        ConstHandle::new(wrapping_offset(parent.addr, self.offset), parent.meta)
    }

    /// Projects a mutable raw handle on the parent to the field, wrapping
    /// around the top of the address space; lands on the same address as
    /// `project_raw`.
    pub fn project_raw_mut(&self, parent: MutHandle<Parent>) -> (r: MutHandle<Type>)
        ensures
            r.addr == wrap_add(parent.addr, self.offset as nat),
            r.meta == parent.meta,
    {
        MutHandle::new(wrapping_offset(parent.addr, self.offset), parent.meta)
    }

    /// Projects a read-only raw handle without wrapping: the caller
    /// guarantees that the field stays inside the address space.
    pub fn project_raw_unchecked(&self, parent: ConstHandle<Parent>) -> (r: ConstHandle<Type>)
        requires
            parent.addr + self.offset <= usize::MAX,
        ensures
            r.addr == parent.addr + self.offset,
            r.meta == parent.meta,
    {
        ConstHandle::new(parent.addr + self.offset, parent.meta)
    }

    /// Projects a mutable raw handle without wrapping: the caller
    /// guarantees that the field stays inside the address space.
    pub fn project_raw_mut_unchecked(&self, parent: MutHandle<Parent>) -> (r: MutHandle<Type>)
        requires
            parent.addr + self.offset <= usize::MAX,
        ensures
            r.addr == parent.addr + self.offset,
            r.meta == parent.meta,
    {
        MutHandle::new(parent.addr + self.offset, parent.meta)
    }
}

impl<Parent, Type> Clone for FieldDescriptor<Parent, Type> {
    fn clone(&self) -> (r: Self)
        ensures
            r == *self,
    {
        FieldDescriptor { offset: self.offset, field: self.field }
    }
}

impl<Parent, Type> Copy for FieldDescriptor<Parent, Type> {}

/// Offset correctness: whenever the field stays inside the address
/// space, the projected address minus the parent address is exactly the
/// descriptor's offset, on every parent address alike.
pub proof fn lemma_offset_correctness<Parent, Type>(
    d: FieldDescriptor<Parent, Type>,
    addr: usize,
)
    requires
        addr + d.offset <= usize::MAX,
    ensures
        wrap_add(addr, d.offset as nat) - addr == d.offset,
{
    lemma_wrap_add_exact(addr, d.offset as nat);
}

/// A descriptor together with the name of the field it points at: the
/// shape a code-generation frontend emits once per named field of an
/// aggregate.
pub struct NamedField<Parent, Type> {
    /// Where the field lies.
    pub descriptor: FieldDescriptor<Parent, Type>,
    /// The field's name: the single segment of its name path.
    pub segment: &'static str,
}

impl<Parent, Type> Clone for NamedField<Parent, Type> {
    fn clone(&self) -> (r: Self)
        ensures
            r == *self,
    {
        NamedField { descriptor: self.descriptor, segment: self.segment }
    }
}

impl<Parent, Type> Copy for NamedField<Parent, Type> {}

impl<Parent, Type> NamedField<Parent, Type> {
    /// A named field from its name and its byte offset inside the
    /// parent.  The caller asserts that the offset is the field's true
    /// offset and that the name is unique among the parent's fields.
    pub fn new(segment: &'static str, offset: usize) -> (r: NamedField<Parent, Type>)
        ensures
            r.segment@ == segment@,
            r.descriptor.offset == offset,
    {
        NamedField { descriptor: FieldDescriptor::from_offset(offset), segment }
    }

    /// Composes this field with a capability that starts at this field's
    /// type.
    pub fn chain<G: Field<Parent = Type>>(self, inner: G) -> (r: Chain<
        NamedField<Parent, Type>,
        G,
    >)
        ensures
            r.outer == self,
            r.inner == inner,
    {
        Chain::new(self, inner)
    }
}

impl<Parent, Type> Field for NamedField<Parent, Type> {
    type Parent = Parent;

    type Type = Type;

    open spec fn offset_spec(&self) -> nat {
        self.descriptor.offset as nat
    }

    open spec fn path_spec(&self) -> Seq<Seq<char>> {
        seq![self.segment@]
    }

    fn name(&self) -> (r: Vec<&'static str>) {
        let mut v: Vec<&'static str> = Vec::new();
        v.push(self.segment);
        v
    }

    fn project_raw(&self, p: ConstHandle<Parent>) -> (r: ConstHandle<Type>) {
        self.descriptor.project_raw(p)
    }

    fn project_raw_mut(&self, p: MutHandle<Parent>) -> (r: MutHandle<Type>) {
        self.descriptor.project_raw_mut(p)
    }
}

/// Name uniqueness for single fields: two named fields whose names
/// differ have different name paths.
pub proof fn lemma_distinct_segments_distinct_paths<Parent, T1, T2>(
    f: NamedField<Parent, T1>,
    g: NamedField<Parent, T2>,
)
    requires
        f.segment@ != g.segment@,
    ensures
        f.path_spec() != g.path_spec(),
{
    assert(f.path_spec()[0] == f.segment@);
    assert(g.path_spec()[0] == g.segment@);
}

} // verus!
