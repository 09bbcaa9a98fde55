//! Projection of pinned handles.
//!
//! A pinned parent handle guarantees that the parent never relocates.
//! Whether that guarantee passes to a field is decided at the type
//! level, by wrapping the field capability: a [`Stable`] field is
//! declared address-stable and yields a pinned field handle, a
//! [`Relocatable`] field is declared free to move and yields a plain
//! field handle.  The address arithmetic is the same in both cases; only
//! the wrapper on the output differs.

use vstd::prelude::*;
use crate::Field;
use crate::ProjectTo;
use crate::addr::wrap_add;
use crate::handle::ConstHandle;
use crate::handle::MutHandle;
use crate::handle::SharedHandle;
use crate::handle::ExclusiveHandle;
use crate::handle::Pinned;
use crate::chain::Chain;
use crate::ProjectToSet;
use crate::set::FieldSet;

verus! {

/// A field declared address-stable: pinning the parent pins the field.
/// This is the conservative default for fields of a pinned aggregate.
pub struct Stable<F> {
    /// The capability that locates the field.
    pub field: F,
}

/// A field declared relocatable: projecting a pinned parent handle
/// through it gives an ordinary, unpinned field handle.
pub struct Relocatable<F> {
    /// The capability that locates the field.
    pub field: F,
}

impl<F: Copy> Clone for Stable<F> {
    fn clone(&self) -> (r: Self)
        ensures
            r == *self,
    {
        Stable { field: self.field }
    }
}

impl<F: Copy> Copy for Stable<F> {}

impl<F: Copy> Clone for Relocatable<F> {
    fn clone(&self) -> (r: Self)
        ensures
            r == *self,
    {
        Relocatable { field: self.field }
    }
}

impl<F: Copy> Copy for Relocatable<F> {}

impl<F> Stable<F> {
    /// Declares the field of `field` address-stable.
    pub fn new(field: F) -> (r: Stable<F>)
        ensures
            r.field == field,
    {
        Stable { field }
    }
}

impl<F> Relocatable<F> {
    /// Declares the field of `field` relocatable.
    pub fn new(field: F) -> (r: Relocatable<F>)
        ensures
            r.field == field,
    {
        Relocatable { field }
    }
}

impl<F: Field> Field for Stable<F> {
    type Parent = F::Parent;

    type Type = F::Type;

    open spec fn offset_spec(&self) -> nat {
        self.field.offset_spec()
    }

    open spec fn path_spec(&self) -> Seq<Seq<char>> {
        self.field.path_spec()
    }

    fn name(&self) -> (r: Vec<&'static str>) {
        self.field.name()
    }

    fn project_raw(&self, p: ConstHandle<F::Parent>) -> (r: ConstHandle<F::Type>) {
        self.field.project_raw(p)
    }

    fn project_raw_mut(&self, p: MutHandle<F::Parent>) -> (r: MutHandle<F::Type>) {
        self.field.project_raw_mut(p)
    }
}

impl<F: Field> Stable<F> {
    /// Composes this field with a capability that starts at its field's
    /// type.
    pub fn chain<G: Field<Parent = F::Type>>(self, inner: G) -> (r: Chain<Stable<F>, G>)
        ensures
            r.outer == self,
            r.inner == inner,
    {
        Chain::new(self, inner)
    }
}

impl<F: Field> Field for Relocatable<F> {
    type Parent = F::Parent;

    type Type = F::Type;

    open spec fn offset_spec(&self) -> nat {
        self.field.offset_spec()
    }

    open spec fn path_spec(&self) -> Seq<Seq<char>> {
        self.field.path_spec()
    }

    fn name(&self) -> (r: Vec<&'static str>) {
        self.field.name()
    }

    fn project_raw(&self, p: ConstHandle<F::Parent>) -> (r: ConstHandle<F::Type>) {
        self.field.project_raw(p)
    }

    fn project_raw_mut(&self, p: MutHandle<F::Parent>) -> (r: MutHandle<F::Type>) {
        self.field.project_raw_mut(p)
    }
}

impl<F: Field> Relocatable<F> {
    /// Composes this field with a capability that starts at its field's
    /// type.
    pub fn chain<G: Field<Parent = F::Type>>(self, inner: G) -> (r: Chain<Relocatable<F>, G>)
        ensures
            r.outer == self,
            r.inner == inner,
    {
        Chain::new(self, inner)
    }
}

impl<F: Field> ProjectTo<Stable<F>> for Pinned<SharedHandle<F::Parent>> {
    type Projection = Pinned<SharedHandle<F::Type>>;

    open spec fn projection_ok(self, field: Stable<F>, r: Self::Projection) -> bool {
        &&& r.handle.addr == wrap_add(self.handle.addr, field.field.offset_spec())
        &&& r.handle.meta == self.handle.meta
    }

    fn project_to(self, field: Stable<F>) -> (r: Self::Projection) {
        let h = field.field.project_raw(self.handle.as_raw());
        Pinned::new(SharedHandle::new(h.addr, h.meta))
    }
}

impl<F: Field> ProjectTo<Relocatable<F>> for Pinned<SharedHandle<F::Parent>> {
    type Projection = SharedHandle<F::Type>;

    open spec fn projection_ok(self, field: Relocatable<F>, r: Self::Projection) -> bool {
        &&& r.addr == wrap_add(self.handle.addr, field.field.offset_spec())
        &&& r.meta == self.handle.meta
    }

    fn project_to(self, field: Relocatable<F>) -> (r: Self::Projection) {
        let h = field.field.project_raw(self.handle.as_raw());
        SharedHandle::new(h.addr, h.meta)
    }
}

impl<F: Field> ProjectTo<Stable<F>> for Pinned<ExclusiveHandle<F::Parent>> {
    type Projection = Pinned<ExclusiveHandle<F::Type>>;

    open spec fn projection_ok(self, field: Stable<F>, r: Self::Projection) -> bool {
        &&& r.handle.addr == wrap_add(self.handle.addr, field.field.offset_spec())
        &&& r.handle.meta == self.handle.meta
    }

    fn project_to(self, field: Stable<F>) -> (r: Self::Projection) {
        let h = field.field.project_raw_mut(self.handle.as_raw_mut());
        Pinned::new(ExclusiveHandle::new(h.addr, h.meta))
    }
}

impl<F: Field> ProjectTo<Relocatable<F>> for Pinned<ExclusiveHandle<F::Parent>> {
    type Projection = ExclusiveHandle<F::Type>;

    open spec fn projection_ok(self, field: Relocatable<F>, r: Self::Projection) -> bool {
        &&& r.addr == wrap_add(self.handle.addr, field.field.offset_spec())
        &&& r.meta == self.handle.meta
    }

    fn project_to(self, field: Relocatable<F>) -> (r: Self::Projection) {
        let h = field.field.project_raw_mut(self.handle.as_raw_mut());
        ExclusiveHandle::new(h.addr, h.meta)
    }
}

impl<P, W1: Field<Parent = P>, W2: Field<Parent = P>> ProjectToSet<(W1, W2)> for Pinned<
    SharedHandle<P>,
> where
    Pinned<SharedHandle<P>>: ProjectTo<W1>,
    Pinned<SharedHandle<P>>: ProjectTo<W2>,
{
    type Projection = (
        <Pinned<SharedHandle<P>> as ProjectTo<W1>>::Projection,
        <Pinned<SharedHandle<P>> as ProjectTo<W2>>::Projection,
    );

    open spec fn projection_req(self, field: (W1, W2)) -> bool {
        true
    }

    open spec fn projection_ok(self, field: (W1, W2), r: Self::Projection) -> bool {
        &&& <Pinned<SharedHandle<P>> as ProjectTo<W1>>::projection_ok(self, field.0, r.0)
        &&& <Pinned<SharedHandle<P>> as ProjectTo<W2>>::projection_ok(self, field.1, r.1)
    }

    fn project_set_to(self, field: (W1, W2)) -> (r: Self::Projection) {
        let first = self.dup();
        let r0 = first.project_to(field.0);
        let r1 = self.project_to(field.1);
        (r0, r1)
    }
}

impl<P, W1: Field<Parent = P>, W2: Field<Parent = P>> ProjectToSet<(W1, W2)> for Pinned<
    ExclusiveHandle<P>,
> where
    Pinned<ExclusiveHandle<P>>: ProjectTo<W1>,
    Pinned<ExclusiveHandle<P>>: ProjectTo<W2>,
{
    type Projection = (
        <Pinned<ExclusiveHandle<P>> as ProjectTo<W1>>::Projection,
        <Pinned<ExclusiveHandle<P>> as ProjectTo<W2>>::Projection,
    );

    open spec fn projection_req(self, field: (W1, W2)) -> bool {
        field.disjoint_spec()
    }

    open spec fn projection_ok(self, field: (W1, W2), r: Self::Projection) -> bool {
        &&& <Pinned<ExclusiveHandle<P>> as ProjectTo<W1>>::projection_ok(self, field.0, r.0)
        &&& <Pinned<ExclusiveHandle<P>> as ProjectTo<W2>>::projection_ok(self, field.1, r.1)
    }

    fn project_set_to(self, field: (W1, W2)) -> (r: Self::Projection) {
        let first = Pinned {
            handle: ExclusiveHandle {
                addr: self.handle.addr,
                meta: self.handle.meta,
                typing: self.handle.typing,
            },
        };
        assert(first == self);
        let r0 = first.project_to(field.0);
        let r1 = self.project_to(field.1);
        (r0, r1)
    }
}

} // verus!
