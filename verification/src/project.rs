//! The projection entry points, specialised per handle kind.
//!
//! [`ProjectTo`](crate::ProjectTo) sends one handle through one field
//! capability; [`ProjectToSet`](crate::ProjectToSet) sends one handle
//! through a whole set.  Every kind reuses the same address arithmetic:
//! the kinds differ only in the wrapper around the output and in what the
//! caller owes (splitting an exclusive handle through a set demands the
//! set's disjointness).  Pinned handles have their own rule and live in
//! [`crate::pin`].

use vstd::prelude::*;
use crate::Field;
use crate::ProjectTo;
use crate::ProjectToSet;
use crate::addr::wrap_add;
use crate::handle::ConstHandle;
use crate::handle::MutHandle;
use crate::handle::SharedHandle;
use crate::handle::ExclusiveHandle;
use crate::set::FieldSet;

verus! {

impl<F: Field> ProjectTo<F> for ConstHandle<F::Parent> {
    type Projection = ConstHandle<F::Type>;

    open spec fn projection_ok(self, field: F, r: Self::Projection) -> bool {
        &&& r.addr == wrap_add(self.addr, field.offset_spec())
        &&& r.meta == self.meta
    }

    fn project_to(self, field: F) -> (r: Self::Projection) {
        field.project_raw(self)
    }
}

impl<F: Field> ProjectTo<F> for MutHandle<F::Parent> {
    type Projection = MutHandle<F::Type>;

    open spec fn projection_ok(self, field: F, r: Self::Projection) -> bool {
        &&& r.addr == wrap_add(self.addr, field.offset_spec())
        &&& r.meta == self.meta
    }

    fn project_to(self, field: F) -> (r: Self::Projection) {
        field.project_raw_mut(self)
    }
}

impl<F: Field> ProjectTo<F> for SharedHandle<F::Parent> {
    type Projection = SharedHandle<F::Type>;

    open spec fn projection_ok(self, field: F, r: Self::Projection) -> bool {
        &&& r.addr == wrap_add(self.addr, field.offset_spec())
        &&& r.meta == self.meta
    }

    fn project_to(self, field: F) -> (r: Self::Projection) {
        let h = field.project_raw(self.as_raw());
        SharedHandle::new(h.addr, h.meta)
    }
}

impl<F: Field> ProjectTo<F> for ExclusiveHandle<F::Parent> {
    type Projection = ExclusiveHandle<F::Type>;

    open spec fn projection_ok(self, field: F, r: Self::Projection) -> bool {
        &&& r.addr == wrap_add(self.addr, field.offset_spec())
        &&& r.meta == self.meta
    }

    fn project_to(self, field: F) -> (r: Self::Projection) {
        let h = field.project_raw_mut(self.as_raw_mut());
        ExclusiveHandle::new(h.addr, h.meta)
    }
}

impl<S: FieldSet> ProjectToSet<S> for ConstHandle<S::Parent> {
    type Projection = S::RawOut;

    open spec fn projection_req(self, field: S) -> bool {
        true
    }

    open spec fn projection_ok(self, field: S, r: Self::Projection) -> bool {
        field.raw_out_ok(self, r)
    }

    fn project_set_to(self, field: S) -> (r: Self::Projection) {
        field.project_raw_all(self)
    }
}

impl<S: FieldSet> ProjectToSet<S> for MutHandle<S::Parent> {
    type Projection = S::RawMutOut;

    open spec fn projection_req(self, field: S) -> bool {
        true
    }

    open spec fn projection_ok(self, field: S, r: Self::Projection) -> bool {
        field.raw_mut_out_ok(self, r)
    }

    fn project_set_to(self, field: S) -> (r: Self::Projection) {
        field.project_raw_mut_all(self)
    }
}

impl<S: FieldSet> ProjectToSet<S> for SharedHandle<S::Parent> {
    type Projection = S::SharedOut;

    open spec fn projection_req(self, field: S) -> bool {
        true
    }

    open spec fn projection_ok(self, field: S, r: Self::Projection) -> bool {
        field.shared_out_ok(self, r)
    }

    fn project_set_to(self, field: S) -> (r: Self::Projection) {
        field.project_shared_all(self)
    }
}

impl<S: FieldSet> ProjectToSet<S> for ExclusiveHandle<S::Parent> {
    type Projection = S::ExclusiveOut;

    open spec fn projection_req(self, field: S) -> bool {
        field.disjoint_spec()
    }

    open spec fn projection_ok(self, field: S, r: Self::Projection) -> bool {
        field.exclusive_out_ok(self, r)
    }

    fn project_set_to(self, field: S) -> (r: Self::Projection) {
        field.project_exclusive_all(self)
    }
}

} // verus!
