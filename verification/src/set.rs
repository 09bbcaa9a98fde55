//! Field sets: ordered tuples of field capabilities with one parent.
//!
//! A set projects a parent handle into one field handle per member, in
//! order, in a single call.  Splitting an *exclusive* parent handle this
//! way is sound only when the members' byte spans are pairwise disjoint;
//! that obligation is the precondition of the exclusive projection, and
//! the aliasable kinds carry no obligation at all.
//!
//! Tuples of up to eight members implement [`FieldSet`].

use vstd::prelude::*;
use vstd::layout::size_of;
use crate::Field;
use crate::ProjectTo;
use crate::addr::wrap_add;
use crate::addr::lemma_wrap_add_exact;
use crate::handle::ConstHandle;
use crate::handle::MutHandle;
use crate::handle::SharedHandle;
use crate::handle::ExclusiveHandle;

verus! {

/// Two byte spans `[o1, o1 + s1)` and `[o2, o2 + s2)` do not overlap.
pub open spec fn span_disjoint(o1: nat, s1: nat, o2: nat, s2: nat) -> bool {
    o1 + s1 <= o2 || o2 + s2 <= o1
}

/// Every pair of distinct spans among `(offsets[i], sizes[i])` is
/// disjoint.
pub open spec fn spans_disjoint(offsets: Seq<nat>, sizes: Seq<nat>) -> bool {
    forall|i: int, j: int|
        0 <= i < offsets.len() && 0 <= j < offsets.len() && i != j ==> #[trigger] span_disjoint(
            offsets[i],
            sizes[i],
            offsets[j],
            sizes[j],
        )
}

/// Decides `span_disjoint` on machine words, without overflowing.
pub fn spans_are_disjoint(o1: usize, s1: usize, o2: usize, s2: usize) -> (r: bool)
    ensures
        r == span_disjoint(o1 as nat, s1 as nat, o2 as nat, s2 as nat),
{
    (o1 <= o2 && s1 <= o2 - o1) || (o2 <= o1 && s2 <= o1 - o2)
}

/// Decides `spans_disjoint` over a whole layout: `offsets[i]` and
/// `sizes[i]` describe the byte span of one field each.
pub fn all_spans_disjoint(offsets: &Vec<usize>, sizes: &Vec<usize>) -> (r: bool)
    requires
        offsets@.len() == sizes@.len(),
    ensures
        r == spans_disjoint(
            offsets@.map_values(|o: usize| o as nat),
            sizes@.map_values(|s: usize| s as nat),
        ),
{
    let ghost off_seq: Seq<nat> = offsets@.map_values(|o: usize| o as nat);
    let ghost size_seq: Seq<nat> = sizes@.map_values(|s: usize| s as nat);
    let n: usize = offsets.len();
    let mut i: usize = 0;
    while i < n
        invariant
            offsets@.len() == sizes@.len(),
            n == offsets@.len(),
            off_seq == offsets@.map_values(|o: usize| o as nat),
            size_seq == sizes@.map_values(|s: usize| s as nat),
            i <= n,
            forall|ii: int, jj: int|
                0 <= ii < i && 0 <= jj < n && ii != jj ==> #[trigger] span_disjoint(
                    off_seq[ii],
                    size_seq[ii],
                    off_seq[jj],
                    size_seq[jj],
                ),
        decreases n - i,
    {
        let mut j: usize = 0;
        while j < n
            invariant
                offsets@.len() == sizes@.len(),
                n == offsets@.len(),
                off_seq == offsets@.map_values(|o: usize| o as nat),
                size_seq == sizes@.map_values(|s: usize| s as nat),
                i < n,
                j <= n,
                forall|ii: int, jj: int|
                    0 <= ii < i && 0 <= jj < n && ii != jj ==> #[trigger] span_disjoint(
                        off_seq[ii],
                        size_seq[ii],
                        off_seq[jj],
                        size_seq[jj],
                    ),
                forall|jj: int|
                    0 <= jj < j && jj != i ==> #[trigger] span_disjoint(
                        off_seq[i as int],
                        size_seq[i as int],
                        off_seq[jj],
                        size_seq[jj],
                    ),
            decreases n - j,
        {
            if j != i {
                if !spans_are_disjoint(offsets[i], sizes[i], offsets[j], sizes[j]) {
                    assert(!span_disjoint(
                        off_seq[i as int],
                        size_seq[i as int],
                        off_seq[j as int],
                        size_seq[j as int],
                    ));
                    return false;
                }
            }
            j += 1;
        }
        i += 1;
    }
    true
}

/// An aliasing-free set stays aliasing-free after projection: when two
/// fields' spans are disjoint inside the parent, the spans of the two
/// projected handles are disjoint in memory, on any parent address from
/// which both fields stay inside the address space.
pub proof fn lemma_disjoint_spans_after_projection(
    addr: usize,
    o1: nat,
    s1: nat,
    o2: nat,
    s2: nat,
)
    requires
        span_disjoint(o1, s1, o2, s2),
        addr + o1 + s1 <= usize::MAX,
        addr + o2 + s2 <= usize::MAX,
    ensures
        span_disjoint(wrap_add(addr, o1) as nat, s1, wrap_add(addr, o2) as nat, s2),
{
    lemma_wrap_add_exact(addr, o1);
    lemma_wrap_add_exact(addr, o2);
}

/// An aliasing-free pair splits into handles on non-overlapping memory:
/// when a two-member set meets its disjointness obligation and both
/// fields stay inside the address space, the byte spans of the two
/// projected handles do not overlap, so both may be written through at
/// once.
pub proof fn lemma_exclusive_split_aliasing_free<A: Field, B: Field<Parent = A::Parent>>(
    s: (A, B),
    addr: usize,
)
    requires
        s.disjoint_spec(),
        addr + s.0.offset_spec() + size_of::<A::Type>() <= usize::MAX,
        addr + s.1.offset_spec() + size_of::<B::Type>() <= usize::MAX,
    ensures
        span_disjoint(
            wrap_add(addr, s.0.offset_spec()) as nat,
            size_of::<A::Type>(),
            wrap_add(addr, s.1.offset_spec()) as nat,
            size_of::<B::Type>(),
        ),
{
    lemma_disjoint_spans_after_projection(
        addr,
        s.0.offset_spec(),
        size_of::<A::Type>(),
        s.1.offset_spec(),
        size_of::<B::Type>(),
    );
}

/// A singleton set is its single field: the output the set may return
/// for a raw parent handle is exactly the output the member's own
/// projection may return.
pub proof fn lemma_singleton_set_equals_field<A: Field>(
    s: (A,),
    p: ConstHandle<A::Parent>,
    r: ConstHandle<A::Type>,
)
    ensures
        s.raw_out_ok(p, (r,)) <==> <ConstHandle<A::Parent> as ProjectTo<A>>::projection_ok(
            p,
            s.0,
            r,
        ),
{
}

/// An ordered tuple of field capabilities sharing one parent, projected
/// member by member in one call.
pub trait FieldSet: Sized {
    /// The aggregate all members project out of.
    type Parent;

    /// One read-only raw handle per member, in order.
    type RawOut;

    /// One mutable raw handle per member, in order.
    type RawMutOut;

    /// One shared reference handle per member, in order.
    type SharedOut;

    /// One exclusive reference handle per member, in order.
    type ExclusiveOut;

    /// The members' byte spans, `[offset, offset + size_of(field type))`
    /// each, are pairwise disjoint.
    spec fn disjoint_spec(&self) -> bool;

    /// Exactly which read-only raw outputs the set may return: each
    /// member's offset added to the parent address, metadata unchanged.
    spec fn raw_out_ok(&self, p: ConstHandle<Self::Parent>, r: Self::RawOut) -> bool;

    /// Exactly which mutable raw outputs the set may return.
    spec fn raw_mut_out_ok(&self, p: MutHandle<Self::Parent>, r: Self::RawMutOut) -> bool;

    /// Exactly which shared outputs the set may return.
    spec fn shared_out_ok(&self, p: SharedHandle<Self::Parent>, r: Self::SharedOut) -> bool;

    /// Exactly which exclusive outputs the set may return.
    spec fn exclusive_out_ok(&self, p: ExclusiveHandle<Self::Parent>, r: Self::ExclusiveOut) -> bool;

    /// Projects a read-only raw parent handle into one raw handle per
    /// member.
    fn project_raw_all(&self, p: ConstHandle<Self::Parent>) -> (r: Self::RawOut)
        ensures
            self.raw_out_ok(p, r),
    ;

    /// Projects a mutable raw parent handle into one mutable raw handle
    /// per member.
    fn project_raw_mut_all(&self, p: MutHandle<Self::Parent>) -> (r: Self::RawMutOut)
        ensures
            self.raw_mut_out_ok(p, r),
    ;

    /// Projects a shared parent handle into one shared handle per
    /// member; shared handles alias freely, so nothing is owed.
    fn project_shared_all(&self, p: SharedHandle<Self::Parent>) -> (r: Self::SharedOut)
        ensures
            self.shared_out_ok(p, r),
    ;

    /// Splits an exclusive parent handle into one exclusive handle per
    /// member.  Sound only for an aliasing-free set: the members' spans
    /// must be pairwise disjoint.
    fn project_exclusive_all(&self, p: ExclusiveHandle<Self::Parent>) -> (r: Self::ExclusiveOut)
        requires
            self.disjoint_spec(),
        ensures
            self.exclusive_out_ok(p, r),
    ;
}

impl<A: Field> FieldSet for (A,) {
    type Parent = A::Parent;

    type RawOut = (ConstHandle<A::Type>,);

    type RawMutOut = (MutHandle<A::Type>,);

    type SharedOut = (SharedHandle<A::Type>,);

    type ExclusiveOut = (ExclusiveHandle<A::Type>,);

    open spec fn disjoint_spec(&self) -> bool {
        true
    }

    open spec fn raw_out_ok(&self, p: ConstHandle<A::Parent>, r: Self::RawOut) -> bool {
        &&& r.0.addr == wrap_add(p.addr, self.0.offset_spec())
        &&& r.0.meta == p.meta
    }

    open spec fn raw_mut_out_ok(&self, p: MutHandle<A::Parent>, r: Self::RawMutOut) -> bool {
        &&& r.0.addr == wrap_add(p.addr, self.0.offset_spec())
        &&& r.0.meta == p.meta
    }

    open spec fn shared_out_ok(&self, p: SharedHandle<A::Parent>, r: Self::SharedOut) -> bool {
        &&& r.0.addr == wrap_add(p.addr, self.0.offset_spec())
        &&& r.0.meta == p.meta
    }

    open spec fn exclusive_out_ok(
        &self,
        p: ExclusiveHandle<A::Parent>,
        r: Self::ExclusiveOut,
    ) -> bool {
        &&& r.0.addr == wrap_add(p.addr, self.0.offset_spec())
        &&& r.0.meta == p.meta
    }

    fn project_raw_all(&self, p: ConstHandle<A::Parent>) -> (r: Self::RawOut) {
        (self.0.project_raw(p),)
    }

    fn project_raw_mut_all(&self, p: MutHandle<A::Parent>) -> (r: Self::RawMutOut) {
        (self.0.project_raw_mut(p),)
    }

    fn project_shared_all(&self, p: SharedHandle<A::Parent>) -> (r: Self::SharedOut) {
        let h = self.0.project_raw(p.as_raw());
        (SharedHandle::new(h.addr, h.meta),)
    }

    fn project_exclusive_all(&self, p: ExclusiveHandle<A::Parent>) -> (r: Self::ExclusiveOut) {
        let h = self.0.project_raw_mut(p.as_raw_mut());
        (ExclusiveHandle::new(h.addr, h.meta),)
    }
}

impl<A: Field, B: Field<Parent = A::Parent>> FieldSet for (A, B) {
    type Parent = A::Parent;

    type RawOut = (ConstHandle<A::Type>, ConstHandle<B::Type>);

    type RawMutOut = (MutHandle<A::Type>, MutHandle<B::Type>);

    type SharedOut = (SharedHandle<A::Type>, SharedHandle<B::Type>);

    type ExclusiveOut = (ExclusiveHandle<A::Type>, ExclusiveHandle<B::Type>);

    open spec fn disjoint_spec(&self) -> bool {
        span_disjoint(
            self.0.offset_spec(),
            size_of::<A::Type>(),
            self.1.offset_spec(),
            size_of::<B::Type>(),
        )
    }

    open spec fn raw_out_ok(&self, p: ConstHandle<A::Parent>, r: Self::RawOut) -> bool {
        &&& r.0.addr == wrap_add(p.addr, self.0.offset_spec())
        &&& r.0.meta == p.meta
        &&& r.1.addr == wrap_add(p.addr, self.1.offset_spec())
        &&& r.1.meta == p.meta
    }

    open spec fn raw_mut_out_ok(&self, p: MutHandle<A::Parent>, r: Self::RawMutOut) -> bool {
        &&& r.0.addr == wrap_add(p.addr, self.0.offset_spec())
        &&& r.0.meta == p.meta
        &&& r.1.addr == wrap_add(p.addr, self.1.offset_spec())
        &&& r.1.meta == p.meta
    }

    open spec fn shared_out_ok(&self, p: SharedHandle<A::Parent>, r: Self::SharedOut) -> bool {
        &&& r.0.addr == wrap_add(p.addr, self.0.offset_spec())
        &&& r.0.meta == p.meta
        &&& r.1.addr == wrap_add(p.addr, self.1.offset_spec())
        &&& r.1.meta == p.meta
    }

    open spec fn exclusive_out_ok(
        &self,
        p: ExclusiveHandle<A::Parent>,
        r: Self::ExclusiveOut,
    ) -> bool {
        &&& r.0.addr == wrap_add(p.addr, self.0.offset_spec())
        &&& r.0.meta == p.meta
        &&& r.1.addr == wrap_add(p.addr, self.1.offset_spec())
        &&& r.1.meta == p.meta
    }

    fn project_raw_all(&self, p: ConstHandle<A::Parent>) -> (r: Self::RawOut) {
        let h0 = self.0.project_raw(p);
        let h1 = self.1.project_raw(p);
        (h0, h1)
    }

    fn project_raw_mut_all(&self, p: MutHandle<A::Parent>) -> (r: Self::RawMutOut) {
        let h0 = self.0.project_raw_mut(p);
        let h1 = self.1.project_raw_mut(p);
        (h0, h1)
    }

    fn project_shared_all(&self, p: SharedHandle<A::Parent>) -> (r: Self::SharedOut) {
        let h0 = self.0.project_raw(p.as_raw());
        let h1 = self.1.project_raw(p.as_raw());
        (SharedHandle::new(h0.addr, h0.meta), SharedHandle::new(h1.addr, h1.meta))
    }

    fn project_exclusive_all(&self, p: ExclusiveHandle<A::Parent>) -> (r: Self::ExclusiveOut) {
        let raw = p.as_raw_mut();
        let h0 = self.0.project_raw_mut(raw);
        let h1 = self.1.project_raw_mut(raw);
        (ExclusiveHandle::new(h0.addr, h0.meta), ExclusiveHandle::new(h1.addr, h1.meta))
    }
}

impl<A: Field, B: Field<Parent = A::Parent>, C: Field<Parent = A::Parent>> FieldSet for (A, B, C) {
    type Parent = A::Parent;

    type RawOut = (ConstHandle<A::Type>, ConstHandle<B::Type>, ConstHandle<C::Type>);

    type RawMutOut = (MutHandle<A::Type>, MutHandle<B::Type>, MutHandle<C::Type>);

    type SharedOut = (SharedHandle<A::Type>, SharedHandle<B::Type>, SharedHandle<C::Type>);

    type ExclusiveOut = (
        ExclusiveHandle<A::Type>,
        ExclusiveHandle<B::Type>,
        ExclusiveHandle<C::Type>,
    );

    open spec fn disjoint_spec(&self) -> bool {
        &&& span_disjoint(
            self.0.offset_spec(),
            size_of::<A::Type>(),
            self.1.offset_spec(),
            size_of::<B::Type>(),
        )
        &&& span_disjoint(
            self.0.offset_spec(),
            size_of::<A::Type>(),
            self.2.offset_spec(),
            size_of::<C::Type>(),
        )
        &&& span_disjoint(
            self.1.offset_spec(),
            size_of::<B::Type>(),
            self.2.offset_spec(),
            size_of::<C::Type>(),
        )
    }

    open spec fn raw_out_ok(&self, p: ConstHandle<A::Parent>, r: Self::RawOut) -> bool {
        &&& r.0.addr == wrap_add(p.addr, self.0.offset_spec())
        &&& r.0.meta == p.meta
        &&& r.1.addr == wrap_add(p.addr, self.1.offset_spec())
        &&& r.1.meta == p.meta
        &&& r.2.addr == wrap_add(p.addr, self.2.offset_spec())
        &&& r.2.meta == p.meta
    }

    open spec fn raw_mut_out_ok(&self, p: MutHandle<A::Parent>, r: Self::RawMutOut) -> bool {
        &&& r.0.addr == wrap_add(p.addr, self.0.offset_spec())
        &&& r.0.meta == p.meta
        &&& r.1.addr == wrap_add(p.addr, self.1.offset_spec())
        &&& r.1.meta == p.meta
        &&& r.2.addr == wrap_add(p.addr, self.2.offset_spec())
        &&& r.2.meta == p.meta
    }

    open spec fn shared_out_ok(&self, p: SharedHandle<A::Parent>, r: Self::SharedOut) -> bool {
        &&& r.0.addr == wrap_add(p.addr, self.0.offset_spec())
        &&& r.0.meta == p.meta
        &&& r.1.addr == wrap_add(p.addr, self.1.offset_spec())
        &&& r.1.meta == p.meta
        &&& r.2.addr == wrap_add(p.addr, self.2.offset_spec())
        &&& r.2.meta == p.meta
    }

    open spec fn exclusive_out_ok(
        &self,
        p: ExclusiveHandle<A::Parent>,
        r: Self::ExclusiveOut,
    ) -> bool {
        &&& r.0.addr == wrap_add(p.addr, self.0.offset_spec())
        &&& r.0.meta == p.meta
        &&& r.1.addr == wrap_add(p.addr, self.1.offset_spec())
        &&& r.1.meta == p.meta
        &&& r.2.addr == wrap_add(p.addr, self.2.offset_spec())
        &&& r.2.meta == p.meta
    }

    fn project_raw_all(&self, p: ConstHandle<A::Parent>) -> (r: Self::RawOut) {
        let h0 = self.0.project_raw(p);
        let h1 = self.1.project_raw(p);
        let h2 = self.2.project_raw(p);
        (h0, h1, h2)
    }

    fn project_raw_mut_all(&self, p: MutHandle<A::Parent>) -> (r: Self::RawMutOut) {
        let h0 = self.0.project_raw_mut(p);
        let h1 = self.1.project_raw_mut(p);
        let h2 = self.2.project_raw_mut(p);
        (h0, h1, h2)
    }

    fn project_shared_all(&self, p: SharedHandle<A::Parent>) -> (r: Self::SharedOut) {
        let h0 = self.0.project_raw(p.as_raw());
        let h1 = self.1.project_raw(p.as_raw());
        let h2 = self.2.project_raw(p.as_raw());
        (
            SharedHandle::new(h0.addr, h0.meta),
            SharedHandle::new(h1.addr, h1.meta),
            SharedHandle::new(h2.addr, h2.meta),
        )
    }

    fn project_exclusive_all(&self, p: ExclusiveHandle<A::Parent>) -> (r: Self::ExclusiveOut) {
        let raw = p.as_raw_mut();
        let h0 = self.0.project_raw_mut(raw);
        let h1 = self.1.project_raw_mut(raw);
        let h2 = self.2.project_raw_mut(raw);
        (
            ExclusiveHandle::new(h0.addr, h0.meta),
            ExclusiveHandle::new(h1.addr, h1.meta),
            ExclusiveHandle::new(h2.addr, h2.meta),
        )
    }
}

impl<
    A: Field,
    B: Field<Parent = A::Parent>,
    C: Field<Parent = A::Parent>,
    D: Field<Parent = A::Parent>,
> FieldSet for (A, B, C, D) {
    type Parent = A::Parent;

    type RawOut = (
        ConstHandle<A::Type>,
        ConstHandle<B::Type>,
        ConstHandle<C::Type>,
        ConstHandle<D::Type>,
    );

    type RawMutOut = (
        MutHandle<A::Type>,
        MutHandle<B::Type>,
        MutHandle<C::Type>,
        MutHandle<D::Type>,
    );

    type SharedOut = (
        SharedHandle<A::Type>,
        SharedHandle<B::Type>,
        SharedHandle<C::Type>,
        SharedHandle<D::Type>,
    );

    type ExclusiveOut = (
        ExclusiveHandle<A::Type>,
        ExclusiveHandle<B::Type>,
        ExclusiveHandle<C::Type>,
        ExclusiveHandle<D::Type>,
    );

    open spec fn disjoint_spec(&self) -> bool {
        &&& span_disjoint(
            self.0.offset_spec(),
            size_of::<A::Type>(),
            self.1.offset_spec(),
            size_of::<B::Type>(),
        )
        &&& span_disjoint(
            self.0.offset_spec(),
            size_of::<A::Type>(),
            self.2.offset_spec(),
            size_of::<C::Type>(),
        )
        &&& span_disjoint(
            self.0.offset_spec(),
            size_of::<A::Type>(),
            self.3.offset_spec(),
            size_of::<D::Type>(),
        )
        &&& span_disjoint(
            self.1.offset_spec(),
            size_of::<B::Type>(),
            self.2.offset_spec(),
            size_of::<C::Type>(),
        )
        &&& span_disjoint(
            self.1.offset_spec(),
            size_of::<B::Type>(),
            self.3.offset_spec(),
            size_of::<D::Type>(),
        )
        &&& span_disjoint(
            self.2.offset_spec(),
            size_of::<C::Type>(),
            self.3.offset_spec(),
            size_of::<D::Type>(),
        )
    }

    open spec fn raw_out_ok(&self, p: ConstHandle<A::Parent>, r: Self::RawOut) -> bool {
        &&& r.0.addr == wrap_add(p.addr, self.0.offset_spec())
        &&& r.0.meta == p.meta
        &&& r.1.addr == wrap_add(p.addr, self.1.offset_spec())
        &&& r.1.meta == p.meta
        &&& r.2.addr == wrap_add(p.addr, self.2.offset_spec())
        &&& r.2.meta == p.meta
        &&& r.3.addr == wrap_add(p.addr, self.3.offset_spec())
        &&& r.3.meta == p.meta
    }

    open spec fn raw_mut_out_ok(&self, p: MutHandle<A::Parent>, r: Self::RawMutOut) -> bool {
        &&& r.0.addr == wrap_add(p.addr, self.0.offset_spec())
        &&& r.0.meta == p.meta
        &&& r.1.addr == wrap_add(p.addr, self.1.offset_spec())
        &&& r.1.meta == p.meta
        &&& r.2.addr == wrap_add(p.addr, self.2.offset_spec())
        &&& r.2.meta == p.meta
        &&& r.3.addr == wrap_add(p.addr, self.3.offset_spec())
        &&& r.3.meta == p.meta
    }

    open spec fn shared_out_ok(&self, p: SharedHandle<A::Parent>, r: Self::SharedOut) -> bool {
        &&& r.0.addr == wrap_add(p.addr, self.0.offset_spec())
        &&& r.0.meta == p.meta
        &&& r.1.addr == wrap_add(p.addr, self.1.offset_spec())
        &&& r.1.meta == p.meta
        &&& r.2.addr == wrap_add(p.addr, self.2.offset_spec())
        &&& r.2.meta == p.meta
        &&& r.3.addr == wrap_add(p.addr, self.3.offset_spec())
        &&& r.3.meta == p.meta
    }

    open spec fn exclusive_out_ok(
        &self,
        p: ExclusiveHandle<A::Parent>,
        r: Self::ExclusiveOut,
    ) -> bool {
        &&& r.0.addr == wrap_add(p.addr, self.0.offset_spec())
        &&& r.0.meta == p.meta
        &&& r.1.addr == wrap_add(p.addr, self.1.offset_spec())
        &&& r.1.meta == p.meta
        &&& r.2.addr == wrap_add(p.addr, self.2.offset_spec())
        &&& r.2.meta == p.meta
        &&& r.3.addr == wrap_add(p.addr, self.3.offset_spec())
        &&& r.3.meta == p.meta
    }

    fn project_raw_all(&self, p: ConstHandle<A::Parent>) -> (r: Self::RawOut) {
        let h0 = self.0.project_raw(p);
        let h1 = self.1.project_raw(p);
        let h2 = self.2.project_raw(p);
        let h3 = self.3.project_raw(p);
        (h0, h1, h2, h3)
    }

    fn project_raw_mut_all(&self, p: MutHandle<A::Parent>) -> (r: Self::RawMutOut) {
        let h0 = self.0.project_raw_mut(p);
        let h1 = self.1.project_raw_mut(p);
        let h2 = self.2.project_raw_mut(p);
        let h3 = self.3.project_raw_mut(p);
        (h0, h1, h2, h3)
    }

    fn project_shared_all(&self, p: SharedHandle<A::Parent>) -> (r: Self::SharedOut) {
        let h0 = self.0.project_raw(p.as_raw());
        let h1 = self.1.project_raw(p.as_raw());
        let h2 = self.2.project_raw(p.as_raw());
        let h3 = self.3.project_raw(p.as_raw());
        (
            SharedHandle::new(h0.addr, h0.meta),
            SharedHandle::new(h1.addr, h1.meta),
            SharedHandle::new(h2.addr, h2.meta),
            SharedHandle::new(h3.addr, h3.meta),
        )
    }

    fn project_exclusive_all(&self, p: ExclusiveHandle<A::Parent>) -> (r: Self::ExclusiveOut) {
        let raw = p.as_raw_mut();
        let h0 = self.0.project_raw_mut(raw);
        let h1 = self.1.project_raw_mut(raw);
        let h2 = self.2.project_raw_mut(raw);
        let h3 = self.3.project_raw_mut(raw);
        (
            ExclusiveHandle::new(h0.addr, h0.meta),
            ExclusiveHandle::new(h1.addr, h1.meta),
            ExclusiveHandle::new(h2.addr, h2.meta),
            ExclusiveHandle::new(h3.addr, h3.meta),
        )
    }
}

impl<
    A: Field,
    B: Field<Parent = A::Parent>,
    C: Field<Parent = A::Parent>,
    D: Field<Parent = A::Parent>,
    E: Field<Parent = A::Parent>,
> FieldSet for (A, B, C, D, E) {
    type Parent = A::Parent;

    type RawOut = (
        ConstHandle<A::Type>,
        ConstHandle<B::Type>,
        ConstHandle<C::Type>,
        ConstHandle<D::Type>,
        ConstHandle<E::Type>,
    );

    type RawMutOut = (
        MutHandle<A::Type>,
        MutHandle<B::Type>,
        MutHandle<C::Type>,
        MutHandle<D::Type>,
        MutHandle<E::Type>,
    );

    type SharedOut = (
        SharedHandle<A::Type>,
        SharedHandle<B::Type>,
        SharedHandle<C::Type>,
        SharedHandle<D::Type>,
        SharedHandle<E::Type>,
    );

    type ExclusiveOut = (
        ExclusiveHandle<A::Type>,
        ExclusiveHandle<B::Type>,
        ExclusiveHandle<C::Type>,
        ExclusiveHandle<D::Type>,
        ExclusiveHandle<E::Type>,
    );

    open spec fn disjoint_spec(&self) -> bool {
        &&& span_disjoint(
            self.0.offset_spec(),
            size_of::<A::Type>(),
            self.1.offset_spec(),
            size_of::<B::Type>(),
        )
        &&& span_disjoint(
            self.0.offset_spec(),
            size_of::<A::Type>(),
            self.2.offset_spec(),
            size_of::<C::Type>(),
        )
        &&& span_disjoint(
            self.0.offset_spec(),
            size_of::<A::Type>(),
            self.3.offset_spec(),
            size_of::<D::Type>(),
        )
        &&& span_disjoint(
            self.0.offset_spec(),
            size_of::<A::Type>(),
            self.4.offset_spec(),
            size_of::<E::Type>(),
        )
        &&& span_disjoint(
            self.1.offset_spec(),
            size_of::<B::Type>(),
            self.2.offset_spec(),
            size_of::<C::Type>(),
        )
        &&& span_disjoint(
            self.1.offset_spec(),
            size_of::<B::Type>(),
            self.3.offset_spec(),
            size_of::<D::Type>(),
        )
        &&& span_disjoint(
            self.1.offset_spec(),
            size_of::<B::Type>(),
            self.4.offset_spec(),
            size_of::<E::Type>(),
        )
        &&& span_disjoint(
            self.2.offset_spec(),
            size_of::<C::Type>(),
            self.3.offset_spec(),
            size_of::<D::Type>(),
        )
        &&& span_disjoint(
            self.2.offset_spec(),
            size_of::<C::Type>(),
            self.4.offset_spec(),
            size_of::<E::Type>(),
        )
        &&& span_disjoint(
            self.3.offset_spec(),
            size_of::<D::Type>(),
            self.4.offset_spec(),
            size_of::<E::Type>(),
        )
    }

    open spec fn raw_out_ok(&self, p: ConstHandle<A::Parent>, r: Self::RawOut) -> bool {
        &&& r.0.addr == wrap_add(p.addr, self.0.offset_spec())
        &&& r.0.meta == p.meta
        &&& r.1.addr == wrap_add(p.addr, self.1.offset_spec())
        &&& r.1.meta == p.meta
        &&& r.2.addr == wrap_add(p.addr, self.2.offset_spec())
        &&& r.2.meta == p.meta
        &&& r.3.addr == wrap_add(p.addr, self.3.offset_spec())
        &&& r.3.meta == p.meta
        &&& r.4.addr == wrap_add(p.addr, self.4.offset_spec())
        &&& r.4.meta == p.meta
    }

    open spec fn raw_mut_out_ok(&self, p: MutHandle<A::Parent>, r: Self::RawMutOut) -> bool {
        &&& r.0.addr == wrap_add(p.addr, self.0.offset_spec())
        &&& r.0.meta == p.meta
        &&& r.1.addr == wrap_add(p.addr, self.1.offset_spec())
        &&& r.1.meta == p.meta
        &&& r.2.addr == wrap_add(p.addr, self.2.offset_spec())
        &&& r.2.meta == p.meta
        &&& r.3.addr == wrap_add(p.addr, self.3.offset_spec())
        &&& r.3.meta == p.meta
        &&& r.4.addr == wrap_add(p.addr, self.4.offset_spec())
        &&& r.4.meta == p.meta
    }

    open spec fn shared_out_ok(&self, p: SharedHandle<A::Parent>, r: Self::SharedOut) -> bool {
        &&& r.0.addr == wrap_add(p.addr, self.0.offset_spec())
        &&& r.0.meta == p.meta
        &&& r.1.addr == wrap_add(p.addr, self.1.offset_spec())
        &&& r.1.meta == p.meta
        &&& r.2.addr == wrap_add(p.addr, self.2.offset_spec())
        &&& r.2.meta == p.meta
        &&& r.3.addr == wrap_add(p.addr, self.3.offset_spec())
        &&& r.3.meta == p.meta
        &&& r.4.addr == wrap_add(p.addr, self.4.offset_spec())
        &&& r.4.meta == p.meta
    }

    open spec fn exclusive_out_ok(&self, p: ExclusiveHandle<A::Parent>, r: Self::ExclusiveOut) -> bool {
        &&& r.0.addr == wrap_add(p.addr, self.0.offset_spec())
        &&& r.0.meta == p.meta
        &&& r.1.addr == wrap_add(p.addr, self.1.offset_spec())
        &&& r.1.meta == p.meta
        &&& r.2.addr == wrap_add(p.addr, self.2.offset_spec())
        &&& r.2.meta == p.meta
        &&& r.3.addr == wrap_add(p.addr, self.3.offset_spec())
        &&& r.3.meta == p.meta
        &&& r.4.addr == wrap_add(p.addr, self.4.offset_spec())
        &&& r.4.meta == p.meta
    }

    fn project_raw_all(&self, p: ConstHandle<A::Parent>) -> (r: Self::RawOut) {
        let h0 = self.0.project_raw(p);
        let h1 = self.1.project_raw(p);
        let h2 = self.2.project_raw(p);
        let h3 = self.3.project_raw(p);
        let h4 = self.4.project_raw(p);
        (h0, h1, h2, h3, h4)
    }

    fn project_raw_mut_all(&self, p: MutHandle<A::Parent>) -> (r: Self::RawMutOut) {
        let h0 = self.0.project_raw_mut(p);
        let h1 = self.1.project_raw_mut(p);
        let h2 = self.2.project_raw_mut(p);
        let h3 = self.3.project_raw_mut(p);
        let h4 = self.4.project_raw_mut(p);
        (h0, h1, h2, h3, h4)
    }

    fn project_shared_all(&self, p: SharedHandle<A::Parent>) -> (r: Self::SharedOut) {
        let h0 = self.0.project_raw(p.as_raw());
        let h1 = self.1.project_raw(p.as_raw());
        let h2 = self.2.project_raw(p.as_raw());
        let h3 = self.3.project_raw(p.as_raw());
        let h4 = self.4.project_raw(p.as_raw());
        (
            SharedHandle::new(h0.addr, h0.meta),
            SharedHandle::new(h1.addr, h1.meta),
            SharedHandle::new(h2.addr, h2.meta),
            SharedHandle::new(h3.addr, h3.meta),
            SharedHandle::new(h4.addr, h4.meta),
        )
    }

    fn project_exclusive_all(&self, p: ExclusiveHandle<A::Parent>) -> (r: Self::ExclusiveOut) {
        let raw = p.as_raw_mut();
        let h0 = self.0.project_raw_mut(raw);
        let h1 = self.1.project_raw_mut(raw);
        let h2 = self.2.project_raw_mut(raw);
        let h3 = self.3.project_raw_mut(raw);
        let h4 = self.4.project_raw_mut(raw);
        (
            ExclusiveHandle::new(h0.addr, h0.meta),
            ExclusiveHandle::new(h1.addr, h1.meta),
            ExclusiveHandle::new(h2.addr, h2.meta),
            ExclusiveHandle::new(h3.addr, h3.meta),
            ExclusiveHandle::new(h4.addr, h4.meta),
        )
    }
}

impl<
    A: Field,
    B: Field<Parent = A::Parent>,
    C: Field<Parent = A::Parent>,
    D: Field<Parent = A::Parent>,
    E: Field<Parent = A::Parent>,
    F: Field<Parent = A::Parent>,
> FieldSet for (A, B, C, D, E, F) {
    type Parent = A::Parent;

    type RawOut = (
        ConstHandle<A::Type>,
        ConstHandle<B::Type>,
        ConstHandle<C::Type>,
        ConstHandle<D::Type>,
        ConstHandle<E::Type>,
        ConstHandle<F::Type>,
    );

    type RawMutOut = (
        MutHandle<A::Type>,
        MutHandle<B::Type>,
        MutHandle<C::Type>,
        MutHandle<D::Type>,
        MutHandle<E::Type>,
        MutHandle<F::Type>,
    );

    type SharedOut = (
        SharedHandle<A::Type>,
        SharedHandle<B::Type>,
        SharedHandle<C::Type>,
        SharedHandle<D::Type>,
        SharedHandle<E::Type>,
        SharedHandle<F::Type>,
    );

    type ExclusiveOut = (
        ExclusiveHandle<A::Type>,
        ExclusiveHandle<B::Type>,
        ExclusiveHandle<C::Type>,
        ExclusiveHandle<D::Type>,
        ExclusiveHandle<E::Type>,
        ExclusiveHandle<F::Type>,
    );

    open spec fn disjoint_spec(&self) -> bool {
        &&& span_disjoint(
            self.0.offset_spec(),
            size_of::<A::Type>(),
            self.1.offset_spec(),
            size_of::<B::Type>(),
        )
        &&& span_disjoint(
            self.0.offset_spec(),
            size_of::<A::Type>(),
            self.2.offset_spec(),
            size_of::<C::Type>(),
        )
        &&& span_disjoint(
            self.0.offset_spec(),
            size_of::<A::Type>(),
            self.3.offset_spec(),
            size_of::<D::Type>(),
        )
        &&& span_disjoint(
            self.0.offset_spec(),
            size_of::<A::Type>(),
            self.4.offset_spec(),
            size_of::<E::Type>(),
        )
        &&& span_disjoint(
            self.0.offset_spec(),
            size_of::<A::Type>(),
            self.5.offset_spec(),
            size_of::<F::Type>(),
        )
        &&& span_disjoint(
            self.1.offset_spec(),
            size_of::<B::Type>(),
            self.2.offset_spec(),
            size_of::<C::Type>(),
        )
        &&& span_disjoint(
            self.1.offset_spec(),
            size_of::<B::Type>(),
            self.3.offset_spec(),
            size_of::<D::Type>(),
        )
        &&& span_disjoint(
            self.1.offset_spec(),
            size_of::<B::Type>(),
            self.4.offset_spec(),
            size_of::<E::Type>(),
        )
        &&& span_disjoint(
            self.1.offset_spec(),
            size_of::<B::Type>(),
            self.5.offset_spec(),
            size_of::<F::Type>(),
        )
        &&& span_disjoint(
            self.2.offset_spec(),
            size_of::<C::Type>(),
            self.3.offset_spec(),
            size_of::<D::Type>(),
        )
        &&& span_disjoint(
            self.2.offset_spec(),
            size_of::<C::Type>(),
            self.4.offset_spec(),
            size_of::<E::Type>(),
        )
        &&& span_disjoint(
            self.2.offset_spec(),
            size_of::<C::Type>(),
            self.5.offset_spec(),
            size_of::<F::Type>(),
        )
        &&& span_disjoint(
            self.3.offset_spec(),
            size_of::<D::Type>(),
            self.4.offset_spec(),
            size_of::<E::Type>(),
        )
        &&& span_disjoint(
            self.3.offset_spec(),
            size_of::<D::Type>(),
            self.5.offset_spec(),
            size_of::<F::Type>(),
        )
        &&& span_disjoint(
            self.4.offset_spec(),
            size_of::<E::Type>(),
            self.5.offset_spec(),
            size_of::<F::Type>(),
        )
    }

    open spec fn raw_out_ok(&self, p: ConstHandle<A::Parent>, r: Self::RawOut) -> bool {
        &&& r.0.addr == wrap_add(p.addr, self.0.offset_spec())
        &&& r.0.meta == p.meta
        &&& r.1.addr == wrap_add(p.addr, self.1.offset_spec())
        &&& r.1.meta == p.meta
        &&& r.2.addr == wrap_add(p.addr, self.2.offset_spec())
        &&& r.2.meta == p.meta
        &&& r.3.addr == wrap_add(p.addr, self.3.offset_spec())
        &&& r.3.meta == p.meta
        &&& r.4.addr == wrap_add(p.addr, self.4.offset_spec())
        &&& r.4.meta == p.meta
        &&& r.5.addr == wrap_add(p.addr, self.5.offset_spec())
        &&& r.5.meta == p.meta
    }

    open spec fn raw_mut_out_ok(&self, p: MutHandle<A::Parent>, r: Self::RawMutOut) -> bool {
        &&& r.0.addr == wrap_add(p.addr, self.0.offset_spec())
        &&& r.0.meta == p.meta
        &&& r.1.addr == wrap_add(p.addr, self.1.offset_spec())
        &&& r.1.meta == p.meta
        &&& r.2.addr == wrap_add(p.addr, self.2.offset_spec())
        &&& r.2.meta == p.meta
        &&& r.3.addr == wrap_add(p.addr, self.3.offset_spec())
        &&& r.3.meta == p.meta
        &&& r.4.addr == wrap_add(p.addr, self.4.offset_spec())
        &&& r.4.meta == p.meta
        &&& r.5.addr == wrap_add(p.addr, self.5.offset_spec())
        &&& r.5.meta == p.meta
    }

    open spec fn shared_out_ok(&self, p: SharedHandle<A::Parent>, r: Self::SharedOut) -> bool {
        &&& r.0.addr == wrap_add(p.addr, self.0.offset_spec())
        &&& r.0.meta == p.meta
        &&& r.1.addr == wrap_add(p.addr, self.1.offset_spec())
        &&& r.1.meta == p.meta
        &&& r.2.addr == wrap_add(p.addr, self.2.offset_spec())
        &&& r.2.meta == p.meta
        &&& r.3.addr == wrap_add(p.addr, self.3.offset_spec())
        &&& r.3.meta == p.meta
        &&& r.4.addr == wrap_add(p.addr, self.4.offset_spec())
        &&& r.4.meta == p.meta
        &&& r.5.addr == wrap_add(p.addr, self.5.offset_spec())
        &&& r.5.meta == p.meta
    }

    open spec fn exclusive_out_ok(&self, p: ExclusiveHandle<A::Parent>, r: Self::ExclusiveOut) -> bool {
        &&& r.0.addr == wrap_add(p.addr, self.0.offset_spec())
        &&& r.0.meta == p.meta
        &&& r.1.addr == wrap_add(p.addr, self.1.offset_spec())
        &&& r.1.meta == p.meta
        &&& r.2.addr == wrap_add(p.addr, self.2.offset_spec())
        &&& r.2.meta == p.meta
        &&& r.3.addr == wrap_add(p.addr, self.3.offset_spec())
        &&& r.3.meta == p.meta
        &&& r.4.addr == wrap_add(p.addr, self.4.offset_spec())
        &&& r.4.meta == p.meta
        &&& r.5.addr == wrap_add(p.addr, self.5.offset_spec())
        &&& r.5.meta == p.meta
    }

    fn project_raw_all(&self, p: ConstHandle<A::Parent>) -> (r: Self::RawOut) {
        let h0 = self.0.project_raw(p);
        let h1 = self.1.project_raw(p);
        let h2 = self.2.project_raw(p);
        let h3 = self.3.project_raw(p);
        let h4 = self.4.project_raw(p);
        let h5 = self.5.project_raw(p);
        (h0, h1, h2, h3, h4, h5)
    }

    fn project_raw_mut_all(&self, p: MutHandle<A::Parent>) -> (r: Self::RawMutOut) {
        let h0 = self.0.project_raw_mut(p);
        let h1 = self.1.project_raw_mut(p);
        let h2 = self.2.project_raw_mut(p);
        let h3 = self.3.project_raw_mut(p);
        let h4 = self.4.project_raw_mut(p);
        let h5 = self.5.project_raw_mut(p);
        (h0, h1, h2, h3, h4, h5)
    }

    fn project_shared_all(&self, p: SharedHandle<A::Parent>) -> (r: Self::SharedOut) {
        let h0 = self.0.project_raw(p.as_raw());
        let h1 = self.1.project_raw(p.as_raw());
        let h2 = self.2.project_raw(p.as_raw());
        let h3 = self.3.project_raw(p.as_raw());
        let h4 = self.4.project_raw(p.as_raw());
        let h5 = self.5.project_raw(p.as_raw());
        (
            SharedHandle::new(h0.addr, h0.meta),
            SharedHandle::new(h1.addr, h1.meta),
            SharedHandle::new(h2.addr, h2.meta),
            SharedHandle::new(h3.addr, h3.meta),
            SharedHandle::new(h4.addr, h4.meta),
            SharedHandle::new(h5.addr, h5.meta),
        )
    }

    fn project_exclusive_all(&self, p: ExclusiveHandle<A::Parent>) -> (r: Self::ExclusiveOut) {
        let raw = p.as_raw_mut();
        let h0 = self.0.project_raw_mut(raw);
        let h1 = self.1.project_raw_mut(raw);
        let h2 = self.2.project_raw_mut(raw);
        let h3 = self.3.project_raw_mut(raw);
        let h4 = self.4.project_raw_mut(raw);
        let h5 = self.5.project_raw_mut(raw);
        (
            ExclusiveHandle::new(h0.addr, h0.meta),
            ExclusiveHandle::new(h1.addr, h1.meta),
            ExclusiveHandle::new(h2.addr, h2.meta),
            ExclusiveHandle::new(h3.addr, h3.meta),
            ExclusiveHandle::new(h4.addr, h4.meta),
            ExclusiveHandle::new(h5.addr, h5.meta),
        )
    }
}

impl<
    A: Field,
    B: Field<Parent = A::Parent>,
    C: Field<Parent = A::Parent>,
    D: Field<Parent = A::Parent>,
    E: Field<Parent = A::Parent>,
    F: Field<Parent = A::Parent>,
    G: Field<Parent = A::Parent>,
> FieldSet for (A, B, C, D, E, F, G) {
    type Parent = A::Parent;

    type RawOut = (
        ConstHandle<A::Type>,
        ConstHandle<B::Type>,
        ConstHandle<C::Type>,
        ConstHandle<D::Type>,
        ConstHandle<E::Type>,
        ConstHandle<F::Type>,
        ConstHandle<G::Type>,
    );

    type RawMutOut = (
        MutHandle<A::Type>,
        MutHandle<B::Type>,
        MutHandle<C::Type>,
        MutHandle<D::Type>,
        MutHandle<E::Type>,
        MutHandle<F::Type>,
        MutHandle<G::Type>,
    );

    type SharedOut = (
        SharedHandle<A::Type>,
        SharedHandle<B::Type>,
        SharedHandle<C::Type>,
        SharedHandle<D::Type>,
        SharedHandle<E::Type>,
        SharedHandle<F::Type>,
        SharedHandle<G::Type>,
    );

    type ExclusiveOut = (
        ExclusiveHandle<A::Type>,
        ExclusiveHandle<B::Type>,
        ExclusiveHandle<C::Type>,
        ExclusiveHandle<D::Type>,
        ExclusiveHandle<E::Type>,
        ExclusiveHandle<F::Type>,
        ExclusiveHandle<G::Type>,
    );

    open spec fn disjoint_spec(&self) -> bool {
        &&& span_disjoint(
            self.0.offset_spec(),
            size_of::<A::Type>(),
            self.1.offset_spec(),
            size_of::<B::Type>(),
        )
        &&& span_disjoint(
            self.0.offset_spec(),
            size_of::<A::Type>(),
            self.2.offset_spec(),
            size_of::<C::Type>(),
        )
        &&& span_disjoint(
            self.0.offset_spec(),
            size_of::<A::Type>(),
            self.3.offset_spec(),
            size_of::<D::Type>(),
        )
        &&& span_disjoint(
            self.0.offset_spec(),
            size_of::<A::Type>(),
            self.4.offset_spec(),
            size_of::<E::Type>(),
        )
        &&& span_disjoint(
            self.0.offset_spec(),
            size_of::<A::Type>(),
            self.5.offset_spec(),
            size_of::<F::Type>(),
        )
        &&& span_disjoint(
            self.0.offset_spec(),
            size_of::<A::Type>(),
            self.6.offset_spec(),
            size_of::<G::Type>(),
        )
        &&& span_disjoint(
            self.1.offset_spec(),
            size_of::<B::Type>(),
            self.2.offset_spec(),
            size_of::<C::Type>(),
        )
        &&& span_disjoint(
            self.1.offset_spec(),
            size_of::<B::Type>(),
            self.3.offset_spec(),
            size_of::<D::Type>(),
        )
        &&& span_disjoint(
            self.1.offset_spec(),
            size_of::<B::Type>(),
            self.4.offset_spec(),
            size_of::<E::Type>(),
        )
        &&& span_disjoint(
            self.1.offset_spec(),
            size_of::<B::Type>(),
            self.5.offset_spec(),
            size_of::<F::Type>(),
        )
        &&& span_disjoint(
            self.1.offset_spec(),
            size_of::<B::Type>(),
            self.6.offset_spec(),
            size_of::<G::Type>(),
        )
        &&& span_disjoint(
            self.2.offset_spec(),
            size_of::<C::Type>(),
            self.3.offset_spec(),
            size_of::<D::Type>(),
        )
        &&& span_disjoint(
            self.2.offset_spec(),
            size_of::<C::Type>(),
            self.4.offset_spec(),
            size_of::<E::Type>(),
        )
        &&& span_disjoint(
            self.2.offset_spec(),
            size_of::<C::Type>(),
            self.5.offset_spec(),
            size_of::<F::Type>(),
        )
        &&& span_disjoint(
            self.2.offset_spec(),
            size_of::<C::Type>(),
            self.6.offset_spec(),
            size_of::<G::Type>(),
        )
        &&& span_disjoint(
            self.3.offset_spec(),
            size_of::<D::Type>(),
            self.4.offset_spec(),
            size_of::<E::Type>(),
        )
        &&& span_disjoint(
            self.3.offset_spec(),
            size_of::<D::Type>(),
            self.5.offset_spec(),
            size_of::<F::Type>(),
        )
        &&& span_disjoint(
            self.3.offset_spec(),
            size_of::<D::Type>(),
            self.6.offset_spec(),
            size_of::<G::Type>(),
        )
        &&& span_disjoint(
            self.4.offset_spec(),
            size_of::<E::Type>(),
            self.5.offset_spec(),
            size_of::<F::Type>(),
        )
        &&& span_disjoint(
            self.4.offset_spec(),
            size_of::<E::Type>(),
            self.6.offset_spec(),
            size_of::<G::Type>(),
        )
        &&& span_disjoint(
            self.5.offset_spec(),
            size_of::<F::Type>(),
            self.6.offset_spec(),
            size_of::<G::Type>(),
        )
    }

    open spec fn raw_out_ok(&self, p: ConstHandle<A::Parent>, r: Self::RawOut) -> bool {
        &&& r.0.addr == wrap_add(p.addr, self.0.offset_spec())
        &&& r.0.meta == p.meta
        &&& r.1.addr == wrap_add(p.addr, self.1.offset_spec())
        &&& r.1.meta == p.meta
        &&& r.2.addr == wrap_add(p.addr, self.2.offset_spec())
        &&& r.2.meta == p.meta
        &&& r.3.addr == wrap_add(p.addr, self.3.offset_spec())
        &&& r.3.meta == p.meta
        &&& r.4.addr == wrap_add(p.addr, self.4.offset_spec())
        &&& r.4.meta == p.meta
        &&& r.5.addr == wrap_add(p.addr, self.5.offset_spec())
        &&& r.5.meta == p.meta
        &&& r.6.addr == wrap_add(p.addr, self.6.offset_spec())
        &&& r.6.meta == p.meta
    }

    open spec fn raw_mut_out_ok(&self, p: MutHandle<A::Parent>, r: Self::RawMutOut) -> bool {
        &&& r.0.addr == wrap_add(p.addr, self.0.offset_spec())
        &&& r.0.meta == p.meta
        &&& r.1.addr == wrap_add(p.addr, self.1.offset_spec())
        &&& r.1.meta == p.meta
        &&& r.2.addr == wrap_add(p.addr, self.2.offset_spec())
        &&& r.2.meta == p.meta
        &&& r.3.addr == wrap_add(p.addr, self.3.offset_spec())
        &&& r.3.meta == p.meta
        &&& r.4.addr == wrap_add(p.addr, self.4.offset_spec())
        &&& r.4.meta == p.meta
        &&& r.5.addr == wrap_add(p.addr, self.5.offset_spec())
        &&& r.5.meta == p.meta
        &&& r.6.addr == wrap_add(p.addr, self.6.offset_spec())
        &&& r.6.meta == p.meta
    }

    open spec fn shared_out_ok(&self, p: SharedHandle<A::Parent>, r: Self::SharedOut) -> bool {
        &&& r.0.addr == wrap_add(p.addr, self.0.offset_spec())
        &&& r.0.meta == p.meta
        &&& r.1.addr == wrap_add(p.addr, self.1.offset_spec())
        &&& r.1.meta == p.meta
        &&& r.2.addr == wrap_add(p.addr, self.2.offset_spec())
        &&& r.2.meta == p.meta
        &&& r.3.addr == wrap_add(p.addr, self.3.offset_spec())
        &&& r.3.meta == p.meta
        &&& r.4.addr == wrap_add(p.addr, self.4.offset_spec())
        &&& r.4.meta == p.meta
        &&& r.5.addr == wrap_add(p.addr, self.5.offset_spec())
        &&& r.5.meta == p.meta
        &&& r.6.addr == wrap_add(p.addr, self.6.offset_spec())
        &&& r.6.meta == p.meta
    }

    open spec fn exclusive_out_ok(&self, p: ExclusiveHandle<A::Parent>, r: Self::ExclusiveOut) -> bool {
        &&& r.0.addr == wrap_add(p.addr, self.0.offset_spec())
        &&& r.0.meta == p.meta
        &&& r.1.addr == wrap_add(p.addr, self.1.offset_spec())
        &&& r.1.meta == p.meta
        &&& r.2.addr == wrap_add(p.addr, self.2.offset_spec())
        &&& r.2.meta == p.meta
        &&& r.3.addr == wrap_add(p.addr, self.3.offset_spec())
        &&& r.3.meta == p.meta
        &&& r.4.addr == wrap_add(p.addr, self.4.offset_spec())
        &&& r.4.meta == p.meta
        &&& r.5.addr == wrap_add(p.addr, self.5.offset_spec())
        &&& r.5.meta == p.meta
        &&& r.6.addr == wrap_add(p.addr, self.6.offset_spec())
        &&& r.6.meta == p.meta
    }

    fn project_raw_all(&self, p: ConstHandle<A::Parent>) -> (r: Self::RawOut) {
        let h0 = self.0.project_raw(p);
        let h1 = self.1.project_raw(p);
        let h2 = self.2.project_raw(p);
        let h3 = self.3.project_raw(p);
        let h4 = self.4.project_raw(p);
        let h5 = self.5.project_raw(p);
        let h6 = self.6.project_raw(p);
        (h0, h1, h2, h3, h4, h5, h6)
    }

    fn project_raw_mut_all(&self, p: MutHandle<A::Parent>) -> (r: Self::RawMutOut) {
        let h0 = self.0.project_raw_mut(p);
        let h1 = self.1.project_raw_mut(p);
        let h2 = self.2.project_raw_mut(p);
        let h3 = self.3.project_raw_mut(p);
        let h4 = self.4.project_raw_mut(p);
        let h5 = self.5.project_raw_mut(p);
        let h6 = self.6.project_raw_mut(p);
        (h0, h1, h2, h3, h4, h5, h6)
    }

    fn project_shared_all(&self, p: SharedHandle<A::Parent>) -> (r: Self::SharedOut) {
        let h0 = self.0.project_raw(p.as_raw());
        let h1 = self.1.project_raw(p.as_raw());
        let h2 = self.2.project_raw(p.as_raw());
        let h3 = self.3.project_raw(p.as_raw());
        let h4 = self.4.project_raw(p.as_raw());
        let h5 = self.5.project_raw(p.as_raw());
        let h6 = self.6.project_raw(p.as_raw());
        (
            SharedHandle::new(h0.addr, h0.meta),
            SharedHandle::new(h1.addr, h1.meta),
            SharedHandle::new(h2.addr, h2.meta),
            SharedHandle::new(h3.addr, h3.meta),
            SharedHandle::new(h4.addr, h4.meta),
            SharedHandle::new(h5.addr, h5.meta),
            SharedHandle::new(h6.addr, h6.meta),
        )
    }

    fn project_exclusive_all(&self, p: ExclusiveHandle<A::Parent>) -> (r: Self::ExclusiveOut) {
        let raw = p.as_raw_mut();
        let h0 = self.0.project_raw_mut(raw);
        let h1 = self.1.project_raw_mut(raw);
        let h2 = self.2.project_raw_mut(raw);
        let h3 = self.3.project_raw_mut(raw);
        let h4 = self.4.project_raw_mut(raw);
        let h5 = self.5.project_raw_mut(raw);
        let h6 = self.6.project_raw_mut(raw);
        (
            ExclusiveHandle::new(h0.addr, h0.meta),
            ExclusiveHandle::new(h1.addr, h1.meta),
            ExclusiveHandle::new(h2.addr, h2.meta),
            ExclusiveHandle::new(h3.addr, h3.meta),
            ExclusiveHandle::new(h4.addr, h4.meta),
            ExclusiveHandle::new(h5.addr, h5.meta),
            ExclusiveHandle::new(h6.addr, h6.meta),
        )
    }
}

impl<
    A: Field,
    B: Field<Parent = A::Parent>,
    C: Field<Parent = A::Parent>,
    D: Field<Parent = A::Parent>,
    E: Field<Parent = A::Parent>,
    F: Field<Parent = A::Parent>,
    G: Field<Parent = A::Parent>,
    H: Field<Parent = A::Parent>,
> FieldSet for (A, B, C, D, E, F, G, H) {
    type Parent = A::Parent;

    type RawOut = (
        ConstHandle<A::Type>,
        ConstHandle<B::Type>,
        ConstHandle<C::Type>,
        ConstHandle<D::Type>,
        ConstHandle<E::Type>,
        ConstHandle<F::Type>,
        ConstHandle<G::Type>,
        ConstHandle<H::Type>,
    );

    type RawMutOut = (
        MutHandle<A::Type>,
        MutHandle<B::Type>,
        MutHandle<C::Type>,
        MutHandle<D::Type>,
        MutHandle<E::Type>,
        MutHandle<F::Type>,
        MutHandle<G::Type>,
        MutHandle<H::Type>,
    );

    type SharedOut = (
        SharedHandle<A::Type>,
        SharedHandle<B::Type>,
        SharedHandle<C::Type>,
        SharedHandle<D::Type>,
        SharedHandle<E::Type>,
        SharedHandle<F::Type>,
        SharedHandle<G::Type>,
        SharedHandle<H::Type>,
    );

    type ExclusiveOut = (
        ExclusiveHandle<A::Type>,
        ExclusiveHandle<B::Type>,
        ExclusiveHandle<C::Type>,
        ExclusiveHandle<D::Type>,
        ExclusiveHandle<E::Type>,
        ExclusiveHandle<F::Type>,
        ExclusiveHandle<G::Type>,
        ExclusiveHandle<H::Type>,
    );

    open spec fn disjoint_spec(&self) -> bool {
        &&& span_disjoint(
            self.0.offset_spec(),
            size_of::<A::Type>(),
            self.1.offset_spec(),
            size_of::<B::Type>(),
        )
        &&& span_disjoint(
            self.0.offset_spec(),
            size_of::<A::Type>(),
            self.2.offset_spec(),
            size_of::<C::Type>(),
        )
        &&& span_disjoint(
            self.0.offset_spec(),
            size_of::<A::Type>(),
            self.3.offset_spec(),
            size_of::<D::Type>(),
        )
        &&& span_disjoint(
            self.0.offset_spec(),
            size_of::<A::Type>(),
            self.4.offset_spec(),
            size_of::<E::Type>(),
        )
        &&& span_disjoint(
            self.0.offset_spec(),
            size_of::<A::Type>(),
            self.5.offset_spec(),
            size_of::<F::Type>(),
        )
        &&& span_disjoint(
            self.0.offset_spec(),
            size_of::<A::Type>(),
            self.6.offset_spec(),
            size_of::<G::Type>(),
        )
        &&& span_disjoint(
            self.0.offset_spec(),
            size_of::<A::Type>(),
            self.7.offset_spec(),
            size_of::<H::Type>(),
        )
        &&& span_disjoint(
            self.1.offset_spec(),
            size_of::<B::Type>(),
            self.2.offset_spec(),
            size_of::<C::Type>(),
        )
        &&& span_disjoint(
            self.1.offset_spec(),
            size_of::<B::Type>(),
            self.3.offset_spec(),
            size_of::<D::Type>(),
        )
        &&& span_disjoint(
            self.1.offset_spec(),
            size_of::<B::Type>(),
            self.4.offset_spec(),
            size_of::<E::Type>(),
        )
        &&& span_disjoint(
            self.1.offset_spec(),
            size_of::<B::Type>(),
            self.5.offset_spec(),
            size_of::<F::Type>(),
        )
        &&& span_disjoint(
            self.1.offset_spec(),
            size_of::<B::Type>(),
            self.6.offset_spec(),
            size_of::<G::Type>(),
        )
        &&& span_disjoint(
            self.1.offset_spec(),
            size_of::<B::Type>(),
            self.7.offset_spec(),
            size_of::<H::Type>(),
        )
        &&& span_disjoint(
            self.2.offset_spec(),
            size_of::<C::Type>(),
            self.3.offset_spec(),
            size_of::<D::Type>(),
        )
        &&& span_disjoint(
            self.2.offset_spec(),
            size_of::<C::Type>(),
            self.4.offset_spec(),
            size_of::<E::Type>(),
        )
        &&& span_disjoint(
            self.2.offset_spec(),
            size_of::<C::Type>(),
            self.5.offset_spec(),
            size_of::<F::Type>(),
        )
        &&& span_disjoint(
            self.2.offset_spec(),
            size_of::<C::Type>(),
            self.6.offset_spec(),
            size_of::<G::Type>(),
        )
        &&& span_disjoint(
            self.2.offset_spec(),
            size_of::<C::Type>(),
            self.7.offset_spec(),
            size_of::<H::Type>(),
        )
        &&& span_disjoint(
            self.3.offset_spec(),
            size_of::<D::Type>(),
            self.4.offset_spec(),
            size_of::<E::Type>(),
        )
        &&& span_disjoint(
            self.3.offset_spec(),
            size_of::<D::Type>(),
            self.5.offset_spec(),
            size_of::<F::Type>(),
        )
        &&& span_disjoint(
            self.3.offset_spec(),
            size_of::<D::Type>(),
            self.6.offset_spec(),
            size_of::<G::Type>(),
        )
        &&& span_disjoint(
            self.3.offset_spec(),
            size_of::<D::Type>(),
            self.7.offset_spec(),
            size_of::<H::Type>(),
        )
        &&& span_disjoint(
            self.4.offset_spec(),
            size_of::<E::Type>(),
            self.5.offset_spec(),
            size_of::<F::Type>(),
        )
        &&& span_disjoint(
            self.4.offset_spec(),
            size_of::<E::Type>(),
            self.6.offset_spec(),
            size_of::<G::Type>(),
        )
        &&& span_disjoint(
            self.4.offset_spec(),
            size_of::<E::Type>(),
            self.7.offset_spec(),
            size_of::<H::Type>(),
        )
        &&& span_disjoint(
            self.5.offset_spec(),
            size_of::<F::Type>(),
            self.6.offset_spec(),
            size_of::<G::Type>(),
        )
        &&& span_disjoint(
            self.5.offset_spec(),
            size_of::<F::Type>(),
            self.7.offset_spec(),
            size_of::<H::Type>(),
        )
        &&& span_disjoint(
            self.6.offset_spec(),
            size_of::<G::Type>(),
            self.7.offset_spec(),
            size_of::<H::Type>(),
        )
    }

    open spec fn raw_out_ok(&self, p: ConstHandle<A::Parent>, r: Self::RawOut) -> bool {
        &&& r.0.addr == wrap_add(p.addr, self.0.offset_spec())
        &&& r.0.meta == p.meta
        &&& r.1.addr == wrap_add(p.addr, self.1.offset_spec())
        &&& r.1.meta == p.meta
        &&& r.2.addr == wrap_add(p.addr, self.2.offset_spec())
        &&& r.2.meta == p.meta
        &&& r.3.addr == wrap_add(p.addr, self.3.offset_spec())
        &&& r.3.meta == p.meta
        &&& r.4.addr == wrap_add(p.addr, self.4.offset_spec())
        &&& r.4.meta == p.meta
        &&& r.5.addr == wrap_add(p.addr, self.5.offset_spec())
        &&& r.5.meta == p.meta
        &&& r.6.addr == wrap_add(p.addr, self.6.offset_spec())
        &&& r.6.meta == p.meta
        &&& r.7.addr == wrap_add(p.addr, self.7.offset_spec())
        &&& r.7.meta == p.meta
    }

    open spec fn raw_mut_out_ok(&self, p: MutHandle<A::Parent>, r: Self::RawMutOut) -> bool {
        &&& r.0.addr == wrap_add(p.addr, self.0.offset_spec())
        &&& r.0.meta == p.meta
        &&& r.1.addr == wrap_add(p.addr, self.1.offset_spec())
        &&& r.1.meta == p.meta
        &&& r.2.addr == wrap_add(p.addr, self.2.offset_spec())
        &&& r.2.meta == p.meta
        &&& r.3.addr == wrap_add(p.addr, self.3.offset_spec())
        &&& r.3.meta == p.meta
        &&& r.4.addr == wrap_add(p.addr, self.4.offset_spec())
        &&& r.4.meta == p.meta
        &&& r.5.addr == wrap_add(p.addr, self.5.offset_spec())
        &&& r.5.meta == p.meta
        &&& r.6.addr == wrap_add(p.addr, self.6.offset_spec())
        &&& r.6.meta == p.meta
        &&& r.7.addr == wrap_add(p.addr, self.7.offset_spec())
        &&& r.7.meta == p.meta
    }

    open spec fn shared_out_ok(&self, p: SharedHandle<A::Parent>, r: Self::SharedOut) -> bool {
        &&& r.0.addr == wrap_add(p.addr, self.0.offset_spec())
        &&& r.0.meta == p.meta
        &&& r.1.addr == wrap_add(p.addr, self.1.offset_spec())
        &&& r.1.meta == p.meta
        &&& r.2.addr == wrap_add(p.addr, self.2.offset_spec())
        &&& r.2.meta == p.meta
        &&& r.3.addr == wrap_add(p.addr, self.3.offset_spec())
        &&& r.3.meta == p.meta
        &&& r.4.addr == wrap_add(p.addr, self.4.offset_spec())
        &&& r.4.meta == p.meta
        &&& r.5.addr == wrap_add(p.addr, self.5.offset_spec())
        &&& r.5.meta == p.meta
        &&& r.6.addr == wrap_add(p.addr, self.6.offset_spec())
        &&& r.6.meta == p.meta
        &&& r.7.addr == wrap_add(p.addr, self.7.offset_spec())
        &&& r.7.meta == p.meta
    }

    open spec fn exclusive_out_ok(&self, p: ExclusiveHandle<A::Parent>, r: Self::ExclusiveOut) -> bool {
        &&& r.0.addr == wrap_add(p.addr, self.0.offset_spec())
        &&& r.0.meta == p.meta
        &&& r.1.addr == wrap_add(p.addr, self.1.offset_spec())
        &&& r.1.meta == p.meta
        &&& r.2.addr == wrap_add(p.addr, self.2.offset_spec())
        &&& r.2.meta == p.meta
        &&& r.3.addr == wrap_add(p.addr, self.3.offset_spec())
        &&& r.3.meta == p.meta
        &&& r.4.addr == wrap_add(p.addr, self.4.offset_spec())
        &&& r.4.meta == p.meta
        &&& r.5.addr == wrap_add(p.addr, self.5.offset_spec())
        &&& r.5.meta == p.meta
        &&& r.6.addr == wrap_add(p.addr, self.6.offset_spec())
        &&& r.6.meta == p.meta
        &&& r.7.addr == wrap_add(p.addr, self.7.offset_spec())
        &&& r.7.meta == p.meta
    }

    fn project_raw_all(&self, p: ConstHandle<A::Parent>) -> (r: Self::RawOut) {
        let h0 = self.0.project_raw(p);
        let h1 = self.1.project_raw(p);
        let h2 = self.2.project_raw(p);
        let h3 = self.3.project_raw(p);
        let h4 = self.4.project_raw(p);
        let h5 = self.5.project_raw(p);
        let h6 = self.6.project_raw(p);
        let h7 = self.7.project_raw(p);
        (h0, h1, h2, h3, h4, h5, h6, h7)
    }

    fn project_raw_mut_all(&self, p: MutHandle<A::Parent>) -> (r: Self::RawMutOut) {
        let h0 = self.0.project_raw_mut(p);
        let h1 = self.1.project_raw_mut(p);
        let h2 = self.2.project_raw_mut(p);
        let h3 = self.3.project_raw_mut(p);
        let h4 = self.4.project_raw_mut(p);
        let h5 = self.5.project_raw_mut(p);
        let h6 = self.6.project_raw_mut(p);
        let h7 = self.7.project_raw_mut(p);
        (h0, h1, h2, h3, h4, h5, h6, h7)
    }

    fn project_shared_all(&self, p: SharedHandle<A::Parent>) -> (r: Self::SharedOut) {
        let h0 = self.0.project_raw(p.as_raw());
        let h1 = self.1.project_raw(p.as_raw());
        let h2 = self.2.project_raw(p.as_raw());
        let h3 = self.3.project_raw(p.as_raw());
        let h4 = self.4.project_raw(p.as_raw());
        let h5 = self.5.project_raw(p.as_raw());
        let h6 = self.6.project_raw(p.as_raw());
        let h7 = self.7.project_raw(p.as_raw());
        (
            SharedHandle::new(h0.addr, h0.meta),
            SharedHandle::new(h1.addr, h1.meta),
            SharedHandle::new(h2.addr, h2.meta),
            SharedHandle::new(h3.addr, h3.meta),
            SharedHandle::new(h4.addr, h4.meta),
            SharedHandle::new(h5.addr, h5.meta),
            SharedHandle::new(h6.addr, h6.meta),
            SharedHandle::new(h7.addr, h7.meta),
        )
    }

    fn project_exclusive_all(&self, p: ExclusiveHandle<A::Parent>) -> (r: Self::ExclusiveOut) {
        let raw = p.as_raw_mut();
        let h0 = self.0.project_raw_mut(raw);
        let h1 = self.1.project_raw_mut(raw);
        let h2 = self.2.project_raw_mut(raw);
        let h3 = self.3.project_raw_mut(raw);
        let h4 = self.4.project_raw_mut(raw);
        let h5 = self.5.project_raw_mut(raw);
        let h6 = self.6.project_raw_mut(raw);
        let h7 = self.7.project_raw_mut(raw);
        (
            ExclusiveHandle::new(h0.addr, h0.meta),
            ExclusiveHandle::new(h1.addr, h1.meta),
            ExclusiveHandle::new(h2.addr, h2.meta),
            ExclusiveHandle::new(h3.addr, h3.meta),
            ExclusiveHandle::new(h4.addr, h4.meta),
            ExclusiveHandle::new(h5.addr, h5.meta),
            ExclusiveHandle::new(h6.addr, h6.meta),
            ExclusiveHandle::new(h7.addr, h7.meta),
        )
    }
}

} // verus!
