//! Composition of two field capabilities.
//!
//! `Chain { outer, inner }` projects from the outer capability's parent
//! to the inner capability's field: its offset is the sum of the two
//! offsets, its name path the concatenation of the two paths, and its
//! projection the composition of the two projections.  The types force
//! the middle to agree: the inner capability's parent is the outer
//! capability's field type.

use vstd::prelude::*;
use crate::Field;
use crate::addr::wrap_add;
use crate::addr::lemma_wrap_add_sum;
use crate::handle::ConstHandle;
use crate::handle::MutHandle;

verus! {

/// The composition of two field capabilities `outer: A -> B` and
/// `inner: B -> C`, itself a field capability `A -> C`.
pub struct Chain<A, B> {
    /// The capability applied first, from the parent to the middle type.
    pub outer: A,
    /// The capability applied second, from the middle type to the field.
    pub inner: B,
}

impl<A: Copy, B: Copy> Clone for Chain<A, B> {
    fn clone(&self) -> (r: Self)
        ensures
            r == *self,
    {
        Chain { outer: self.outer, inner: self.inner }
    }
}

impl<A: Copy, B: Copy> Copy for Chain<A, B> {}

impl<A: Field, B: Field<Parent = A::Type>> Chain<A, B> {
    /// Composes two capabilities whose middle types agree.
    pub fn new(outer: A, inner: B) -> (r: Chain<A, B>)
        ensures
            r.outer == outer,
            r.inner == inner,
    {
        Chain { outer, inner }
    }

    /// Composes this chain with a capability that starts at its field's
    /// type.
    pub fn chain<G: Field<Parent = B::Type>>(self, inner: G) -> (r: Chain<Chain<A, B>, G>)
        ensures
            r.outer == self,
            r.inner == inner,
    {
        Chain::new(self, inner)
    }
}

impl<A: Field, B: Field<Parent = A::Type>> Field for Chain<A, B> {
    type Parent = A::Parent;

    type Type = B::Type;

    open spec fn offset_spec(&self) -> nat {
        self.outer.offset_spec() + self.inner.offset_spec()
    }

    open spec fn path_spec(&self) -> Seq<Seq<char>> {
        self.outer.path_spec() + self.inner.path_spec()
    }

    fn name(&self) -> (r: Vec<&'static str>) {
        let mut v: Vec<&'static str> = self.outer.name();
        let mut w: Vec<&'static str> = self.inner.name();
        v.append(&mut w);
        assert forall|i: int| 0 <= i < v@.len() implies v@[i]@ == self.path_spec()[i] by {
            if i < self.outer.path_spec().len() {
                assert(self.path_spec()[i] == self.outer.path_spec()[i]);
            } else {
                assert(self.path_spec()[i] == self.inner.path_spec()[
                    i - self.outer.path_spec().len()]);
            }
        }
        v
    }

    fn project_raw(&self, p: ConstHandle<A::Parent>) -> (r: ConstHandle<B::Type>) {
        let ghost start: usize = p.addr;
        let mid = self.outer.project_raw(p);
        let r = self.inner.project_raw(mid);
        proof {
            lemma_wrap_add_sum(start, self.outer.offset_spec(), self.inner.offset_spec());
        }
        r
    }

    fn project_raw_mut(&self, p: MutHandle<A::Parent>) -> (r: MutHandle<B::Type>) {
        let ghost start: usize = p.addr;
        let mid = self.outer.project_raw_mut(p);
        let r = self.inner.project_raw_mut(mid);
        proof {
            lemma_wrap_add_sum(start, self.outer.offset_spec(), self.inner.offset_spec());
        }
        r
    }

}

/// Chain composition: projecting through the chain lands exactly where
/// projecting through `outer` and then through `inner` lands, on every
/// address, and the chain's name path is the concatenation of the two
/// paths.
pub proof fn lemma_chain_composition<A: Field, B: Field<Parent = A::Type>>(
    c: Chain<A, B>,
    addr: usize,
)
    ensures
        wrap_add(addr, c.offset_spec()) == wrap_add(
            wrap_add(addr, c.outer.offset_spec()),
            c.inner.offset_spec(),
        ),
        c.path_spec() == c.outer.path_spec() + c.inner.path_spec(),
{
    lemma_wrap_add_sum(addr, c.outer.offset_spec(), c.inner.offset_spec());
}

/// Chain associativity: grouping three capabilities either way gives the
/// same offset, the same projected address on every address, and the
/// same name path.
pub proof fn lemma_chain_associativity<
    A: Field,
    B: Field<Parent = A::Type>,
    C: Field<Parent = B::Type>,
>(a: A, b: B, c: C, addr: usize)
    ensures
        (Chain { outer: (Chain { outer: a, inner: b }), inner: c }).offset_spec() == (Chain {
            outer: a,
            inner: (Chain { outer: b, inner: c }),
        }).offset_spec(),
        wrap_add(addr, (Chain { outer: (Chain { outer: a, inner: b }), inner: c }).offset_spec())
            == wrap_add(
            addr,
            (Chain { outer: a, inner: (Chain { outer: b, inner: c }) }).offset_spec(),
        ),
        (Chain { outer: (Chain { outer: a, inner: b }), inner: c }).path_spec() == (Chain {
            outer: a,
            inner: (Chain { outer: b, inner: c }),
        }).path_spec(),
{
    let left = Chain { outer: Chain { outer: a, inner: b }, inner: c };
    let right = Chain { outer: a, inner: Chain { outer: b, inner: c } };
    assert(left.path_spec() =~= right.path_spec());
}

} // verus!
