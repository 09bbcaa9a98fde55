//! Byte arithmetic on the address word of a handle.
//!
//! A projection moves the address word of a handle forward by the byte
//! offset of the field.  The checked projectors wrap around the top of the
//! address space instead of trapping; the unchecked ones demand that no
//! wrap happens.  `wrap_add` is the mathematical meaning shared by every
//! projector in the crate.

use vstd::prelude::*;
use vstd::arithmetic::div_mod::lemma_small_mod;
use vstd::arithmetic::div_mod::lemma_mod_multiples_vanish;

verus! {

/// Number of distinct address values: one past the largest address.
pub open spec fn addr_space() -> nat {
    usize::MAX as nat + 1
}

/// The address `offset` bytes past `addr`, wrapping around the top of the
/// address space.
pub open spec fn wrap_add(addr: usize, offset: nat) -> usize {
    (((addr as nat) + offset) % addr_space()) as usize
}

/// When the sum stays inside the address space, wrapping addition is plain
/// addition, so the offset can be read back as a difference of addresses.
pub proof fn lemma_wrap_add_exact(addr: usize, offset: nat)
    requires
        addr + offset <= usize::MAX,
    ensures
        wrap_add(addr, offset) == addr + offset,
{
    lemma_small_mod((addr + offset) as nat, addr_space());
}

/// Two wrapping steps land where one wrapping step by the summed offset
/// lands: projecting by `x` and then by `y` equals projecting by `x + y`.
pub proof fn lemma_wrap_add_sum(addr: usize, x: nat, y: nat)
    ensures
        wrap_add(wrap_add(addr, x), y) == wrap_add(addr, x + y),
{
    let m = addr_space();
    let first = (addr + x) % (m as int);
    lemma_mod_multiples_vanish((addr + x) / (m as int), first + y, m as int);
    assert ((addr + x) == (m as int) * ((addr + x) / (m as int)) + first) by {
        vstd::arithmetic::div_mod::lemma_fundamental_div_mod(addr + x, m as int);
    }
}

/// Executable wrapping addition of an offset to an address word, proved
/// against `wrap_add`.
pub fn wrapping_offset(addr: usize, offset: usize) -> (r: usize)
    ensures
        r == wrap_add(addr, offset as nat),
{
    proof {
        if addr + offset <= usize::MAX {
            lemma_small_mod((addr + offset) as nat, addr_space());
        } else {
            lemma_mod_multiples_vanish(1, addr + offset - addr_space(), addr_space() as int);
            lemma_small_mod((addr + offset - addr_space()) as nat, addr_space());
        }
    }
    addr.wrapping_add(offset)
}

} // verus!
