//! Rounding of addresses and lengths to an alignment.

use vstd::prelude::*;

verus! {

/// Size of a page.
pub const PAGE_SIZE: usize = 4096;

/// Whether `n` is a power of two.
pub open spec fn is_pow2(n: int) -> bool
    decreases n,
{
    if n <= 1 {
        n == 1
    } else {
        n % 2 == 0 && is_pow2(n / 2)
    }
}

/// The greatest multiple of `align` that does not exceed `x`.
pub open spec fn floor_to(x: int, align: int) -> int {
    x - x % align
}

/// The least multiple of `align` that is not below `x`.
pub open spec fn ceil_to(x: int, align: int) -> int {
    floor_to(x + align - 1, align)
}

/// What `align_up` returns: the rounded address, or zero where rounding up
/// wraps around the address space.
#[verifier::opaque]
pub open spec fn align_up_spec(addr: usize, align: usize) -> usize {
    if addr + align - 1 <= usize::MAX {
        ceil_to(addr as int, align as int) as usize
    } else {
        0
    }
}

/// Addition that wraps around the address space.
pub open spec fn wrap_add(a: usize, b: usize) -> usize {
    if a + b > usize::MAX {
        (a + b - usize::MAX - 1) as usize
    } else {
        (a + b) as usize
    }
}

/// Subtraction that wraps around the address space.
pub open spec fn wrap_sub(a: usize, b: usize) -> usize {
    if a < b {
        (a - b + usize::MAX + 1) as usize
    } else {
        (a - b) as usize
    }
}

/// `floor_to` is a multiple of the alignment, at most `x`, and less than one
/// alignment below it.
pub proof fn floor_to_is_greatest_multiple(x: int, align: int)
    requires
        align > 0,
    ensures
        floor_to(x, align) % align == 0,
        floor_to(x, align) <= x < floor_to(x, align) + align,
        x >= 0 ==> floor_to(x, align) >= 0,
        forall|m: int| #![trigger m % align] m % align == 0 && m <= x ==> m <= floor_to(x, align),
{
    let r = x % align;
    let q = x / align;
    assert(x == align * q + r && 0 <= r < align) by (nonlinear_arith)
        requires
            align > 0,
            r == x % align,
            q == x / align,
    ;
    assert(align * q % align == 0) by {
        vstd::arithmetic::div_mod::lemma_mod_multiples_basic(q, align);
        assert(align * q == q * align) by (nonlinear_arith);
    }
    assert(x >= 0 ==> align * q >= 0) by (nonlinear_arith)
        requires
            align > 0,
            q == x / align,
    ;
    assert forall|m: int| #![trigger m % align] m % align == 0 && m <= x implies m <= floor_to(
        x,
        align,
    ) by {
        let k = m / align;
        assert(m == align * k) by (nonlinear_arith)
            requires
                align > 0,
                m % align == 0,
                k == m / align,
        ;
        assert(k <= q) by (nonlinear_arith)
            requires
                align > 0,
                m == align * k,
                m <= x,
                x == align * q + r,
                0 <= r < align,
        ;
        assert(align * k <= align * q) by (nonlinear_arith)
            requires
                align > 0,
                k <= q,
        ;
    }
}

/// `ceil_to` is a multiple of the alignment, at least `x`, and less than one
/// alignment above it.
pub proof fn ceil_to_is_least_multiple(x: int, align: int)
    requires
        align > 0,
    ensures
        ceil_to(x, align) % align == 0,
        x <= ceil_to(x, align) < x + align,
        forall|m: int| #![trigger m % align] m % align == 0 && m >= x ==> m >= ceil_to(x, align),
{
    floor_to_is_greatest_multiple(x + align - 1, align);
    let c = ceil_to(x, align);
    assert forall|m: int| #![trigger m % align] m % align == 0 && m >= x implies m >= c by {
        if m < c {
            let j = c / align;
            let k = m / align;
            assert(c == align * j && m == align * k) by (nonlinear_arith)
                requires
                    align > 0,
                    c % align == 0,
                    m % align == 0,
                    j == c / align,
                    k == m / align,
            ;
            assert(k + 1 <= j) by (nonlinear_arith)
                requires
                    align > 0,
                    align * k < align * j,
            ;
            assert(align * (k + 1) <= align * j) by (nonlinear_arith)
                requires
                    align > 0,
                    k + 1 <= j,
            ;
            assert(align * (k + 1) == align * k + align) by (nonlinear_arith);
        }
    }
}

/// Rounding down what is rounded already changes nothing.
pub proof fn floor_to_is_idempotent(x: int, align: int)
    requires
        align > 0,
    ensures
        floor_to(floor_to(x, align), align) == floor_to(x, align),
        ceil_to(floor_to(x, align), align) == floor_to(x, align),
{
    floor_to_is_greatest_multiple(x, align);
    let f = floor_to(x, align);
    floor_to_is_greatest_multiple(f, align);
    ceil_to_is_least_multiple(f, align);
    assert(f % align == 0);
}

/// A length rounded up to an alignment loses less than one alignment.
pub proof fn ceil_to_is_monotone(x: int, y: int, align: int)
    requires
        align > 0,
        x <= y,
    ensures
        ceil_to(x, align) <= ceil_to(y, align),
{
    ceil_to_is_least_multiple(x, align);
    ceil_to_is_least_multiple(y, align);
    let c = ceil_to(y, align);
    assert(c % align == 0);
}

/// A power of two is positive.
pub proof fn pow2_is_positive(n: int)
    requires
        is_pow2(n),
    ensures
        n > 0,
{
}

/// Rounds `addr` up to a multiple of `align`, a power of two. Zero where the
/// rounded address does not fit.
pub fn align_up(addr: usize, align: usize) -> (aligned: usize)
    requires
        is_pow2(align as int),
    ensures
        aligned == align_up_spec(addr, align),
        addr + align - 1 <= usize::MAX ==> aligned == ceil_to(addr as int, align as int),
        addr + align - 1 <= usize::MAX ==> addr <= aligned < addr + align && aligned % align == 0,
        addr + align - 1 > usize::MAX ==> aligned == 0,
{
    proof {
        pow2_is_positive(align as int);
        ceil_to_is_least_multiple(addr as int, align as int);
        floor_to_is_greatest_multiple(addr + align - 1, align as int);
        reveal(align_up_spec);
    }
    match addr.checked_add(align - 1) {
        Some(top) => top - top % align,
        None => 0,
    }
}

/// Rounds `addr` down to a multiple of `align`, a power of two.
pub fn align_down(addr: usize, align: usize) -> (aligned: usize)
    requires
        is_pow2(align as int),
    ensures
        aligned == floor_to(addr as int, align as int),
        aligned <= addr < aligned + align,
        aligned % align == 0,
{
    proof {
        pow2_is_positive(align as int);
        floor_to_is_greatest_multiple(addr as int, align as int);
    }
    addr - addr % align
}

/// The page size is a power of two.
pub proof fn page_size_is_pow2()
    ensures
        is_pow2(PAGE_SIZE as int),
{
    reveal_with_fuel(is_pow2, 14);
}

} // verus!
