use vstd::prelude::*;

verus! {

/// `r` is the integer square root of `x`: the greatest integer whose square
/// does not exceed `x`.
pub open spec fn is_floor_sqrt(x: int, r: int) -> bool {
    0 <= r && r * r <= x && x < (r + 1) * (r + 1)
}

/// The integer square root of `x`. Meaningful for `x >= 0`, where it is the
/// unique `r` with `is_floor_sqrt(x, r)`; see `lemma_floor_sqrt_is_floor_sqrt`.
pub open spec fn floor_sqrt(x: int) -> int {
    choose|r: int| is_floor_sqrt(x, r)
}

/// The value a nonnegative quantity takes after a narrowing cast to 64 bits.
pub open spec fn trunc_u64(x: int) -> int {
    x % 0x1_0000_0000_0000_0000
}

/// Every nonnegative `x` has an integer square root.
proof fn lemma_floor_sqrt_exists(x: int) -> (r: int)
    requires
        0 <= x,
    ensures
        is_floor_sqrt(x, r),
    decreases x,
{
    if x == 0 {
        0
    } else {
        let p = lemma_floor_sqrt_exists(x - 1);
        if (p + 1) * (p + 1) <= x {
            assert(is_floor_sqrt(x, p + 1)) by (nonlinear_arith)
                requires
                    is_floor_sqrt(x - 1, p),
                    (p + 1) * (p + 1) <= x,
            ;
            p + 1
        } else {
            p
        }
    }
}

/// The integer square root is unique.
proof fn lemma_floor_sqrt_unique(x: int, r1: int, r2: int)
    requires
        is_floor_sqrt(x, r1),
        is_floor_sqrt(x, r2),
    ensures
        r1 == r2,
{
    assert(r1 == r2) by (nonlinear_arith)
        requires
            is_floor_sqrt(x, r1),
            is_floor_sqrt(x, r2),
    ;
}

/// `floor_sqrt(x)` satisfies the defining property for every nonnegative `x`.
pub proof fn lemma_floor_sqrt_is_floor_sqrt(x: int)
    requires
        0 <= x,
    ensures
        is_floor_sqrt(x, floor_sqrt(x)),
{
    let w = lemma_floor_sqrt_exists(x);
    assert(exists|r: int| is_floor_sqrt(x, r));
}

/// Any witness of `is_floor_sqrt` is `floor_sqrt` itself.
pub proof fn lemma_floor_sqrt_agrees(x: int, r: int)
    requires
        0 <= x,
        is_floor_sqrt(x, r),
    ensures
        r == floor_sqrt(x),
{
    lemma_floor_sqrt_is_floor_sqrt(x);
    lemma_floor_sqrt_unique(x, r, floor_sqrt(x));
}

/// Ordering of two fractions carries over to their rounded-down quotients:
/// `n2 / d2 <= n1 / d1` whenever `n2 * d1 <= n1 * d2`.
pub proof fn lemma_div_cross(n1: int, d1: int, n2: int, d2: int)
    requires
        0 <= n2,
        0 < d1,
        0 < d2,
        n2 * d1 <= n1 * d2,
    ensures
        n2 / d2 <= n1 / d1,
{
    let q2 = n2 / d2;
    vstd::arithmetic::div_mod::lemma_fundamental_div_mod(n2, d2);
    vstd::arithmetic::div_mod::lemma_mod_division_less_than_divisor(n2, d2);
    assert(d1 * q2 <= n1) by (nonlinear_arith)
        requires
            n2 == d2 * q2 + n2 % d2,
            0 <= n2 % d2,
            0 < d1,
            0 < d2,
            n2 * d1 <= n1 * d2,
    ;
    vstd::arithmetic::div_mod::lemma_div_is_ordered(d1 * q2, n1, d1);
    vstd::arithmetic::div_mod::lemma_div_multiples_vanish(q2, d1);
}

/// A narrowing cast of a 128-bit value keeps its low 64 bits.
pub proof fn lemma_trunc_u64(x: u128)
    ensures
        (x as u64) as int == trunc_u64(x as int),
        x <= u64::MAX ==> (x as u64) as int == x as int,
{
    assert(x as u64 == (x % 0x1_0000_0000_0000_0000u128) as u64) by (bit_vector);
}

/// Relies on `fixed::types::U128F0::sqrt`: the result is the square root
/// rounded down with error below `DELTA`, which is 1 for a type with zero
/// fractional bits, so the call returns the integer square root. On an
/// unsigned fixed-point type the call neither panics nor overflows, and
/// `from_num` / `to_num` convert `u128` values exactly.
#[verifier::external_body]
pub(crate) fn isqrt_u128(x: u128) -> (r: u128)
    ensures
        is_floor_sqrt(x as int, r as int),
{
    fixed::types::U128F0::from_num(x).sqrt().to_num::<u128>()
}

} // verus!
