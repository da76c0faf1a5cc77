//! Wrap-around integer arithmetic, described over the mathematical integers.
//!
//! A fixed-width integer type with `r` values wraps every result into its
//! representable range.  For an unsigned type that range is `[0, r)`; for a
//! signed type with largest value `max` it is `[-(max+1), max]` with
//! `r == 2 * (max + 1)`.  Both wrappings only depend on the remainder of the
//! result modulo `r`, which is what makes the ring laws (associativity,
//! distributivity, inverses) carry over to the wrapped operations.
use vstd::arithmetic::div_mod::{
    lemma_add_mod_noop, lemma_mod_add_multiples_vanish, lemma_mod_bound, lemma_mod_twice,
    lemma_mul_mod_noop_general, lemma_small_mod,
};
use vstd::prelude::*;

verus! {

/// `x` wrapped into the unsigned range `[0, r)`.
pub open spec fn wrap_unsigned(x: int, r: int) -> int {
    x % r
}

/// `x` wrapped into the signed range `[-(max+1), max]`, where `r` is the
/// number of representable values, `2 * (max + 1)`.
pub open spec fn wrap_signed(x: int, r: int, max: int) -> int {
    if x % r > max {
        x % r - r
    } else {
        x % r
    }
}

/// The unsigned wrap lands in range and keeps the remainder modulo `r`.
pub proof fn lemma_wrap_unsigned_props(x: int, r: int)
    requires
        0 < r,
    ensures
        0 <= wrap_unsigned(x, r) < r,
        wrap_unsigned(x, r) % r == x % r,
{
    lemma_mod_bound(x, r);
    lemma_mod_twice(x, r);
}

/// Wrapping an unsigned value that is already in range changes nothing.
pub proof fn lemma_wrap_unsigned_identity(x: int, r: int)
    requires
        0 <= x < r,
    ensures
        wrap_unsigned(x, r) == x,
{
    lemma_small_mod(x as nat, r as nat);
}

/// Integers congruent modulo `r` wrap to the same unsigned value.
pub proof fn lemma_wrap_unsigned_cong(x: int, y: int, r: int)
    requires
        0 < r,
        x % r == y % r,
    ensures
        wrap_unsigned(x, r) == wrap_unsigned(y, r),
{
}

/// The signed wrap lands in range and keeps the remainder modulo `r`.
pub proof fn lemma_wrap_signed_props(x: int, r: int, max: int)
    requires
        0 < max,
        r == 2 * (max + 1),
    ensures
        -(max + 1) <= wrap_signed(x, r, max) <= max,
        wrap_signed(x, r, max) % r == x % r,
{
    lemma_mod_bound(x, r);
    lemma_mod_twice(x, r);
    if x % r > max {
        // x % r - r differs from x % r by one multiple of r
        lemma_mod_add_multiples_vanish(x % r - r, r);
        lemma_small_mod((x % r) as nat, r as nat);
    }
}

/// Wrapping a signed value that is already in range changes nothing.
pub proof fn lemma_wrap_signed_identity(x: int, r: int, max: int)
    requires
        0 < max,
        r == 2 * (max + 1),
        -(max + 1) <= x <= max,
    ensures
        wrap_signed(x, r, max) == x,
{
    if x >= 0 {
        lemma_small_mod(x as nat, r as nat);
    } else {
        lemma_mod_add_multiples_vanish(x, r);
        lemma_small_mod((x + r) as nat, r as nat);
    }
}

/// Integers congruent modulo `r` wrap to the same signed value.
pub proof fn lemma_wrap_signed_cong(x: int, y: int, r: int, max: int)
    requires
        0 < r,
        x % r == y % r,
    ensures
        wrap_signed(x, r, max) == wrap_signed(y, r, max),
{
}

/// Congruence modulo `r` is preserved by addition.
pub proof fn lemma_cong_add(x: int, x2: int, y: int, y2: int, r: int)
    requires
        0 < r,
        x % r == x2 % r,
        y % r == y2 % r,
    ensures
        (x + y) % r == (x2 + y2) % r,
{
    lemma_add_mod_noop(x, y, r);
    lemma_add_mod_noop(x2, y2, r);
}

/// Congruence modulo `r` is preserved by multiplication.
pub proof fn lemma_cong_mul(x: int, x2: int, y: int, y2: int, r: int)
    requires
        0 < r,
        x % r == x2 % r,
        y % r == y2 % r,
    ensures
        (x * y) % r == (x2 * y2) % r,
{
    lemma_mul_mod_noop_general(x, y, r);
    lemma_mul_mod_noop_general(x2, y2, r);
}

} // verus!
