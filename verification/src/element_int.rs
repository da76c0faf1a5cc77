//! The blessed integer element types.
//!
//! Each implementation gives the arithmetic primitives wrap-around (modular)
//! semantics: addition, subtraction, multiplication and negation reduce the
//! exact mathematical result into the type's range, so they are total and
//! satisfy the ring laws of [`crate::element::Element`] exactly.  Division and
//! remainder truncate toward zero, as the machine operations do, and are
//! defined only for usable divisors; shifts are defined for shift amounts
//! below the bit width.
use crate::element::{BinOp, Element, UnOp};
use crate::modular::{
    lemma_cong_add, lemma_cong_mul, lemma_wrap_signed_cong, lemma_wrap_signed_identity,
    lemma_wrap_signed_props, lemma_wrap_unsigned_cong, lemma_wrap_unsigned_identity,
    lemma_wrap_unsigned_props, wrap_signed, wrap_unsigned,
};
use vstd::arithmetic::div_mod::lemma_mod_add_multiples_vanish;
use vstd::arithmetic::mul::lemma_mul_is_distributive_add_other_way;
use vstd::prelude::*;

verus! {

/// The number of values an `i64` can take.
pub open spec fn i64_count() -> int {
    0x1_0000_0000_0000_0000
}

/// `x` reduced into the `i64` range, keeping its remainder modulo `i64_count()`.
pub open spec fn crop_i64(x: int) -> i64 {
    wrap_signed(x, i64_count(), i64::MAX as int) as i64
}

/// The crop lands in the `i64` range and keeps the remainder.
pub proof fn lemma_crop_i64(x: int)
    ensures
        crop_i64(x) as int == wrap_signed(x, i64_count(), i64::MAX as int),
        (crop_i64(x) as int) % i64_count() == x % i64_count(),
{
    lemma_wrap_signed_props(x, i64_count(), i64::MAX as int);
}

/// Cropping a value already in the `i64` range changes nothing.
pub proof fn lemma_crop_i64_identity(x: int)
    requires
        i64::MIN <= x <= i64::MAX,
    ensures
        crop_i64(x) == x,
{
    lemma_wrap_signed_identity(x, i64_count(), i64::MAX as int);
}

/// Integers congruent modulo `i64_count()` crop to the same value.
pub proof fn lemma_crop_i64_cong(x: int, y: int)
    requires
        x % i64_count() == y % i64_count(),
    ensures
        crop_i64(x) == crop_i64(y),
{
    lemma_wrap_signed_cong(x, y, i64_count(), i64::MAX as int);
    lemma_wrap_signed_props(x, i64_count(), i64::MAX as int);
    lemma_wrap_signed_props(y, i64_count(), i64::MAX as int);
}

/// A value one period away crops like the original; cropping the shifted
/// in-range representative therefore recovers the wrapped result.
proof fn lemma_crop_i64_shift(x: int)
    ensures
        crop_i64(x) == crop_i64(x - i64_count()),
        crop_i64(x) == crop_i64(x + i64_count()),
{
    lemma_mod_add_multiples_vanish(x - i64_count(), i64_count());
    lemma_crop_i64_cong(x, x - i64_count());
    lemma_mod_add_multiples_vanish(x, i64_count());
    lemma_crop_i64_cong(x, x + i64_count());
}

/// The machine wrapping result agrees with the crop of the exact sum.
proof fn lemma_i64_wrap_add(a: i64, b: i64)
    ensures
        vstd::wrapping::i64_specs::wrapping_add(a, b) == crop_i64(a + b),
{
    if a + b > i64::MAX {
        lemma_crop_i64_shift(a + b);
        lemma_crop_i64_identity(a + b - i64_count());
    } else if a + b < i64::MIN {
        lemma_crop_i64_shift(a + b);
        lemma_crop_i64_identity(a + b + i64_count());
    } else {
        lemma_crop_i64_identity(a + b);
    }
}

/// The machine wrapping result agrees with the crop of the exact difference.
proof fn lemma_i64_wrap_sub(a: i64, b: i64)
    ensures
        vstd::wrapping::i64_specs::wrapping_sub(a, b) == crop_i64(a - b),
{
    if a - b > i64::MAX {
        lemma_crop_i64_shift(a - b);
        lemma_crop_i64_identity(a - b - i64_count());
    } else if a - b < i64::MIN {
        lemma_crop_i64_shift(a - b);
        lemma_crop_i64_identity(a - b + i64_count());
    } else {
        lemma_crop_i64_identity(a - b);
    }
}

impl Element for i64 {
    open spec fn zero_s() -> i64 {
        0
    }

    open spec fn one_s() -> i64 {
        1
    }

    open spec fn eval_s(op: BinOp, a: i64, b: i64) -> i64 {
        match op {
            BinOp::Add => crop_i64(a + b),
            BinOp::Sub => crop_i64(a - b),
            BinOp::Mul => crop_i64(a * b),
            BinOp::Div => if a >= 0 {
                (a / b) as i64
            } else {
                (-((-a) / (b as int))) as i64
            },
            BinOp::Rem => if a >= 0 {
                (a % b) as i64
            } else {
                (-((-a) % (b as int))) as i64
            },
            BinOp::BitAnd => a & b,
            BinOp::BitOr => a | b,
            BinOp::BitXor => a ^ b,
            BinOp::Shl => a << b,
            BinOp::Shr => a >> b,
        }
    }

    open spec fn eval_ok(op: BinOp, a: i64, b: i64) -> bool {
        match op {
            BinOp::Div | BinOp::Rem => b != 0 && !(a == i64::MIN && b == -1),
            BinOp::Shl | BinOp::Shr => 0 <= b < 64,
            _ => true,
        }
    }

    open spec fn un_s(op: UnOp, a: i64) -> i64 {
        match op {
            UnOp::Neg => crop_i64(0 - a),
            UnOp::Not => !a,
        }
    }

    fn zero() -> i64 {
        0
    }

    fn one() -> i64 {
        1
    }

    fn apply(op: BinOp, a: i64, b: i64) -> i64 {
        match op {
            BinOp::Add => {
                proof {
                    lemma_i64_wrap_add(a, b);
                }
                a.wrapping_add(b)
            },
            BinOp::Sub => {
                proof {
                    lemma_i64_wrap_sub(a, b);
                }
                a.wrapping_sub(b)
            },
            BinOp::Mul => a.wrapping_mul(b),
            BinOp::Div => a / b,
            BinOp::Rem => a % b,
            BinOp::BitAnd => a & b,
            BinOp::BitOr => a | b,
            BinOp::BitXor => a ^ b,
            BinOp::Shl => a << b,
            BinOp::Shr => a >> b,
        }
    }

    fn apply_un(op: UnOp, a: i64) -> i64 {
        match op {
            UnOp::Neg => {
                proof {
                    lemma_i64_wrap_sub(0, a);
                }
                0i64.wrapping_sub(a)
            },
            UnOp::Not => !a,
        }
    }

    fn eq_el(a: i64, b: i64) -> bool {
        a == b
    }

    proof fn lemma_total(op: BinOp, a: i64, b: i64) {
    }

    proof fn lemma_add_comm(a: i64, b: i64) {
    }

    proof fn lemma_add_assoc(a: i64, b: i64, c: i64) {
        lemma_crop_i64(a + b);
        lemma_crop_i64(b + c);
        lemma_cong_add(crop_i64(a + b) as int, a + b, c as int, c as int, i64_count());
        lemma_cong_add(a as int, a as int, crop_i64(b + c) as int, b + c, i64_count());
        lemma_crop_i64_cong(crop_i64(a + b) + c, a + crop_i64(b + c));
    }

    proof fn lemma_add_zero(a: i64) {
        lemma_crop_i64_identity(a as int);
    }

    proof fn lemma_add_neg(a: i64) {
        lemma_crop_i64(0 - a);
        lemma_cong_add(a as int, a as int, crop_i64(0 - a) as int, 0 - a, i64_count());
        lemma_crop_i64_cong(a + crop_i64(0 - a), 0);
        lemma_crop_i64_identity(0);
    }

    proof fn lemma_sub_is_add_neg(a: i64, b: i64) {
        lemma_crop_i64(0 - b);
        lemma_cong_add(a as int, a as int, crop_i64(0 - b) as int, 0 - b, i64_count());
        lemma_crop_i64_cong(a + crop_i64(0 - b), a - b);
    }

    proof fn lemma_mul_comm(a: i64, b: i64) {
    }

    proof fn lemma_mul_one(a: i64) {
        lemma_crop_i64_identity(a as int);
    }

    proof fn lemma_mul_zero(a: i64) {
        lemma_crop_i64_identity(0);
    }

    proof fn lemma_mul_distrib(a: i64, b: i64, c: i64) {
        lemma_crop_i64(a + b);
        lemma_cong_mul(crop_i64(a + b) as int, a + b, c as int, c as int, i64_count());
        lemma_mul_is_distributive_add_other_way(c as int, a as int, b as int);
        lemma_crop_i64(a * c);
        lemma_crop_i64(b * c);
        lemma_cong_add(
            crop_i64(a * c) as int,
            a * c,
            crop_i64(b * c) as int,
            b * c,
            i64_count(),
        );
        lemma_crop_i64_cong(crop_i64(a + b) * c, crop_i64(a * c) + crop_i64(b * c));
    }
}

} // verus!

verus! {

/// The number of values a `u64` can take.
pub open spec fn u64_count() -> int {
    0x1_0000_0000_0000_0000
}

/// `x` reduced into the `u64` range, keeping its remainder modulo `u64_count()`.
pub open spec fn crop_u64(x: int) -> u64 {
    wrap_unsigned(x, u64_count()) as u64
}

/// The crop lands in the `u64` range and keeps the remainder.
pub proof fn lemma_crop_u64(x: int)
    ensures
        crop_u64(x) as int == wrap_unsigned(x, u64_count()),
        (crop_u64(x) as int) % u64_count() == x % u64_count(),
{
    lemma_wrap_unsigned_props(x, u64_count());
}

/// Cropping a value already in the `u64` range changes nothing.
pub proof fn lemma_crop_u64_identity(x: int)
    requires
        0 <= x <= u64::MAX,
    ensures
        crop_u64(x) == x,
{
    lemma_wrap_unsigned_identity(x, u64_count());
}

/// Integers congruent modulo `u64_count()` crop to the same value.
pub proof fn lemma_crop_u64_cong(x: int, y: int)
    requires
        x % u64_count() == y % u64_count(),
    ensures
        crop_u64(x) == crop_u64(y),
{
    lemma_wrap_unsigned_cong(x, y, u64_count());
    lemma_wrap_unsigned_props(x, u64_count());
    lemma_wrap_unsigned_props(y, u64_count());
}

/// A value one period away crops like the original.
proof fn lemma_crop_u64_shift(x: int)
    ensures
        crop_u64(x) == crop_u64(x - u64_count()),
        crop_u64(x) == crop_u64(x + u64_count()),
{
    lemma_mod_add_multiples_vanish(x - u64_count(), u64_count());
    lemma_crop_u64_cong(x, x - u64_count());
    lemma_mod_add_multiples_vanish(x, u64_count());
    lemma_crop_u64_cong(x, x + u64_count());
}

/// The machine wrapping result agrees with the crop of the exact sum.
proof fn lemma_u64_wrap_add(a: u64, b: u64)
    ensures
        vstd::wrapping::u64_specs::wrapping_add(a, b) == crop_u64(a + b),
{
    if a + b > u64::MAX {
        lemma_crop_u64_shift(a + b);
        lemma_crop_u64_identity(a + b - u64_count());
    } else {
        lemma_crop_u64_identity(a + b);
    }
}

/// The machine wrapping result agrees with the crop of the exact difference.
proof fn lemma_u64_wrap_sub(a: u64, b: u64)
    ensures
        vstd::wrapping::u64_specs::wrapping_sub(a, b) == crop_u64(a - b),
{
    if a - b < 0 {
        lemma_crop_u64_shift(a - b);
        lemma_crop_u64_identity(a - b + u64_count());
    } else {
        lemma_crop_u64_identity(a - b);
    }
}

/// The machine wrapping product agrees with the crop of the exact product.
proof fn lemma_u64_wrap_mul(a: u64, b: u64)
    ensures
        vstd::wrapping::u64_specs::wrapping_mul(a, b) == crop_u64(a * b),
{
    lemma_wrap_unsigned_props(a * b, u64_count());
}

impl Element for u64 {
    open spec fn zero_s() -> u64 {
        0
    }

    open spec fn one_s() -> u64 {
        1
    }

    open spec fn eval_s(op: BinOp, a: u64, b: u64) -> u64 {
        match op {
            BinOp::Add => crop_u64(a + b),
            BinOp::Sub => crop_u64(a - b),
            BinOp::Mul => crop_u64(a * b),
            BinOp::Div => a / b,
            BinOp::Rem => a % b,
            BinOp::BitAnd => a & b,
            BinOp::BitOr => a | b,
            BinOp::BitXor => a ^ b,
            BinOp::Shl => a << b,
            BinOp::Shr => a >> b,
        }
    }

    open spec fn eval_ok(op: BinOp, a: u64, b: u64) -> bool {
        match op {
            BinOp::Div | BinOp::Rem => b != 0,
            BinOp::Shl | BinOp::Shr => b < 64,
            _ => true,
        }
    }

    open spec fn un_s(op: UnOp, a: u64) -> u64 {
        match op {
            UnOp::Neg => crop_u64(0 - a),
            UnOp::Not => !a,
        }
    }

    fn zero() -> u64 {
        0
    }

    fn one() -> u64 {
        1
    }

    fn apply(op: BinOp, a: u64, b: u64) -> u64 {
        match op {
            BinOp::Add => {
                proof {
                    lemma_u64_wrap_add(a, b);
                }
                a.wrapping_add(b)
            },
            BinOp::Sub => {
                proof {
                    lemma_u64_wrap_sub(a, b);
                }
                a.wrapping_sub(b)
            },
            BinOp::Mul => {
                proof {
                    lemma_u64_wrap_mul(a, b);
                }
                a.wrapping_mul(b)
            },
            BinOp::Div => a / b,
            BinOp::Rem => a % b,
            BinOp::BitAnd => a & b,
            BinOp::BitOr => a | b,
            BinOp::BitXor => a ^ b,
            BinOp::Shl => a << b,
            BinOp::Shr => a >> b,
        }
    }

    fn apply_un(op: UnOp, a: u64) -> u64 {
        match op {
            UnOp::Neg => {
                proof {
                    lemma_u64_wrap_sub(0, a);
                }
                0u64.wrapping_sub(a)
            },
            UnOp::Not => !a,
        }
    }

    fn eq_el(a: u64, b: u64) -> bool {
        a == b
    }

    proof fn lemma_total(op: BinOp, a: u64, b: u64) {
    }

    proof fn lemma_add_comm(a: u64, b: u64) {
    }

    proof fn lemma_add_assoc(a: u64, b: u64, c: u64) {
        lemma_crop_u64(a + b);
        lemma_crop_u64(b + c);
        lemma_cong_add(crop_u64(a + b) as int, a + b, c as int, c as int, u64_count());
        lemma_cong_add(a as int, a as int, crop_u64(b + c) as int, b + c, u64_count());
        lemma_crop_u64_cong(crop_u64(a + b) + c, a + crop_u64(b + c));
    }

    proof fn lemma_add_zero(a: u64) {
        lemma_crop_u64_identity(a as int);
    }

    proof fn lemma_add_neg(a: u64) {
        lemma_crop_u64(0 - a);
        lemma_cong_add(a as int, a as int, crop_u64(0 - a) as int, 0 - a, u64_count());
        lemma_crop_u64_cong(a + crop_u64(0 - a), 0);
        lemma_crop_u64_identity(0);
    }

    proof fn lemma_sub_is_add_neg(a: u64, b: u64) {
        lemma_crop_u64(0 - b);
        lemma_cong_add(a as int, a as int, crop_u64(0 - b) as int, 0 - b, u64_count());
        lemma_crop_u64_cong(a + crop_u64(0 - b), a - b);
    }

    proof fn lemma_mul_comm(a: u64, b: u64) {
    }

    proof fn lemma_mul_one(a: u64) {
        lemma_crop_u64_identity(a as int);
    }

    proof fn lemma_mul_zero(a: u64) {
        lemma_crop_u64_identity(0);
    }

    proof fn lemma_mul_distrib(a: u64, b: u64, c: u64) {
        lemma_crop_u64(a + b);
        lemma_cong_mul(crop_u64(a + b) as int, a + b, c as int, c as int, u64_count());
        lemma_mul_is_distributive_add_other_way(c as int, a as int, b as int);
        lemma_crop_u64(a * c);
        lemma_crop_u64(b * c);
        lemma_cong_add(
            crop_u64(a * c) as int,
            a * c,
            crop_u64(b * c) as int,
            b * c,
            u64_count(),
        );
        lemma_crop_u64_cong(crop_u64(a + b) * c, crop_u64(a * c) + crop_u64(b * c));
    }
}

} // verus!

verus! {

/// The number of values an `i32` can take.
pub open spec fn i32_count() -> int {
    0x1_0000_0000
}

/// `x` reduced into the `i32` range, keeping its remainder modulo `i32_count()`.
pub open spec fn crop_i32(x: int) -> i32 {
    wrap_signed(x, i32_count(), i32::MAX as int) as i32
}

/// The crop lands in the `i32` range and keeps the remainder.
pub proof fn lemma_crop_i32(x: int)
    ensures
        crop_i32(x) as int == wrap_signed(x, i32_count(), i32::MAX as int),
        (crop_i32(x) as int) % i32_count() == x % i32_count(),
{
    lemma_wrap_signed_props(x, i32_count(), i32::MAX as int);
}

/// Cropping a value already in the `i32` range changes nothing.
pub proof fn lemma_crop_i32_identity(x: int)
    requires
        i32::MIN <= x <= i32::MAX,
    ensures
        crop_i32(x) == x,
{
    lemma_wrap_signed_identity(x, i32_count(), i32::MAX as int);
}

/// Integers congruent modulo `i32_count()` crop to the same value.
pub proof fn lemma_crop_i32_cong(x: int, y: int)
    requires
        x % i32_count() == y % i32_count(),
    ensures
        crop_i32(x) == crop_i32(y),
{
    lemma_wrap_signed_cong(x, y, i32_count(), i32::MAX as int);
    lemma_wrap_signed_props(x, i32_count(), i32::MAX as int);
    lemma_wrap_signed_props(y, i32_count(), i32::MAX as int);
}

/// A value one period away crops like the original; cropping the shifted
/// in-range representative therefore recovers the wrapped result.
proof fn lemma_crop_i32_shift(x: int)
    ensures
        crop_i32(x) == crop_i32(x - i32_count()),
        crop_i32(x) == crop_i32(x + i32_count()),
{
    lemma_mod_add_multiples_vanish(x - i32_count(), i32_count());
    lemma_crop_i32_cong(x, x - i32_count());
    lemma_mod_add_multiples_vanish(x, i32_count());
    lemma_crop_i32_cong(x, x + i32_count());
}

/// The machine wrapping result agrees with the crop of the exact sum.
proof fn lemma_i32_wrap_add(a: i32, b: i32)
    ensures
        vstd::wrapping::i32_specs::wrapping_add(a, b) == crop_i32(a + b),
{
    if a + b > i32::MAX {
        lemma_crop_i32_shift(a + b);
        lemma_crop_i32_identity(a + b - i32_count());
    } else if a + b < i32::MIN {
        lemma_crop_i32_shift(a + b);
        lemma_crop_i32_identity(a + b + i32_count());
    } else {
        lemma_crop_i32_identity(a + b);
    }
}

/// The machine wrapping result agrees with the crop of the exact difference.
proof fn lemma_i32_wrap_sub(a: i32, b: i32)
    ensures
        vstd::wrapping::i32_specs::wrapping_sub(a, b) == crop_i32(a - b),
{
    if a - b > i32::MAX {
        lemma_crop_i32_shift(a - b);
        lemma_crop_i32_identity(a - b - i32_count());
    } else if a - b < i32::MIN {
        lemma_crop_i32_shift(a - b);
        lemma_crop_i32_identity(a - b + i32_count());
    } else {
        lemma_crop_i32_identity(a - b);
    }
}

impl Element for i32 {
    open spec fn zero_s() -> i32 {
        0
    }

    open spec fn one_s() -> i32 {
        1
    }

    open spec fn eval_s(op: BinOp, a: i32, b: i32) -> i32 {
        match op {
            BinOp::Add => crop_i32(a + b),
            BinOp::Sub => crop_i32(a - b),
            BinOp::Mul => crop_i32(a * b),
            BinOp::Div => if a >= 0 {
                (a / b) as i32
            } else {
                (-((-a) / (b as int))) as i32
            },
            BinOp::Rem => if a >= 0 {
                (a % b) as i32
            } else {
                (-((-a) % (b as int))) as i32
            },
            BinOp::BitAnd => a & b,
            BinOp::BitOr => a | b,
            BinOp::BitXor => a ^ b,
            BinOp::Shl => a << b,
            BinOp::Shr => a >> b,
        }
    }

    open spec fn eval_ok(op: BinOp, a: i32, b: i32) -> bool {
        match op {
            BinOp::Div | BinOp::Rem => b != 0 && !(a == i32::MIN && b == -1),
            BinOp::Shl | BinOp::Shr => 0 <= b < 32,
            _ => true,
        }
    }

    open spec fn un_s(op: UnOp, a: i32) -> i32 {
        match op {
            UnOp::Neg => crop_i32(0 - a),
            UnOp::Not => !a,
        }
    }

    fn zero() -> i32 {
        0
    }

    fn one() -> i32 {
        1
    }

    fn apply(op: BinOp, a: i32, b: i32) -> i32 {
        match op {
            BinOp::Add => {
                proof {
                    lemma_i32_wrap_add(a, b);
                }
                a.wrapping_add(b)
            },
            BinOp::Sub => {
                proof {
                    lemma_i32_wrap_sub(a, b);
                }
                a.wrapping_sub(b)
            },
            BinOp::Mul => a.wrapping_mul(b),
            BinOp::Div => a / b,
            BinOp::Rem => a % b,
            BinOp::BitAnd => a & b,
            BinOp::BitOr => a | b,
            BinOp::BitXor => a ^ b,
            BinOp::Shl => a << b,
            BinOp::Shr => a >> b,
        }
    }

    fn apply_un(op: UnOp, a: i32) -> i32 {
        match op {
            UnOp::Neg => {
                proof {
                    lemma_i32_wrap_sub(0, a);
                }
                0i32.wrapping_sub(a)
            },
            UnOp::Not => !a,
        }
    }

    fn eq_el(a: i32, b: i32) -> bool {
        a == b
    }

    proof fn lemma_total(op: BinOp, a: i32, b: i32) {
    }

    proof fn lemma_add_comm(a: i32, b: i32) {
    }

    proof fn lemma_add_assoc(a: i32, b: i32, c: i32) {
        lemma_crop_i32(a + b);
        lemma_crop_i32(b + c);
        lemma_cong_add(crop_i32(a + b) as int, a + b, c as int, c as int, i32_count());
        lemma_cong_add(a as int, a as int, crop_i32(b + c) as int, b + c, i32_count());
        lemma_crop_i32_cong(crop_i32(a + b) + c, a + crop_i32(b + c));
    }

    proof fn lemma_add_zero(a: i32) {
        lemma_crop_i32_identity(a as int);
    }

    proof fn lemma_add_neg(a: i32) {
        lemma_crop_i32(0 - a);
        lemma_cong_add(a as int, a as int, crop_i32(0 - a) as int, 0 - a, i32_count());
        lemma_crop_i32_cong(a + crop_i32(0 - a), 0);
        lemma_crop_i32_identity(0);
    }

    proof fn lemma_sub_is_add_neg(a: i32, b: i32) {
        lemma_crop_i32(0 - b);
        lemma_cong_add(a as int, a as int, crop_i32(0 - b) as int, 0 - b, i32_count());
        lemma_crop_i32_cong(a + crop_i32(0 - b), a - b);
    }

    proof fn lemma_mul_comm(a: i32, b: i32) {
    }

    proof fn lemma_mul_one(a: i32) {
        lemma_crop_i32_identity(a as int);
    }

    proof fn lemma_mul_zero(a: i32) {
        lemma_crop_i32_identity(0);
    }

    proof fn lemma_mul_distrib(a: i32, b: i32, c: i32) {
        lemma_crop_i32(a + b);
        lemma_cong_mul(crop_i32(a + b) as int, a + b, c as int, c as int, i32_count());
        lemma_mul_is_distributive_add_other_way(c as int, a as int, b as int);
        lemma_crop_i32(a * c);
        lemma_crop_i32(b * c);
        lemma_cong_add(
            crop_i32(a * c) as int,
            a * c,
            crop_i32(b * c) as int,
            b * c,
            i32_count(),
        );
        lemma_crop_i32_cong(crop_i32(a + b) * c, crop_i32(a * c) + crop_i32(b * c));
    }
}

} // verus!

verus! {

/// The number of values a `u32` can take.
pub open spec fn u32_count() -> int {
    0x1_0000_0000
}

/// `x` reduced into the `u32` range, keeping its remainder modulo `u32_count()`.
pub open spec fn crop_u32(x: int) -> u32 {
    wrap_unsigned(x, u32_count()) as u32
}

/// The crop lands in the `u32` range and keeps the remainder.
pub proof fn lemma_crop_u32(x: int)
    ensures
        crop_u32(x) as int == wrap_unsigned(x, u32_count()),
        (crop_u32(x) as int) % u32_count() == x % u32_count(),
{
    lemma_wrap_unsigned_props(x, u32_count());
}

/// Cropping a value already in the `u32` range changes nothing.
pub proof fn lemma_crop_u32_identity(x: int)
    requires
        0 <= x <= u32::MAX,
    ensures
        crop_u32(x) == x,
{
    lemma_wrap_unsigned_identity(x, u32_count());
}

/// Integers congruent modulo `u32_count()` crop to the same value.
pub proof fn lemma_crop_u32_cong(x: int, y: int)
    requires
        x % u32_count() == y % u32_count(),
    ensures
        crop_u32(x) == crop_u32(y),
{
    lemma_wrap_unsigned_cong(x, y, u32_count());
    lemma_wrap_unsigned_props(x, u32_count());
    lemma_wrap_unsigned_props(y, u32_count());
}

/// A value one period away crops like the original.
proof fn lemma_crop_u32_shift(x: int)
    ensures
        crop_u32(x) == crop_u32(x - u32_count()),
        crop_u32(x) == crop_u32(x + u32_count()),
{
    lemma_mod_add_multiples_vanish(x - u32_count(), u32_count());
    lemma_crop_u32_cong(x, x - u32_count());
    lemma_mod_add_multiples_vanish(x, u32_count());
    lemma_crop_u32_cong(x, x + u32_count());
}

/// The machine wrapping result agrees with the crop of the exact sum.
proof fn lemma_u32_wrap_add(a: u32, b: u32)
    ensures
        vstd::wrapping::u32_specs::wrapping_add(a, b) == crop_u32(a + b),
{
    if a + b > u32::MAX {
        lemma_crop_u32_shift(a + b);
        lemma_crop_u32_identity(a + b - u32_count());
    } else {
        lemma_crop_u32_identity(a + b);
    }
}

/// The machine wrapping result agrees with the crop of the exact difference.
proof fn lemma_u32_wrap_sub(a: u32, b: u32)
    ensures
        vstd::wrapping::u32_specs::wrapping_sub(a, b) == crop_u32(a - b),
{
    if a - b < 0 {
        lemma_crop_u32_shift(a - b);
        lemma_crop_u32_identity(a - b + u32_count());
    } else {
        lemma_crop_u32_identity(a - b);
    }
}

/// The machine wrapping product agrees with the crop of the exact product.
proof fn lemma_u32_wrap_mul(a: u32, b: u32)
    ensures
        vstd::wrapping::u32_specs::wrapping_mul(a, b) == crop_u32(a * b),
{
    lemma_wrap_unsigned_props(a * b, u32_count());
}

impl Element for u32 {
    open spec fn zero_s() -> u32 {
        0
    }

    open spec fn one_s() -> u32 {
        1
    }

    open spec fn eval_s(op: BinOp, a: u32, b: u32) -> u32 {
        match op {
            BinOp::Add => crop_u32(a + b),
            BinOp::Sub => crop_u32(a - b),
            BinOp::Mul => crop_u32(a * b),
            BinOp::Div => a / b,
            BinOp::Rem => a % b,
            BinOp::BitAnd => a & b,
            BinOp::BitOr => a | b,
            BinOp::BitXor => a ^ b,
            BinOp::Shl => a << b,
            BinOp::Shr => a >> b,
        }
    }

    open spec fn eval_ok(op: BinOp, a: u32, b: u32) -> bool {
        match op {
            BinOp::Div | BinOp::Rem => b != 0,
            BinOp::Shl | BinOp::Shr => b < 32,
            _ => true,
        }
    }

    open spec fn un_s(op: UnOp, a: u32) -> u32 {
        match op {
            UnOp::Neg => crop_u32(0 - a),
            UnOp::Not => !a,
        }
    }

    fn zero() -> u32 {
        0
    }

    fn one() -> u32 {
        1
    }

    fn apply(op: BinOp, a: u32, b: u32) -> u32 {
        match op {
            BinOp::Add => {
                proof {
                    lemma_u32_wrap_add(a, b);
                }
                a.wrapping_add(b)
            },
            BinOp::Sub => {
                proof {
                    lemma_u32_wrap_sub(a, b);
                }
                a.wrapping_sub(b)
            },
            BinOp::Mul => {
                proof {
                    lemma_u32_wrap_mul(a, b);
                }
                a.wrapping_mul(b)
            },
            BinOp::Div => a / b,
            BinOp::Rem => a % b,
            BinOp::BitAnd => a & b,
            BinOp::BitOr => a | b,
            BinOp::BitXor => a ^ b,
            BinOp::Shl => a << b,
            BinOp::Shr => a >> b,
        }
    }

    fn apply_un(op: UnOp, a: u32) -> u32 {
        match op {
            UnOp::Neg => {
                proof {
                    lemma_u32_wrap_sub(0, a);
                }
                0u32.wrapping_sub(a)
            },
            UnOp::Not => !a,
        }
    }

    fn eq_el(a: u32, b: u32) -> bool {
        a == b
    }

    proof fn lemma_total(op: BinOp, a: u32, b: u32) {
    }

    proof fn lemma_add_comm(a: u32, b: u32) {
    }

    proof fn lemma_add_assoc(a: u32, b: u32, c: u32) {
        lemma_crop_u32(a + b);
        lemma_crop_u32(b + c);
        lemma_cong_add(crop_u32(a + b) as int, a + b, c as int, c as int, u32_count());
        lemma_cong_add(a as int, a as int, crop_u32(b + c) as int, b + c, u32_count());
        lemma_crop_u32_cong(crop_u32(a + b) + c, a + crop_u32(b + c));
    }

    proof fn lemma_add_zero(a: u32) {
        lemma_crop_u32_identity(a as int);
    }

    proof fn lemma_add_neg(a: u32) {
        lemma_crop_u32(0 - a);
        lemma_cong_add(a as int, a as int, crop_u32(0 - a) as int, 0 - a, u32_count());
        lemma_crop_u32_cong(a + crop_u32(0 - a), 0);
        lemma_crop_u32_identity(0);
    }

    proof fn lemma_sub_is_add_neg(a: u32, b: u32) {
        lemma_crop_u32(0 - b);
        lemma_cong_add(a as int, a as int, crop_u32(0 - b) as int, 0 - b, u32_count());
        lemma_crop_u32_cong(a + crop_u32(0 - b), a - b);
    }

    proof fn lemma_mul_comm(a: u32, b: u32) {
    }

    proof fn lemma_mul_one(a: u32) {
        lemma_crop_u32_identity(a as int);
    }

    proof fn lemma_mul_zero(a: u32) {
        lemma_crop_u32_identity(0);
    }

    proof fn lemma_mul_distrib(a: u32, b: u32, c: u32) {
        lemma_crop_u32(a + b);
        lemma_cong_mul(crop_u32(a + b) as int, a + b, c as int, c as int, u32_count());
        lemma_mul_is_distributive_add_other_way(c as int, a as int, b as int);
        lemma_crop_u32(a * c);
        lemma_crop_u32(b * c);
        lemma_cong_add(
            crop_u32(a * c) as int,
            a * c,
            crop_u32(b * c) as int,
            b * c,
            u32_count(),
        );
        lemma_crop_u32_cong(crop_u32(a + b) * c, crop_u32(a * c) + crop_u32(b * c));
    }
}

} // verus!
