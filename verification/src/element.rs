//! Element types a tensor can hold and compute with.
//!
//! Every element type stands for an integer through `val`, bounded by the
//! type's representable range.  The arithmetic methods follow the
//! two's-complement wrapping semantics of the machine operators; division
//! is the one operation whose out-of-range inputs (zero divisor, quotient
//! overflow) are ruled out by precondition, because the native division
//! operator always fails there rather than wrapping.

use vstd::prelude::*;
use vstd::arithmetic::div_mod::lemma_fundamental_div_mod;
use vstd::arithmetic::div_mod::lemma_mod_division_less_than_divisor;
use vstd::arithmetic::div_mod::lemma_mod_multiples_vanish;
use vstd::arithmetic::div_mod::lemma_small_mod;

verus! {

/// The unique integer congruent to `x` modulo the width of the inclusive
/// range `[lo, hi]` that lies within that range: two's-complement
/// wrap-around expressed on unbounded integers.
pub open spec fn wrap_to(x: int, lo: int, hi: int) -> int {
    lo + (x - lo) % (hi - lo + 1)
}

/// Truncating integer division, the semantics of the native `/` operator:
/// the quotient is rounded toward zero.
pub open spec fn trunc_div(x: int, d: int) -> int
    recommends
        d != 0,
{
    if x == 0 {
        0
    } else if x > 0 && d > 0 {
        x / d
    } else if x < 0 && d < 0 {
        (x * -1) / (d * -1)
    } else if x < 0 {
        ((x * -1) / d) * -1
    } else {
        (x / (d * -1)) * -1
    }
}

/// `wrap_to` stays within its range.
pub proof fn lemma_wrap_to_in_range(x: int, lo: int, hi: int)
    requires
        lo <= hi,
    ensures
        lo <= wrap_to(x, lo, hi) <= hi,
{
    lemma_mod_division_less_than_divisor(x - lo, hi - lo + 1);
}

/// An integer that differs from `x` by a multiple of the range width and
/// lies within the range is exactly `wrap_to(x, lo, hi)`.
pub proof fn lemma_wrap_to_congruent(x: int, lo: int, hi: int, w: int, k: int)
    requires
        lo <= w <= hi,
        x - w == k * (hi - lo + 1),
    ensures
        wrap_to(x, lo, hi) == w,
{
    let m = hi - lo + 1;
    assert(x - lo == m * k + (w - lo)) by (nonlinear_arith)
        requires x - w == k * m;
    lemma_mod_multiples_vanish(k, w - lo, m);
    lemma_small_mod((w - lo) as nat, m as nat);
}

/// The common shape of the wrapping add and subtract results: the exact
/// integer, shifted by at most one range width back into range.
pub proof fn lemma_wrap_to_shift(x: int, lo: int, hi: int, w: int)
    requires
        lo <= w <= hi,
        w == x || w == x - (hi - lo + 1) || w == x + (hi - lo + 1),
    ensures
        wrap_to(x, lo, hi) == w,
{
    if w == x {
        lemma_wrap_to_congruent(x, lo, hi, w, 0);
    } else if w == x - (hi - lo + 1) {
        lemma_wrap_to_congruent(x, lo, hi, w, 1);
    } else {
        lemma_wrap_to_congruent(x, lo, hi, w, -1);
    }
}

/// The common shape of the wrapping multiply result on signed types: the
/// remainder modulo the range width, folded into the signed range.
pub proof fn lemma_wrap_to_crop(x: int, lo: int, hi: int, w: int)
    requires
        lo <= hi,
        w == (if x % (hi - lo + 1) > hi {
            x % (hi - lo + 1) - (hi - lo + 1)
        } else {
            x % (hi - lo + 1)
        }),
        lo <= 0 <= hi,
    ensures
        wrap_to(x, lo, hi) == w,
{
    let m = hi - lo + 1;
    lemma_fundamental_div_mod(x, m);
    lemma_mod_division_less_than_divisor(x, m);
    if x % m > hi {
        assert(x - (x % m - m) == m * (x / m) + m);
        assert(m * (x / m) + m == (x / m + 1) * m) by (nonlinear_arith);
        lemma_wrap_to_congruent(x, lo, hi, w, x / m + 1);
    } else {
        assert(x - x % m == m * (x / m));
        assert(m * (x / m) == (x / m) * m) by (nonlinear_arith);
        lemma_wrap_to_congruent(x, lo, hi, w, x / m);
    }
}

/// Wrap-around addition and subtraction cancel: adding any `y` and then
/// subtracting it again restores an in-range `x` exactly.
pub proof fn lemma_wrap_add_sub_cancel(x: int, y: int, lo: int, hi: int)
    requires
        lo <= x <= hi,
    ensures
        wrap_to(wrap_to(x + y, lo, hi) - y, lo, hi) == x,
{
    let m = hi - lo + 1;
    let w = wrap_to(x + y, lo, hi);
    lemma_wrap_to_in_range(x + y, lo, hi);
    lemma_fundamental_div_mod((x + y) - lo, m);
    let q = ((x + y) - lo) / m;
    assert(w == x + y - m * q);
    assert((w - y) - x == (-q) * m) by (nonlinear_arith)
        requires w == x + y - m * q;
    lemma_wrap_to_congruent(w - y, lo, hi, x, -q);
}

/// Wrap-around negation is an involution: negating twice restores an
/// in-range `x` exactly.
pub proof fn lemma_wrap_neg_neg(x: int, lo: int, hi: int)
    requires
        lo <= x <= hi,
    ensures
        wrap_to(-wrap_to(-x, lo, hi), lo, hi) == x,
{
    let m = hi - lo + 1;
    let w = wrap_to(-x, lo, hi);
    lemma_wrap_to_in_range(-x, lo, hi);
    lemma_fundamental_div_mod((-x) - lo, m);
    let q = ((-x) - lo) / m;
    assert(w == -x - m * q);
    assert((-w) - x == q * m) by (nonlinear_arith)
        requires w == -x - m * q;
    lemma_wrap_to_congruent(-w, lo, hi, x, q);
}

/// An integer element type of a tensor.
///
/// `val` is the integer a value stands for, always within
/// `[min_val, max_val]`; the arithmetic methods compute modulo the range
/// width, which on the exact results demanded by the tests coincides with
/// exact arithmetic.
pub trait Element: Sized + Copy {
    /// Smallest representable integer.
    spec fn min_val() -> int;

    /// Largest representable integer.
    spec fn max_val() -> int;

    /// The integer this value stands for.
    spec fn val(self) -> int;

    /// Every value lies in the representable range, which contains zero
    /// and at least one positive integer and is at most 64 bits wide.
    proof fn lemma_in_range(self)
        ensures
            Self::min_val() <= self.val() <= Self::max_val(),
            Self::min_val() <= 0 < Self::max_val(),
            i64::MIN as int <= Self::min_val(),
            Self::max_val() <= u64::MAX as int,
    ;

    /// Two values standing for the same integer are the same value.
    proof fn lemma_val_injective(a: Self, b: Self)
        requires
            a.val() == b.val(),
        ensures
            a == b,
    ;

    /// The zero of the type: the default fill value and the neutral
    /// starting accumulator of the reductions.
    fn zero() -> (r: Self)
        ensures
            r.val() == 0,
    ;

    /// Wrapping addition.
    fn add_wrap(self, rhs: Self) -> (r: Self)
        ensures
            r.val() == wrap_to(self.val() + rhs.val(), Self::min_val(), Self::max_val()),
    ;

    /// Wrapping subtraction.
    fn sub_wrap(self, rhs: Self) -> (r: Self)
        ensures
            r.val() == wrap_to(self.val() - rhs.val(), Self::min_val(), Self::max_val()),
    ;

    /// Wrapping multiplication.
    fn mul_wrap(self, rhs: Self) -> (r: Self)
        ensures
            r.val() == wrap_to(self.val() * rhs.val(), Self::min_val(), Self::max_val()),
    ;

    /// Truncating division.  A zero divisor and a quotient out of range
    /// (the most negative value divided by minus one) are ruled out by
    /// precondition: the native operator fails on both.
    fn div_elem(self, rhs: Self) -> (r: Self)
        requires
            rhs.val() != 0,
            Self::min_val() <= trunc_div(self.val(), rhs.val()) <= Self::max_val(),
        ensures
            r.val() == trunc_div(self.val(), rhs.val()),
    ;

    /// Equality of the integers two values stand for.
    fn eq_val(self, rhs: Self) -> (r: bool)
        ensures
            r == (self.val() == rhs.val()),
    ;

    /// The integer this value stands for, widened into the one machine
    /// type that can hold every element type's range.
    fn widened(self) -> (r: i128)
        ensures
            r as int == self.val(),
    ;
}

/// An element type closed under negation.
pub trait SignedElement: Element {
    /// Wrapping negation.
    fn neg_wrap(self) -> (r: Self)
        ensures
            r.val() == wrap_to(-self.val(), Self::min_val(), Self::max_val()),
    ;
}

impl Element for u8 {
    open spec fn min_val() -> int {
        0
    }

    open spec fn max_val() -> int {
        u8::MAX as int
    }

    open spec fn val(self) -> int {
        self as int
    }

    proof fn lemma_in_range(self) {
    }

    proof fn lemma_val_injective(a: Self, b: Self) {
    }

    fn zero() -> (r: Self) {
        0
    }

    fn add_wrap(self, rhs: Self) -> (r: Self) {
        let r = self.wrapping_add(rhs);
        proof {
            lemma_wrap_to_shift(self as int + rhs as int, 0, u8::MAX as int, r as int);
        }
        r
    }

    fn sub_wrap(self, rhs: Self) -> (r: Self) {
        let r = self.wrapping_sub(rhs);
        proof {
            lemma_wrap_to_shift(self as int - rhs as int, 0, u8::MAX as int, r as int);
        }
        r
    }

    fn mul_wrap(self, rhs: Self) -> (r: Self) {
        let r = self.wrapping_mul(rhs);
        proof {
            lemma_fundamental_div_mod(self as int * rhs as int, 256);
        }
        r
    }

    fn div_elem(self, rhs: Self) -> (r: Self) {
        self / rhs
    }

    fn eq_val(self, rhs: Self) -> (r: bool) {
        self == rhs
    }

    fn widened(self) -> (r: i128) {
        self as i128
    }
}

impl Element for i8 {
    open spec fn min_val() -> int {
        i8::MIN as int
    }

    open spec fn max_val() -> int {
        i8::MAX as int
    }

    open spec fn val(self) -> int {
        self as int
    }

    proof fn lemma_in_range(self) {
    }

    proof fn lemma_val_injective(a: Self, b: Self) {
    }

    fn zero() -> (r: Self) {
        0
    }

    fn add_wrap(self, rhs: Self) -> (r: Self) {
        let r = self.wrapping_add(rhs);
        proof {
            lemma_wrap_to_shift(self as int + rhs as int, i8::MIN as int, i8::MAX as int, r as int);
        }
        r
    }

    fn sub_wrap(self, rhs: Self) -> (r: Self) {
        let r = self.wrapping_sub(rhs);
        proof {
            lemma_wrap_to_shift(self as int - rhs as int, i8::MIN as int, i8::MAX as int, r as int);
        }
        r
    }

    fn mul_wrap(self, rhs: Self) -> (r: Self) {
        let r = self.wrapping_mul(rhs);
        proof {
            lemma_wrap_to_crop(self as int * rhs as int, i8::MIN as int, i8::MAX as int, r as int);
        }
        r
    }

    fn div_elem(self, rhs: Self) -> (r: Self) {
        if let Some(q) = self.checked_div(rhs) {
            q
        } else {
            proof {
                assert(false);
            }
            0
        }
    }

    fn eq_val(self, rhs: Self) -> (r: bool) {
        self == rhs
    }

    fn widened(self) -> (r: i128) {
        self as i128
    }
}

impl SignedElement for i8 {
    fn neg_wrap(self) -> (r: Self) {
        let r = (0 as i8).wrapping_sub(self);
        proof {
            lemma_wrap_to_shift(-(self as int), i8::MIN as int, i8::MAX as int, r as int);
        }
        r
    }
}


impl Element for u16 {
    open spec fn min_val() -> int {
        0
    }

    open spec fn max_val() -> int {
        u16::MAX as int
    }

    open spec fn val(self) -> int {
        self as int
    }

    proof fn lemma_in_range(self) {
    }

    proof fn lemma_val_injective(a: Self, b: Self) {
    }

    fn zero() -> (r: Self) {
        0
    }

    fn add_wrap(self, rhs: Self) -> (r: Self) {
        let r = self.wrapping_add(rhs);
        proof {
            lemma_wrap_to_shift(self as int + rhs as int, 0, u16::MAX as int, r as int);
        }
        r
    }

    fn sub_wrap(self, rhs: Self) -> (r: Self) {
        let r = self.wrapping_sub(rhs);
        proof {
            lemma_wrap_to_shift(self as int - rhs as int, 0, u16::MAX as int, r as int);
        }
        r
    }

    fn mul_wrap(self, rhs: Self) -> (r: Self) {
        let r = self.wrapping_mul(rhs);
        proof {
            lemma_fundamental_div_mod(self as int * rhs as int, 0x1_0000);
        }
        r
    }

    fn div_elem(self, rhs: Self) -> (r: Self) {
        self / rhs
    }

    fn eq_val(self, rhs: Self) -> (r: bool) {
        self == rhs
    }

    fn widened(self) -> (r: i128) {
        self as i128
    }
}

impl Element for i16 {
    open spec fn min_val() -> int {
        i16::MIN as int
    }

    open spec fn max_val() -> int {
        i16::MAX as int
    }

    open spec fn val(self) -> int {
        self as int
    }

    proof fn lemma_in_range(self) {
    }

    proof fn lemma_val_injective(a: Self, b: Self) {
    }

    fn zero() -> (r: Self) {
        0
    }

    fn add_wrap(self, rhs: Self) -> (r: Self) {
        let r = self.wrapping_add(rhs);
        proof {
            lemma_wrap_to_shift(self as int + rhs as int, i16::MIN as int, i16::MAX as int, r as int);
        }
        r
    }

    fn sub_wrap(self, rhs: Self) -> (r: Self) {
        let r = self.wrapping_sub(rhs);
        proof {
            lemma_wrap_to_shift(self as int - rhs as int, i16::MIN as int, i16::MAX as int, r as int);
        }
        r
    }

    fn mul_wrap(self, rhs: Self) -> (r: Self) {
        let r = self.wrapping_mul(rhs);
        proof {
            lemma_wrap_to_crop(self as int * rhs as int, i16::MIN as int, i16::MAX as int, r as int);
        }
        r
    }

    fn div_elem(self, rhs: Self) -> (r: Self) {
        if let Some(q) = self.checked_div(rhs) {
            q
        } else {
            proof {
                assert(false);
            }
            0
        }
    }

    fn eq_val(self, rhs: Self) -> (r: bool) {
        self == rhs
    }

    fn widened(self) -> (r: i128) {
        self as i128
    }
}

impl SignedElement for i16 {
    fn neg_wrap(self) -> (r: Self) {
        let r = (0 as i16).wrapping_sub(self);
        proof {
            lemma_wrap_to_shift(-(self as int), i16::MIN as int, i16::MAX as int, r as int);
        }
        r
    }
}

impl Element for u32 {
    open spec fn min_val() -> int {
        0
    }

    open spec fn max_val() -> int {
        u32::MAX as int
    }

    open spec fn val(self) -> int {
        self as int
    }

    proof fn lemma_in_range(self) {
    }

    proof fn lemma_val_injective(a: Self, b: Self) {
    }

    fn zero() -> (r: Self) {
        0
    }

    fn add_wrap(self, rhs: Self) -> (r: Self) {
        let r = self.wrapping_add(rhs);
        proof {
            lemma_wrap_to_shift(self as int + rhs as int, 0, u32::MAX as int, r as int);
        }
        r
    }

    fn sub_wrap(self, rhs: Self) -> (r: Self) {
        let r = self.wrapping_sub(rhs);
        proof {
            lemma_wrap_to_shift(self as int - rhs as int, 0, u32::MAX as int, r as int);
        }
        r
    }

    fn mul_wrap(self, rhs: Self) -> (r: Self) {
        let r = self.wrapping_mul(rhs);
        proof {
            lemma_fundamental_div_mod(self as int * rhs as int, 0x1_0000_0000);
        }
        r
    }

    fn div_elem(self, rhs: Self) -> (r: Self) {
        self / rhs
    }

    fn eq_val(self, rhs: Self) -> (r: bool) {
        self == rhs
    }

    fn widened(self) -> (r: i128) {
        self as i128
    }
}

impl Element for i32 {
    open spec fn min_val() -> int {
        i32::MIN as int
    }

    open spec fn max_val() -> int {
        i32::MAX as int
    }

    open spec fn val(self) -> int {
        self as int
    }

    proof fn lemma_in_range(self) {
    }

    proof fn lemma_val_injective(a: Self, b: Self) {
    }

    fn zero() -> (r: Self) {
        0
    }

    fn add_wrap(self, rhs: Self) -> (r: Self) {
        let r = self.wrapping_add(rhs);
        proof {
            lemma_wrap_to_shift(self as int + rhs as int, i32::MIN as int, i32::MAX as int, r as int);
        }
        r
    }

    fn sub_wrap(self, rhs: Self) -> (r: Self) {
        let r = self.wrapping_sub(rhs);
        proof {
            lemma_wrap_to_shift(self as int - rhs as int, i32::MIN as int, i32::MAX as int, r as int);
        }
        r
    }

    fn mul_wrap(self, rhs: Self) -> (r: Self) {
        let r = self.wrapping_mul(rhs);
        proof {
            lemma_wrap_to_crop(self as int * rhs as int, i32::MIN as int, i32::MAX as int, r as int);
        }
        r
    }

    fn div_elem(self, rhs: Self) -> (r: Self) {
        if let Some(q) = self.checked_div(rhs) {
            q
        } else {
            proof {
                assert(false);
            }
            0
        }
    }

    fn eq_val(self, rhs: Self) -> (r: bool) {
        self == rhs
    }

    fn widened(self) -> (r: i128) {
        self as i128
    }
}

impl SignedElement for i32 {
    fn neg_wrap(self) -> (r: Self) {
        let r = (0 as i32).wrapping_sub(self);
        proof {
            lemma_wrap_to_shift(-(self as int), i32::MIN as int, i32::MAX as int, r as int);
        }
        r
    }
}

impl Element for u64 {
    open spec fn min_val() -> int {
        0
    }

    open spec fn max_val() -> int {
        u64::MAX as int
    }

    open spec fn val(self) -> int {
        self as int
    }

    proof fn lemma_in_range(self) {
    }

    proof fn lemma_val_injective(a: Self, b: Self) {
    }

    fn zero() -> (r: Self) {
        0
    }

    fn add_wrap(self, rhs: Self) -> (r: Self) {
        let r = self.wrapping_add(rhs);
        proof {
            lemma_wrap_to_shift(self as int + rhs as int, 0, u64::MAX as int, r as int);
        }
        r
    }

    fn sub_wrap(self, rhs: Self) -> (r: Self) {
        let r = self.wrapping_sub(rhs);
        proof {
            lemma_wrap_to_shift(self as int - rhs as int, 0, u64::MAX as int, r as int);
        }
        r
    }

    fn mul_wrap(self, rhs: Self) -> (r: Self) {
        let r = self.wrapping_mul(rhs);
        proof {
            lemma_fundamental_div_mod(self as int * rhs as int, 0x1_0000_0000_0000_0000);
        }
        r
    }

    fn div_elem(self, rhs: Self) -> (r: Self) {
        self / rhs
    }

    fn eq_val(self, rhs: Self) -> (r: bool) {
        self == rhs
    }

    fn widened(self) -> (r: i128) {
        self as i128
    }
}

impl Element for i64 {
    open spec fn min_val() -> int {
        i64::MIN as int
    }

    open spec fn max_val() -> int {
        i64::MAX as int
    }

    open spec fn val(self) -> int {
        self as int
    }

    proof fn lemma_in_range(self) {
    }

    proof fn lemma_val_injective(a: Self, b: Self) {
    }

    fn zero() -> (r: Self) {
        0
    }

    fn add_wrap(self, rhs: Self) -> (r: Self) {
        let r = self.wrapping_add(rhs);
        proof {
            lemma_wrap_to_shift(self as int + rhs as int, i64::MIN as int, i64::MAX as int, r as int);
        }
        r
    }

    fn sub_wrap(self, rhs: Self) -> (r: Self) {
        let r = self.wrapping_sub(rhs);
        proof {
            lemma_wrap_to_shift(self as int - rhs as int, i64::MIN as int, i64::MAX as int, r as int);
        }
        r
    }

    fn mul_wrap(self, rhs: Self) -> (r: Self) {
        let r = self.wrapping_mul(rhs);
        proof {
            lemma_wrap_to_crop(self as int * rhs as int, i64::MIN as int, i64::MAX as int, r as int);
        }
        r
    }

    fn div_elem(self, rhs: Self) -> (r: Self) {
        if let Some(q) = self.checked_div(rhs) {
            q
        } else {
            proof {
                assert(false);
            }
            0
        }
    }

    fn eq_val(self, rhs: Self) -> (r: bool) {
        self == rhs
    }

    fn widened(self) -> (r: i128) {
        self as i128
    }
}

impl SignedElement for i64 {
    fn neg_wrap(self) -> (r: Self) {
        let r = (0 as i64).wrapping_sub(self);
        proof {
            lemma_wrap_to_shift(-(self as int), i64::MIN as int, i64::MAX as int, r as int);
        }
        r
    }
}

} // verus!
