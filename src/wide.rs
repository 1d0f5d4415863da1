//! Unsigned arithmetic wider than `u128`: one product of two `u128` values,
//! divided back down by a third.
use vstd::arithmetic::div_mod::lemma_fundamental_div_mod_converse;
use vstd::arithmetic::power2::{lemma2_to64, lemma2_to64_rest, lemma_pow2_adds, lemma_pow2_strictly_increases, lemma_pow2_unfold, pow2};
use vstd::arithmetic::mul::{lemma_mul_is_distributive_add, lemma_mul_is_distributive_add_other_way};
use vstd::prelude::*;

verus! {

/// 2^64, the base of one half of a `u128`.
pub const HALF_BASE: u128 = 0x1_0000_0000_0000_0000;

/// 2^127, the top bit of a `u128`.
pub const TOP_BIT: u128 = 0x8000_0000_0000_0000_0000_0000_0000_0000;

/// 2^128, the weight of the high word of a 256-bit value.
pub open spec fn word() -> int {
    0x1_0000_0000_0000_0000_0000_0000_0000_0000int
}

/// The 256-bit value made of a high and a low `u128` word.
pub open spec fn wide_value(hi: u128, lo: u128) -> int {
    hi * word() + lo
}

/// floor(a * b / c), computed over the integers.
pub open spec fn mul_div_spec(a: int, b: int, c: int) -> int {
    a * b / c
}

proof fn lemma_product_halves(a1: int, a0: int, b1: int, b0: int, h: int)
    ensures
        (a1 * h + a0) * (b1 * h + b0) == (a1 * b1) * (h * h) + (a0 * b1 + a1 * b0) * h + a0 * b0,
{
    let b = b1 * h + b0;
    lemma_mul_is_distributive_add_other_way(b, a1 * h, a0);
    lemma_mul_is_distributive_add(a1 * h, b1 * h, b0);
    lemma_mul_is_distributive_add(a0, b1 * h, b0);
    assert((a1 * h) * (b1 * h) == (a1 * b1) * (h * h)) by (nonlinear_arith);
    assert((a1 * h) * b0 == (a1 * b0) * h) by (nonlinear_arith);
    assert(a0 * (b1 * h) == (a0 * b1) * h) by (nonlinear_arith);
    lemma_mul_is_distributive_add_other_way(h, a0 * b1, a1 * b0);
}

proof fn lemma_half_product_bound(x: int, y: int) by (nonlinear_arith)
    requires
        0 <= x < 0x1_0000_0000_0000_0000,
        0 <= y < 0x1_0000_0000_0000_0000,
    ensures
        0 <= x * y < word(),
{
}

proof fn lemma_full_product_bound(a: u128, b: u128) by (nonlinear_arith)
    ensures
        0 <= a * b < word() * word(),
{
}

/// The full 256-bit product of two `u128` values, as its (high, low) words.
pub fn wide_mul(a: u128, b: u128) -> (r: (u128, u128))
    ensures
        wide_value(r.0, r.1) == a * b,
{
    let a1 = a / HALF_BASE;
    let a0 = a % HALF_BASE;
    let b1 = b / HALF_BASE;
    let b0 = b % HALF_BASE;
    proof {
        lemma_half_product_bound(a0 as int, b0 as int);
        lemma_half_product_bound(a0 as int, b1 as int);
        lemma_half_product_bound(a1 as int, b0 as int);
        lemma_half_product_bound(a1 as int, b1 as int);
    }
    let p00 = a0 * b0;
    let p01 = a0 * b1;
    let p10 = a1 * b0;
    let p11 = a1 * b1;
    let mid = p00 / HALF_BASE + p01 % HALF_BASE + p10 % HALF_BASE;
    let lo = p00 % HALF_BASE + (mid % HALF_BASE) * HALF_BASE;
    proof {
        let h = HALF_BASE as int;
        lemma_product_halves(a1 as int, a0 as int, b1 as int, b0 as int, h);
        assert(h * h == word());
        let hi_int = p11 + p01 / HALF_BASE + p10 / HALF_BASE + mid / HALF_BASE;
        assert(a * b == hi_int * word() + lo);
        lemma_full_product_bound(a, b);
        assert(hi_int < word()) by (nonlinear_arith)
            requires
                a * b == hi_int * word() + lo,
                a * b < word() * word(),
                0 <= lo,
                word() > 0,
        ;
    }
    let hi = p11 + p01 / HALF_BASE + p10 / HALF_BASE + mid / HALF_BASE;
    (hi, lo)
}

/// One step of long division keeps the value that the quotient and the
/// remainder stand for.
proof fn lemma_division_step(q: int, c: int, rem: int, p: int, bit: int, tail: int, carry: bool, q2: int, rem2: int) by (nonlinear_arith)
    requires
        q2 == 2 * q + (if carry { 1int } else { 0int }),
        rem2 == 2 * rem + bit - (if carry { c } else { 0int }),
    ensures
        (q * c + rem) * (2 * p) + (bit * p + tail) == (q2 * c + rem2) * p + tail,
{
}

proof fn lemma_pow2_128()
    ensures
        pow2(0) == 1,
        pow2(127) == TOP_BIT,
        pow2(128) == word(),
{
    lemma2_to64();
    lemma2_to64_rest();
    lemma_pow2_adds(64, 63);
    lemma_pow2_adds(64, 64);
}

proof fn lemma_quotient_fits(hi: u128, lo: u128, c: int)
    requires
        c > 0,
        wide_value(hi, lo) / c <= u128::MAX,
    ensures
        hi < c,
{
    if hi >= c {
        assert(wide_value(hi, lo) >= c * word()) by (nonlinear_arith)
            requires
                hi >= c,
                lo >= 0,
                c > 0,
                wide_value(hi, lo) == hi * word() + lo,
        ;
        assert(wide_value(hi, lo) / c >= word()) by (nonlinear_arith)
            requires
                wide_value(hi, lo) >= c * word(),
                c > 0,
        ;
    }
}

/// floor(a * b / c) without overflow, for every quotient that fits in `u128`.
pub fn mul_div(a: u128, b: u128, c: u128) -> (r: u128)
    requires
        c > 0,
        mul_div_spec(a as int, b as int, c as int) <= u128::MAX,
    ensures
        r == mul_div_spec(a as int, b as int, c as int),
{
    let (hi, lo) = wide_mul(a, b);
    proof {
        lemma_quotient_fits(hi, lo, c as int);
        lemma_pow2_128();
    }
    let mut rem: u128 = hi;
    let mut q: u128 = 0;
    let mut tail: u128 = lo;
    let mut p: u128 = TOP_BIT;
    let mut i: u32 = 0;
    let ghost mut w: int = word();
    while i < 128
        invariant
            i <= 128,
            c > 0,
            pow2(0) == 1,
            pow2(128) == word(),
            rem < c,
            0 <= tail < w,
            w == pow2((128 - i) as nat),
            i < 128 ==> p == pow2((127 - i) as nat),
            q < pow2(i as nat),
            wide_value(hi, lo) == (q * c + rem) * w + tail,
        decreases 128 - i,
    {
        proof {
            lemma_pow2_unfold((128 - i) as nat);
            lemma_pow2_unfold((i + 1) as nat);
            if i < 127 {
                lemma_pow2_unfold((127 - i) as nat);
                lemma_pow2_strictly_increases((i + 1) as nat, 128);
            }
        }
        let bit: u128 = if tail >= p { 1 } else { 0 };
        let ghost old_tail = tail;
        if bit == 1 {
            tail = tail - p;
        }
        let ghost old_q = q;
        let ghost old_rem = rem;
        if rem >= c - rem {
            rem = rem - (c - rem) + bit;
            q = 2 * q + 1;
        } else {
            let t: u128 = 2 * rem + bit;
            if t >= c {
                rem = t - c;
                q = 2 * q + 1;
            } else {
                rem = t;
                q = 2 * q;
            }
        }
        proof {
            lemma_division_step(old_q as int, c as int, old_rem as int, p as int, bit as int, tail as int, q != 2 * old_q, q as int, rem as int);
            w = p as int;
        }
        p = p / 2;
        i = i + 1;
    }
    proof {
        assert(w == 1);
        assert(tail == 0);
        assert(wide_value(hi, lo) == q * c + rem) by (nonlinear_arith)
            requires
                wide_value(hi, lo) == (q * c + rem) * w + tail,
                w == 1,
                tail == 0,
        ;
        lemma_fundamental_div_mod_converse(wide_value(hi, lo), c as int, q as int, rem as int);
    }
    q
}

} // verus!
