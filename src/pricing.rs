//! Pure pricing rules: the constant-product quote and the
//! decimals-normalised reserve product.
use crate::wide::{mul_div, mul_div_spec};
use vstd::arithmetic::div_mod::{lemma_div_denominator, lemma_fundamental_div_mod};
use vstd::prelude::*;

verus! {

/// The output of a fee-less constant-product swap:
/// floor(balance_out * amount_in / (balance_in + amount_in)).
pub open spec fn quote_spec(balance_in: int, balance_out: int, amount_in: int) -> int {
    mul_div_spec(balance_out, amount_in, balance_in + amount_in)
}

/// 10 to the power `n`.
pub open spec fn pow10(n: nat) -> nat
    decreases n,
{
    if n == 0 {
        1
    } else {
        10 * pow10((n - 1) as nat)
    }
}

/// A raw balance in whole display units: floor(balance / 10^decimals).
pub open spec fn normalized_spec(balance: int, decimals: nat) -> int {
    balance / (pow10(decimals) as int)
}

/// The product of the two balances in whole display units.
pub open spec fn ratio_spec(balance_0: int, balance_1: int, decimals_0: nat, decimals_1: nat) -> int {
    normalized_spec(balance_0, decimals_0) * normalized_spec(balance_1, decimals_1)
}

proof fn lemma_pow10_positive(n: nat)
    ensures
        pow10(n) > 0,
    decreases n,
{
    if n > 0 {
        lemma_pow10_positive((n - 1) as nat);
    }
}

/// x / d <= bound whenever x <= bound * d.
proof fn lemma_div_at_most(x: int, d: int, bound: int)
    requires
        0 <= x,
        0 < d,
        0 <= bound,
        x <= bound * d,
    ensures
        0 <= x / d <= bound,
{
    lemma_fundamental_div_mod(x, d);
    assert(0 <= x / d <= bound) by (nonlinear_arith)
        requires
            x == d * (x / d) + x % d,
            0 <= x % d < d,
            0 <= x,
            0 < d,
            x <= bound * d,
    ;
}

/// Every quote is at least zero and at most the output reserve.
pub proof fn lemma_quote_bounded(balance_in: int, balance_out: int, amount_in: int)
    requires
        0 <= balance_in,
        0 <= balance_out,
        0 < amount_in,
    ensures
        0 <= quote_spec(balance_in, balance_out, amount_in) <= balance_out,
{
    assert(balance_out * amount_in <= balance_out * (balance_in + amount_in)) by (nonlinear_arith)
        requires
            0 <= balance_in,
            0 <= balance_out,
            0 < amount_in,
    ;
    assert(0 <= balance_out * amount_in) by (nonlinear_arith)
        requires
            0 <= balance_out,
            0 < amount_in,
    ;
    lemma_div_at_most(balance_out * amount_in, balance_in + amount_in, balance_out);
}

/// A larger input never buys a smaller output.
pub proof fn lemma_quote_monotone_in_amount(balance_in: int, balance_out: int, amount_1: int, amount_2: int)
    requires
        0 <= balance_in,
        0 <= balance_out,
        0 < amount_1 <= amount_2,
    ensures
        quote_spec(balance_in, balance_out, amount_1) <= quote_spec(balance_in, balance_out, amount_2),
{
    let x1 = balance_out * amount_1;
    let x2 = balance_out * amount_2;
    let d1 = balance_in + amount_1;
    let d2 = balance_in + amount_2;
    let q1 = x1 / d1;
    lemma_fundamental_div_mod(x1, d1);
    assert(x1 * d2 <= x2 * d1) by (nonlinear_arith)
        requires
            x1 == balance_out * amount_1,
            x2 == balance_out * amount_2,
            d1 == balance_in + amount_1,
            d2 == balance_in + amount_2,
            0 <= balance_in,
            0 <= balance_out,
            0 < amount_1 <= amount_2,
    ;
    assert(q1 * d2 <= x2) by (nonlinear_arith)
        requires
            x1 == d1 * q1 + x1 % d1,
            0 <= x1 % d1,
            x1 * d2 <= x2 * d1,
            0 < d1,
            0 < d2,
    ;
    assert(0 <= q1) by (nonlinear_arith)
        requires
            x1 == balance_out * amount_1,
            0 <= balance_out,
            0 < amount_1,
            0 < d1,
            q1 == x1 / d1,
    ;
    lemma_fundamental_div_mod(x2, d2);
    assert(q1 <= x2 / d2) by (nonlinear_arith)
        requires
            q1 * d2 <= x2,
            x2 == d2 * (x2 / d2) + x2 % d2,
            x2 % d2 < d2,
            0 < d2,
    ;
}

/// A larger output reserve never gives a smaller output.
pub proof fn lemma_quote_monotone_in_reserve(balance_in: int, balance_out_1: int, balance_out_2: int, amount_in: int)
    requires
        0 <= balance_in,
        0 <= balance_out_1 <= balance_out_2,
        0 < amount_in,
    ensures
        quote_spec(balance_in, balance_out_1, amount_in) <= quote_spec(balance_in, balance_out_2, amount_in),
{
    let d = balance_in + amount_in;
    let x1 = balance_out_1 * amount_in;
    let x2 = balance_out_2 * amount_in;
    assert(x1 <= x2) by (nonlinear_arith)
        requires
            x1 == balance_out_1 * amount_in,
            x2 == balance_out_2 * amount_in,
            balance_out_1 <= balance_out_2,
            0 < amount_in,
    ;
    vstd::arithmetic::div_mod::lemma_div_is_ordered(x1, x2, d);
}

/// Committing a swap never lowers the raw product of the reserves, and raises
/// it by less than the new input reserve: the product is kept up to the
/// rounding of the quote.
pub proof fn lemma_swap_keeps_product(balance_in: int, balance_out: int, amount_in: int)
    requires
        0 <= balance_in,
        0 <= balance_out,
        0 < amount_in,
    ensures
        balance_in * balance_out <= (balance_in + amount_in) * (balance_out - quote_spec(balance_in, balance_out, amount_in)),
        (balance_in + amount_in) * (balance_out - quote_spec(balance_in, balance_out, amount_in))
            < balance_in * balance_out + (balance_in + amount_in),
{
    let d = balance_in + amount_in;
    let x = balance_out * amount_in;
    let q = quote_spec(balance_in, balance_out, amount_in);
    lemma_fundamental_div_mod(x, d);
    assert(balance_in * balance_out <= d * (balance_out - q) < balance_in * balance_out + d) by (nonlinear_arith)
        requires
            d == balance_in + amount_in,
            x == balance_out * amount_in,
            x == d * q + x % d,
            0 <= x % d < d,
    ;
}

/// The output of a swap of `amount_in` against the reserves `balance_in` and
/// `balance_out`, evaluated without overflow.
pub fn quote(balance_in: u128, balance_out: u128, amount_in: u128) -> (amount_out: u128)
    requires
        0 < balance_in + amount_in <= u128::MAX,
    ensures
        amount_out == quote_spec(balance_in as int, balance_out as int, amount_in as int),
        amount_out <= balance_out,
{
    let denominator = balance_in + amount_in;
    proof {
        if amount_in > 0 {
            lemma_quote_bounded(balance_in as int, balance_out as int, amount_in as int);
        } else {
            assert(balance_out * amount_in == 0) by (nonlinear_arith)
                requires
                    amount_in == 0,
            ;
        }
    }
    mul_div(balance_out, amount_in, denominator)
}

/// A balance in whole display units: the balance divided by 10^decimals.
pub fn normalized(balance: u128, decimals: u8) -> (r: u128)
    ensures
        r == normalized_spec(balance as int, decimals as nat),
{
    let mut value: u128 = balance;
    let mut k: u8 = 0;
    assert(pow10(0) == 1);
    while k < decimals
        invariant
            k <= decimals,
            value == normalized_spec(balance as int, k as nat),
        decreases decimals - k,
    {
        proof {
            lemma_pow10_positive(k as nat);
            lemma_div_denominator(balance as int, pow10(k as nat) as int, 10);
        }
        value = value / 10;
        k = k + 1;
    }
    value
}

/// The decimals-normalised product of the two reserves, or `None` where it
/// does not fit in a `u128`.
pub fn ratio(balance_0: u128, balance_1: u128, decimals_0: u8, decimals_1: u8) -> (r: Option<u128>)
    ensures
        r == (if ratio_spec(balance_0 as int, balance_1 as int, decimals_0 as nat, decimals_1 as nat) <= u128::MAX {
            Some(ratio_spec(balance_0 as int, balance_1 as int, decimals_0 as nat, decimals_1 as nat) as u128)
        } else {
            None::<u128>
        }),
{
    let n0 = normalized(balance_0, decimals_0);
    let n1 = normalized(balance_1, decimals_1);
    n0.checked_mul(n1)
}

} // verus!
