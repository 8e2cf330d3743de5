//! Basis-point fee and payout arithmetic.
//!
//! `fee = floor(amount * fee_bps / 10000)` and `payout = amount - fee`.
//! Truncation is intentional and must match exactly on both chains, so
//! the executable form is proved equal to the mathematical floor even
//! though it is computed in pieces to stay inside `i128`.

use vstd::prelude::*;

use vstd::arithmetic::div_mod::{
    lemma_fundamental_div_mod, lemma_hoist_over_denominator, lemma_div_pos_is_pos,
    lemma_multiply_divide_le,
};

verus! {

/// Policy cap on the protocol fee, in basis points.
pub const MAX_FEE_BPS: u32 = 30;

/// The protocol fee on `amount` at `fee_bps` basis points, rounded down.
pub open spec fn spec_fee(amount: int, fee_bps: int) -> int {
    amount * fee_bps / 10000
}

/// The relayer payout: the escrowed amount less the fee.
pub open spec fn spec_payout(amount: int, fee_bps: int) -> int {
    amount - spec_fee(amount, fee_bps)
}

/// For every fee rate within the policy cap and every nonnegative
/// amount: the fee is `floor(amount * fee_bps / 10000)`, it never
/// exceeds the amount, and fee plus payout recompose the amount
/// exactly, with no rounding loss.
pub proof fn lemma_fee_payout_exact(amount: int, fee_bps: int)
    requires
        0 <= amount,
        0 <= fee_bps <= 30,
    ensures
        spec_fee(amount, fee_bps) == amount * fee_bps / 10000,
        spec_fee(amount, fee_bps) + spec_payout(amount, fee_bps) == amount,
        0 <= spec_fee(amount, fee_bps) <= amount,
{
    assert(0 <= amount * fee_bps) by (nonlinear_arith)
        requires
            0 <= amount,
            0 <= fee_bps,
    ;
    lemma_div_pos_is_pos(amount * fee_bps, 10000);
    assert(amount * fee_bps <= 10000 * amount) by (nonlinear_arith)
        requires
            0 <= amount,
            0 <= fee_bps <= 30,
    ;
    lemma_multiply_divide_le(amount * fee_bps, 10000, amount);
}

/// Fee and payout of `amount` at `fee_bps` basis points: exactly
/// `floor(amount * fee_bps / 10000)` and the remainder, computed
/// without overflowing `i128`.
pub fn compute_fee(amount: i128, fee_bps: u32) -> (r: (i128, i128))
    requires
        0 <= amount,
        fee_bps <= 10000,
    ensures
        r.0 == spec_fee(amount as int, fee_bps as int),
        r.1 == spec_payout(amount as int, fee_bps as int),
        0 <= r.0 <= amount,
        r.0 + r.1 == amount,
{
    let b: i128 = fee_bps as i128;
    let q: i128 = amount / 10000;
    let rem: i128 = amount % 10000;
    proof {
        lemma_fundamental_div_mod(amount as int, 10000);
        assert(q * b <= q * 10000) by (nonlinear_arith)
            requires
                0 <= q,
                0 <= b <= 10000,
        ;
        assert(q * 10000 == 10000 * q) by (nonlinear_arith);
        assert(0 <= q * b) by (nonlinear_arith)
            requires
                0 <= q,
                0 <= b,
        ;
        assert(0 <= rem * b <= 10000 * 10000) by (nonlinear_arith)
            requires
                0 <= rem < 10000,
                0 <= b <= 10000,
        ;
    }
    let scaled: i128 = q * b;
    let rem_fee: i128 = (rem * b) / 10000;
    proof {
        lemma_div_pos_is_pos(rem as int * b as int, 10000);
        assert(rem as int * b as int <= 10000 * rem) by (nonlinear_arith)
            requires
                0 <= rem,
                0 <= b <= 10000,
        ;
        lemma_multiply_divide_le(rem as int * b as int, 10000, rem as int);
        // fee == floor(amount * b / 10000): hoist the whole-quotient part
        // over the denominator and recombine the product.
        lemma_hoist_over_denominator(rem as int * b as int, q as int * b as int, 10000);
        assert(rem as int * b as int + (q as int * b as int) * 10000 == amount as int * b as int)
            by (nonlinear_arith)
            requires
                amount as int == 10000 * (q as int) + rem as int,
        ;
    }
    let fee: i128 = scaled + rem_fee;
    let payout: i128 = amount - fee;
    (fee, payout)
}

} // verus!
