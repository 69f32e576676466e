use vstd::prelude::*;

verus! {

/// The atomics of the decimal 1.0: fee rates carry eighteen fractional digits.
pub const DECIMAL_ONE: u128 = 1_000_000_000_000_000_000;

/// What a seller receives for a sale of `amount` at the rate `fee / 10^18`:
/// `amount * (1 - rate)`, the fractional remainder cut off.
pub open spec fn net_amount(amount: u128, fee: u128) -> int {
    (amount * (DECIMAL_ONE - fee)) / (DECIMAL_ONE as int)
}

/// Relies on cosmwasm_std: `Decimal::one() - Decimal::raw(fee)` subtracts the
/// atomics exactly (it panics below zero, excluded here), and `Uint128 * Decimal`
/// is `multiply_ratio(rate_atomics, 10^18)`, a floored ratio over a 256-bit product.
#[verifier::external_body]
fn decimal_net_of_fee(amount: u128, fee: u128) -> (r: u128)
    requires
        fee <= DECIMAL_ONE,
    ensures
        r == net_amount(amount, fee),
{
    let rate = cosmwasm_std::Decimal::one() - cosmwasm_std::Decimal::raw(fee);
    (cosmwasm_std::Uint128::new(amount) * rate).u128()
}

/// The seller's share of a sale of `amount` at fee rate `fee / 10^18`.
pub fn seller_share(amount: u128, fee: u128) -> (r: u128)
    requires
        fee <= DECIMAL_ONE,
    ensures
        r == net_amount(amount, fee),
        r <= amount,
{
    proof {
        lemma_fee_conservation(amount, fee);
    }
    decimal_net_of_fee(amount, fee)
}

/// Fee conservation: the seller's share is the floor of `amount * (1 - rate)`,
/// never more than the amount, and share plus retained fee make up the amount.
pub proof fn lemma_fee_conservation(amount: u128, fee: u128)
    requires
        fee <= DECIMAL_ONE,
    ensures
        0 <= net_amount(amount, fee) <= amount,
        net_amount(amount, fee) * DECIMAL_ONE <= amount * (DECIMAL_ONE - fee),
        amount * (DECIMAL_ONE - fee) < (net_amount(amount, fee) + 1) * DECIMAL_ONE,
        net_amount(amount, fee) + (amount - net_amount(amount, fee)) == amount,
{
    let a = amount as int;
    let k = (DECIMAL_ONE - fee) as int;
    let d = DECIMAL_ONE as int;
    let q = (a * k) / d;
    assert(0 <= k <= d);
    assert(0 <= a * k <= a * d) by (nonlinear_arith)
        requires
            0 <= k <= d,
            0 <= a,
    ;
    assert(q * d <= a * k && a * k < (q + 1) * d) by (nonlinear_arith)
        requires
            d > 0,
            q == (a * k) / d,
            a * k >= 0,
    ;
    assert(0 <= q <= a) by (nonlinear_arith)
        requires
            d > 0,
            q * d <= a * k,
            a * k <= a * d,
            a * k < (q + 1) * d,
            a * k >= 0,
    ;
}

} // verus!
