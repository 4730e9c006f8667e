//! Arithmetic of the deposit distribution: protocol fee, forwarded
//! remainder, even split, and the token amount owed in each pricing mode.
//!
//! All divisions round toward zero on non-negative operands; the remainder
//! units are dropped, never duplicated. On a replicated ledger this exact
//! rounding is consensus-critical, so each executable function is proved
//! equal to its mathematical counterpart.

use vstd::prelude::*;

verus! {

/// Numerator of the protocol fee rate.
pub const FEE_NUMERATOR: u128 = 1;

/// Denominator of the protocol fee rate: one percent of each deposit is
/// withheld as the fee.
pub const FEE_DENOMINATOR: u128 = 100;

/// Scale of the stored conversion price: a price of `PRICE_SCALE` means one
/// token base unit per native unit (six decimal places).
pub const PRICE_SCALE: u128 = 1_000_000;

/// The protocol fee withheld from a deposit of `amount` native units.
pub open spec fn spec_fee(amount: int) -> int {
    amount * FEE_NUMERATOR as int / FEE_DENOMINATOR as int
}

/// The amount forwarded after the fee is deducted.
pub open spec fn spec_forward(amount: int) -> int {
    amount - spec_fee(amount)
}

/// The share sent to each of the two recipients of the forwarded amount:
/// half of it, rounded down. An odd remainder unit is dropped.
pub open spec fn spec_half(amount: int) -> int {
    spec_forward(amount) / 2
}

/// Token amount owed in priced mode: the full deposit (not the forwarded
/// remainder) converted at `price` scaled by `PRICE_SCALE`.
pub open spec fn spec_token_priced(amount: int, price: int) -> int {
    amount * price / PRICE_SCALE as int
}

/// Law: the fee and the forwarded remainder partition the deposit exactly,
/// and the fee is exactly one percent of the deposit, rounded down.
pub proof fn lemma_fee_forward_partition(amount: int)
    requires
        amount > 0,
    ensures
        spec_fee(amount) + spec_forward(amount) == amount,
        spec_fee(amount) == amount / 100,
{
}

/// Law: the two half shares together never exceed the forwarded amount and
/// fall short of it by at most one unit — the floor of the even split drops
/// an odd remainder unit and never invents one.
pub proof fn lemma_split_bounds(amount: int)
    requires
        amount > 0,
    ensures
        spec_half(amount) + spec_half(amount) <= spec_forward(amount),
        spec_forward(amount) <= spec_half(amount) * 2 + 1,
{
    let f = spec_forward(amount);
    vstd::arithmetic::div_mod::lemma_fundamental_div_mod(f, 2);
}

/// Law: a strictly positive deposit always leaves a strictly positive
/// forwarded amount, because the fee rate is below one.
pub proof fn lemma_forward_positive(amount: int)
    requires
        amount > 0,
    ensures
        0 < spec_forward(amount) <= amount,
{
    vstd::arithmetic::div_mod::lemma_div_decreases(amount, 100);
    vstd::arithmetic::div_mod::lemma_div_pos_is_pos(amount, 100);
}

/// The protocol fee of a deposit, in native units.
pub fn compute_fee(amount: u128) -> (fee: u128)
    ensures
        fee == spec_fee(amount as int),
        fee <= amount,
        amount > 0 ==> fee < amount,
{
    proof {
        if amount > 0 {
            lemma_forward_positive(amount as int);
        } else {
            vstd::arithmetic::div_mod::lemma_div_of0(100);
        }
    }
    amount * FEE_NUMERATOR / FEE_DENOMINATOR
}

/// The amount forwarded to the two recipients after the fee is withheld.
pub fn compute_forward(amount: u128) -> (forward: u128)
    ensures
        forward == spec_forward(amount as int),
        amount > 0 ==> forward > 0,
{
    let fee = compute_fee(amount);
    amount - fee
}

/// Each recipient's share of the forwarded amount: half, rounded down.
pub fn compute_half(forward: u128) -> (half: u128)
    ensures
        half == forward as int / 2,
{
    forward / 2
}

/// Token amount owed for a deposit in priced mode. The product must fit the
/// native width; the host aborts the request otherwise.
pub fn token_amount_priced(amount: u128, price: u128) -> (token: u128)
    requires
        amount * price <= u128::MAX,
    ensures
        token == spec_token_priced(amount as int, price as int),
{
    amount * price / PRICE_SCALE
}

} // verus!
