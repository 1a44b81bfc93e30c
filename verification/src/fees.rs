use vstd::prelude::*;

verus! {

/// The protocol's share of a payment: `price * fee / basis_points`,
/// integer division truncating toward zero.
pub open spec fn spec_fee_amount(price: u64, fee: u16, basis_points: u16) -> int {
    (price as int) * (fee as int) / (basis_points as int)
}

/// A fee at or below one hundred percent never exceeds the price.
proof fn lemma_fee_amount_le_price(price: u64, fee: u16, basis_points: u16)
    by (nonlinear_arith)
    requires
        basis_points > 0,
        fee <= basis_points,
    ensures
        0 <= spec_fee_amount(price, fee, basis_points) <= price,
{
}

/// Split a payment into the protocol's fee and the merchant's net amount.
pub fn fee_split(price: u64, fee: u16, basis_points: u16) -> (r: (u64, u64))
    requires
        basis_points > 0,
        fee <= basis_points,
        (price as int) * (fee as int) <= u64::MAX,
    ensures
        r.0 == spec_fee_amount(price, fee, basis_points),
        r.1 == price - r.0,
        r.0 + r.1 == price,
{
    proof {
        lemma_fee_amount_le_price(price, fee, basis_points);
    }
    let fee_amount: u64 = price * (fee as u64) / (basis_points as u64);
    let net_amount: u64 = price - fee_amount;
    (fee_amount, net_amount)
}

/// Fee and net re-compose the price: for every price and every rate with a
/// positive denominator, `price - price*fee/bp + price*fee/bp == price`.
pub proof fn lemma_fee_split_total(price: u64, fee: u16, basis_points: u16)
    requires
        basis_points > 0,
    ensures
        price - spec_fee_amount(price, fee, basis_points)
            + spec_fee_amount(price, fee, basis_points) == price,
{
}

} // verus!
