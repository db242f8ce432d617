//! The arithmetic of the mediator's fee and of deposits.

use vstd::prelude::*;

verus! {

/// An amount of the ledger's native value, in its smallest unit.
pub type Balance = u128;

/// The denominator of the fee rate: a rate of `DECIMALS` is the whole payment.
pub const DECIMALS: u128 = 100000;

/// The mediator's share of a payment of `fee` at the rate `rate / DECIMALS`,
/// rounded down.
pub open spec fn fee_share(fee: nat, rate: nat) -> nat {
    fee * rate / (DECIMALS as nat)
}

/// What is left of `attached` once `cost` is taken from it.
pub open spec fn deposit_excess(attached: nat, cost: nat) -> nat {
    if attached > cost {
        (attached - cost) as nat
    } else {
        0
    }
}

/// At a rate of no more than the whole, the share is taken part by part: the
/// whole multiples of `DECIMALS` in `fee` give `rate` each, the rest is
/// multiplied and divided.
proof fn lemma_share_by_parts(fee: nat, rate: nat)
    requires
        rate <= DECIMALS,
    ensures
        fee_share(fee, rate) == (fee / (DECIMALS as nat)) * rate + (fee % (DECIMALS as nat)) * rate
            / (DECIMALS as nat),
        (fee / (DECIMALS as nat)) * rate <= fee,
        (fee % (DECIMALS as nat)) * rate <= DECIMALS * DECIMALS,
        fee_share(fee, rate) <= fee,
{
    let d = DECIMALS as int;
    let whole = fee as int / d;
    let rest = fee as int % d;
    let r = rate as int;
    assert(fee as int == whole * d + rest && 0 <= rest < d) by (nonlinear_arith)
        requires
            d > 0,
            whole == fee as int / d,
            rest == fee as int % d,
    ;
    assert(0 <= whole);
    assert(fee as int * r == (whole * r) * d + rest * r) by (nonlinear_arith)
        requires
            fee as int == whole * d + rest,
    ;
    assert(0 <= rest * r <= rest * d && rest * d <= d * d && whole * r <= whole * d)
        by (nonlinear_arith)
        requires
            0 <= rest < d,
            0 <= r <= d,
            0 <= whole,
    ;
    vstd::arithmetic::div_mod::lemma_hoist_over_denominator(rest * r, whole * r, d as nat);
    assert((rest * r) / d <= rest) by (nonlinear_arith)
        requires
            0 <= rest * r <= rest * d,
            d > 0,
    ;
}

/// At a rate above the whole, the share is the payment and, on top of it, the
/// share at the part of the rate that lies above the whole.
proof fn lemma_share_above_whole(fee: nat, rate: nat)
    requires
        rate > DECIMALS,
    ensures
        fee_share(fee, rate) == fee + fee * (rate - DECIMALS) / (DECIMALS as int),
        fee_share(fee, rate) <= fee <==> fee * (rate - DECIMALS) < DECIMALS,
{
    let d = DECIMALS as int;
    let over = rate as int - d;
    let f = fee as int;
    assert(f * (rate as int) == f * d + f * over && 0 <= f * over) by (nonlinear_arith)
        requires
            over == rate as int - d,
            0 <= f,
            0 < over,
    ;
    vstd::arithmetic::div_mod::lemma_hoist_over_denominator(f * over, f, d as nat);
    assert((f * over) / d == 0 <==> f * over < d) by (nonlinear_arith)
        requires
            0 <= f * over,
            d > 0,
    ;
    assert(0 <= (f * over) / d) by (nonlinear_arith)
        requires
            0 <= f * over,
            d > 0,
    ;
}

/// The mediator's share of a payment of `fee` at the rate
/// `payment_fee_percent / DECIMALS`, rounded down; `None` where the share is
/// more than the payment, so that nothing would be left to pay out.
pub fn payment_fee_amount(fee: Balance, payment_fee_percent: u128) -> (res: Option<Balance>)
    ensures
        res == if fee_share(fee as nat, payment_fee_percent as nat) <= fee {
            Some(fee_share(fee as nat, payment_fee_percent as nat) as u128)
        } else {
            None
        },
{
    if payment_fee_percent <= DECIMALS {
        proof {
            lemma_share_by_parts(fee as nat, payment_fee_percent as nat);
        }
        let whole: u128 = fee / DECIMALS;
        let rest: u128 = fee % DECIMALS;
        Some(whole * payment_fee_percent + rest * payment_fee_percent / DECIMALS)
    } else {
        proof {
            lemma_share_above_whole(fee as nat, payment_fee_percent as nat);
        }
        let over: u128 = payment_fee_percent - DECIMALS;
        if fee == 0 {
            assert(fee * over == 0) by (nonlinear_arith)
                requires
                    fee == 0,
            ;
            Some(fee)
        } else if fee < DECIMALS && over < DECIMALS {
            assert(fee * over < DECIMALS * DECIMALS) by (nonlinear_arith)
                requires
                    fee < DECIMALS,
                    over < DECIMALS,
            ;
            if fee * over < DECIMALS {
                Some(fee)
            } else {
                None
            }
        } else {
            assert(fee * over >= DECIMALS) by (nonlinear_arith)
                requires
                    fee >= 1,
                    over >= 1,
                    fee >= DECIMALS || over >= DECIMALS,
            ;
            None
        }
    }
}

/// What goes back to the caller of a deposit of `attached_deposit` once the
/// storage that the call took has cost `storage_cost`: the excess, and nothing
/// where the deposit does not exceed the cost.
pub fn refund_deposit(attached_deposit: Balance, storage_cost: Balance) -> (refund: Balance)
    ensures
        refund == deposit_excess(attached_deposit as nat, storage_cost as nat),
{
    if attached_deposit > storage_cost {
        attached_deposit - storage_cost
    } else {
        0
    }
}

/// A payment is split between the mediator and the shop with nothing lost:
/// wherever the share is no more than the payment, share and payout add up to
/// the payment, and at a rate of no more than the whole it always is.
pub proof fn lemma_fee_split_is_exact(fee: nat, rate: nat)
    ensures
        fee_share(fee, rate) <= fee ==> fee_share(fee, rate) + (fee - fee_share(fee, rate)) == fee,
        rate <= DECIMALS ==> fee_share(fee, rate) <= fee,
{
    if rate <= DECIMALS {
        lemma_share_by_parts(fee, rate);
    }
}

} // verus!
