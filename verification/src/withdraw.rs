//! Withdrawal and vesting arithmetic: how much of the pooled treasury the
//! issuer may claim, given the one-time snapshot, the live balance, and the
//! anti-rug reserve fraction.
//!
//! All divisions are integer floor divisions, and every intermediate
//! product is computed in 128-bit precision before the narrowing division.

use vstd::prelude::*;
use vstd::arithmetic::div_mod::{lemma_div_is_ordered, lemma_div_multiples_vanish,
    lemma_div_pos_is_pos};
use vstd::arithmetic::mul::{lemma_mul_inequality, lemma_mul_upper_bound};

use crate::config::FairLaunchData;
use crate::errors::{RefundError, WithdrawError};
use crate::sale::FairLaunch;

verus! {

/// `amount * num / den` is a floor fraction of `amount`: it lies between
/// `0` and `amount` whenever `num <= den`.
pub proof fn lemma_fraction_bounds(amount: int, num: int, den: int)
    requires
        0 <= amount,
        0 <= num <= den,
        0 < den,
    ensures
        0 <= amount * num / den <= amount,
{
    lemma_mul_inequality(num, den, amount);
    lemma_div_is_ordered(amount * num, den * amount, den);
    lemma_div_multiples_vanish(amount, den);
    lemma_div_pos_is_pos(amount * num, den);
}

/// The pre-cap capital allotment: the non-reserved basis-point fraction of
/// the treasury snapshot, `floor(snapshot * (10000 - reserve_bp) / 10000)`.
pub open spec fn expected_allotment(reserve_bp: u16, snapshot: u64) -> int {
    snapshot * (10000 - reserve_bp) / 10000
}

/// The conservative drain cap: at most 75% of the qualifying amount may be
/// withdrawn per call, `floor(amount * 75 / 100)`.
pub open spec fn capped_withdrawal(amount: int) -> int {
    amount * 75 / 100
}

/// The amount that qualifies for the 75% cap: the full live balance when
/// there is no anti-rug setting or when the supply condition is met,
/// otherwise the non-reserved fraction of the snapshot.
pub open spec fn withdraw_base(data: FairLaunchData, supply: u64, snapshot: u64,
    real_amount: u64) -> int {
    match data.anti_rug_setting {
        Option::None => real_amount as int,
        Option::Some(ar) => if supply <= ar.token_requirement {
            real_amount as int
        } else {
            expected_allotment(ar.reserve_bp, snapshot)
        },
    }
}

/// A withdrawal is blocked exactly when the anti-rug requirement is still
/// unmet and the live balance has diverged from the snapshot: the one
/// pre-cap allotment was already taken.
pub open spec fn withdraw_blocked(data: FairLaunchData, supply: u64, snapshot: u64,
    real_amount: u64) -> bool {
    &&& data.anti_rug_setting matches Some(ar)
    &&& supply > ar.token_requirement
    &&& snapshot != real_amount
}

/// The authorized withdrawal amount on the unblocked paths.
pub open spec fn spec_withdraw_amount(data: FairLaunchData, supply: u64, snapshot: u64,
    real_amount: u64) -> int {
    capped_withdrawal(withdraw_base(data, supply, snapshot, real_amount))
}

/// The pre-cap capital allotment released while the anti-rug requirement
/// is unmet: the snapshot minus `reserve_bp` basis points of it.
///
/// The computation cannot fail (the product is taken in 128 bits), so the
/// result is always `Ok`; the `Result` shape is kept for callers that
/// thread it through their own error handling.
pub fn get_expected_capital_alotment_size(reserve_bp: u16, snapshot: u64) -> (r: Result<
    u64,
    WithdrawError,
>)
    requires
        reserve_bp <= 10000,
    ensures
        r is Ok,
        r->Ok_0 == expected_allotment(reserve_bp, snapshot),
{
    let non_reserve_frac: u128 = 10000u128 - reserve_bp as u128;
    proof {
        lemma_mul_upper_bound(snapshot as int, u64::MAX as int, non_reserve_frac as int, 10000);
        lemma_fraction_bounds(snapshot as int, non_reserve_frac as int, 10000);
    }
    let numerator: u128 = (snapshot as u128) * non_reserve_frac;
    let divided: u128 = numerator / 10000;
    Ok(divided as u64)
}

/// The amount the issuer is authorized to withdraw for one call, per the
/// anti-rug schedule and the 75% drain cap; fails exactly when the anti-rug
/// requirement is unmet and the live balance no longer equals the snapshot.
pub fn calculate_withdraw_amount(data: &FairLaunchData, supply: u64, snapshot: u64,
    real_amount: u64) -> (r: Result<u64, WithdrawError>)
    requires
        data.anti_rug_setting matches Some(ar) ==> ar.reserve_bp <= 10000,
    ensures
        r is Ok <==> !withdraw_blocked(*data, supply, snapshot, real_amount),
        r is Ok ==> r->Ok_0 == spec_withdraw_amount(*data, supply, snapshot, real_amount),
        r is Err ==> r->Err_0 == WithdrawError::AlreadyWithdrawnAllotment,
{
    let amount_to_withdraw: u64 = match &data.anti_rug_setting {
        Some(anti_rug) => {
            if supply <= anti_rug.token_requirement {
                real_amount
            } else {
                if snapshot != real_amount {
                    return Err(WithdrawError::AlreadyWithdrawnAllotment);
                }
                match get_expected_capital_alotment_size(anti_rug.reserve_bp, snapshot) {
                    Ok(allotment) => allotment,
                    Err(e) => {
                        return Err(e);
                    },
                }
            }
        },
        None => real_amount,
    };
    proof {
        lemma_mul_upper_bound(amount_to_withdraw as int, u64::MAX as int, 75, 75);
        lemma_fraction_bounds(amount_to_withdraw as int, 75, 100);
    }
    let capped: u128 = (amount_to_withdraw as u128) * 75 / 100;
    Ok(capped as u64)
}

/// The exact refund result: the reserved part of the snapshot split
/// evenly over the punched tickets, or the first reason no refund is due.
pub open spec fn spec_refund_result(fair_launch: FairLaunch, now: i64) -> Result<u64, RefundError> {
    match fair_launch.data.anti_rug_setting {
        Option::None => Err(RefundError::NoAntiRugSetting),
        Option::Some(ar) => if now < ar.self_destruct_date {
            Err(RefundError::SelfDestructNotPassed)
        } else {
            match fair_launch.treasury_snapshot {
                Option::None => Err(RefundError::NoTreasurySnapshot),
                Option::Some(snapshot) => if fair_launch.number_tickets_punched == 0 {
                    Err(RefundError::NumericalOverflow)
                } else {
                    Ok(
                        ((snapshot - expected_allotment(ar.reserve_bp, snapshot))
                            / fair_launch.number_tickets_punched as int) as u64,
                    )
                },
            }
        },
    }
}

/// One punched ticket's pro-rated share of the anti-rug reserve, owed
/// once the self-destruct date has passed: the snapshot minus the capital
/// allotment, divided evenly over the punched tickets.
pub fn calculate_refund_amount(fair_launch: &FairLaunch, unix_timestamp: i64) -> (r: Result<
    u64,
    RefundError,
>)
    requires
        fair_launch.wf(),
    ensures
        r == spec_refund_result(*fair_launch, unix_timestamp),
{
    if let Some(anti_rug) = &fair_launch.data.anti_rug_setting {
        if unix_timestamp < anti_rug.self_destruct_date {
            return Err(RefundError::SelfDestructNotPassed);
        }
        if let Some(snapshot) = fair_launch.treasury_snapshot {
            proof {
                lemma_fraction_bounds(snapshot as int, 10000 - anti_rug.reserve_bp, 10000);
            }
            let allotment = match get_expected_capital_alotment_size(anti_rug.reserve_bp,
                snapshot) {
                Ok(a) => a,
                Err(_) => {
                    return Err(RefundError::NumericalOverflow);
                },
            };
            let reserve_size = match snapshot.checked_sub(allotment) {
                Some(v) => v,
                None => {
                    return Err(RefundError::NumericalOverflow);
                },
            };
            match reserve_size.checked_div(fair_launch.number_tickets_punched) {
                Some(my_slice) => Ok(my_slice),
                None => Err(RefundError::NumericalOverflow),
            }
        } else {
            Err(RefundError::NoTreasurySnapshot)
        }
    } else {
        Err(RefundError::NoAntiRugSetting)
    }
}

} // verus!
