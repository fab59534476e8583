//! Immutable parameters of a single fair-launch sale, and their validator.

use vstd::prelude::*;
use vstd::string::StrSliceExecFns;

use crate::errors::ConfigError;

verus! {

/// A basis-point fraction of the treasury snapshot withheld from early
/// withdrawal until a token-supply condition is met.
#[derive(Clone, PartialEq, Eq, Debug)]
pub struct AntiRugSetting {
    /// Basis points (out of 10000) kept in the treasury until the
    /// token requirement is met.
    pub reserve_bp: u16,
    /// The circulating supply of the sale's token must be at or below this
    /// amount to unlock the reserve.
    pub token_requirement: u64,
    /// Past this date, pro-rated refunds are allowed.
    pub self_destruct_date: i64,
}

/// The configuration of one sale, fixed at creation, plus the mutable
/// pricing high-water-mark `last`.
#[derive(Clone, PartialEq, Eq, Debug)]
pub struct FairLaunchData {
    /// High-water-mark price: the most recently accepted bid amount.
    pub last: u64,
    /// Six-character sale code.
    pub uuid: String,
    /// Inclusive lower bound of the price range.
    pub price_range_start: u64,
    /// Exclusive upper bound of the price range.
    pub price_range_end: u64,
    /// When bidding opens.
    pub phase_one_start: i64,
    /// When bidding closes; pushed forward by late bids (anti-snipe).
    pub phase_one_end: i64,
    /// End of the settlement window.
    pub phase_two_end: i64,
    /// Minimum reaction window guaranteed after any late bid, and the
    /// length of one lottery-sealing window.
    pub lottery_duration: i64,
    /// Bid quantum.
    pub tick_size: u64,
    /// Token supply offered by the sale.
    pub number_of_tokens: u64,
    /// Flat fee charged by the sale host.
    pub fee: u64,
    /// Optional anti-rug reserve schedule.
    pub anti_rug_setting: Option<AntiRugSetting>,
}

/// All creation-time invariants of a sale configuration.
pub open spec fn data_valid(data: FairLaunchData) -> bool {
    &&& data.phase_one_end > data.phase_one_start
    &&& data.phase_two_end > data.phase_one_end
    &&& data.uuid@.len() == 6
    &&& data.tick_size > 0
    &&& data.number_of_tokens > 0
    &&& data.price_range_end > data.price_range_start
    &&& data.lottery_duration >= 0
    &&& (data.anti_rug_setting matches Some(ar) ==> ar.reserve_bp <= 10000
        && ar.token_requirement <= data.number_of_tokens)
}

/// The validator's exact result: the first violated invariant, in the
/// fixed order of checks, or `Ok` when every invariant holds.
pub open spec fn spec_validate(data: FairLaunchData) -> Result<(), ConfigError> {
    if data.phase_one_end <= data.phase_one_start {
        Err(ConfigError::TimestampsDontLineUp)
    } else if data.phase_two_end <= data.phase_one_end {
        Err(ConfigError::TimestampsDontLineUp)
    } else if data.uuid@.len() != 6 {
        Err(ConfigError::UuidMustBeExactly6Length)
    } else if data.tick_size == 0 {
        Err(ConfigError::TickSizeTooSmall)
    } else if data.number_of_tokens == 0 {
        Err(ConfigError::CannotGiveZeroTokens)
    } else if data.price_range_end <= data.price_range_start {
        Err(ConfigError::InvalidPriceRanges)
    } else if data.lottery_duration < 0 {
        Err(ConfigError::InvalidLotteryDuration)
    } else if data.anti_rug_setting matches Some(ar) && ar.reserve_bp > 10000 {
        Err(ConfigError::InvalidReserveBp)
    } else if data.anti_rug_setting matches Some(ar)
        && ar.token_requirement > data.number_of_tokens {
        Err(ConfigError::InvalidAntiRugTokenRequirement)
    } else {
        Ok(())
    }
}

/// Checks the configuration invariants in a fixed order and reports the
/// first violation; accepts the configuration iff every invariant holds.
pub fn assert_data_valid(data: &FairLaunchData) -> (r: Result<(), ConfigError>)
    ensures
        r == spec_validate(*data),
        r is Ok <==> data_valid(*data),
{
    if data.phase_one_end <= data.phase_one_start {
        return Err(ConfigError::TimestampsDontLineUp);
    }
    if data.phase_two_end <= data.phase_one_end {
        return Err(ConfigError::TimestampsDontLineUp);
    }
    if data.uuid.as_str().unicode_len() != 6 {
        return Err(ConfigError::UuidMustBeExactly6Length);
    }
    if data.tick_size == 0 {
        return Err(ConfigError::TickSizeTooSmall);
    }
    if data.number_of_tokens == 0 {
        return Err(ConfigError::CannotGiveZeroTokens);
    }
    if data.price_range_end <= data.price_range_start {
        return Err(ConfigError::InvalidPriceRanges);
    }
    if data.lottery_duration < 0 {
        return Err(ConfigError::InvalidLotteryDuration);
    }
    if let Some(anti_rug) = &data.anti_rug_setting {
        if anti_rug.reserve_bp > 10000 {
            return Err(ConfigError::InvalidReserveBp);
        }
        if anti_rug.token_requirement > data.number_of_tokens {
            return Err(ConfigError::InvalidAntiRugTokenRequirement);
        }
    }
    Ok(())
}

} // verus!
