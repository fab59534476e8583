//! Error taxonomy for the fair-launch core.
//!
//! Every failure is a rejected operation surfaced as a typed result; nothing
//! here is fatal, and a rejected operation never mutates sale state.

use vstd::prelude::*;

verus! {

/// Malformed sale parameters, rejected at creation time.
#[derive(Clone, Copy, PartialEq, Eq, Structural, Debug)]
pub enum ConfigError {
    /// The phase boundary timestamps are not strictly increasing.
    TimestampsDontLineUp,
    /// The sale code must be exactly six characters long.
    UuidMustBeExactly6Length,
    /// The tick size (bid quantum) must be positive.
    TickSizeTooSmall,
    /// The sale must offer at least one token.
    CannotGiveZeroTokens,
    /// The price range must be non-empty (`end > start`).
    InvalidPriceRanges,
    /// The lottery duration must be non-negative.
    InvalidLotteryDuration,
    /// An anti-rug reserve fraction must be at most 10000 basis points.
    InvalidReserveBp,
    /// An anti-rug token requirement must not exceed the supply on offer.
    InvalidAntiRugTokenRequirement,
    /// Deriving the initial bidding deadline overflowed the timestamp range.
    NumericalOverflow,
}

/// A rejected bid; the bidder may retry with a valid bid.
#[derive(Clone, Copy, PartialEq, Eq, Structural, Debug)]
pub enum BidError {
    /// The bidding phase is over (or the sale is already sealed).
    PhaseClosed,
    /// The bidder does not hold the offered amount.
    InsufficientFunds,
    /// The bid does not exceed the current high-water-mark.
    BidTooLow,
    /// A counter or deadline computation would overflow.
    NumericalOverflow,
}

/// A rejected lottery-bitmap operation; the sealing process may retry.
#[derive(Clone, Copy, PartialEq, Eq, Structural, Debug)]
pub enum LotteryError {
    /// The bitmap's one-count does not equal the number of bids accepted.
    CardinalityMismatch,
    /// The bitmap (or the sale) has already been sealed.
    AlreadySealed,
}

/// A rejected attempt to restart the lottery-sealing window.
#[derive(Clone, Copy, PartialEq, Eq, Structural, Debug)]
pub enum RestartError {
    /// The sale is already sealed; the window cannot be reopened.
    PhaseThreeAlreadyStarted,
    /// The current window has not elapsed yet.
    LotteryDurationHasntEndedYet,
    /// Pushing the deadline forward overflowed the timestamp range.
    NumericalOverflow,
}

/// A rejected withdrawal computation.
#[derive(Clone, Copy, PartialEq, Eq, Structural, Debug)]
pub enum WithdrawError {
    /// The sale has not reached the settlement phase.
    NotYetSettleable,
    /// The pre-cap allotment was already taken while the anti-rug
    /// requirement is unmet (live balance diverged from the snapshot).
    AlreadyWithdrawnAllotment,
    /// No treasury snapshot has been recorded.
    NoSnapshot,
    /// An intermediate product overflowed.
    NumericalOverflow,
}

/// A rejected refund computation.
#[derive(Clone, Copy, PartialEq, Eq, Structural, Debug)]
pub enum RefundError {
    /// The sale has no anti-rug setting, so no reserve backs refunds.
    NoAntiRugSetting,
    /// The anti-rug self-destruct date has not passed yet.
    SelfDestructNotPassed,
    /// No treasury snapshot has been recorded.
    NoTreasurySnapshot,
    /// The per-ticket division is undefined (no tickets were punched).
    NumericalOverflow,
}

} // verus!
