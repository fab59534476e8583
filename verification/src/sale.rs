//! The sale itself: the phase state machine, the ascending-price bid
//! ledger with its anti-snipe deadline extension, lottery sealing, and the
//! stateful withdrawal entry point with its set-once treasury snapshot.

use vstd::prelude::*;

use crate::config::{assert_data_valid, data_valid, spec_validate, FairLaunchData};
use crate::errors::{BidError, ConfigError, LotteryError, RestartError, WithdrawError};
use crate::lottery::FairLaunchLotteryBitmap;
use crate::withdraw::{calculate_withdraw_amount, spec_withdraw_amount, withdraw_blocked};

verus! {

/// The sale's temporal state. `Settlement` is terminal.
#[derive(Clone, Copy, PartialEq, Eq, Structural, Debug)]
pub enum Phase {
    /// Ascending-price bids are accepted.
    Bidding,
    /// Bidding is closed; the external lottery process fills the bitmap.
    LotterySealing,
    /// The bitmap was sealed; treasury withdrawal may be computed.
    Settlement,
}

/// Receipt for one accepted bid.
#[derive(Clone, Copy, PartialEq, Eq, Structural, Debug)]
pub struct BidReceipt {
    /// Arrival index of the bid: its bit index in the lottery bitmap.
    pub index: u64,
    /// The bidder's identity.
    pub bidder: u64,
    /// The price paid.
    pub amount: u64,
}

/// One sale: its configuration (with the pricing high-water-mark) and its
/// mutable counters. Never deleted; `Settlement` is an archival state.
#[derive(Clone, PartialEq, Eq, Debug)]
pub struct FairLaunch {
    /// Configuration and high-water-mark.
    pub data: FairLaunchData,
    /// Total bids accepted.
    pub number_tickets_sold: u64,
    /// Refunds processed during settlement.
    pub number_tickets_dropped: u64,
    /// Winners processed during settlement.
    pub number_tickets_punched: u64,
    /// One-count of the sealed lottery bitmap.
    pub bitmap_ones: u64,
    /// Whether the lottery bitmap has been sealed (settlement reached).
    pub phase_three_started: bool,
    /// Treasury balance recorded at the first withdrawal; set once.
    pub treasury_snapshot: Option<u64>,
    /// The most recent accepted bidder (bookkeeping only).
    pub leading_bidder: Option<u64>,
}

impl FairLaunch {
    /// Invariants that hold at creation and are preserved by every
    /// operation (the bidding deadline only ever moves forward, so it
    /// stays past the configured start).
    pub open spec fn wf(self) -> bool {
        &&& self.data.phase_one_end > self.data.phase_one_start
        &&& self.data.uuid@.len() == 6
        &&& self.data.tick_size > 0
        &&& self.data.number_of_tokens > 0
        &&& self.data.price_range_end > self.data.price_range_start
        &&& self.data.lottery_duration >= 0
        &&& (self.data.anti_rug_setting matches Some(ar) ==> ar.reserve_bp <= 10000
            && ar.token_requirement <= self.data.number_of_tokens)
    }

    /// The generous initial bidding window, six lottery durations past the
    /// configured bidding end, stays within the timestamp range.
    pub open spec fn initial_deadline_fits(data: FairLaunchData) -> bool {
        &&& 6 * data.lottery_duration <= i64::MAX
        &&& data.phase_one_end + 6 * data.lottery_duration <= i64::MAX
    }

    /// Creates a sale from a validated configuration: the high-water-mark
    /// starts at zero and the bidding deadline is pushed six lottery
    /// durations past the configured end (later bids shrink it back).
    pub fn new(data: FairLaunchData) -> (r: Result<FairLaunch, ConfigError>)
        ensures
            r is Ok <==> data_valid(data) && Self::initial_deadline_fits(data),
            !data_valid(data) ==> r is Err && r->Err_0 == spec_validate(data)->Err_0,
            data_valid(data) && !Self::initial_deadline_fits(data) ==> r == Err::<
                FairLaunch,
                ConfigError,
            >(ConfigError::NumericalOverflow),
            r is Ok ==> r->Ok_0 == (FairLaunch {
                data: FairLaunchData {
                    last: 0,
                    phase_one_end: (data.phase_one_end + 6 * data.lottery_duration) as i64,
                    ..data
                },
                number_tickets_sold: 0,
                number_tickets_dropped: 0,
                number_tickets_punched: 0,
                bitmap_ones: 0,
                phase_three_started: false,
                treasury_snapshot: None,
                leading_bidder: None,
            }),
            r is Ok ==> r->Ok_0.wf(),
    {
        match assert_data_valid(&data) {
            Ok(_) => (),
            Err(e) => {
                return Err(e);
            },
        }
        let extension = match data.lottery_duration.checked_mul(6) {
            Some(v) => v,
            None => {
                return Err(ConfigError::NumericalOverflow);
            },
        };
        let new_end = match data.phase_one_end.checked_add(extension) {
            Some(v) => v,
            None => {
                return Err(ConfigError::NumericalOverflow);
            },
        };
        let mut data = data;
        data.last = 0;
        data.phase_one_end = new_end;
        Ok(
            FairLaunch {
                data,
                number_tickets_sold: 0,
                number_tickets_dropped: 0,
                number_tickets_punched: 0,
                bitmap_ones: 0,
                phase_three_started: false,
                treasury_snapshot: None,
                leading_bidder: None,
            },
        )
    }

    /// The phase at time `now`, as a pure function of the state.
    pub open spec fn spec_phase(self, now: i64) -> Phase {
        if self.phase_three_started {
            Phase::Settlement
        } else if now <= self.data.phase_one_end {
            Phase::Bidding
        } else {
            Phase::LotterySealing
        }
    }

    /// Reports the sale's current phase.
    pub fn current_phase(&self, now: i64) -> (p: Phase)
        ensures
            p == self.spec_phase(now),
    {
        if self.phase_three_started {
            Phase::Settlement
        } else if now <= self.data.phase_one_end {
            Phase::Bidding
        } else {
            Phase::LotterySealing
        }
    }

    /// The scheduled time to the next phase change: the rest of the
    /// bidding window (saturated to the timestamp range) during `Bidding`,
    /// and nothing otherwise — leaving `LotterySealing` is event-driven
    /// and `Settlement` is terminal.
    pub open spec fn spec_time_until_phase_change(self, now: i64) -> Option<i64> {
        if self.spec_phase(now) == Phase::Bidding {
            if self.data.phase_one_end - now > i64::MAX {
                Some(i64::MAX)
            } else {
                Some((self.data.phase_one_end - now) as i64)
            }
        } else {
            None
        }
    }

    /// Reports how long the current phase is scheduled to last.
    pub fn time_until_phase_change(&self, now: i64) -> (r: Option<i64>)
        ensures
            r == self.spec_time_until_phase_change(now),
    {
        if self.phase_three_started {
            return None;
        }
        if now > self.data.phase_one_end {
            return None;
        }
        match self.data.phase_one_end.checked_sub(now) {
            Some(d) => Some(d),
            None => Some(i64::MAX),
        }
    }

    /// Whether a bid may be accepted at time `now`.
    pub open spec fn bid_window_open(self, now: i64) -> bool {
        !self.phase_three_started && now <= self.data.phase_one_end
    }

    /// The anti-snipe rule fires when a bid arrives within
    /// `lottery_duration` of the current deadline.
    pub open spec fn anti_snipe_triggered(self, now: i64) -> bool {
        self.data.phase_one_end - now < self.data.lottery_duration
    }

    /// Whether accepting a bid at time `now` would overflow a counter or
    /// a deadline computation.
    pub open spec fn bid_overflows(self, now: i64) -> bool {
        ||| self.number_tickets_sold == u64::MAX
        ||| self.data.phase_one_end - now > i64::MAX
        ||| (self.anti_snipe_triggered(now) && now + self.data.lottery_duration > i64::MAX)
    }

    /// The first rule a bid violates, in the order the rules are checked,
    /// or `None` when the bid is accepted.
    pub open spec fn spec_bid_error(self, bidder_balance: u64, offered_amount: u64,
        now: i64) -> Option<BidError> {
        if !self.bid_window_open(now) {
            Some(BidError::PhaseClosed)
        } else if bidder_balance < offered_amount {
            Some(BidError::InsufficientFunds)
        } else if offered_amount <= self.data.last {
            Some(BidError::BidTooLow)
        } else if self.bid_overflows(now) {
            Some(BidError::NumericalOverflow)
        } else {
            None
        }
    }

    /// The sale state after one accepted bid: one more ticket sold, the
    /// high-water-mark ratcheted to the offered amount, the deadline
    /// pushed to `now + lottery_duration` when the anti-snipe rule fired,
    /// and the bidder recorded as the current leading participant.
    pub open spec fn spec_bid_effect(self, bidder: u64, offered_amount: u64,
        now: i64) -> FairLaunch {
        FairLaunch {
            data: FairLaunchData {
                last: offered_amount,
                phase_one_end: if self.anti_snipe_triggered(now) {
                    (now + self.data.lottery_duration) as i64
                } else {
                    self.data.phase_one_end
                },
                ..self.data
            },
            number_tickets_sold: (self.number_tickets_sold + 1) as u64,
            leading_bidder: Some(bidder),
            ..self
        }
    }

    /// Full behaviour of one `accept_bid` call: either the first violated
    /// rule is reported and the state is untouched, or the receipt carries
    /// the arrival index and the state is updated in one step.
    pub open spec fn bid_step(pre: FairLaunch, post: FairLaunch, bidder: u64, bidder_balance: u64,
        offered_amount: u64, now: i64, r: Result<BidReceipt, BidError>) -> bool {
        match pre.spec_bid_error(bidder_balance, offered_amount, now) {
            Some(e) => r == Err::<BidReceipt, BidError>(e) && post == pre,
            None => r == Ok::<BidReceipt, BidError>(
                BidReceipt { index: pre.number_tickets_sold, bidder: bidder, amount: offered_amount },
            ) && post == pre.spec_bid_effect(bidder, offered_amount, now),
        }
    }

    /// Accepts a bid iff the bidding window is open, the bidder can cover
    /// the offer, the offer strictly exceeds the high-water-mark, and no
    /// counter overflows; a rejected bid leaves the state untouched.
    ///
    /// Moving `offered_amount` from the bidder to the pooled treasury is
    /// the custody collaborator's job, done by the host after this call.
    pub fn accept_bid(&mut self, bidder: u64, bidder_balance: u64, offered_amount: u64,
        now: i64) -> (r: Result<BidReceipt, BidError>)
        requires
            old(self).wf(),
        ensures
            final(self).wf(),
            Self::bid_step(*old(self), *final(self), bidder, bidder_balance, offered_amount, now, r),
            r is Err ==> *final(self) == *old(self),
            r is Ok ==> old(self).data.last < offered_amount && final(self).data.last
                == offered_amount,
            old(self).data.last <= final(self).data.last,
            r is Ok ==> old(self).data.phase_one_end <= final(self).data.phase_one_end,
            r is Ok && old(self).anti_snipe_triggered(now) ==> final(self).data.phase_one_end
                == now + old(self).data.lottery_duration,
            offered_amount <= old(self).data.last ==> r is Err,
    {
        if self.phase_three_started || now > self.data.phase_one_end {
            return Err(BidError::PhaseClosed);
        }
        if bidder_balance < offered_amount {
            return Err(BidError::InsufficientFunds);
        }
        if offered_amount <= self.data.last {
            return Err(BidError::BidTooLow);
        }
        let index = self.number_tickets_sold;
        let new_sold = match self.number_tickets_sold.checked_add(1) {
            Some(v) => v,
            None => {
                return Err(BidError::NumericalOverflow);
            },
        };
        let remaining = match self.data.phase_one_end.checked_sub(now) {
            Some(d) => d,
            None => {
                return Err(BidError::NumericalOverflow);
            },
        };
        let new_end: i64 = if remaining < self.data.lottery_duration {
            match now.checked_add(self.data.lottery_duration) {
                Some(e) => e,
                None => {
                    return Err(BidError::NumericalOverflow);
                },
            }
        } else {
            self.data.phase_one_end
        };
        self.number_tickets_sold = new_sold;
        self.data.last = offered_amount;
        self.data.phase_one_end = new_end;
        self.leading_bidder = Some(bidder);
        Ok(BidReceipt { index, bidder, amount: offered_amount })
    }

    /// Reopens the lottery-sealing window by one `lottery_duration` once
    /// the prior window has elapsed, provided no sealing has occurred.
    pub fn restart_phase_two(&mut self, now: i64) -> (r: Result<(), RestartError>)
        requires
            old(self).wf(),
        ensures
            final(self).wf(),
            r is Ok <==> old(self).spec_phase(now) == Phase::LotterySealing && old(
                self,
            ).data.phase_one_end + old(self).data.lottery_duration <= i64::MAX,
            r is Err ==> *final(self) == *old(self),
            old(self).phase_three_started ==> r == Err::<(), RestartError>(
                RestartError::PhaseThreeAlreadyStarted,
            ),
            !old(self).phase_three_started && now <= old(self).data.phase_one_end ==> r == Err::<
                (),
                RestartError,
            >(RestartError::LotteryDurationHasntEndedYet),
            r is Err && old(self).spec_phase(now) == Phase::LotterySealing ==> r == Err::<
                (),
                RestartError,
            >(RestartError::NumericalOverflow),
            r is Ok ==> *final(self) == (FairLaunch {
                data: FairLaunchData {
                    phase_one_end: (old(self).data.phase_one_end + old(
                        self,
                    ).data.lottery_duration) as i64,
                    ..old(self).data
                },
                ..*old(self)
            }),
    {
        if self.phase_three_started {
            return Err(RestartError::PhaseThreeAlreadyStarted);
        }
        if now <= self.data.phase_one_end {
            return Err(RestartError::LotteryDurationHasntEndedYet);
        }
        let new_end = match self.data.phase_one_end.checked_add(self.data.lottery_duration) {
            Some(v) => v,
            None => {
                return Err(RestartError::NumericalOverflow);
            },
        };
        self.data.phase_one_end = new_end;
        Ok(())
    }

    /// Full behaviour of one `seal` call over the sale and the bitmap.
    pub open spec fn seal_step(pre: FairLaunch, post: FairLaunch, bm_pre: FairLaunchLotteryBitmap,
        bm_post: FairLaunchLotteryBitmap, r: Result<(), LotteryError>) -> bool {
        if pre.phase_three_started || bm_pre.is_sealed() {
            r == Err::<(), LotteryError>(LotteryError::AlreadySealed) && post == pre && bm_post
                == bm_pre
        } else if bm_pre.spec_ones() != pre.number_tickets_sold {
            r == Err::<(), LotteryError>(LotteryError::CardinalityMismatch) && post == pre
                && bm_post == bm_pre
        } else {
            r == Ok::<(), LotteryError>(()) && post == (FairLaunch {
                phase_three_started: true,
                bitmap_ones: bm_pre.spec_ones(),
                ..pre
            }) && bm_post.is_sealed() && bm_post.bits() == bm_pre.bits() && bm_post.spec_ones()
                == bm_pre.spec_ones()
        }
    }

    /// Seals the lottery: accepted iff the bitmap's one-count equals the
    /// number of bids accepted and neither the sale nor the bitmap was
    /// sealed before. Success enters the terminal `Settlement` phase.
    pub fn seal(&mut self, bitmap: &mut FairLaunchLotteryBitmap) -> (r: Result<(), LotteryError>)
        requires
            old(self).wf(),
            old(bitmap).wf(),
        ensures
            final(self).wf(),
            final(bitmap).wf(),
            Self::seal_step(*old(self), *final(self), *old(bitmap), *final(bitmap), r),
            r is Ok <==> !old(self).phase_three_started && !old(bitmap).is_sealed() && old(
                bitmap,
            ).spec_ones() == old(self).number_tickets_sold,
    {
        if self.phase_three_started {
            return Err(LotteryError::AlreadySealed);
        }
        match bitmap.seal(self.number_tickets_sold) {
            Ok(_) => {
                self.bitmap_ones = bitmap.ones();
                self.phase_three_started = true;
                Ok(())
            },
            Err(e) => Err(e),
        }
    }

    /// Full behaviour of one `compute_withdrawable` call: outside
    /// `Settlement` nothing happens; otherwise the effective snapshot is
    /// the stored one (or today's balance on the first call, which is then
    /// persisted), and the authorized amount follows the anti-rug schedule
    /// and the 75% cap.
    pub open spec fn withdraw_step(pre: FairLaunch, post: FairLaunch, current_token_supply: u64,
        current_treasury_balance: u64, r: Result<u64, WithdrawError>) -> bool {
        if !pre.phase_three_started {
            r == Err::<u64, WithdrawError>(WithdrawError::NotYetSettleable) && post == pre
        } else {
            let snap = match pre.treasury_snapshot {
                Some(s) => s,
                None => current_treasury_balance,
            };
            if withdraw_blocked(pre.data, current_token_supply, snap, current_treasury_balance) {
                r == Err::<u64, WithdrawError>(WithdrawError::AlreadyWithdrawnAllotment) && post
                    == pre
            } else {
                r == Ok::<u64, WithdrawError>(
                    spec_withdraw_amount(
                        pre.data,
                        current_token_supply,
                        snap,
                        current_treasury_balance,
                    ) as u64,
                ) && post == (FairLaunch { treasury_snapshot: Some(snap), ..pre })
            }
        }
    }

    /// Computes the amount the issuer may withdraw right now, taking the
    /// set-once treasury snapshot on the first successful call. The result
    /// is advisory: moving funds is the custody collaborator's job.
    pub fn compute_withdrawable(&mut self, current_token_supply: u64,
        current_treasury_balance: u64) -> (r: Result<u64, WithdrawError>)
        requires
            old(self).wf(),
        ensures
            final(self).wf(),
            Self::withdraw_step(
                *old(self),
                *final(self),
                current_token_supply,
                current_treasury_balance,
                r,
            ),
            r is Err ==> *final(self) == *old(self),
            r is Ok ==> final(self).treasury_snapshot is Some,
            old(self).treasury_snapshot is Some ==> final(self).treasury_snapshot == old(
                self,
            ).treasury_snapshot,
    {
        if !self.phase_three_started {
            return Err(WithdrawError::NotYetSettleable);
        }
        let snap = match self.treasury_snapshot {
            Some(s) => s,
            None => current_treasury_balance,
        };
        match calculate_withdraw_amount(
            &self.data,
            current_token_supply,
            snap,
            current_treasury_balance,
        ) {
            Ok(amount) => {
                self.treasury_snapshot = Some(snap);
                Ok(amount)
            },
            Err(e) => Err(e),
        }
    }
}

} // verus!
