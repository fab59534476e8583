//! Laws of the sale, proved once and for all over the step relations that
//! the operations' own contracts establish.

use vstd::prelude::*;

use crate::errors::{BidError, LotteryError, WithdrawError};
use crate::lottery::FairLaunchLotteryBitmap;
use crate::sale::{BidReceipt, FairLaunch};

verus! {

/// Over one bid call the recorded high-water-mark never decreases, and an
/// accepted bid ratchets it up to exactly the offered amount; since this
/// holds of every call, `last` is non-decreasing over any sequence of
/// bids and strictly increases with each acceptance.
pub proof fn lemma_high_water_mark_monotonic(pre: FairLaunch, post: FairLaunch, bidder: u64,
    bidder_balance: u64, offered_amount: u64, now: i64, r: Result<BidReceipt, BidError>)
    requires
        FairLaunch::bid_step(pre, post, bidder, bidder_balance, offered_amount, now, r),
    ensures
        pre.data.last <= post.data.last,
        r is Ok ==> pre.data.last < post.data.last && post.data.last == offered_amount,
{
}

/// The amounts of two consecutively accepted bids strictly ascend, and so
/// does the high-water-mark recorded after each of them.
pub proof fn lemma_accepted_bids_strictly_ascend(s0: FairLaunch, s1: FairLaunch, s2: FairLaunch,
    bidder1: u64, balance1: u64, amount1: u64, now1: i64, r1: Result<BidReceipt, BidError>,
    bidder2: u64, balance2: u64, amount2: u64, now2: i64, r2: Result<BidReceipt, BidError>)
    requires
        FairLaunch::bid_step(s0, s1, bidder1, balance1, amount1, now1, r1),
        r1 is Ok,
        FairLaunch::bid_step(s1, s2, bidder2, balance2, amount2, now2, r2),
        r2 is Ok,
    ensures
        s0.data.last < s1.data.last < s2.data.last,
        amount1 < amount2,
{
}

/// A bid that does not strictly exceed the high-water-mark is rejected,
/// and the state after any rejected bid is identical to the state before.
pub proof fn lemma_low_bid_rejected(pre: FairLaunch, post: FairLaunch, bidder: u64,
    bidder_balance: u64, offered_amount: u64, now: i64, r: Result<BidReceipt, BidError>)
    requires
        FairLaunch::bid_step(pre, post, bidder, bidder_balance, offered_amount, now, r),
        offered_amount <= pre.data.last,
    ensures
        r is Err,
        post == pre,
{
}

/// A bid accepted within `lottery_duration` of the deadline pushes the
/// deadline to exactly `now + lottery_duration`, which the emitted state
/// shows directly.
pub proof fn lemma_anti_snipe_extension(pre: FairLaunch, post: FairLaunch, bidder: u64,
    bidder_balance: u64, offered_amount: u64, now: i64, r: Result<BidReceipt, BidError>)
    requires
        FairLaunch::bid_step(pre, post, bidder, bidder_balance, offered_amount, now, r),
        r is Ok,
        pre.anti_snipe_triggered(now),
    ensures
        post.data.phase_one_end == now + pre.data.lottery_duration,
{
}

/// Sealing succeeds exactly when the bitmap's one-count equals the total
/// number of bids accepted; an off-by-one in either direction on a fresh
/// bitmap is rejected as a cardinality mismatch, and a sealed sale or
/// bitmap rejects any further sealing. A rejected seal changes nothing.
pub proof fn lemma_seal_cardinality(pre: FairLaunch, post: FairLaunch,
    bm_pre: FairLaunchLotteryBitmap, bm_post: FairLaunchLotteryBitmap,
    r: Result<(), LotteryError>)
    requires
        FairLaunch::seal_step(pre, post, bm_pre, bm_post, r),
    ensures
        r is Ok <==> !pre.phase_three_started && !bm_pre.is_sealed() && bm_pre.spec_ones()
            == pre.number_tickets_sold,
        !pre.phase_three_started && !bm_pre.is_sealed() && bm_pre.spec_ones()
            != pre.number_tickets_sold ==> r == Err::<(), LotteryError>(
            LotteryError::CardinalityMismatch,
        ),
        r is Err ==> post == pre,
{
}

/// `Settlement` is terminal: a sealed sale rejects every bid outright and
/// is left untouched by it.
pub proof fn lemma_settlement_is_terminal(pre: FairLaunch, post: FairLaunch, bidder: u64,
    bidder_balance: u64, offered_amount: u64, now: i64, r: Result<BidReceipt, BidError>)
    requires
        FairLaunch::bid_step(pre, post, bidder, bidder_balance, offered_amount, now, r),
        pre.phase_three_started,
    ensures
        r == Err::<BidReceipt, BidError>(BidError::PhaseClosed),
        post == pre,
        post.phase_three_started,
{
}

/// With the same supply and balance, repeating the withdrawal computation
/// returns the same value and leaves the state unchanged: once taken, the
/// snapshot is reused, and the snapshot-independent paths (no anti-rug
/// setting, or requirement met) depend only on the repeated live balance.
pub proof fn lemma_compute_withdrawable_idempotent(s0: FairLaunch, s1: FairLaunch, s2: FairLaunch,
    current_token_supply: u64, current_treasury_balance: u64, r1: Result<u64, WithdrawError>,
    r2: Result<u64, WithdrawError>)
    requires
        FairLaunch::withdraw_step(s0, s1, current_token_supply, current_treasury_balance, r1),
        FairLaunch::withdraw_step(s1, s2, current_token_supply, current_treasury_balance, r2),
    ensures
        r2 == r1,
        s2 == s1,
{
}

} // verus!
