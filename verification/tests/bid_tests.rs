use fair_launch::config::FairLaunchData;
use fair_launch::errors::{BidError, ConfigError, RestartError};
use fair_launch::sale::{FairLaunch, Phase};

fn base_data() -> FairLaunchData {
    FairLaunchData {
        last: 0,
        uuid: String::from("abc123"),
        price_range_start: 100,
        price_range_end: 1100,
        phase_one_start: 1_000,
        phase_one_end: 2_000,
        phase_two_end: 3_000,
        lottery_duration: 100,
        tick_size: 10,
        number_of_tokens: 1_000,
        fee: 5,
        anti_rug_setting: None,
    }
}

fn new_sale() -> FairLaunch {
    FairLaunch::new(base_data()).unwrap()
}

#[test]
fn creation_sets_generous_deadline_and_zero_watermark() {
    let mut data = base_data();
    data.last = 77; // overwritten at creation
    let sale = FairLaunch::new(data).unwrap();
    assert_eq!(sale.data.last, 0);
    // configured end plus six lottery durations
    assert_eq!(sale.data.phase_one_end, 2_000 + 6 * 100);
    assert_eq!(sale.number_tickets_sold, 0);
    assert_eq!(sale.treasury_snapshot, None);
    assert!(!sale.phase_three_started);
}

#[test]
fn creation_overflow_rejected() {
    let mut data = base_data();
    data.phase_one_end = i64::MAX - 10;
    data.phase_two_end = i64::MAX - 5;
    assert_eq!(FairLaunch::new(data), Err(ConfigError::NumericalOverflow));
}

#[test]
fn ascending_bids_ratchet_the_watermark() {
    let mut sale = new_sale();
    let r1 = sale.accept_bid(1, 1_000, 10, 1_500).unwrap();
    assert_eq!(r1.index, 0);
    assert_eq!(sale.data.last, 10);
    let r2 = sale.accept_bid(2, 1_000, 11, 1_501).unwrap();
    assert_eq!(r2.index, 1);
    assert_eq!(sale.data.last, 11);
    let r3 = sale.accept_bid(3, 1_000, 500, 1_502).unwrap();
    assert_eq!(r3.index, 2);
    assert_eq!(sale.data.last, 500);
    assert_eq!(sale.number_tickets_sold, 3);
    assert_eq!(sale.leading_bidder, Some(3));
}

#[test]
fn equal_bid_rejected_and_state_untouched() {
    let mut sale = new_sale();
    sale.accept_bid(1, 1_000, 50, 1_500).unwrap();
    let before = sale.clone();
    assert_eq!(sale.accept_bid(2, 1_000, 50, 1_501), Err(BidError::BidTooLow));
    assert_eq!(sale, before);
}

#[test]
fn lower_bid_rejected_and_state_untouched() {
    let mut sale = new_sale();
    sale.accept_bid(1, 1_000, 50, 1_500).unwrap();
    let before = sale.clone();
    assert_eq!(sale.accept_bid(2, 1_000, 49, 1_501), Err(BidError::BidTooLow));
    assert_eq!(sale, before);
}

#[test]
fn underfunded_bid_rejected() {
    let mut sale = new_sale();
    let before = sale.clone();
    assert_eq!(sale.accept_bid(1, 49, 50, 1_500), Err(BidError::InsufficientFunds));
    assert_eq!(sale, before);
}

#[test]
fn late_bid_rejected() {
    let mut sale = new_sale();
    // the initial deadline is 2_600
    let before = sale.clone();
    assert_eq!(sale.accept_bid(1, 1_000, 50, 2_601), Err(BidError::PhaseClosed));
    assert_eq!(sale, before);
}

#[test]
fn bid_after_seal_rejected() {
    let mut sale = new_sale();
    sale.phase_three_started = true;
    assert_eq!(sale.accept_bid(1, 1_000, 50, 1_500), Err(BidError::PhaseClosed));
}

#[test]
fn late_bid_extends_deadline_to_now_plus_duration() {
    let mut sale = new_sale();
    // deadline 2_600, duration 100: a bid at 2_550 is inside the window
    sale.accept_bid(1, 1_000, 50, 2_550).unwrap();
    assert_eq!(sale.data.phase_one_end, 2_550 + 100);
    // and the pushed deadline keeps extending under continued late bids
    sale.accept_bid(2, 1_000, 60, 2_649).unwrap();
    assert_eq!(sale.data.phase_one_end, 2_649 + 100);
}

#[test]
fn early_bid_leaves_deadline_alone() {
    let mut sale = new_sale();
    sale.accept_bid(1, 1_000, 50, 1_500).unwrap();
    assert_eq!(sale.data.phase_one_end, 2_600);
}

#[test]
fn counter_overflow_rejected_without_wrapping() {
    let mut sale = new_sale();
    sale.number_tickets_sold = u64::MAX;
    sale.data.last = u64::MAX - 2;
    let before = sale.clone();
    assert_eq!(
        sale.accept_bid(1, u64::MAX, u64::MAX - 1, 1_500),
        Err(BidError::NumericalOverflow)
    );
    assert_eq!(sale, before);
}

#[test]
fn deadline_overflow_rejected_without_wrapping() {
    let mut sale = new_sale();
    sale.data.phase_one_end = i64::MAX;
    let before = sale.clone();
    // inside the anti-snipe window, but the new deadline would overflow
    assert_eq!(
        sale.accept_bid(1, u64::MAX, u64::MAX - 1, i64::MAX),
        Err(BidError::NumericalOverflow)
    );
    assert_eq!(sale, before);
}

#[test]
fn phases_follow_the_clock_and_the_seal() {
    let mut sale = new_sale();
    assert_eq!(sale.current_phase(2_600), Phase::Bidding);
    assert_eq!(sale.current_phase(2_601), Phase::LotterySealing);
    sale.phase_three_started = true;
    assert_eq!(sale.current_phase(1_500), Phase::Settlement);
}

#[test]
fn time_until_phase_change_counts_down_the_bidding_window() {
    let mut sale = new_sale();
    assert_eq!(sale.time_until_phase_change(2_000), Some(600));
    assert_eq!(sale.time_until_phase_change(2_600), Some(0));
    assert_eq!(sale.time_until_phase_change(2_601), None);
    sale.phase_three_started = true;
    assert_eq!(sale.time_until_phase_change(1_000), None);
}

#[test]
fn restart_reopens_an_elapsed_window() {
    let mut sale = new_sale();
    assert_eq!(sale.restart_phase_two(2_700), Ok(()));
    assert_eq!(sale.data.phase_one_end, 2_600 + 100);
}

#[test]
fn restart_before_window_elapses_rejected() {
    let mut sale = new_sale();
    assert_eq!(
        sale.restart_phase_two(2_600),
        Err(RestartError::LotteryDurationHasntEndedYet)
    );
}

#[test]
fn restart_after_seal_rejected() {
    let mut sale = new_sale();
    sale.phase_three_started = true;
    assert_eq!(
        sale.restart_phase_two(2_700),
        Err(RestartError::PhaseThreeAlreadyStarted)
    );
}
