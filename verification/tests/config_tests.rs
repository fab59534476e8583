use fair_launch::config::{assert_data_valid, AntiRugSetting, FairLaunchData};
use fair_launch::errors::ConfigError;

fn base_data() -> FairLaunchData {
    FairLaunchData {
        last: 0,
        uuid: String::from("abc123"),
        price_range_start: 100,
        price_range_end: 1100,
        phase_one_start: 1_000,
        phase_one_end: 2_000,
        phase_two_end: 3_000,
        lottery_duration: 100,
        tick_size: 10,
        number_of_tokens: 1_000,
        fee: 5,
        anti_rug_setting: None,
    }
}

#[test]
fn valid_config_accepted() {
    assert_eq!(assert_data_valid(&base_data()), Ok(()));
}

#[test]
fn valid_config_with_anti_rug_accepted() {
    let mut data = base_data();
    data.anti_rug_setting = Some(AntiRugSetting {
        reserve_bp: 2000,
        token_requirement: 1_000,
        self_destruct_date: 9_000,
    });
    assert_eq!(assert_data_valid(&data), Ok(()));
}

#[test]
fn bidding_end_before_start_rejected() {
    let mut data = base_data();
    data.phase_one_end = 1_000;
    assert_eq!(assert_data_valid(&data), Err(ConfigError::TimestampsDontLineUp));
}

#[test]
fn settlement_end_before_bidding_end_rejected() {
    let mut data = base_data();
    data.phase_two_end = 2_000;
    assert_eq!(assert_data_valid(&data), Err(ConfigError::TimestampsDontLineUp));
}

#[test]
fn short_code_rejected() {
    let mut data = base_data();
    data.uuid = String::from("abc12");
    assert_eq!(assert_data_valid(&data), Err(ConfigError::UuidMustBeExactly6Length));
}

#[test]
fn long_code_rejected() {
    let mut data = base_data();
    data.uuid = String::from("abc1234");
    assert_eq!(assert_data_valid(&data), Err(ConfigError::UuidMustBeExactly6Length));
}

#[test]
fn zero_tick_size_rejected() {
    let mut data = base_data();
    data.tick_size = 0;
    assert_eq!(assert_data_valid(&data), Err(ConfigError::TickSizeTooSmall));
}

#[test]
fn zero_token_supply_rejected() {
    let mut data = base_data();
    data.number_of_tokens = 0;
    assert_eq!(assert_data_valid(&data), Err(ConfigError::CannotGiveZeroTokens));
}

#[test]
fn inverted_price_range_rejected() {
    let mut data = base_data();
    data.price_range_end = 100;
    assert_eq!(assert_data_valid(&data), Err(ConfigError::InvalidPriceRanges));
}

#[test]
fn negative_lottery_duration_rejected() {
    let mut data = base_data();
    data.lottery_duration = -1;
    assert_eq!(assert_data_valid(&data), Err(ConfigError::InvalidLotteryDuration));
}

#[test]
fn excessive_reserve_bp_rejected() {
    let mut data = base_data();
    data.anti_rug_setting = Some(AntiRugSetting {
        reserve_bp: 10_001,
        token_requirement: 1_000,
        self_destruct_date: 9_000,
    });
    assert_eq!(assert_data_valid(&data), Err(ConfigError::InvalidReserveBp));
}

#[test]
fn requirement_above_supply_rejected() {
    let mut data = base_data();
    data.anti_rug_setting = Some(AntiRugSetting {
        reserve_bp: 2000,
        token_requirement: 1_001,
        self_destruct_date: 9_000,
    });
    assert_eq!(
        assert_data_valid(&data),
        Err(ConfigError::InvalidAntiRugTokenRequirement)
    );
}

#[test]
fn first_violation_reported() {
    // both the tick size and the price range are wrong; the tick size is
    // checked first
    let mut data = base_data();
    data.tick_size = 0;
    data.price_range_end = 0;
    assert_eq!(assert_data_valid(&data), Err(ConfigError::TickSizeTooSmall));
}
