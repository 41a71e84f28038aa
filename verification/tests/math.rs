use floating_odds_exchange::errors::{
    BasisPointsError, FloatingOddsExchangeError, MathError, ProgramError,
};
use floating_odds_exchange::fixed::{Fixed, SignedFixed};
use floating_odds_exchange::math::{
    claims_from_pot, cost_from_log, fee_from_pot, quote_exact_input, quote_exact_output,
};

const ONE: u128 = 1_000_000_000_000_000_000;

fn fixed(raw: u128) -> Fixed {
    Fixed::from_words(raw as u64, (raw >> 64) as u64, 0)
}

fn positive(raw: u128) -> SignedFixed {
    SignedFixed { value: fixed(raw), is_negative: false }
}

#[test]
fn claims_from_pot_is_floored_share() {
    assert_eq!(claims_from_pot(25_000, 1_025_000, 500_000_000_000), Ok(12_195_121_951));
    assert_eq!(claims_from_pot(1, 3, 10), Ok(3));
    assert_eq!(claims_from_pot(3, 3, 10), Ok(10));
}

#[test]
fn claims_from_pot_rejects_zero_amount_and_supply() {
    assert_eq!(
        claims_from_pot(0, 10, 10),
        Err(ProgramError::Exchange(FloatingOddsExchangeError::InvalidAmount))
    );
    assert_eq!(
        claims_from_pot(1, 0, 10),
        Err(ProgramError::Exchange(FloatingOddsExchangeError::InsufficientLiquidity))
    );
}

#[test]
fn claims_from_pot_overflows_past_u64() {
    assert_eq!(
        claims_from_pot(u64::MAX, 1, u64::MAX),
        Err(ProgramError::Math(MathError::Overflow))
    );
}

#[test]
fn fee_from_pot_rounds_up() {
    assert_eq!(fee_from_pot(500_000_000_000, 100), Ok(5_000_000_000));
    assert_eq!(fee_from_pot(1, 1), Ok(1));
    assert_eq!(fee_from_pot(10_001, 1), Ok(2));
    assert_eq!(fee_from_pot(12_345, 0), Ok(0));
    assert_eq!(fee_from_pot(12_345, 10_000), Ok(12_345));
}

#[test]
fn fee_from_pot_rejects_rate_above_whole() {
    assert_eq!(
        fee_from_pot(100, 10_001),
        Err(ProgramError::BasisPoints(BasisPointsError::InvalidBasisPoints))
    );
}

#[test]
fn quote_exact_output_rejects_zero_amount() {
    assert_eq!(
        quote_exact_output(1_000, 1_000, 0, 1_000_000),
        Err(ProgramError::Exchange(FloatingOddsExchangeError::InvalidAmount))
    );
}

#[test]
fn quote_exact_output_prices_one_when_other_side_is_empty() {
    assert_eq!(quote_exact_output(5, 0, 7, 1_000_000), Ok(7_000_000));
    assert_eq!(
        quote_exact_output(5, 0, u64::MAX, 2),
        Err(ProgramError::Math(MathError::Overflow))
    );
}

#[test]
fn quote_exact_output_follows_the_log_integral() {
    // 10_000 units against 1_000_000 on each side: 10_000 - 1e6 * ln(1.005) = 5012.4585...
    let cost = quote_exact_output(1_000_000, 1_000_000, 10_000, 1_000_000).unwrap();
    assert!(cost > 5_012_458_000 && cost < 5_012_459_000, "cost {}", cost);
    // A unit never costs more than the precision.
    assert!(cost <= 10_000 * 1_000_000);
    // The cheap side costs less than the dear side.
    let cheap = quote_exact_output(1_000_000, 3_000_000, 10_000, 1_000_000).unwrap();
    let dear = quote_exact_output(3_000_000, 1_000_000, 10_000, 1_000_000).unwrap();
    assert!(cheap < cost && cost < dear);
}

#[test]
fn cost_from_log_is_rounded_up_integral() {
    // ln = 0.009950330853168083: 10_000 - 1e6 * ln = 49.669146831917 units, times 1e6.
    assert_eq!(
        cost_from_log(1_000_000, 10_000, 1_000_000, &positive(9_950_330_853_168_083)),
        Ok(49_669_147)
    );
    assert_eq!(
        cost_from_log(1_000_000, 10_000, 1_000_000, &positive(4_987_541_511_038_968)),
        Ok(5_012_458_489)
    );
    assert_eq!(cost_from_log(3, 10, 2, &positive(ONE)), Ok(14));
}

#[test]
fn cost_from_log_rejects_negative_log_and_underflow() {
    let negative = SignedFixed { value: fixed(ONE), is_negative: true };
    assert_eq!(
        cost_from_log(3, 10, 2, &negative),
        Err(ProgramError::Exchange(FloatingOddsExchangeError::ArithmeticOverflow))
    );
    // 3 * ln of 4 units exceeds 10 units.
    assert_eq!(
        cost_from_log(3, 10, 2, &positive(4 * ONE)),
        Err(ProgramError::Math(MathError::Underflow))
    );
}

#[test]
fn fixed_words_round_trip() {
    let f = Fixed::from_words(1, 2, 3);
    assert_eq!(f.words(), (1, 2, 3));
}

#[test]
fn quote_exact_input_rejects_zero_budget() {
    assert_eq!(
        quote_exact_input(1_000_000, 1_000_000, 0, 1_000_000),
        Err(ProgramError::Exchange(FloatingOddsExchangeError::InvalidAmount))
    );
}

#[test]
fn quote_exact_input_fits_budget_and_next_unit_does_not() {
    let budget = 5_000_000u64;
    let (out, cost) = quote_exact_input(1_000_000, 1_000_000, budget, 1_000_000).unwrap();
    assert!(cost <= budget);
    assert_eq!(quote_exact_output(1_000_000, 1_000_000, out, 1_000_000), Ok(cost));
    let next = quote_exact_output(1_000_000, 1_000_000, out + 1, 1_000_000).unwrap();
    assert!(next > budget);
    // At a price of about one half, the budget buys about twice its whole units.
    assert!(out >= 9 && out <= 11, "out {}", out);
}

#[test]
fn quote_exact_input_with_empty_other_side_buys_whole_units() {
    assert_eq!(quote_exact_input(5, 0, 7_500_000, 1_000_000), Ok((7, 7_000_000)));
}

#[test]
fn quote_exact_input_reports_insufficient_liquidity() {
    assert_eq!(
        quote_exact_input(1_000_000, 1_000_000, 1, 1_000_000),
        Err(ProgramError::Exchange(FloatingOddsExchangeError::InsufficientLiquidity))
    );
}

#[test]
fn quote_exact_input_buys_all_units_when_all_fit() {
    // Price 1 and precision 1: every amount up to the largest u64 fits the largest budget.
    assert_eq!(quote_exact_input(1, 0, u64::MAX, 1), Ok((u64::MAX, u64::MAX)));
}

#[test]
fn quote_exact_input_is_not_capped_by_whole_units() {
    // With supplies of 1 and 1 the price falls fast: 1006 units cost
    // 1006 - ln(504) = 999.78 whole units, within a budget of 1000.
    let (out, cost) = quote_exact_input(1, 1, 1_000_000_000, 1_000_000).unwrap();
    assert_eq!(out, 1006);
    assert_eq!(quote_exact_output(1, 1, 1006, 1_000_000), Ok(cost));
    assert!(cost <= 1_000_000_000);
    assert!(quote_exact_output(1, 1, 1007, 1_000_000).unwrap() > 1_000_000_000);
}

#[test]
fn error_codes_follow_declaration_order() {
    assert_eq!(FloatingOddsExchangeError::InvalidOutcome.code(), 0);
    assert_eq!(FloatingOddsExchangeError::ArithmeticOverflow.code(), 17);
    assert_eq!(MathError::Overflow.code(), 9000);
}

#[test]
fn quote_exact_output_rejects_empty_market() {
    assert_eq!(
        quote_exact_output(0, 0, 5, 1_000_000),
        Err(ProgramError::Exchange(FloatingOddsExchangeError::InsufficientLiquidity))
    );
    assert_eq!(
        quote_exact_input(0, 0, 5_000_000, 1_000_000),
        Err(ProgramError::Exchange(FloatingOddsExchangeError::InsufficientLiquidity))
    );
}
