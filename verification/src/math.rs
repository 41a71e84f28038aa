//! Pricing, fee and payout arithmetic of the exchange.
use vstd::prelude::*;

use crate::basis::{basis_points_max, basis_points_new, bps_max};
use crate::checked::{
    fit_u64, u128_safe_add, u128_safe_div, u128_safe_mul, u128_safe_sub,
    u128_safe_to_u64,
};
use crate::errors::{BasisPointsError, FloatingOddsExchangeError, MathError, ProgramError};
use crate::fixed::{
    fixed_ceiling, fixed_ln, fixed_new, fixed_safe_div, fixed_safe_mul, fixed_safe_sub,
    fixed_to_imprecise, fp_ceiling, fp_div, fp_limit, fp_mul, fp_new, fp_one, fp_sub,
    fp_to_imprecise, natural_log, pow2_128, SignedFixed,
};

verus! {

/// A failed checked operation as a program error.
pub open spec fn lift<T>(r: Result<T, MathError>) -> Result<T, ProgramError> {
    match r {
        Ok(v) => Ok(v),
        Err(e) => Err(ProgramError::Math(e)),
    }
}

/// Turns the failure of a checked operation into a program error.
pub fn lift_math<T>(r: Result<T, MathError>) -> (out: Result<T, ProgramError>)
    ensures
        out == lift(r),
{
    match r {
        Ok(v) => Ok(v),
        Err(e) => Err(ProgramError::Math(e)),
    }
}

/// The error result for a rule of the exchange.
pub open spec fn fail<T>(e: FloatingOddsExchangeError) -> Result<T, ProgramError> {
    Err(ProgramError::Exchange(e))
}

/// `floor(pot_amount * mint_amount / mint_supply)`, with the errors of [`claims_from_pot`].
pub open spec fn spec_claims_from_pot(mint_amount: u64, mint_supply: u64, pot_amount: u64) -> Result<
    u64,
    ProgramError,
> {
    if mint_amount == 0 {
        fail(FloatingOddsExchangeError::InvalidAmount)
    } else if mint_supply == 0 {
        fail(FloatingOddsExchangeError::InsufficientLiquidity)
    } else {
        lift(fit_u64(pot_amount * mint_amount / (mint_supply as int), MathError::Overflow))
    }
}

/// `floor(pot_amount * mint_amount / mint_supply)`.
///
/// Fails with `InvalidAmount` when `mint_amount` is zero, with `InsufficientLiquidity`
/// when `mint_supply` is zero, and with an overflow when the share does not fit in a
/// `u64` (which needs `mint_amount > mint_supply`).
pub fn claims_from_pot(mint_amount: u64, mint_supply: u64, pot_amount: u64) -> (r: Result<
    u64,
    ProgramError,
>)
    ensures
        r == spec_claims_from_pot(mint_amount, mint_supply, pot_amount),
        mint_amount > 0 && mint_supply > 0 && mint_amount <= mint_supply ==> r is Ok && r->Ok_0
            <= pot_amount,
{
    if mint_amount == 0 {
        return Err(ProgramError::Exchange(FloatingOddsExchangeError::InvalidAmount));
    }
    if mint_supply == 0 {
        return Err(ProgramError::Exchange(FloatingOddsExchangeError::InsufficientLiquidity));
    }
    assert(pot_amount * mint_amount <= u64::MAX * u64::MAX) by (nonlinear_arith);
    let product = lift_math(u128_safe_mul(pot_amount as u128, mint_amount as u128))?;
    let winnings = lift_math(u128_safe_div(product, mint_supply as u128))?;
    proof {
        if mint_amount <= mint_supply {
            lemma_share_at_most_whole(pot_amount as int, mint_amount as int, mint_supply as int);
        }
    }
    lift_math(u128_safe_to_u64(winnings))
}

/// A share `a / s` of `p`, rounded down, is at most `p` when `a <= s`.
pub proof fn lemma_share_at_most_whole(p: int, a: int, s: int)
    requires
        0 <= p,
        0 <= a <= s,
        0 < s,
    ensures
        0 <= p * a / s <= p,
{
    assert(0 <= p * a <= p * s) by (nonlinear_arith)
        requires
            0 <= p,
            0 <= a <= s,
    ;
    vstd::arithmetic::div_mod::lemma_div_is_ordered(p * a, p * s, s);
    vstd::arithmetic::div_mod::lemma_div_by_multiple(p, s);
    vstd::arithmetic::div_mod::lemma_div_pos_is_pos(p * a, s);
}

/// `ceil(pot_amount * fee_bps / 10 000)`, or the rate's error above 10 000.
pub open spec fn spec_fee_from_pot(pot_amount: u64, fee_bps: u16) -> Result<u64, ProgramError> {
    if fee_bps > bps_max() {
        Err(ProgramError::BasisPoints(BasisPointsError::InvalidBasisPoints))
    } else {
        Ok(((pot_amount * fee_bps + bps_max() - 1) / bps_max()) as u64)
    }
}

/// `ceil(pot_amount * fee_bps / 10_000)`.
///
/// Fails only when `fee_bps` is above 10 000; the fee is then at most the pot.
pub fn fee_from_pot(pot_amount: u64, fee_bps: u16) -> (r: Result<u64, ProgramError>)
    ensures
        r == spec_fee_from_pot(pot_amount, fee_bps),
        r is Ok ==> r->Ok_0 <= pot_amount,
{
    let denom = basis_points_max() as u128;
    let bps = match basis_points_new(fee_bps) {
        Ok(b) => b,
        Err(e) => return Err(ProgramError::BasisPoints(e)),
    };
    assert(pot_amount * bps <= u64::MAX * 10000) by (nonlinear_arith)
        requires
            bps <= 10000,
    ;
    let numer = lift_math(u128_safe_mul(pot_amount as u128, bps as u128))?;
    let denom_less_one = lift_math(u128_safe_sub(denom, 1))?;
    let rounded = lift_math(u128_safe_add(numer, denom_less_one))?;
    let fee = lift_math(u128_safe_div(rounded, denom))?;
    proof {
        lemma_fee_at_most_pot(pot_amount as int, bps as int);
    }
    lift_math(u128_safe_to_u64(fee))
}

/// The rounded-up fee never exceeds the pot it is taken from.
pub proof fn lemma_fee_at_most_pot(p: int, bps: int)
    requires
        0 <= p,
        0 <= bps <= 10000,
    ensures
        0 <= (p * bps + 9999) / 10000 <= p,
{
    assert(p * bps + 9999 <= p * 10000 + 9999) by (nonlinear_arith)
        requires
            0 <= p,
            bps <= 10000,
    ;
    assert(0 <= p * bps) by (nonlinear_arith)
        requires
            0 <= p,
            0 <= bps,
    ;
    vstd::arithmetic::div_mod::lemma_div_is_ordered(p * bps + 9999, p * 10000 + 9999, 10000);
    vstd::arithmetic::div_mod::lemma_div_multiples_vanish_fancy(p, 9999, 10000);
}


/// The integral cost of minting `amount` once the logarithm term is known: from the
/// logarithm `(ln_negative, ln_raw)` of the supply ratio,
/// `ceil(precision * (amount - supply_other * ln))` in fixed point, with the failure of
/// each step.
pub open spec fn spec_cost_from_log(
    supply_other: u64,
    amount: u64,
    precision: u64,
    ln_negative: bool,
    ln_raw: int,
) -> Result<u64, ProgramError> {
    if ln_negative {
        fail(FloatingOddsExchangeError::ArithmeticOverflow)
    } else {
        match fp_mul(fp_new(supply_other as int), ln_raw) {
            None => Err(ProgramError::Math(MathError::Overflow)),
            Some(ln_term) => match fp_sub(fp_new(amount as int), ln_term) {
                None => Err(ProgramError::Math(MathError::Underflow)),
                Some(integral) => match fp_mul(integral, fp_new(precision as int)) {
                    None => Err(ProgramError::Math(MathError::Overflow)),
                    Some(cost_fp) => match fp_ceiling(cost_fp) {
                        None => fail(FloatingOddsExchangeError::ArithmeticOverflow),
                        Some(rounded) => match fp_to_imprecise(rounded) {
                            None => fail(FloatingOddsExchangeError::ArithmeticOverflow),
                            Some(whole) => lift(fit_u64(whole, MathError::Overflow)),
                        },
                    },
                },
            },
        }
    }
}

/// The quote of [`quote_exact_output`]: the `precision`-scaled cost of minting `amount`
/// of the side whose supply is `supply_buy`, against the opposite supply `supply_other`.
pub open spec fn spec_quote_exact_output(
    supply_buy: u64,
    supply_other: u64,
    amount: u64,
    precision: u64,
) -> Result<u64, ProgramError> {
    if amount == 0 {
        fail(FloatingOddsExchangeError::InvalidAmount)
    } else if supply_buy == 0 && supply_other == 0 {
        fail(FloatingOddsExchangeError::InsufficientLiquidity)
    } else if supply_other == 0 {
        lift(fit_u64(amount * precision, MathError::Overflow))
    } else {
        let total_before = supply_buy + supply_other;
        let total_after = total_before + amount;
        match fp_div(fp_new(total_after), fp_new(total_before)) {
            None => Err(ProgramError::Math(MathError::Overflow)),
            Some(ratio) => match natural_log(ratio as nat) {
                None => fail(FloatingOddsExchangeError::ArithmeticOverflow),
                Some(ln) => spec_cost_from_log(supply_other, amount, precision, ln.0, ln.1 as int),
            },
        }
    }
}

/// The cost of [`quote_exact_output`] once the logarithm of the supply ratio is known.
///
/// With `ln` the natural logarithm of `(supply_buy + supply_other + amount) /
/// (supply_buy + supply_other)`, returns `ceil(precision * (amount - supply_other * ln))`
/// computed in 18-decimal fixed point, or `ArithmeticOverflow` for a negative `ln`. A unit
/// never costs more than `precision`.
pub fn cost_from_log(supply_other: u64, amount: u64, precision: u64, ln: &SignedFixed) -> (r:
    Result<u64, ProgramError>)
    ensures
        r == spec_cost_from_log(supply_other, amount, precision, ln.is_negative, ln.value@ as int),
        r is Ok ==> r->Ok_0 <= amount * precision,
{
    if ln.is_negative {
        return Err(ProgramError::Exchange(FloatingOddsExchangeError::ArithmeticOverflow));
    }
    let ln_term = lift_math(fixed_safe_mul(&fixed_new(supply_other as u128), &ln.value))?;
    let whole_amount = fixed_new(amount as u128);
    let integral = lift_math(fixed_safe_sub(&whole_amount, &ln_term))?;
    let cost_fp = lift_math(fixed_safe_mul(&integral, &fixed_new(precision as u128)))?;
    proof {
        lemma_cost_bound(amount as int, precision as int, integral@ as int, cost_fp@ as int);
    }
    let rounded = match fixed_ceiling(&cost_fp) {
        Some(c) => c,
        None => return Err(ProgramError::Exchange(FloatingOddsExchangeError::ArithmeticOverflow)),
    };
    proof {
        lemma_rounded_cost_fits(amount as int, precision as int, cost_fp@ as int, rounded@ as int);
    }
    let whole = match fixed_to_imprecise(&rounded) {
        Some(w) => w,
        None => return Err(ProgramError::Exchange(FloatingOddsExchangeError::ArithmeticOverflow)),
    };
    lift_math(u128_safe_to_u64(whole))
}

/// A fixed-point product of at most `amount` whole units by `precision` whole units is at
/// most `amount * precision` whole units.
pub proof fn lemma_cost_bound(amount: int, precision: int, integral: int, cost: int)
    requires
        0 <= amount,
        0 <= precision,
        0 <= integral <= fp_new(amount),
        fp_mul(integral, fp_new(precision)) == Some(cost),
    ensures
        0 <= cost <= amount * precision * fp_one(),
{
    let one = fp_one();
    let b = precision * one;
    assert(0 <= b);
    if integral * b < fp_limit() {
        assert(integral * b <= amount * precision * one * one) by (nonlinear_arith)
            requires
                0 <= integral <= amount * one,
                b == precision * one,
                0 <= precision,
                one > 0,
        ;
        assert(0 <= integral * b) by (nonlinear_arith)
            requires
                0 <= integral,
                0 <= b,
        ;
        vstd::arithmetic::div_mod::lemma_div_is_ordered(
            integral * b + one / 2,
            amount * precision * one * one + one / 2,
            one,
        );
        assert(amount * precision * one * one == one * (amount * precision * one)) by (
        nonlinear_arith);
        vstd::arithmetic::div_mod::lemma_div_multiples_vanish_fancy(
            amount * precision * one,
            one / 2,
            one,
        );
        vstd::arithmetic::div_mod::lemma_div_pos_is_pos(integral * b + one / 2, one);
    } else if integral >= b {
        vstd::arithmetic::div_mod::lemma_div_is_ordered(integral, amount * one, one);
        vstd::arithmetic::div_mod::lemma_div_by_multiple(amount, one);
        vstd::arithmetic::div_mod::lemma_div_pos_is_pos(integral, one);
        assert(integral / one * b <= amount * precision * one) by (nonlinear_arith)
            requires
                0 <= integral / one <= amount,
                b == precision * one,
                0 <= precision,
                one > 0,
        ;
        assert(0 <= integral / one * b) by (nonlinear_arith)
            requires
                0 <= integral / one,
                0 <= b,
        ;
    } else {
        vstd::arithmetic::div_mod::lemma_div_by_multiple(precision, one);
        assert(b / one * integral <= amount * precision * one) by (nonlinear_arith)
            requires
                b / one == precision,
                0 <= integral <= amount * one,
                0 <= precision,
        ;
        assert(0 <= b / one * integral) by (nonlinear_arith)
            requires
                b / one == precision,
                0 <= integral,
                0 <= precision,
        ;
    }
}

/// Rounding a cost of at most `amount * precision` whole units up to a whole number keeps
/// it at most `amount * precision`, which fits in 128 bits.
pub proof fn lemma_rounded_cost_fits(amount: int, precision: int, cost: int, rounded: int)
    requires
        0 <= amount <= u64::MAX,
        0 <= precision <= u64::MAX,
        0 <= cost <= amount * precision * fp_one(),
        fp_ceiling(cost) == Some(rounded),
    ensures
        rounded + fp_one() / 2 < fp_limit(),
        (rounded + fp_one() / 2) / fp_one() <= amount * precision,
        (rounded + fp_one() / 2) / fp_one() < pow2_128(),
{
    let one = fp_one();
    let n = amount * precision;
    assert(0 <= n <= u64::MAX * u64::MAX) by (nonlinear_arith)
        requires
            n == amount * precision,
            0 <= amount <= u64::MAX,
            0 <= precision <= u64::MAX,
    ;
    assert(n * one == one * n) by (nonlinear_arith);
    vstd::arithmetic::div_mod::lemma_div_is_ordered(cost + (one - 1), n * one + (one - 1), one);
    vstd::arithmetic::div_mod::lemma_div_multiples_vanish_fancy(n, one - 1, one);
    let q = (cost + (one - 1)) / one;
    vstd::arithmetic::div_mod::lemma_div_pos_is_pos(cost + (one - 1), one);
    assert(rounded == q * one);
    assert(q * one <= n * one) by (nonlinear_arith)
        requires
            0 <= q <= n,
            one > 0,
    ;
    assert(q * one == one * q) by (nonlinear_arith);
    vstd::arithmetic::div_mod::lemma_div_multiples_vanish_fancy(q, one / 2, one);
}

/// The ratio of the supplies after and before a purchase is at most `total_after` whole
/// units, well inside the domain of the logarithm.
pub proof fn lemma_ratio_bound(total_before: int, total_after: int)
    requires
        1 <= total_before <= total_after,
        total_after <= 3 * u64::MAX,
    ensures
        fp_div(fp_new(total_after), fp_new(total_before)) is Some,
        fp_div(fp_new(total_after), fp_new(total_before))->0 <= fp_new(total_after),
        fp_div(fp_new(total_after), fp_new(total_before))->0 + fp_one() / 2 < fp_one()
            * pow2_128(),
{
    let one = fp_one();
    let a = total_after * one;
    let b = total_before * one;
    assert(a * one + one / 2 < fp_limit());
    assert(one <= b);
    assert(a * one == one * a) by (nonlinear_arith);
    vstd::arithmetic::div_mod::lemma_div_is_ordered_by_denominator(a * one + one / 2, one, b);
    vstd::arithmetic::div_mod::lemma_div_multiples_vanish_fancy(a, one / 2, one);
}

/// The `precision`-scaled cost of minting `amount` of the side whose supply is
/// `supply_buy` against the opposite supply `supply_other`.
///
/// The price follows the supply ratio `P = supply_buy / (supply_buy + supply_other)`, and
/// the cost is `ceil(PRECISION * (amount - supply_other * ln((supply_buy + supply_other +
/// amount) / (supply_buy + supply_other))))`, computed in 18-decimal fixed point. When
/// `supply_other` is zero the price is 1 and the cost is `amount * precision`. Fails with
/// `InvalidAmount` when `amount` is zero and with `InsufficientLiquidity` when both
/// supplies are zero. A unit never costs more than `precision` (the price is at most 1).
pub fn quote_exact_output(supply_buy: u64, supply_other: u64, amount: u64, precision: u64) -> (r:
    Result<u64, ProgramError>)
    ensures
        r == spec_quote_exact_output(supply_buy, supply_other, amount, precision),
        r is Ok ==> r->Ok_0 <= amount * precision,
{
    if amount == 0 {
        return Err(ProgramError::Exchange(FloatingOddsExchangeError::InvalidAmount));
    }
    let amount_u = amount as u128;
    let precision_u = precision as u128;
    let supply_buy_u = supply_buy as u128;
    let supply_other_u = supply_other as u128;
    let total_before = lift_math(u128_safe_add(supply_buy_u, supply_other_u))?;
    if total_before == 0 {
        return Err(ProgramError::Exchange(FloatingOddsExchangeError::InsufficientLiquidity));
    }
    if supply_other == 0 {
        assert(amount * precision <= u64::MAX * u64::MAX) by (nonlinear_arith);
        let cost = lift_math(u128_safe_mul(amount_u, precision_u))?;
        return lift_math(u128_safe_to_u64(cost));
    }
    let total_after = lift_math(u128_safe_add(total_before, amount_u))?;
    proof {
        lemma_ratio_bound(total_before as int, total_after as int);
    }
    let ratio = lift_math(fixed_safe_div(&fixed_new(total_after), &fixed_new(total_before)))?;
    let ln = match fixed_ln(&ratio) {
        Some(l) => l,
        None => return Err(ProgramError::Exchange(FloatingOddsExchangeError::ArithmeticOverflow)),
    };
    cost_from_log(supply_other, amount, precision, &ln)
}


/// Whether minting `amount` costs at most `budget` under [`quote_exact_output`].
pub open spec fn quote_fits(
    supply_buy: u64,
    supply_other: u64,
    amount: int,
    precision: u64,
    budget: u64,
) -> bool {
    &&& 0 <= amount <= u64::MAX
    &&& spec_quote_exact_output(supply_buy, supply_other, amount as u64, precision) is Ok
    &&& spec_quote_exact_output(supply_buy, supply_other, amount as u64, precision)->Ok_0
        <= budget
}

/// The binary search of [`quote_exact_input`] over `low ..= high`, with `best` the last
/// amount found to fit and its cost: it tries the middle amount, moves up past it when it
/// fits and down below it when it does not, and stops once the range is empty or the
/// largest `u64` amount fits.
pub open spec fn spec_search(
    supply_buy: u64,
    supply_other: u64,
    estimated_cost: u64,
    precision: u64,
    low: int,
    high: int,
    best: (u64, u64),
) -> (u64, u64)
    decreases high + 1 - low,
{
    if low > high || low < 1 || high > u64::MAX {
        best
    } else {
        let mid = low + (high - low) / 2;
        let q = spec_quote_exact_output(supply_buy, supply_other, mid as u64, precision);
        if q is Ok && q->Ok_0 <= estimated_cost {
            if mid == u64::MAX {
                (mid as u64, q->Ok_0)
            } else {
                spec_search(
                    supply_buy,
                    supply_other,
                    estimated_cost,
                    precision,
                    mid + 1,
                    high,
                    (mid as u64, q->Ok_0),
                )
            }
        } else {
            spec_search(supply_buy, supply_other, estimated_cost, precision, low, mid - 1, best)
        }
    }
}

/// The result of [`quote_exact_input`]: the binary search over every amount from 1 to the
/// largest `u64`.
pub open spec fn spec_quote_exact_input(
    supply_buy: u64,
    supply_other: u64,
    estimated_cost: u64,
    precision: u64,
) -> Result<(u64, u64), ProgramError> {
    if estimated_cost == 0 {
        fail(FloatingOddsExchangeError::InvalidAmount)
    } else {
        let found = spec_search(
            supply_buy,
            supply_other,
            estimated_cost,
            precision,
            1,
            u64::MAX as int,
            (0, 0),
        );
        if found.0 == 0 {
            fail(FloatingOddsExchangeError::InsufficientLiquidity)
        } else {
            Ok(found)
        }
    }
}

/// What the result `r` of [`quote_exact_input`] is known to satisfy: a zero budget is
/// refused; when one unit fits there is a result; a failure means that one unit does not
/// fit; a result fits, its cost is its quote and at most the budget, and one unit more
/// does not fit (unless the result is the largest `u64`).
pub open spec fn exact_input_outcome(
    supply_buy: u64,
    supply_other: u64,
    estimated_cost: u64,
    precision: u64,
    r: Result<(u64, u64), ProgramError>,
) -> bool {
    &&& estimated_cost == 0 ==> r == fail::<(u64, u64)>(FloatingOddsExchangeError::InvalidAmount)
    &&& estimated_cost > 0 && quote_fits(supply_buy, supply_other, 1, precision, estimated_cost)
        ==> r is Ok
    &&& estimated_cost > 0 && r is Err ==> r == fail::<(u64, u64)>(
        FloatingOddsExchangeError::InsufficientLiquidity,
    ) && !quote_fits(supply_buy, supply_other, 1, precision, estimated_cost)
    &&& r matches Ok((amount_out, actual_cost)) ==> {
        &&& 1 <= amount_out
        &&& spec_quote_exact_output(supply_buy, supply_other, amount_out, precision) == Ok::<
            u64,
            ProgramError,
        >(actual_cost)
        &&& actual_cost <= estimated_cost
        &&& (amount_out == u64::MAX || !quote_fits(
            supply_buy,
            supply_other,
            amount_out + 1,
            precision,
            estimated_cost,
        ))
    }
}

/// What holds of the search while it runs.
pub open spec fn search_state(
    supply_buy: u64,
    supply_other: u64,
    estimated_cost: u64,
    precision: u64,
    low: int,
    high: int,
    best: (u64, u64),
) -> bool {
    &&& 1 <= low <= high + 1
    &&& high <= u64::MAX
    &&& (high == u64::MAX || !quote_fits(
        supply_buy,
        supply_other,
        high + 1,
        precision,
        estimated_cost,
    ))
    &&& best.0 == 0 ==> low == 1
    &&& best.0 > 0 ==> {
        &&& best.0 + 1 == low
        &&& spec_quote_exact_output(supply_buy, supply_other, best.0, precision) == Ok::<
            u64,
            ProgramError,
        >(best.1)
        &&& best.1 <= estimated_cost
    }
}

/// What the search finds from a state of the search: nothing only when one unit does not
/// fit, else an amount that fits, with its cost, whose successor does not fit.
proof fn lemma_search_finds(
    supply_buy: u64,
    supply_other: u64,
    estimated_cost: u64,
    precision: u64,
    low: int,
    high: int,
    best: (u64, u64),
)
    requires
        search_state(supply_buy, supply_other, estimated_cost, precision, low, high, best),
    ensures
        ({
            let found = spec_search(
                supply_buy,
                supply_other,
                estimated_cost,
                precision,
                low,
                high,
                best,
            );
            &&& found.0 == 0 ==> !quote_fits(
                supply_buy,
                supply_other,
                1,
                precision,
                estimated_cost,
            )
            &&& found.0 > 0 ==> {
                &&& spec_quote_exact_output(supply_buy, supply_other, found.0, precision)
                    == Ok::<u64, ProgramError>(found.1)
                &&& found.1 <= estimated_cost
                &&& (found.0 == u64::MAX || !quote_fits(
                    supply_buy,
                    supply_other,
                    found.0 + 1,
                    precision,
                    estimated_cost,
                ))
            }
        }),
    decreases high + 1 - low,
{
    if low <= high {
        let mid = low + (high - low) / 2;
        let q = spec_quote_exact_output(supply_buy, supply_other, mid as u64, precision);
        if q is Ok && q->Ok_0 <= estimated_cost {
            if mid != u64::MAX {
                lemma_search_finds(
                    supply_buy,
                    supply_other,
                    estimated_cost,
                    precision,
                    mid + 1,
                    high,
                    (mid as u64, q->Ok_0),
                );
            }
        } else {
            assert(!quote_fits(supply_buy, supply_other, mid, precision, estimated_cost));
            lemma_search_finds(
                supply_buy,
                supply_other,
                estimated_cost,
                precision,
                low,
                mid - 1,
                best,
            );
        }
    }
}

/// The result of [`quote_exact_input`] satisfies [`exact_input_outcome`].
pub proof fn lemma_exact_input_outcome(
    supply_buy: u64,
    supply_other: u64,
    estimated_cost: u64,
    precision: u64,
)
    ensures
        exact_input_outcome(
            supply_buy,
            supply_other,
            estimated_cost,
            precision,
            spec_quote_exact_input(supply_buy, supply_other, estimated_cost, precision),
        ),
{
    if estimated_cost > 0 {
        lemma_search_finds(
            supply_buy,
            supply_other,
            estimated_cost,
            precision,
            1,
            u64::MAX as int,
            (0, 0),
        );
    }
}

/// Exact-input counterpart of [`quote_exact_output`].
///
/// Given a `precision`-scaled budget `estimated_cost`, binary-searches every amount from 1
/// to the largest `u64` for an amount whose cost fits the budget ([`spec_search`]).
/// Returns `(amount_out, actual_cost)`: `amount_out` fits, `actual_cost` is its quote and
/// at most the budget, and `amount_out + 1` does not fit unless `amount_out` is the
/// largest `u64`; so when costs grow with the amount, `amount_out` is the largest amount
/// that fits ([`lemma_exact_input_is_largest`]). Fails with `InvalidAmount` for a zero
/// budget and with `InsufficientLiquidity` when nothing fits; when one unit fits it
/// succeeds ([`lemma_exact_input_outcome`]).
pub fn quote_exact_input(
    supply_buy: u64,
    supply_other: u64,
    estimated_cost: u64,
    precision: u64,
) -> (r: Result<(u64, u64), ProgramError>)
    ensures
        r == spec_quote_exact_input(supply_buy, supply_other, estimated_cost, precision),
        exact_input_outcome(supply_buy, supply_other, estimated_cost, precision, r),
{
    proof {
        lemma_exact_input_outcome(supply_buy, supply_other, estimated_cost, precision);
    }
    if estimated_cost == 0 {
        return Err(ProgramError::Exchange(FloatingOddsExchangeError::InvalidAmount));
    }
    let ghost target = spec_search(
        supply_buy,
        supply_other,
        estimated_cost,
        precision,
        1,
        u64::MAX as int,
        (0, 0),
    );

    let mut low: u64 = 1;
    let mut high: u64 = u64::MAX;
    let mut best_amount: u64 = 0;
    let mut best_cost: u64 = 0;

    while low <= high
        invariant_except_break
            spec_search(
                supply_buy,
                supply_other,
                estimated_cost,
                precision,
                low as int,
                high as int,
                (best_amount, best_cost),
            ) == target,
        invariant
            1 <= low,
            low <= high + 1,
        ensures
            (best_amount, best_cost) == target,
        decreases high + 1 - low,
    {
        let gap = high - low;
        let half = gap >> 1;
        assert(half == gap / 2) by (bit_vector)
            requires
                half == gap >> 1,
        ;
        let mid = low + half;
        match quote_exact_output(supply_buy, supply_other, mid, precision) {
            Ok(cost) if cost <= estimated_cost => {
                best_amount = mid;
                best_cost = cost;
                if mid == u64::MAX {
                    // The largest amount fits: nothing above it is left to try.
                    break ;
                }
                low = mid + 1;
            },
            Ok(_) => {
                if mid == 0 {
                    break ;
                }
                high = mid - 1;
            },
            Err(_) => {
                if mid == 0 {
                    break ;
                }
                high = mid - 1;
            },
        }
    }

    if best_amount == 0 {
        return Err(ProgramError::Exchange(FloatingOddsExchangeError::InsufficientLiquidity));
    }
    Ok((best_amount, best_cost))
}

/// When costs never fall as the amount grows, the amount that [`quote_exact_input`]
/// returns is the largest `u64` amount whose cost fits the budget.
pub proof fn lemma_exact_input_is_largest(
    supply_buy: u64,
    supply_other: u64,
    estimated_cost: u64,
    precision: u64,
)
    requires
        forall|x: int, y: int|
            1 <= x <= y && quote_fits(supply_buy, supply_other, y, precision, estimated_cost)
                ==> quote_fits(supply_buy, supply_other, x, precision, estimated_cost),
        spec_quote_exact_input(supply_buy, supply_other, estimated_cost, precision) is Ok,
    ensures
        ({
            let amount_out = spec_quote_exact_input(
                supply_buy,
                supply_other,
                estimated_cost,
                precision,
            )->Ok_0.0;
            forall|b: int|
                amount_out < b ==> !quote_fits(
                    supply_buy,
                    supply_other,
                    b,
                    precision,
                    estimated_cost,
                )
        }),
{
    lemma_exact_input_outcome(supply_buy, supply_other, estimated_cost, precision);
    let amount_out = spec_quote_exact_input(
        supply_buy,
        supply_other,
        estimated_cost,
        precision,
    )->Ok_0.0;
    assert forall|b: int| amount_out < b implies !quote_fits(
        supply_buy,
        supply_other,
        b,
        precision,
        estimated_cost,
    ) by {
        if quote_fits(supply_buy, supply_other, b, precision, estimated_cost) {
            assert(quote_fits(
                supply_buy,
                supply_other,
                amount_out + 1,
                precision,
                estimated_cost,
            ));
        }
    }
}

} // verus!
