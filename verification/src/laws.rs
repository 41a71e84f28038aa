//! Properties that hold across the instructions and across repeated calls.
use vstd::prelude::*;

use crate::errors::{FloatingOddsExchangeError, ProgramError};
use crate::instructions::buy::{
    bet_event, buy_constraint_error, spec_buy_handler, spec_mint_pair, Buy, BuyOutput,
};
use crate::instructions::claim::{claim_constraint_error, spec_claim_handler, Claim};
use crate::instructions::initialize::{initialize_error, new_market, Initialize, InitializeBumps};
use crate::instructions::launch::{launch_constraint_error, launch_error, launched, Launch};
use crate::instructions::pause::{pause_error, paused, Pause};
use crate::instructions::resolve::{resolve_constraint_error, spec_resolve_handler, Resolve};
use crate::fixed::{fp_ceiling, fp_mul, fp_new, fp_one, fp_sub, natural_log};
use crate::math::{
    lemma_cost_bound, lemma_exact_input_outcome, lemma_rounded_cost_fits, quote_fits,
    spec_claims_from_pot, spec_cost_from_log, spec_fee_from_pot, spec_quote_exact_input,
    spec_quote_exact_output,
};
use crate::state::{Market, Outcome};

verus! {

/// A market is written well formed: undecided, closed, unpaused, with its fee rate.
pub proof fn law_initialize_makes_wf_market(
    ctx: Initialize,
    bumps: InitializeBumps,
    seed: u64,
    fee_bps: u16,
    name: &str,
    symbol: &str,
    uri: &str,
)
    requires
        initialize_error(ctx, fee_bps, name, symbol, uri) is None,
    ensures
        new_market(ctx, bumps, seed, fee_bps).wf(),
        new_market(ctx, bumps, seed, fee_bps).is_undecided(),
        !new_market(ctx, bumps, seed, fee_bps).is_launched,
        !new_market(ctx, bumps, seed, fee_bps).is_paused,
{
}

/// A successful launch keeps the market well formed, and it opens the market only once:
/// launching the launched market again fails with `MarketAlreadyLaunched`.
pub proof fn law_launch_once(ctx: Launch, amount_y: u64, amount_n: u64, again: Launch)
    requires
        ctx.market.wf(),
        launch_error(ctx, amount_y, amount_n) is None,
        again.market == launched(ctx.market),
    ensures
        launched(ctx.market).wf(),
        launch_constraint_error(again) == Some(
            ProgramError::Exchange(FloatingOddsExchangeError::MarketAlreadyLaunched),
        ),
{
}

/// A successful pause keeps the market well formed and launched, and from then on every
/// buy on it fails with `MarketPaused`.
pub proof fn law_pause_blocks_buys(ctx: Pause, buy: Buy)
    requires
        ctx.market.wf(),
        pause_error(ctx) is None,
        buy.market == paused(ctx.market),
    ensures
        paused(ctx.market).wf(),
        paused(ctx.market).is_launched,
        buy_constraint_error(buy) == Some(
            ProgramError::Exchange(FloatingOddsExchangeError::MarketPaused),
        ),
{
}

/// Pausing does not block claims: a claim decides the same on a paused market as on the
/// same market unpaused.
pub proof fn law_claims_ignore_pause(ctx: Claim, is_paused: bool)
    ensures
        ({
            let other = Claim { market: Market { is_paused, ..ctx.market }, ..ctx };
            &&& claim_constraint_error(other) == claim_constraint_error(ctx)
            &&& spec_claim_handler(other) == spec_claim_handler(ctx)
        }),
{
}

/// A settlement is final. After a successful resolve the market carries the chosen outcome
/// (`Yes`, `No` or `Refunded`) and every other field is unchanged, so it stays well formed;
/// buying fails (with `MarketPaused` if it was paused, else `MarketAlreadyResolved`);
/// pausing fails (with `UnauthorizedAuthority` for another signer, else
/// `MarketAlreadyResolved`); resolving again fails with `MarketAlreadyResolved`; and claims
/// pass the account rules whenever the market's pot mint is passed.
pub proof fn law_resolve_is_final(
    ctx: Resolve,
    outcome: u8,
    buy: Buy,
    pause: Pause,
    again: Resolve,
    claim: Claim,
)
    requires
        resolve_constraint_error(ctx) is None,
        spec_resolve_handler(ctx, outcome) is Ok,
        buy.market == spec_resolve_handler(ctx, outcome)->Ok_0.0,
        pause.market == spec_resolve_handler(ctx, outcome)->Ok_0.0,
        again.market == spec_resolve_handler(ctx, outcome)->Ok_0.0,
        claim.market == spec_resolve_handler(ctx, outcome)->Ok_0.0,
    ensures
        ({
            let m = spec_resolve_handler(ctx, outcome)->Ok_0.0;
            &&& m == (Market { outcome, ..ctx.market })
            &&& outcome == Outcome::Yes.byte() || outcome == Outcome::No.byte() || outcome
                == Outcome::Refunded.byte()
            &&& m.is_launched
            &&& ctx.market.wf() ==> m.wf()
        }),
        buy_constraint_error(buy) == Some(
            ProgramError::Exchange(
                if ctx.market.is_paused {
                    FloatingOddsExchangeError::MarketPaused
                } else {
                    FloatingOddsExchangeError::MarketAlreadyResolved
                },
            ),
        ),
        pause_error(pause) == Some(
            ProgramError::Exchange(
                if pause.authority@ != pause.market.authority@ {
                    FloatingOddsExchangeError::UnauthorizedAuthority
                } else {
                    FloatingOddsExchangeError::MarketAlreadyResolved
                },
            ),
        ),
        resolve_constraint_error(again) == Some(
            ProgramError::Exchange(FloatingOddsExchangeError::MarketAlreadyResolved),
        ),
        claim.pot_mint@ == claim.market.pot_mint@ ==> claim_constraint_error(claim) is None,
{
}

/// A refund takes no fee; a `Yes` or `No` settlement of a well-formed market takes
/// `ceil(pot * fee_bps / 10 000)`, which is at most the pot.
pub proof fn law_settlement_fee(ctx: Resolve, outcome: u8)
    requires
        ctx.market.wf(),
        spec_resolve_handler(ctx, outcome) is Ok,
    ensures
        outcome == Outcome::Refunded.byte() ==> spec_resolve_handler(ctx, outcome)->Ok_0.1.fee
            is None,
        outcome != Outcome::Refunded.byte() ==> {
            let fee = spec_resolve_handler(ctx, outcome)->Ok_0.1.fee;
            &&& fee == Some(
                ((ctx.pot_amount * ctx.market.fee_bps + 9999) / 10000) as u64,
            )
            &&& fee->0 <= ctx.pot_amount
        },
{
    if outcome != Outcome::Refunded.byte() {
        crate::math::lemma_fee_at_most_pot(ctx.pot_amount as int, ctx.market.fee_bps as int);
    }
}

/// A successful buy respects its slippage bound, and an exact-in buy costs exactly what
/// an exact-out buy of the same amount would: at most the budget, and at most the bound.
pub proof fn law_buy_within_bounds(
    ctx: Buy,
    in_amount: u64,
    out_amount: u64,
    exact_in: bool,
    amount_with_slippage: u64,
)
    requires
        spec_buy_handler(ctx, in_amount, out_amount, exact_in, amount_with_slippage) is Ok,
    ensures
        ({
            let out = spec_buy_handler(
                ctx,
                in_amount,
                out_amount,
                exact_in,
                amount_with_slippage,
            )->Ok_0;
            &&& spec_mint_pair(ctx.mint_y.address, ctx.mint_n.address, ctx.buy_mint, ctx.other_mint)
                is Ok
            &&& spec_quote_exact_output(
                ctx.buy_mint_supply,
                ctx.other_mint_supply,
                out.out_amount,
                ctx.market.precision,
            ) == Ok::<u64, ProgramError>(out.in_amount)
            &&& exact_in ==> out.out_amount >= amount_with_slippage && out.in_amount <= in_amount
            &&& !exact_in ==> out.out_amount == out_amount && out.in_amount <= amount_with_slippage
        }),
{
    lemma_exact_input_outcome(
        ctx.buy_mint_supply,
        ctx.other_mint_supply,
        in_amount,
        ctx.market.precision,
    );
}

/// The price depends only on the two supplies, not on which side is YES: buying NO with
/// its supply `a` against the YES supply `b` decides the same as buying YES with its supply
/// `a` against the NO supply `b`: the same amounts, the same event, the same errors.
pub proof fn law_buy_symmetric(
    yes: Buy,
    no: Buy,
    in_amount: u64,
    out_amount: u64,
    exact_in: bool,
    amount_with_slippage: u64,
)
    requires
        yes.buy_mint@ == yes.mint_y.address@,
        yes.other_mint@ == yes.mint_n.address@,
        no.buy_mint@ == no.mint_n.address@,
        no.other_mint@ == no.mint_y.address@,
        no.buy_mint_supply == yes.buy_mint_supply,
        no.other_mint_supply == yes.other_mint_supply,
        no.market.precision == yes.market.precision,
        no.buyer == yes.buyer,
        no.market_address == yes.market_address,
        no.slot == yes.slot,
    ensures
        spec_buy_handler(yes, in_amount, out_amount, exact_in, amount_with_slippage)
            == spec_buy_handler(no, in_amount, out_amount, exact_in, amount_with_slippage),
{
}

/// A holder of at most the supply is paid at most the pot.
pub proof fn law_claim_within_pot(mint_amount: u64, mint_supply: u64, pot_amount: u64)
    requires
        0 < mint_amount <= mint_supply,
    ensures
        spec_claims_from_pot(mint_amount, mint_supply, pot_amount) is Ok,
        spec_claims_from_pot(mint_amount, mint_supply, pot_amount)->Ok_0 <= pot_amount,
{
    crate::math::lemma_share_at_most_whole(
        pot_amount as int,
        mint_amount as int,
        mint_supply as int,
    );
}

/// A claim never lowers what the remaining holders are paid. After a holder of
/// `claimed` tokens out of `supply` takes `floor(pot * claimed / supply)`, a holder of
/// `held` of the `supply - claimed` tokens left is paid at least what it would have been
/// paid before, `floor(pot * held / supply)`. So claims made one after the other never
/// exceed the pot.
pub proof fn law_claim_keeps_later_shares(pot: u64, claimed: u64, held: u64, supply: u64)
    requires
        0 < claimed,
        0 < held,
        claimed + held <= supply,
    ensures
        spec_claims_from_pot(claimed, supply, pot) is Ok,
        ({
            let paid = spec_claims_from_pot(claimed, supply, pot)->Ok_0;
            let pot_left = (pot - paid) as u64;
            let supply_left = (supply - claimed) as u64;
            &&& paid <= pot
            &&& spec_claims_from_pot(held, supply, pot) is Ok
            &&& spec_claims_from_pot(held, supply_left, pot_left) is Ok
            &&& spec_claims_from_pot(held, supply, pot)->Ok_0 <= spec_claims_from_pot(
                held,
                supply_left,
                pot_left,
            )->Ok_0
        }),
{
    let p = pot as int;
    let a = claimed as int;
    let b = held as int;
    let s = supply as int;
    crate::math::lemma_share_at_most_whole(p, a, s);
    crate::math::lemma_share_at_most_whole(p, b, s);
    let c = p * a / s;
    let p2 = p - c;
    let s2 = s - a;
    assert(0 <= p2);
    crate::math::lemma_share_at_most_whole(p2, b, s2);
    lemma_later_share(p, a, b, s);
}

/// The arithmetic of [`law_claim_keeps_later_shares`].
proof fn lemma_later_share(p: int, a: int, b: int, s: int)
    requires
        0 <= p,
        0 < a,
        0 < b,
        a + b <= s,
    ensures
        p * b / s <= (p - p * a / s) * b / (s - a),
{
    let c = p * a / s;
    let p2 = p - c;
    let s2 = s - a;
    vstd::arithmetic::div_mod::lemma_fundamental_div_mod(p * a, s);
    vstd::arithmetic::div_mod::lemma_mod_pos_bound(p * a, s);
    assert(c * s <= p * a) by (nonlinear_arith)
        requires
            p * a == s * c + (p * a) % s,
            0 <= (p * a) % s,
    ;
    assert(p * s2 <= p2 * s) by (nonlinear_arith)
        requires
            c * s <= p * a,
            p2 == p - c,
            s2 == s - a,
    ;
    let x = p * b;
    let y = p2 * b;
    assert(x * s2 <= y * s) by (nonlinear_arith)
        requires
            p * s2 <= p2 * s,
            x == p * b,
            y == p2 * b,
            0 < b,
    ;
    let q = x / s;
    vstd::arithmetic::div_mod::lemma_fundamental_div_mod(x, s);
    vstd::arithmetic::div_mod::lemma_mod_pos_bound(x, s);
    assert(q * s <= x) by (nonlinear_arith)
        requires
            x == s * q + x % s,
            0 <= x % s,
    ;
    assert(q * s2 * s <= y * s) by (nonlinear_arith)
        requires
            q * s <= x,
            x * s2 <= y * s,
            0 < s2,
    ;
    assert(q * s2 <= y) by (nonlinear_arith)
        requires
            q * s2 * s <= y * s,
            0 < s,
    ;
    assert(0 <= q) by (nonlinear_arith)
        requires
            q == x / s,
            0 <= x,
            0 < s,
    ;
    vstd::arithmetic::div_mod::lemma_div_is_ordered(q * s2, y, s2);
    vstd::arithmetic::div_mod::lemma_div_by_multiple(q, s2);
}

/// Reading an outcome's byte back gives the outcome; a byte that reads as an outcome is
/// that outcome's byte.
pub proof fn law_outcome_byte_round_trip(outcome: Outcome, value: u8)
    ensures
        Outcome::from_byte(outcome.byte()) == Ok::<Outcome, ProgramError>(outcome),
        Outcome::from_byte(value) is Ok ==> Outcome::from_byte(value)->Ok_0.byte() == value,
        Outcome::from_byte(value) is Ok <==> value <= 3,
{
}

/// The fee is nothing at a rate of 0 and the whole pot at a rate of 10 000.
pub proof fn law_fee_extremes(pot_amount: u64)
    ensures
        spec_fee_from_pot(pot_amount, 0) == Ok::<u64, ProgramError>(0),
        spec_fee_from_pot(pot_amount, 10000) == Ok::<u64, ProgramError>(pot_amount),
{
    vstd::arithmetic::div_mod::lemma_div_multiples_vanish_fancy(pot_amount as int, 9999, 10000);
    vstd::arithmetic::div_mod::lemma_div_multiples_vanish_fancy(0, 9999, 10000);
}


/// The price is at most 1: a quote never charges more than `precision` per unit.
pub proof fn law_unit_costs_at_most_precision(
    supply_buy: u64,
    supply_other: u64,
    amount: u64,
    precision: u64,
)
    requires
        spec_quote_exact_output(supply_buy, supply_other, amount, precision) is Ok,
    ensures
        spec_quote_exact_output(supply_buy, supply_other, amount, precision)->Ok_0 <= amount
            * precision,
{
    if amount != 0 && supply_other != 0 {
        let total_before = supply_buy + supply_other;
        let total_after = total_before + amount;
        let ratio = crate::fixed::fp_div(fp_new(total_after), fp_new(total_before))->0;
        let ln = natural_log(ratio as nat)->0;
        lemma_cost_from_log_bound(supply_other, amount, precision, ln.0, ln.1 as int);
    }
}

/// A fixed-point product of non-negative numbers is not negative.
proof fn lemma_fp_mul_nonneg(a: int, b: int)
    requires
        0 <= a,
        0 <= b,
    ensures
        fp_mul(a, b) matches Some(p) ==> 0 <= p,
{
    let one = fp_one();
    assert(0 <= a * b) by (nonlinear_arith)
        requires
            0 <= a,
            0 <= b,
    ;
    vstd::arithmetic::div_mod::lemma_div_pos_is_pos(a * b + one / 2, one);
    vstd::arithmetic::div_mod::lemma_div_pos_is_pos(a, one);
    vstd::arithmetic::div_mod::lemma_div_pos_is_pos(b, one);
    assert(0 <= a / one * b) by (nonlinear_arith)
        requires
            0 <= a / one,
            0 <= b,
    ;
    assert(0 <= b / one * a) by (nonlinear_arith)
        requires
            0 <= b / one,
            0 <= a,
    ;
}

/// A cost computed from a logarithm is at most `amount * precision`.
proof fn lemma_cost_from_log_bound(
    supply_other: u64,
    amount: u64,
    precision: u64,
    ln_negative: bool,
    ln_raw: int,
)
    requires
        0 <= ln_raw,
        spec_cost_from_log(supply_other, amount, precision, ln_negative, ln_raw) is Ok,
    ensures
        spec_cost_from_log(supply_other, amount, precision, ln_negative, ln_raw)->Ok_0 <= amount
            * precision,
{
    let ln_term = fp_mul(fp_new(supply_other as int), ln_raw)->0;
    let integral = fp_sub(fp_new(amount as int), ln_term)->0;
    let cost_fp = fp_mul(integral, fp_new(precision as int))->0;
    let rounded = fp_ceiling(cost_fp)->0;
    lemma_fp_mul_nonneg(fp_new(supply_other as int), ln_raw);
    lemma_cost_bound(amount as int, precision as int, integral, cost_fp);
    lemma_rounded_cost_fits(amount as int, precision as int, cost_fp, rounded);
}


/// A claim keeps the pot per outstanding winning token from falling. A claimer holding `a`
/// of the `supply` outstanding winning tokens is paid `w = floor(pot * a / supply)`: at most
/// the pot, with `(pot - w) * supply >= pot * (supply - a)`, and the last holder
/// (`a == supply`) is paid the whole pot.
pub proof fn law_claim_conserves_pot(a: u64, supply: u64, pot: u64)
    requires
        0 < a <= supply,
    ensures
        spec_claims_from_pot(a, supply, pot) is Ok,
        ({
            let w = spec_claims_from_pot(a, supply, pot)->Ok_0;
            &&& w <= pot
            &&& (pot - w) * supply >= pot * (supply - a)
            &&& a == supply ==> w == pot
        }),
{
    let p = pot as int;
    let s = supply as int;
    let x = p * a;
    crate::math::lemma_share_at_most_whole(p, a as int, s);
    let w = x / s;
    vstd::arithmetic::div_mod::lemma_fundamental_div_mod(x, s);
    vstd::arithmetic::div_mod::lemma_mod_pos_bound(x, s);
    assert(w * s <= x) by (nonlinear_arith)
        requires
            x == s * w + x % s,
            0 <= x % s,
    ;
    assert((p - w) * s >= p * (s - a)) by (nonlinear_arith)
        requires
            w * s <= x,
            x == p * a,
    ;
    if a == supply {
        vstd::arithmetic::div_mod::lemma_div_by_multiple(p, s);
    }
}

/// Claims over a claim context in which the claimer holds no more than the supply: when the
/// claim pays out, it pays at most the pot, and what stays in the pot per winning token
/// still outstanding is no less than before (`(pot - paid) * supply >= pot * (supply -
/// held)`), where the winning supply and holding are those of the settled side (both sides
/// together after a refund).
pub proof fn law_claim_handler_conserves_pot(ctx: Claim)
    requires
        ctx.holdings_within_supply(),
        claim_constraint_error(ctx) is None,
        spec_claim_handler(ctx) is Ok,
    ensures
        ({
            let outcome = Outcome::from_byte(ctx.market.outcome)->Ok_0;
            let supply = ctx.winning_supply(outcome);
            let held = ctx.winning_held(outcome);
            let paid = spec_claim_handler(ctx)->Ok_0.amount;
            &&& 0 < held <= supply
            &&& paid <= ctx.pot_amount
            &&& (ctx.pot_amount - paid) * supply >= ctx.pot_amount * (supply - held)
            &&& held == supply ==> paid == ctx.pot_amount
        }),
{
    let outcome = Outcome::from_byte(ctx.market.outcome)->Ok_0;
    let supply = ctx.winning_supply(outcome);
    let held = ctx.winning_held(outcome);
    law_claim_conserves_pot(held as u64, supply as u64, ctx.pot_amount);
}

/// After a refund every holder is paid back pro rata, whichever outcome accounts it
/// passes: an absent account counts as holding nothing and is never an error. With the
/// market's mints, a claimer holding `y` YES and `n` NO tokens (each at most its supply,
/// `y + n > 0`) is paid `floor(pot * (y + n) / (supply_y + supply_n))`, and each passed
/// account is burned in full.
pub proof fn law_refund_pays_both_sides(ctx: Claim)
    requires
        ctx.market.outcome == Outcome::Refunded.byte(),
        ctx.pot_mint@ == ctx.market.pot_mint@,
        ctx.mint_y@ == ctx.expected_mint_y.address@,
        ctx.mint_n@ == ctx.expected_mint_n.address@,
        ctx.holdings_within_supply(),
        ctx.mint_y_supply + ctx.mint_n_supply <= u64::MAX,
        (ctx.claimer_mint_y_token_account is Some && ctx.claimer_mint_y_token_account->0 > 0)
            || (ctx.claimer_mint_n_token_account is Some && ctx.claimer_mint_n_token_account->0
            > 0),
    ensures
        claim_constraint_error(ctx) is None,
        spec_claim_handler(ctx) is Ok,
        ({
            let out = spec_claim_handler(ctx)->Ok_0;
            let y: int = match ctx.claimer_mint_y_token_account {
                Some(a) => a as int,
                None => 0,
            };
            let n: int = match ctx.claimer_mint_n_token_account {
                Some(a) => a as int,
                None => 0,
            };
            &&& out.amount == ctx.pot_amount * (y + n) / (ctx.mint_y_supply + ctx.mint_n_supply)
            &&& out.amount <= ctx.pot_amount
            &&& out.burn_y == ctx.claimer_mint_y_token_account
            &&& out.burn_n == ctx.claimer_mint_n_token_account
            &&& out.event.amount == out.amount
        }),
{
    let y: int = crate::instructions::claim::held(ctx.claimer_mint_y_token_account) as int;
    let n: int = crate::instructions::claim::held(ctx.claimer_mint_n_token_account) as int;
    crate::math::lemma_share_at_most_whole(
        ctx.pot_amount as int,
        y + n,
        ctx.mint_y_supply + ctx.mint_n_supply,
    );
}

/// After a `Yes` (or `No`) settlement a holder of `a` winning tokens (`0 < a <= supply`)
/// who passes the winning account is paid `floor(pot * a / supply)` of the winning
/// supply, whether or not it passes an account of the losing side.
pub proof fn law_winner_paid_pro_rata(ctx: Claim)
    requires
        ctx.market.outcome == Outcome::Yes.byte() || ctx.market.outcome == Outcome::No.byte(),
        ctx.pot_mint@ == ctx.market.pot_mint@,
        ctx.mint_y@ == ctx.expected_mint_y.address@,
        ctx.mint_n@ == ctx.expected_mint_n.address@,
        ctx.market.outcome == Outcome::Yes.byte() ==> ctx.claimer_mint_y_token_account is Some
            && 0 < ctx.claimer_mint_y_token_account->0 <= ctx.mint_y_supply,
        ctx.market.outcome == Outcome::No.byte() ==> ctx.claimer_mint_n_token_account is Some
            && 0 < ctx.claimer_mint_n_token_account->0 <= ctx.mint_n_supply,
    ensures
        claim_constraint_error(ctx) is None,
        spec_claim_handler(ctx) is Ok,
        ({
            let out = spec_claim_handler(ctx)->Ok_0;
            let yes = ctx.market.outcome == Outcome::Yes.byte();
            let a: int = if yes {
                ctx.claimer_mint_y_token_account->0 as int
            } else {
                ctx.claimer_mint_n_token_account->0 as int
            };
            let supply: int = if yes {
                ctx.mint_y_supply as int
            } else {
                ctx.mint_n_supply as int
            };
            &&& out.amount == ctx.pot_amount * a / supply
            &&& out.amount <= ctx.pot_amount
            &&& out.burn_y == ctx.claimer_mint_y_token_account
            &&& out.burn_n == ctx.claimer_mint_n_token_account
        }),
{
    if ctx.market.outcome == Outcome::Yes.byte() {
        crate::math::lemma_share_at_most_whole(
            ctx.pot_amount as int,
            ctx.claimer_mint_y_token_account->0 as int,
            ctx.mint_y_supply as int,
        );
    } else {
        crate::math::lemma_share_at_most_whole(
            ctx.pot_amount as int,
            ctx.claimer_mint_n_token_account->0 as int,
            ctx.mint_n_supply as int,
        );
    }
}

/// An exact-in purchase with a valid mint pair, whose budget buys at least one token,
/// always gets a quote `(q, c)` and is refused only for slippage: it mints `q` for `c`
/// when `q` meets the minimum `amount_with_slippage`, and fails with `SlippageExceeded`
/// otherwise; a minimum of 0 therefore never refuses it.
pub proof fn law_exact_in_buy_succeeds(
    ctx: Buy,
    in_amount: u64,
    out_amount: u64,
    amount_with_slippage: u64,
)
    requires
        spec_mint_pair(ctx.mint_y.address, ctx.mint_n.address, ctx.buy_mint, ctx.other_mint) is Ok,
        in_amount > 0,
        quote_fits(
            ctx.buy_mint_supply,
            ctx.other_mint_supply,
            1,
            ctx.market.precision,
            in_amount,
        ),
    ensures
        spec_quote_exact_input(
            ctx.buy_mint_supply,
            ctx.other_mint_supply,
            in_amount,
            ctx.market.precision,
        ) is Ok,
        ({
            let (q, c) = spec_quote_exact_input(
                ctx.buy_mint_supply,
                ctx.other_mint_supply,
                in_amount,
                ctx.market.precision,
            )->Ok_0;
            spec_buy_handler(ctx, in_amount, out_amount, true, amount_with_slippage) == if q
                >= amount_with_slippage {
                Ok::<BuyOutput, ProgramError>(
                    BuyOutput { in_amount: c, out_amount: q, event: bet_event(ctx, c, q) },
                )
            } else {
                Err::<BuyOutput, ProgramError>(
                    ProgramError::Exchange(FloatingOddsExchangeError::SlippageExceeded),
                )
            }
        }),
        amount_with_slippage == 0 ==> spec_buy_handler(ctx, in_amount, out_amount, true, 0) is Ok,
{
    lemma_exact_input_outcome(
        ctx.buy_mint_supply,
        ctx.other_mint_supply,
        in_amount,
        ctx.market.precision,
    );
}

/// A successful exact-in purchase buys as much as the whole budget `in_amount` allows: it
/// mints `q >= 1` tokens, charging exactly the exact-out quote of `q`, which is at most
/// `in_amount`; and unless `q` is the largest `u64`, the exact-out quote of `q + 1` tokens
/// fails or exceeds `in_amount`.
pub proof fn law_exact_in_buy_uses_budget(
    ctx: Buy,
    in_amount: u64,
    out_amount: u64,
    amount_with_slippage: u64,
)
    requires
        spec_buy_handler(ctx, in_amount, out_amount, true, amount_with_slippage) is Ok,
    ensures
        ({
            let out = spec_buy_handler(ctx, in_amount, out_amount, true, amount_with_slippage)->Ok_0;
            let sb = ctx.buy_mint_supply;
            let so = ctx.other_mint_supply;
            let p = ctx.market.precision;
            &&& 1 <= out.out_amount
            &&& amount_with_slippage <= out.out_amount
            &&& spec_quote_exact_output(sb, so, out.out_amount, p) == Ok::<u64, ProgramError>(
                out.in_amount,
            )
            &&& out.in_amount <= in_amount
            &&& out.out_amount < u64::MAX ==> match spec_quote_exact_output(
                sb,
                so,
                (out.out_amount + 1) as u64,
                p,
            ) {
                Ok(cost) => cost > in_amount,
                Err(_) => true,
            }
            &&& out.event == bet_event(ctx, out.in_amount, out.out_amount)
        }),
{
    lemma_exact_input_outcome(
        ctx.buy_mint_supply,
        ctx.other_mint_supply,
        in_amount,
        ctx.market.precision,
    );
}

/// Settling a launched, undecided, well-formed market by its authority, with its pot mint,
/// to `Yes`, `No` or `Refunded` always succeeds: the market takes the outcome, both vaults
/// are burned in full, a refund takes no fee, and `Yes` or `No` takes
/// `ceil(pot * fee_bps / 10 000)`, a fee of 0 included.
pub proof fn law_resolve_succeeds(ctx: Resolve, outcome: u8)
    requires
        ctx.market.wf(),
        resolve_constraint_error(ctx) is None,
        outcome == Outcome::Yes.byte() || outcome == Outcome::No.byte() || outcome
            == Outcome::Refunded.byte(),
    ensures
        spec_resolve_handler(ctx, outcome) is Ok,
        ({
            let (m, out) = spec_resolve_handler(ctx, outcome)->Ok_0;
            &&& m == (Market { outcome, ..ctx.market })
            &&& out.burn_y == ctx.vault_y_amount
            &&& out.burn_n == ctx.vault_n_amount
            &&& outcome == Outcome::Refunded.byte() ==> out.fee is None
            &&& outcome != Outcome::Refunded.byte() ==> out.fee == Some(
                ((ctx.pot_amount * ctx.market.fee_bps + 9999) / 10000) as u64,
            )
            &&& ctx.market.fee_bps == 0 && outcome != Outcome::Refunded.byte() ==> out.fee == Some(
                0u64,
            )
        }),
{
    crate::math::lemma_fee_at_most_pot(ctx.pot_amount as int, ctx.market.fee_bps as int);
    if ctx.market.fee_bps == 0 {
        assert(ctx.pot_amount * ctx.market.fee_bps == 0) by (nonlinear_arith)
            requires
                ctx.market.fee_bps == 0,
        ;
    }
}

} // verus!
