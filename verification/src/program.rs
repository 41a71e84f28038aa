//! The instructions of the exchange: each checks its account rules, then runs its handler.
use vstd::prelude::*;

use crate::errors::ProgramError;
use crate::instructions::buy::{buy_constraint_error, spec_buy_handler, Buy, BuyOutput};
use crate::instructions::claim::{claim_constraint_error, spec_claim_handler, Claim, ClaimOutput};
use crate::instructions::initialize::{
    initialize_error, initialize_outcome, Initialize, InitializeBumps, InitializeOutput,
};
use crate::instructions::launch::{launch_error, launched, Launch, LaunchOutput};
use crate::instructions::pause::{pause_error, paused, Pause};
use crate::instructions::resolve::{
    resolve_constraint_error, spec_resolve_handler, Resolve, ResolveOutput,
};
use crate::events::{MarketLaunched, MarketPaused};

verus! {

/// Creates a market with its fee rate and the metadata of its outcome tokens.
pub fn initialize(
    ctx: &Initialize,
    bumps: &InitializeBumps,
    seed: u64,
    fee_bps: u16,
    name: &str,
    symbol: &str,
    uri: &str,
) -> (r: Result<InitializeOutput, ProgramError>)
    requires
        initialize_error(*ctx, fee_bps, name, symbol, uri) is None ==> ctx.pot_mint_decimals <= 19,
    ensures
        initialize_outcome(*ctx, *bumps, seed, fee_bps, name, symbol, uri, r),
{
    ctx.handler(bumps, seed, fee_bps, name, symbol, uri)
}

/// Seeds the pot with `amount_n` pot tokens and each outcome vault with `amount_y` outcome
/// tokens, and opens the market.
pub fn launch(ctx: &mut Launch, amount_y: u64, amount_n: u64) -> (r: Result<
    LaunchOutput,
    ProgramError,
>)
    ensures
        match launch_error(*old(ctx), amount_y, amount_n) {
            Some(e) => r == Err::<LaunchOutput, ProgramError>(e) && *final(ctx) == *old(ctx),
            None => r == Ok::<LaunchOutput, ProgramError>(
                LaunchOutput {
                    pot_deposit: amount_n,
                    vault_mint: amount_y,
                    event: MarketLaunched { market: old(ctx).market_address, slot: old(ctx).slot },
                },
            ) && *final(ctx) == (Launch { market: launched(old(ctx).market), ..*old(ctx) }),
        },
{
    ctx.check_constraints()?;
    ctx.handler(amount_y, amount_n)
}

/// Buys one side of the market, exact-in (`exact_in`, spending at most `in_amount`) or
/// exact-out (minting `out_amount`), with a slippage bound on the other leg.
pub fn buy(
    ctx: &Buy,
    in_amount: u64,
    out_amount: u64,
    exact_in: bool,
    amount_with_slippage: u64,
) -> (r: Result<BuyOutput, ProgramError>)
    ensures
        r == (match buy_constraint_error(*ctx) {
            Some(e) => Err(e),
            None => spec_buy_handler(*ctx, in_amount, out_amount, exact_in, amount_with_slippage),
        }),
{
    ctx.check_constraints()?;
    ctx.handler(in_amount, out_amount, exact_in, amount_with_slippage)
}

/// Pays a holder of a settled market out of the pot.
pub fn claim(ctx: &Claim) -> (r: Result<ClaimOutput, ProgramError>)
    ensures
        match claim_constraint_error(*ctx) {
            Some(e) => r == Err::<ClaimOutput, ProgramError>(e),
            None => r == spec_claim_handler(*ctx),
        },
{
    ctx.check_constraints()?;
    ctx.handler()
}

/// Settles the market on the outcome byte `outcome`.
pub fn resolve(ctx: &mut Resolve, outcome: u8) -> (r: Result<ResolveOutput, ProgramError>)
    ensures
        match resolve_constraint_error(*old(ctx)) {
            Some(e) => r == Err::<ResolveOutput, ProgramError>(e) && *final(ctx) == *old(ctx),
            None => match spec_resolve_handler(*old(ctx), outcome) {
                Err(e) => r == Err::<ResolveOutput, ProgramError>(e) && *final(ctx) == *old(ctx),
                Ok((m, out)) => r == Ok::<ResolveOutput, ProgramError>(out) && *final(ctx) == (
                Resolve { market: m, ..*old(ctx) }),
            },
        },
{
    ctx.check_constraints()?;
    ctx.handler(outcome)
}

/// Stops new buys on the market.
pub fn pause(ctx: &mut Pause) -> (r: Result<MarketPaused, ProgramError>)
    ensures
        match pause_error(*old(ctx)) {
            Some(e) => r == Err::<MarketPaused, ProgramError>(e) && *final(ctx) == *old(ctx),
            None => r == Ok::<MarketPaused, ProgramError>(
                MarketPaused { market: old(ctx).market_address, slot: old(ctx).slot },
            ) && *final(ctx) == (Pause { market: paused(old(ctx).market), ..*old(ctx) }),
        },
{
    ctx.check_constraints()?;
    ctx.handler()
}

} // verus!
