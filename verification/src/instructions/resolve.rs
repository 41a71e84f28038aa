//! Settling a market: the vaults' inventory is burned and, unless refunded, a fee is taken
//! from the pot.
use vstd::prelude::*;

use crate::errors::{FloatingOddsExchangeError, ProgramError};
use crate::events::MarketResolved;
use crate::math::{fee_from_pot, spec_fee_from_pot};
use crate::state::{parse_outcome, Address, Market, Outcome};

verus! {

/// What the resolve instruction reads.
#[derive(Clone, Copy, Debug)]
pub struct Resolve {
    /// The signer.
    pub authority: Address,
    pub market_address: Address,
    pub market: Market,
    /// The pot mint passed in.
    pub pot_mint: Address,
    /// Pot tokens held by the market.
    pub pot_amount: u64,
    /// Outcome tokens left in the market's YES and NO vaults.
    pub vault_y_amount: u64,
    pub vault_n_amount: u64,
    /// The current slot.
    pub slot: u64,
}

/// Token movements of a settlement.
#[derive(Clone, Copy, Debug)]
pub struct ResolveOutput {
    /// YES tokens burned from the YES vault, which is then closed.
    pub burn_y: u64,
    /// NO tokens burned from the NO vault, which is then closed.
    pub burn_n: u64,
    /// Pot tokens paid to the payout account as the protocol fee; none on a refund.
    pub fee: Option<u64>,
    pub event: MarketResolved,
}

/// The first rule that the account rules of a settlement find broken, if any.
pub open spec fn resolve_constraint_error(ctx: Resolve) -> Option<ProgramError> {
    if !ctx.market.is_launched {
        Some(ProgramError::Exchange(FloatingOddsExchangeError::MarketNotLaunched))
    } else if !ctx.market.is_undecided() {
        Some(ProgramError::Exchange(FloatingOddsExchangeError::MarketAlreadyResolved))
    } else if ctx.authority@ != ctx.market.authority@ {
        Some(ProgramError::Exchange(FloatingOddsExchangeError::UnauthorizedAuthority))
    } else if ctx.pot_mint@ != ctx.market.pot_mint@ {
        Some(ProgramError::Exchange(FloatingOddsExchangeError::InvalidMint))
    } else {
        None
    }
}

/// What the resolve handler decides for the outcome byte `outcome`: the settled market and
/// the token movements, or the first rule broken.
pub open spec fn spec_resolve_handler(ctx: Resolve, outcome: u8) -> Result<
    (Market, ResolveOutput),
    ProgramError,
> {
    match Outcome::from_byte(outcome) {
        Err(e) => Err(e),
        Ok(o) => if o == Outcome::Undecided {
            Err(ProgramError::Exchange(FloatingOddsExchangeError::MarketIsAlreadyUndecided))
        } else {
            let fee: Result<Option<u64>, ProgramError> = if o == Outcome::Refunded {
                Ok(None)
            } else {
                match spec_fee_from_pot(ctx.pot_amount, ctx.market.fee_bps) {
                    Ok(f) => Ok(Some(f)),
                    Err(e) => Err(e),
                }
            };
            match fee {
                Err(e) => Err(e),
                Ok(fee) => Ok(
                    (
                        Market { outcome: o.byte(), ..ctx.market },
                        ResolveOutput {
                            burn_y: ctx.vault_y_amount,
                            burn_n: ctx.vault_n_amount,
                            fee,
                            event: MarketResolved { market: ctx.market_address, slot: ctx.slot },
                        },
                    ),
                ),
            }
        },
    }
}

impl Resolve {
    /// The account rules: launched, not yet settled, signed by the authority, with the
    /// market's pot mint.
    pub fn check_constraints(&self) -> (r: Result<(), ProgramError>)
        ensures
            r == (match resolve_constraint_error(*self) {
                Some(e) => Err(e),
                None => Ok(()),
            }),
    {
        if !self.market.is_launched {
            return Err(ProgramError::Exchange(FloatingOddsExchangeError::MarketNotLaunched));
        }
        if self.market.outcome != u8::from(Outcome::Undecided) {
            return Err(ProgramError::Exchange(FloatingOddsExchangeError::MarketAlreadyResolved));
        }
        if !self.authority.same_as(&self.market.authority) {
            return Err(ProgramError::Exchange(FloatingOddsExchangeError::UnauthorizedAuthority));
        }
        if !self.pot_mint.same_as(&self.market.pot_mint) {
            return Err(ProgramError::Exchange(FloatingOddsExchangeError::InvalidMint));
        }
        Ok(())
    }

    /// Parses the outcome, which must be `Yes`, `No` or `Refunded`; sets it on the market;
    /// burns both vaults' inventory; and, unless refunded, takes
    /// `ceil(pot * fee_bps / 10 000)` from the pot as the fee.
    pub fn handler(&mut self, outcome: u8) -> (r: Result<ResolveOutput, ProgramError>)
        ensures
            match spec_resolve_handler(*old(self), outcome) {
                Err(e) => r == Err::<ResolveOutput, ProgramError>(e) && *final(self) == *old(self),
                Ok((m, out)) => r == Ok::<ResolveOutput, ProgramError>(out) && *final(self) == (
                Resolve { market: m, ..*old(self) }),
            },
    {
        let outcome = parse_outcome(outcome)?;
        if outcome == Outcome::Undecided {
            return Err(ProgramError::Exchange(FloatingOddsExchangeError::MarketIsAlreadyUndecided));
        }
        let fee = if outcome != Outcome::Refunded {
            Some(fee_from_pot(self.pot_amount, self.market.fee_bps)?)
        } else {
            None
        };
        self.market.outcome = u8::from(outcome);
        Ok(
            ResolveOutput {
                burn_y: self.vault_y_amount,
                burn_n: self.vault_n_amount,
                fee,
                event: MarketResolved { market: self.market_address, slot: self.slot },
            },
        )
    }
}

} // verus!
