//! Launching a market: seed liquidity goes into the pot and both outcome vaults.
use vstd::prelude::*;

use crate::errors::{FloatingOddsExchangeError, ProgramError};
use crate::events::MarketLaunched;
use crate::state::{Address, Market, MintN, MintY};

verus! {

/// What the launch instruction reads.
#[derive(Clone, Copy, Debug)]
pub struct Launch {
    /// The signer.
    pub authority: Address,
    pub market_address: Address,
    pub market: Market,
    /// The pot mint passed in.
    pub pot_mint: Address,
    /// The YES and NO mints passed in.
    pub mint_y: Address,
    pub mint_n: Address,
    /// The YES and NO mint addresses derived from the market's address.
    pub expected_mint_y: MintY,
    pub expected_mint_n: MintN,
    /// The current slot.
    pub slot: u64,
}

/// Token movements of a launch.
#[derive(Clone, Copy, Debug)]
pub struct LaunchOutput {
    /// Pot tokens moved from the authority into the pot.
    pub pot_deposit: u64,
    /// Outcome tokens minted into each of the YES and NO vaults.
    pub vault_mint: u64,
    pub event: MarketLaunched,
}

/// The market after a launch: the same market, now open.
pub open spec fn launched(market: Market) -> Market {
    Market { is_launched: true, ..market }
}

/// The first rule that the account rules of a launch find broken, if any.
pub open spec fn launch_constraint_error(ctx: Launch) -> Option<ProgramError> {
    if ctx.market.is_launched {
        Some(ProgramError::Exchange(FloatingOddsExchangeError::MarketAlreadyLaunched))
    } else if ctx.authority@ != ctx.market.authority@ {
        Some(ProgramError::Exchange(FloatingOddsExchangeError::UnauthorizedAuthority))
    } else if ctx.pot_mint@ != ctx.market.pot_mint@ {
        Some(ProgramError::Exchange(FloatingOddsExchangeError::InvalidMint))
    } else {
        None
    }
}

/// The first rule that the launch handler finds broken, if any.
pub open spec fn launch_handler_error(ctx: Launch, side_mint_amount: u64, pot_mint_amount: u64) -> Option<
    ProgramError,
> {
    if ctx.mint_y@ != ctx.expected_mint_y.address@ || ctx.mint_n@
        != ctx.expected_mint_n.address@ {
        Some(ProgramError::InvalidSeeds)
    } else if side_mint_amount == 0 || pot_mint_amount == 0 {
        Some(ProgramError::Exchange(FloatingOddsExchangeError::InvalidAmount))
    } else {
        None
    }
}

/// The first rule a launch breaks, if any.
pub open spec fn launch_error(ctx: Launch, side_mint_amount: u64, pot_mint_amount: u64) -> Option<
    ProgramError,
> {
    match launch_constraint_error(ctx) {
        Some(e) => Some(e),
        None => launch_handler_error(ctx, side_mint_amount, pot_mint_amount),
    }
}

impl Launch {
    /// The account rules: not yet launched, signed by the authority, with the market's pot
    /// mint.
    pub fn check_constraints(&self) -> (r: Result<(), ProgramError>)
        ensures
            r == (match launch_constraint_error(*self) {
                Some(e) => Err(e),
                None => Ok(()),
            }),
    {
        if self.market.is_launched {
            return Err(ProgramError::Exchange(FloatingOddsExchangeError::MarketAlreadyLaunched));
        }
        if !self.authority.same_as(&self.market.authority) {
            return Err(ProgramError::Exchange(FloatingOddsExchangeError::UnauthorizedAuthority));
        }
        if !self.pot_mint.same_as(&self.market.pot_mint) {
            return Err(ProgramError::Exchange(FloatingOddsExchangeError::InvalidMint));
        }
        Ok(())
    }

    /// Checks the outcome mints and that both amounts are positive; then asks for
    /// `pot_mint_amount` pot tokens into the pot and `side_mint_amount` outcome tokens
    /// into each vault, and marks the market launched.
    pub fn handler(&mut self, side_mint_amount: u64, pot_mint_amount: u64) -> (r: Result<
        LaunchOutput,
        ProgramError,
    >)
        ensures
            match launch_handler_error(*old(self), side_mint_amount, pot_mint_amount) {
                Some(e) => r == Err::<LaunchOutput, ProgramError>(e) && *final(self) == *old(self),
                None => r == Ok::<LaunchOutput, ProgramError>(
                    LaunchOutput {
                        pot_deposit: pot_mint_amount,
                        vault_mint: side_mint_amount,
                        event: MarketLaunched { market: old(self).market_address, slot: old(self).slot },
                    },
                ) && *final(self) == (Launch { market: launched(old(self).market), ..*old(self) }),
            },
    {
        if !self.mint_y.same_as(&self.expected_mint_y.address) {
            return Err(ProgramError::InvalidSeeds);
        }
        if !self.mint_n.same_as(&self.expected_mint_n.address) {
            return Err(ProgramError::InvalidSeeds);
        }
        if !(side_mint_amount > 0 && pot_mint_amount > 0) {
            return Err(ProgramError::Exchange(FloatingOddsExchangeError::InvalidAmount));
        }
        self.market.is_launched = true;
        Ok(
            LaunchOutput {
                pot_deposit: pot_mint_amount,
                vault_mint: side_mint_amount,
                event: MarketLaunched { market: self.market_address, slot: self.slot },
            },
        )
    }
}

} // verus!
