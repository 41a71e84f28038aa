//! Pausing a market: new buys stop, claims stay open.
use vstd::prelude::*;

use crate::errors::{FloatingOddsExchangeError, ProgramError};
use crate::events::MarketPaused;
use crate::state::{Address, Market, Outcome};

verus! {

/// What the pause instruction reads: the signing authority and the market account.
#[derive(Clone, Copy, Debug)]
pub struct Pause {
    pub authority: Address,
    pub market_address: Address,
    pub market: Market,
    /// The current slot.
    pub slot: u64,
}

/// The market after a pause: the same market with new buys stopped.
pub open spec fn paused(market: Market) -> Market {
    Market { is_paused: true, ..market }
}

/// The first rule a pause breaks, if any.
pub open spec fn pause_error(ctx: Pause) -> Option<ProgramError> {
    if !ctx.market.is_launched {
        Some(ProgramError::Exchange(FloatingOddsExchangeError::MarketNotLaunched))
    } else if ctx.authority@ != ctx.market.authority@ {
        Some(ProgramError::Exchange(FloatingOddsExchangeError::UnauthorizedAuthority))
    } else if !ctx.market.is_undecided() {
        Some(ProgramError::Exchange(FloatingOddsExchangeError::MarketAlreadyResolved))
    } else {
        None
    }
}

impl Pause {
    /// The account rules: the market is launched and the signer is its authority.
    pub fn check_constraints(&self) -> (r: Result<(), ProgramError>)
        ensures
            r == (if !self.market.is_launched {
                Err(ProgramError::Exchange(FloatingOddsExchangeError::MarketNotLaunched))
            } else if self.authority@ != self.market.authority@ {
                Err(ProgramError::Exchange(FloatingOddsExchangeError::UnauthorizedAuthority))
            } else {
                Ok(())
            }),
    {
        if !self.market.is_launched {
            return Err(ProgramError::Exchange(FloatingOddsExchangeError::MarketNotLaunched));
        }
        if !self.authority.same_as(&self.market.authority) {
            return Err(ProgramError::Exchange(FloatingOddsExchangeError::UnauthorizedAuthority));
        }
        Ok(())
    }

    /// Rejects a settled market, then sets the market as paused.
    pub fn handler(&mut self) -> (r: Result<MarketPaused, ProgramError>)
        ensures
            old(self).market.is_undecided() ==> r == Ok::<MarketPaused, ProgramError>(
                MarketPaused { market: old(self).market_address, slot: old(self).slot },
            ) && *final(self) == (Pause { market: paused(old(self).market), ..*old(self) }),
            !old(self).market.is_undecided() ==> r == Err::<MarketPaused, ProgramError>(
                ProgramError::Exchange(FloatingOddsExchangeError::MarketAlreadyResolved),
            ) && *final(self) == *old(self),
    {
        if self.market.outcome != u8::from(Outcome::Undecided) {
            return Err(ProgramError::Exchange(FloatingOddsExchangeError::MarketAlreadyResolved));
        }
        self.market.is_paused = true;
        Ok(MarketPaused { market: self.market_address, slot: self.slot })
    }
}

} // verus!
