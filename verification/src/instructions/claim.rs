//! Claiming from a settled market: winners redeem their share of the pot; after a refund
//! both sides redeem pro rata.
use vstd::prelude::*;

use crate::checked::{fit_u64, u64_safe_add};
use crate::errors::{FloatingOddsExchangeError, MathError, ProgramError};
use crate::events::WinningsClaimed;
use crate::math::{claims_from_pot, lift, lift_math, spec_claims_from_pot};
use crate::state::{parse_outcome, Address, Market, MintN, MintY, Outcome};

verus! {

/// What the claim instruction reads.
#[derive(Clone, Copy, Debug)]
pub struct Claim {
    /// The signer.
    pub claimer: Address,
    pub market_address: Address,
    pub market: Market,
    /// The pot mint passed in.
    pub pot_mint: Address,
    /// The YES mint passed in, and its supply.
    pub mint_y: Address,
    pub mint_y_supply: u64,
    /// The NO mint passed in, and its supply.
    pub mint_n: Address,
    pub mint_n_supply: u64,
    /// The YES and NO mint addresses derived from the market's address.
    pub expected_mint_y: MintY,
    pub expected_mint_n: MintN,
    /// Pot tokens held by the market.
    pub pot_amount: u64,
    /// The balance of the claimer's YES token account, when one is passed.
    pub claimer_mint_y_token_account: Option<u64>,
    /// The balance of the claimer's NO token account, when one is passed.
    pub claimer_mint_n_token_account: Option<u64>,
    /// The current slot.
    pub slot: u64,
}

impl Claim {
    /// The claimer holds no more of each outcome token than its supply, and no more of both
    /// together than both supplies together (as holds of real token accounts).
    pub open spec fn holdings_within_supply(&self) -> bool {
        &&& held(self.claimer_mint_y_token_account) <= self.mint_y_supply
        &&& held(self.claimer_mint_n_token_account) <= self.mint_n_supply
    }

    /// The outstanding winning supply for a settled outcome: the winning side's supply, or
    /// both supplies together after a refund.
    pub open spec fn winning_supply(&self, outcome: Outcome) -> int {
        match outcome {
            Outcome::Yes => self.mint_y_supply as int,
            Outcome::No => self.mint_n_supply as int,
            _ => self.mint_y_supply + self.mint_n_supply,
        }
    }

    /// The claimer's winning tokens for a settled outcome: its winning side's balance, or
    /// both balances together after a refund.
    pub open spec fn winning_held(&self, outcome: Outcome) -> int {
        match outcome {
            Outcome::Yes => held(self.claimer_mint_y_token_account) as int,
            Outcome::No => held(self.claimer_mint_n_token_account) as int,
            _ => held(self.claimer_mint_y_token_account) + held(self.claimer_mint_n_token_account),
        }
    }
}

/// Token movements of a claim.
#[derive(Clone, Copy, Debug)]
pub struct ClaimOutput {
    /// YES tokens burned from the claimer's YES account, which is then closed; none when
    /// no such account was passed.
    pub burn_y: Option<u64>,
    /// NO tokens burned from the claimer's NO account, which is then closed; none when no
    /// such account was passed.
    pub burn_n: Option<u64>,
    /// Pot tokens moved from the pot to the claimer.
    pub amount: u64,
    pub event: WinningsClaimed,
}

/// The first rule that the account rules of a claim find broken, if any.
pub open spec fn claim_constraint_error(ctx: Claim) -> Option<ProgramError> {
    if ctx.market.is_undecided() {
        Some(ProgramError::Exchange(FloatingOddsExchangeError::MarketNotResolved))
    } else if ctx.pot_mint@ != ctx.market.pot_mint@ {
        Some(ProgramError::Exchange(FloatingOddsExchangeError::InvalidMint))
    } else {
        None
    }
}

/// A passed token account's balance, or 0 when none is passed.
pub open spec fn held(account: Option<u64>) -> u64 {
    match account {
        Some(a) => a,
        None => 0,
    }
}

/// The pot tokens a claim pays out: the holder's share of the pot on the winning side, or
/// after a refund the share of both sides together.
pub open spec fn spec_claim_amount(ctx: Claim, outcome: Outcome) -> Result<u64, ProgramError> {
    match outcome {
        Outcome::Yes => match ctx.claimer_mint_y_token_account {
            None => Err(ProgramError::Exchange(FloatingOddsExchangeError::TokenAccountNotInitialized)),
            Some(a) => spec_claims_from_pot(a, ctx.mint_y_supply, ctx.pot_amount),
        },
        Outcome::No => match ctx.claimer_mint_n_token_account {
            None => Err(ProgramError::Exchange(FloatingOddsExchangeError::TokenAccountNotInitialized)),
            Some(a) => spec_claims_from_pot(a, ctx.mint_n_supply, ctx.pot_amount),
        },
        Outcome::Refunded => match lift(
            fit_u64(
                held(ctx.claimer_mint_y_token_account) + held(ctx.claimer_mint_n_token_account),
                MathError::Overflow,
            ),
        ) {
            Err(e) => Err(e),
            Ok(amount) => match lift(
                fit_u64(ctx.mint_y_supply + ctx.mint_n_supply, MathError::Overflow),
            ) {
                Err(e) => Err(e),
                Ok(supply) => spec_claims_from_pot(amount, supply, ctx.pot_amount),
            },
        },
        Outcome::Undecided => Err(ProgramError::Exchange(FloatingOddsExchangeError::MarketNotResolved)),
    }
}

/// What the claim handler decides: the token movements, or the first rule broken.
pub open spec fn spec_claim_handler(ctx: Claim) -> Result<ClaimOutput, ProgramError> {
    match Outcome::from_byte(ctx.market.outcome) {
        Err(e) => Err(e),
        Ok(outcome) => if ctx.mint_y@ != ctx.expected_mint_y.address@ || ctx.mint_n@
            != ctx.expected_mint_n.address@ {
            Err(ProgramError::InvalidSeeds)
        } else {
            match spec_claim_amount(ctx, outcome) {
                Err(e) => Err(e),
                Ok(amount) => Ok(
                    ClaimOutput {
                        burn_y: ctx.claimer_mint_y_token_account,
                        burn_n: ctx.claimer_mint_n_token_account,
                        amount,
                        event: WinningsClaimed {
                            claimer: ctx.claimer,
                            market: ctx.market_address,
                            amount,
                            slot: ctx.slot,
                        },
                    },
                ),
            }
        },
    }
}

impl Claim {
    /// The account rules: the market is settled and the pot mint is the market's.
    pub fn check_constraints(&self) -> (r: Result<(), ProgramError>)
        ensures
            r == (match claim_constraint_error(*self) {
                Some(e) => Err(e),
                None => Ok(()),
            }),
    {
        if self.market.outcome == u8::from(Outcome::Undecided) {
            return Err(ProgramError::Exchange(FloatingOddsExchangeError::MarketNotResolved));
        }
        if !self.pot_mint.same_as(&self.market.pot_mint) {
            return Err(ProgramError::Exchange(FloatingOddsExchangeError::InvalidMint));
        }
        Ok(())
    }

    /// 1. Reads the settled outcome.
    /// 2. Checks the outcome mints.
    /// 3. On `Yes` or `No`: the winning side's account must be passed; the payout is its
    ///    share of the pot. On `Refunded`: the payout is the share of both sides' balances
    ///    in both supplies.
    /// 4. Asks for every passed outcome account to be burned in full and closed, and for
    ///    the payout to be moved from the pot to the claimer.
    pub fn handler(&self) -> (r: Result<ClaimOutput, ProgramError>)
        ensures
            r == spec_claim_handler(*self),
    {
        let outcome = parse_outcome(self.market.outcome)?;
        if !self.mint_y.same_as(&self.expected_mint_y.address) {
            return Err(ProgramError::InvalidSeeds);
        }
        if !self.mint_n.same_as(&self.expected_mint_n.address) {
            return Err(ProgramError::InvalidSeeds);
        }
        let pot_amount = self.pot_amount;
        let claim_amount = match outcome {
            Outcome::Yes => {
                let amount = match self.claimer_mint_y_token_account {
                    Some(a) => a,
                    None => return Err(
                        ProgramError::Exchange(FloatingOddsExchangeError::TokenAccountNotInitialized),
                    ),
                };
                claims_from_pot(amount, self.mint_y_supply, pot_amount)?
            },
            Outcome::No => {
                let amount = match self.claimer_mint_n_token_account {
                    Some(a) => a,
                    None => return Err(
                        ProgramError::Exchange(FloatingOddsExchangeError::TokenAccountNotInitialized),
                    ),
                };
                claims_from_pot(amount, self.mint_n_supply, pot_amount)?
            },
            Outcome::Refunded => {
                let amount_y = Self::token_amount(self.claimer_mint_y_token_account);
                let amount_n = Self::token_amount(self.claimer_mint_n_token_account);
                let amount = lift_math(u64_safe_add(amount_y, amount_n))?;
                let supply = lift_math(u64_safe_add(self.mint_y_supply, self.mint_n_supply))?;
                claims_from_pot(amount, supply, pot_amount)?
            },
            Outcome::Undecided => {
                return Err(ProgramError::Exchange(FloatingOddsExchangeError::MarketNotResolved));
            },
        };
        Ok(
            ClaimOutput {
                burn_y: self.claimer_mint_y_token_account,
                burn_n: self.claimer_mint_n_token_account,
                amount: claim_amount,
                event: WinningsClaimed {
                    claimer: self.claimer,
                    market: self.market_address,
                    amount: claim_amount,
                    slot: self.slot,
                },
            },
        )
    }

    /// The balance of a passed token account, or 0 when none is passed.
    fn token_amount(token_account: Option<u64>) -> (r: u64)
        ensures
            r == held(token_account),
    {
        match token_account {
            Some(amount) => amount,
            None => 0,
        }
    }
}

} // verus!
