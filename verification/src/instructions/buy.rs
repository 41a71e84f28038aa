//! Buying one side of a market along the bonding curve.
use vstd::prelude::*;

use crate::errors::{FloatingOddsExchangeError, ProgramError};
use crate::events::BetCreated;
use crate::math::{
    quote_exact_input, quote_exact_output, spec_quote_exact_input, spec_quote_exact_output,
};
use crate::state::{Address, Market, MintN, MintY, Outcome};

verus! {

/// What the buy instruction reads.
#[derive(Clone, Copy, Debug)]
pub struct Buy {
    /// The signer.
    pub buyer: Address,
    pub market_address: Address,
    pub market: Market,
    /// The pot mint passed in.
    pub pot_mint: Address,
    /// The outcome mint being bought, and its supply.
    pub buy_mint: Address,
    pub buy_mint_supply: u64,
    /// The opposite outcome mint, and its supply.
    pub other_mint: Address,
    pub other_mint_supply: u64,
    /// The YES and NO mint addresses derived from the market's address.
    pub mint_y: MintY,
    pub mint_n: MintN,
    /// The current slot.
    pub slot: u64,
}

/// Token movements of a purchase.
#[derive(Clone, Copy, Debug)]
pub struct BuyOutput {
    /// Pot tokens moved from the buyer into the pot.
    pub in_amount: u64,
    /// Outcome tokens of the bought side minted to the buyer.
    pub out_amount: u64,
    pub event: BetCreated,
}

/// The first rule that the account rules of a purchase find broken, if any.
pub open spec fn buy_constraint_error(ctx: Buy) -> Option<ProgramError> {
    if !ctx.market.is_launched {
        Some(ProgramError::Exchange(FloatingOddsExchangeError::MarketNotLaunched))
    } else if ctx.market.is_paused {
        Some(ProgramError::Exchange(FloatingOddsExchangeError::MarketPaused))
    } else if !ctx.market.is_undecided() {
        Some(ProgramError::Exchange(FloatingOddsExchangeError::MarketAlreadyResolved))
    } else if ctx.pot_mint@ != ctx.market.pot_mint@ {
        Some(ProgramError::Exchange(FloatingOddsExchangeError::InvalidMint))
    } else {
        None
    }
}

/// What [`Buy::verify_outcome_mint_pair`] decides: the bought mint is the YES or the NO mint and
/// the other mint is its opposite.
pub open spec fn spec_mint_pair(
    mint_y: Address,
    mint_n: Address,
    buy_mint: Address,
    other_mint: Address,
) -> Result<(), ProgramError> {
    if buy_mint@ == mint_y@ {
        if other_mint@ == mint_n@ {
            Ok(())
        } else {
            Err(ProgramError::InvalidSeeds)
        }
    } else if buy_mint@ == mint_n@ {
        if other_mint@ == mint_y@ {
            Ok(())
        } else {
            Err(ProgramError::InvalidSeeds)
        }
    } else {
        Err(ProgramError::Exchange(FloatingOddsExchangeError::InvalidMint))
    }
}

/// The event of a purchase.
pub open spec fn bet_event(ctx: Buy, in_amount: u64, out_amount: u64) -> BetCreated {
    BetCreated {
        buyer: ctx.buyer,
        market: ctx.market_address,
        in_amount,
        out_amount,
        slot: ctx.slot,
    }
}

/// What the buy handler decides. Exact-out: the cost of `out_amount` is quoted and must be
/// at most `amount_with_slippage`. Exact-in: the budget `in_amount` buys what
/// [`quote_exact_input`] finds, which must be at least `amount_with_slippage`.
pub open spec fn spec_buy_handler(
    ctx: Buy,
    in_amount: u64,
    out_amount: u64,
    exact_in: bool,
    amount_with_slippage: u64,
) -> Result<BuyOutput, ProgramError> {
    let precision = ctx.market.precision;
    let supply_buy = ctx.buy_mint_supply;
    let supply_other = ctx.other_mint_supply;
    match spec_mint_pair(ctx.mint_y.address, ctx.mint_n.address, ctx.buy_mint, ctx.other_mint) {
        Err(e) => Err(e),
        Ok(_) => if exact_in {
            match spec_quote_exact_input(supply_buy, supply_other, in_amount, precision) {
                Err(e) => Err(e),
                Ok((quoted_out, quoted_in)) => if quoted_out >= amount_with_slippage {
                    Ok(
                        BuyOutput {
                            in_amount: quoted_in,
                            out_amount: quoted_out,
                            event: bet_event(ctx, quoted_in, quoted_out),
                        },
                    )
                } else {
                    Err(ProgramError::Exchange(FloatingOddsExchangeError::SlippageExceeded))
                },
            }
        } else {
            match spec_quote_exact_output(supply_buy, supply_other, out_amount, precision) {
                Err(e) => Err(e),
                Ok(quoted_in) => if quoted_in <= amount_with_slippage {
                    Ok(
                        BuyOutput {
                            in_amount: quoted_in,
                            out_amount,
                            event: bet_event(ctx, quoted_in, out_amount),
                        },
                    )
                } else {
                    Err(ProgramError::Exchange(FloatingOddsExchangeError::SlippageExceeded))
                },
            }
        },
    }
}

impl Buy {
    /// `buy_mint` must be the YES or the NO mint; `other_mint` must be the opposite one.
    pub fn verify_outcome_mint_pair(
        mint_y: &MintY,
        mint_n: &MintN,
        buy_mint: &Address,
        other_mint: &Address,
    ) -> (r: Result<(), ProgramError>)
        ensures
            r == spec_mint_pair(mint_y.address, mint_n.address, *buy_mint, *other_mint),
    {
        if buy_mint.same_as(&mint_y.address) {
            if other_mint.same_as(&mint_n.address) {
                Ok(())
            } else {
                Err(ProgramError::InvalidSeeds)
            }
        } else if buy_mint.same_as(&mint_n.address) {
            if other_mint.same_as(&mint_y.address) {
                Ok(())
            } else {
                Err(ProgramError::InvalidSeeds)
            }
        } else {
            Err(ProgramError::Exchange(FloatingOddsExchangeError::InvalidMint))
        }
    }

    /// The account rules: launched, not paused, not settled, with the market's pot mint.
    pub fn check_constraints(&self) -> (r: Result<(), ProgramError>)
        ensures
            r == (match buy_constraint_error(*self) {
                Some(e) => Err(e),
                None => Ok(()),
            }),
    {
        if !self.market.is_launched {
            return Err(ProgramError::Exchange(FloatingOddsExchangeError::MarketNotLaunched));
        }
        if self.market.is_paused {
            return Err(ProgramError::Exchange(FloatingOddsExchangeError::MarketPaused));
        }
        if self.market.outcome != u8::from(Outcome::Undecided) {
            return Err(ProgramError::Exchange(FloatingOddsExchangeError::MarketAlreadyResolved));
        }
        if !self.pot_mint.same_as(&self.market.pot_mint) {
            return Err(ProgramError::Exchange(FloatingOddsExchangeError::InvalidMint));
        }
        Ok(())
    }

    /// 1. Checks that the bought and the other mint are the market's YES/NO pair, in
    ///    either order.
    /// 2. Quotes from the two mints' supplies: the cost of `out_amount` (exact-out) or the
    ///    amount that the budget `in_amount` buys (exact-in).
    /// 3. Checks the slippage bound on the other leg.
    /// 4. Asks for the quoted amount out to be minted to the buyer and the quoted amount in
    ///    to be moved into the pot.
    ///
    pub fn handler(
        &self,
        in_amount: u64,
        out_amount: u64,
        exact_in: bool,
        amount_with_slippage: u64,
    ) -> (r: Result<BuyOutput, ProgramError>)
        ensures
            r == spec_buy_handler(*self, in_amount, out_amount, exact_in, amount_with_slippage),
    {
        Self::verify_outcome_mint_pair(
            &self.mint_y,
            &self.mint_n,
            &self.buy_mint,
            &self.other_mint,
        )?;

        let supply_buy = self.buy_mint_supply;
        let supply_other = self.other_mint_supply;
        let precision = self.market.precision;

        if exact_in {
            let (quoted_out, quoted_in) = quote_exact_input(
                supply_buy,
                supply_other,
                in_amount,
                precision,
            )?;
            if !(quoted_out >= amount_with_slippage) {
                return Err(ProgramError::Exchange(FloatingOddsExchangeError::SlippageExceeded));
            }
            Ok(
                BuyOutput {
                    in_amount: quoted_in,
                    out_amount: quoted_out,
                    event: BetCreated {
                        buyer: self.buyer,
                        market: self.market_address,
                        in_amount: quoted_in,
                        out_amount: quoted_out,
                        slot: self.slot,
                    },
                },
            )
        } else {
            let quoted_in = quote_exact_output(supply_buy, supply_other, out_amount, precision)?;
            if !(quoted_in <= amount_with_slippage) {
                return Err(ProgramError::Exchange(FloatingOddsExchangeError::SlippageExceeded));
            }
            Ok(
                BuyOutput {
                    in_amount: quoted_in,
                    out_amount,
                    event: BetCreated {
                        buyer: self.buyer,
                        market: self.market_address,
                        in_amount: quoted_in,
                        out_amount,
                        slot: self.slot,
                    },
                },
            )
        }
    }
}

} // verus!
