//! Creating a market and the metadata of its two outcome tokens.
use vstd::prelude::*;
use vstd::string::*;

use crate::basis::basis_points_new;
use crate::constants::{NAME_MAX_LEN, SYMBOL_MAX_LEN};
use crate::errors::{BasisPointsError, FloatingOddsExchangeError, ProgramError};
use crate::events::MarketInitialized;
use crate::state::{Address, Market, Outcome};
use vstd::arithmetic::power::pow;

verus! {

/// Length in bytes of a string slice, as `str::len` gives it.
pub open spec fn byte_len(s: &str) -> usize {
    s.spec_bytes().len() as usize
}

/// What the initialize instruction reads.
#[derive(Clone, Copy, Debug)]
pub struct Initialize {
    /// The signer, who becomes the market's authority and payout.
    pub authority: Address,
    pub market_address: Address,
    /// The mint of the tokens that bets are paid in.
    pub pot_mint: Address,
    pub pot_mint_decimals: u8,
    /// Whether the pot mint has a freeze authority.
    pub pot_mint_freezable: bool,
    /// The current slot.
    pub slot: u64,
}

/// Bump seeds of the market and of its two outcome mints.
#[derive(Clone, Copy, Debug)]
pub struct InitializeBumps {
    pub market: u8,
    pub mint_y: u8,
    pub mint_n: u8,
}

/// Metadata of one outcome token: `name` and `symbol` carry the side's prefix.
#[derive(Debug)]
pub struct OutcomeMetadata {
    pub is_yes: bool,
    pub name: String,
    pub symbol: String,
    pub uri: String,
}

/// What a market creation writes.
#[derive(Debug)]
pub struct InitializeOutput {
    pub market: Market,
    pub metadata_y: OutcomeMetadata,
    pub metadata_n: OutcomeMetadata,
    pub event: MarketInitialized,
}

/// `prefix` followed by `value`, when it fits in `capacity` bytes.
pub open spec fn spec_prefix_meta(capacity: usize, prefix: &str, value: &str) -> Result<
    Seq<char>,
    ProgramError,
> {
    if byte_len(prefix) + byte_len(value) > usize::MAX {
        Err(ProgramError::Exchange(FloatingOddsExchangeError::ArithmeticOverflow))
    } else if byte_len(prefix) + byte_len(value) > capacity {
        Err(ProgramError::Exchange(FloatingOddsExchangeError::InvalidMetadata))
    } else {
        Ok(prefix@ + value@)
    }
}

/// Writes `prefix + value` into a buffer of `capacity` bytes and returns the text;
/// `InvalidMetadata` when it does not fit.
pub fn prefix_meta(capacity: usize, prefix: &str, value: &str) -> (r: Result<String, ProgramError>)
    ensures
        match spec_prefix_meta(capacity, prefix, value) {
            Ok(text) => r is Ok && r->Ok_0@ == text,
            Err(e) => r == Err::<String, ProgramError>(e),
        },
{
    let total = match prefix.len().checked_add(value.len()) {
        Some(t) => t,
        None => return Err(ProgramError::Exchange(FloatingOddsExchangeError::ArithmeticOverflow)),
    };
    if total > capacity {
        return Err(ProgramError::Exchange(FloatingOddsExchangeError::InvalidMetadata));
    }
    let mut text = prefix.to_owned();
    text.append(value);
    Ok(text)
}

/// The first rule a market creation breaks, if any.
pub open spec fn initialize_error(
    ctx: Initialize,
    fee_bps: u16,
    name: &str,
    symbol: &str,
    uri: &str,
) -> Option<ProgramError> {
    if fee_bps > 10000 {
        Some(ProgramError::BasisPoints(BasisPointsError::InvalidBasisPoints))
    } else if byte_len(name) == 0 || byte_len(symbol) == 0 || byte_len(uri) == 0 {
        Some(ProgramError::Exchange(FloatingOddsExchangeError::InvalidMintMetadata))
    } else if ctx.pot_mint_freezable {
        Some(ProgramError::Exchange(FloatingOddsExchangeError::PotMintFreezable))
    } else if spec_prefix_meta(NAME_MAX_LEN, "Y", name) is Err {
        Some(spec_prefix_meta(NAME_MAX_LEN, "Y", name)->Err_0)
    } else if spec_prefix_meta(SYMBOL_MAX_LEN, "y", symbol) is Err {
        Some(spec_prefix_meta(SYMBOL_MAX_LEN, "y", symbol)->Err_0)
    } else if spec_prefix_meta(NAME_MAX_LEN, "N", name) is Err {
        Some(spec_prefix_meta(NAME_MAX_LEN, "N", name)->Err_0)
    } else if spec_prefix_meta(SYMBOL_MAX_LEN, "n", symbol) is Err {
        Some(spec_prefix_meta(SYMBOL_MAX_LEN, "n", symbol)->Err_0)
    } else {
        None
    }
}

/// The market that a creation writes.
pub open spec fn new_market(ctx: Initialize, bumps: InitializeBumps, seed: u64, fee_bps: u16) -> Market {
    Market {
        seed,
        authority: ctx.authority,
        payout: ctx.authority,
        pot_mint: ctx.pot_mint,
        precision: pow(10, ctx.pot_mint_decimals as nat) as u64,
        outcome: Outcome::Undecided.byte(),
        fee_bps,
        mint_y_bump: bumps.mint_y,
        mint_n_bump: bumps.mint_n,
        bump: bumps.market,
        is_launched: false,
        is_paused: false,
    }
}

/// What a market creation promises of its result `r`: the first rule broken, or the new
/// market, both outcome tokens' metadata and the event.
pub open spec fn initialize_outcome(
    ctx: Initialize,
    bumps: InitializeBumps,
    seed: u64,
    fee_bps: u16,
    name: &str,
    symbol: &str,
    uri: &str,
    r: Result<InitializeOutput, ProgramError>,
) -> bool {
    match initialize_error(ctx, fee_bps, name, symbol, uri) {
        Some(e) => r is Err && r->Err_0 == e,
        None => r is Ok && {
            let out = r->Ok_0;
            &&& out.market == new_market(ctx, bumps, seed, fee_bps)
            &&& out.metadata_y.is_yes && out.metadata_y.name@ == "Y"@ + name@
                && out.metadata_y.symbol@ == "y"@ + symbol@ && out.metadata_y.uri@ == uri@
            &&& !out.metadata_n.is_yes && out.metadata_n.name@ == "N"@ + name@
                && out.metadata_n.symbol@ == "n"@ + symbol@ && out.metadata_n.uri@ == uri@
            &&& out.event == (MarketInitialized {
                market: ctx.market_address,
                authority: ctx.authority,
                seed,
                slot: ctx.slot,
            })
        },
    }
}

/// `10^exp`.
fn ten_pow(exp: u8) -> (r: u64)
    requires
        exp <= 19,
    ensures
        r == pow(10, exp as nat),
{
    let mut r: u64 = 1;
    let mut i: u8 = 0;
    proof {
        reveal(pow);
    }
    while i < exp
        invariant
            i <= exp <= 19,
            r == pow(10, i as nat),
        decreases exp - i,
    {
        proof {
            reveal(pow);
            vstd::arithmetic::power::lemma_pow_adds(10, i as nat, (18 - i) as nat);
            vstd::arithmetic::power::lemma_pow_positive(10, (18 - i) as nat);
            reveal_with_fuel(pow, 19);
            assert(pow(10, 18) == 1_000_000_000_000_000_000);
            assert(pow(10, i as nat) <= pow(10, i as nat) * pow(10, (18 - i) as nat)) by (
            nonlinear_arith)
                requires
                    pow(10, (18 - i) as nat) > 0,
                    pow(10, i as nat) >= 0,
            ;
            assert(pow(10, (i + 1) as nat) == 10 * pow(10, i as nat));
        }
        r = r * 10;
        i = i + 1;
    }
    r
}

impl Initialize {
    /// Validates a market creation as [`Initialize::handler`] does, without building it:
    /// the first rule broken, if any.
    pub fn validate(&self, fee_bps: u16, name: &str, symbol: &str, uri: &str) -> (r: Result<
        (),
        ProgramError,
    >)
        ensures
            r == (match initialize_error(*self, fee_bps, name, symbol, uri) {
                Some(e) => Err(e),
                None => Ok(()),
            }),
    {
        if let Err(e) = basis_points_new(fee_bps) {
            return Err(ProgramError::BasisPoints(e));
        }
        if !(name.len() > 0) || !(symbol.len() > 0) || !(uri.len() > 0) {
            return Err(ProgramError::Exchange(FloatingOddsExchangeError::InvalidMintMetadata));
        }
        if self.pot_mint_freezable {
            return Err(ProgramError::Exchange(FloatingOddsExchangeError::PotMintFreezable));
        }
        self.create_outcome_metadata(true, name, symbol, uri)?;
        self.create_outcome_metadata(false, name, symbol, uri)?;
        Ok(())
    }

    /// 1. Validates `fee_bps` (at most 10 000).
    /// 2. Validates that name, symbol and URI are not empty.
    /// 3. Validates that the pot mint cannot freeze accounts.
    /// 4. Prepares the YES and NO metadata ("Y"/"y" and "N"/"n" prefixes).
    /// 5. Writes a new market: undecided, not launched, not paused, with a precision of
    ///    `10^decimals` of the pot mint.
    pub fn handler(
        &self,
        bumps: &InitializeBumps,
        seed: u64,
        fee_bps: u16,
        name: &str,
        symbol: &str,
        uri: &str,
    ) -> (r: Result<InitializeOutput, ProgramError>)
        requires
            initialize_error(*self, fee_bps, name, symbol, uri) is None ==> self.pot_mint_decimals
                <= 19,
        ensures
            initialize_outcome(*self, *bumps, seed, fee_bps, name, symbol, uri, r),
    {
        let fee_bps = match basis_points_new(fee_bps) {
            Ok(b) => b,
            Err(e) => return Err(ProgramError::BasisPoints(e)),
        };
        if !(name.len() > 0) {
            return Err(ProgramError::Exchange(FloatingOddsExchangeError::InvalidMintMetadata));
        }
        if !(symbol.len() > 0) {
            return Err(ProgramError::Exchange(FloatingOddsExchangeError::InvalidMintMetadata));
        }
        if !(uri.len() > 0) {
            return Err(ProgramError::Exchange(FloatingOddsExchangeError::InvalidMintMetadata));
        }
        if self.pot_mint_freezable {
            return Err(ProgramError::Exchange(FloatingOddsExchangeError::PotMintFreezable));
        }
        let metadata_y = self.create_outcome_metadata(true, name, symbol, uri)?;
        let metadata_n = self.create_outcome_metadata(false, name, symbol, uri)?;
        let market = Market {
            seed,
            authority: self.authority,
            payout: self.authority,
            pot_mint: self.pot_mint,
            precision: ten_pow(self.pot_mint_decimals),
            outcome: u8::from(Outcome::Undecided),
            fee_bps,
            mint_y_bump: bumps.mint_y,
            mint_n_bump: bumps.mint_n,
            bump: bumps.market,
            is_launched: false,
            is_paused: false,
        };
        Ok(
            InitializeOutput {
                market,
                metadata_y,
                metadata_n,
                event: MarketInitialized {
                    market: self.market_address,
                    authority: self.authority,
                    seed,
                    slot: self.slot,
                },
            },
        )
    }

    /// The metadata of the YES (`is_yes`) or the NO token: the name and the symbol with
    /// the side's prefix, each within its length limit.
    fn create_outcome_metadata(&self, is_yes: bool, name: &str, symbol: &str, uri: &str) -> (r:
        Result<OutcomeMetadata, ProgramError>)
        ensures
            ({
                let (name_prefix, symbol_prefix) = if is_yes {
                    ("Y", "y")
                } else {
                    ("N", "n")
                };
                match spec_prefix_meta(NAME_MAX_LEN, name_prefix, name) {
                    Err(e) => r == Err::<OutcomeMetadata, ProgramError>(e),
                    Ok(n) => match spec_prefix_meta(SYMBOL_MAX_LEN, symbol_prefix, symbol) {
                        Err(e) => r == Err::<OutcomeMetadata, ProgramError>(e),
                        Ok(s) => r is Ok && r->Ok_0.is_yes == is_yes && r->Ok_0.name@ == n
                            && r->Ok_0.symbol@ == s && r->Ok_0.uri@ == uri@,
                    },
                }
            }),
    {
        let (name_prefix, symbol_prefix) = if is_yes {
            ("Y", "y")
        } else {
            ("N", "n")
        };
        let name = prefix_meta(NAME_MAX_LEN, name_prefix, name)?;
        let symbol = prefix_meta(SYMBOL_MAX_LEN, symbol_prefix, symbol)?;
        Ok(OutcomeMetadata { is_yes, name, symbol, uri: uri.to_owned() })
    }
}

} // verus!
