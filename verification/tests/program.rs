//! The instruction flows of a market, run against a small ledger of the token balances
//! that the instructions move.

use floating_odds_exchange::errors::{BasisPointsError, FloatingOddsExchangeError, ProgramError};
use floating_odds_exchange::instructions::buy::Buy;
use floating_odds_exchange::instructions::claim::Claim;
use floating_odds_exchange::instructions::initialize::{Initialize, InitializeBumps};
use floating_odds_exchange::instructions::launch::Launch;
use floating_odds_exchange::instructions::pause::Pause;
use floating_odds_exchange::instructions::resolve::Resolve;
use floating_odds_exchange::math::{quote_exact_input, quote_exact_output};
use floating_odds_exchange::program;
use floating_odds_exchange::state::{Address, Market, MintN, MintY};

fn addr(b: u8) -> Address {
    Address::new_from_array([b; 32])
}

fn authority() -> Address {
    addr(1)
}
fn buyer() -> Address {
    addr(2)
}
fn pot_mint() -> Address {
    addr(3)
}
fn stranger() -> Address {
    addr(4)
}
fn other_mint() -> Address {
    addr(5)
}
fn market_address() -> Address {
    addr(10)
}
fn mint_y() -> Address {
    addr(11)
}
fn mint_n() -> Address {
    addr(12)
}

const SEED: u64 = 42;
const FEE_BPS: u16 = 100; // 1%
const POT_DECIMALS: u8 = 6;
const SIDE_LIQUIDITY: u64 = 1_000_000;
const POT_LIQUIDITY: u64 = 500_000_000_000;
const BUYER_POT_BALANCE: u64 = 10_000_000_000_000;
const MARKET_BUMP: u8 = 254;
const SLOT: u64 = 7;

fn same(a: &Address, b: &Address) -> bool {
    a.bytes == b.bytes
}

/// Token balances around one market.
struct Ledger {
    market: Market,
    supply_y: u64,
    supply_n: u64,
    pot: Option<u64>,
    vault_y: Option<u64>,
    vault_n: Option<u64>,
    /// The authority's pot-token account, which is also the payout account.
    authority_pot: u64,
    buyer_pot: u64,
    buyer_y: Option<u64>,
    buyer_n: Option<u64>,
    metadata_y: Option<(String, String, String)>,
    metadata_n: Option<(String, String, String)>,
}

fn initialize_ctx(freezable: bool) -> Initialize {
    Initialize {
        authority: authority(),
        market_address: market_address(),
        pot_mint: pot_mint(),
        pot_mint_decimals: POT_DECIMALS,
        pot_mint_freezable: freezable,
        slot: SLOT,
    }
}

fn bumps() -> InitializeBumps {
    InitializeBumps { market: MARKET_BUMP, mint_y: 253, mint_n: 252 }
}

fn try_initialize(name: &str, symbol: &str, uri: &str, freezable: bool) -> Result<Ledger, ProgramError> {
    let out = program::initialize(&initialize_ctx(freezable), &bumps(), SEED, FEE_BPS, name, symbol, uri)?;
    Ok(Ledger {
        market: out.market,
        supply_y: 0,
        supply_n: 0,
        pot: None,
        vault_y: None,
        vault_n: None,
        authority_pot: POT_LIQUIDITY,
        buyer_pot: 0,
        buyer_y: None,
        buyer_n: None,
        metadata_y: Some((out.metadata_y.name, out.metadata_y.symbol, out.metadata_y.uri)),
        metadata_n: Some((out.metadata_n.name, out.metadata_n.symbol, out.metadata_n.uri)),
    })
}

fn do_initialize() -> Ledger {
    try_initialize("FOX", "FOX", "https://example.com/fox.json", false).unwrap()
}

fn launch_as(ledger: &mut Ledger, signer: Address, side: u64, pot: u64) -> Result<(), ProgramError> {
    let mut ctx = Launch {
        authority: signer,
        market_address: market_address(),
        market: ledger.market,
        pot_mint: pot_mint(),
        mint_y: mint_y(),
        mint_n: mint_n(),
        expected_mint_y: MintY { address: mint_y() },
        expected_mint_n: MintN { address: mint_n() },
        slot: SLOT,
    };
    let out = program::launch(&mut ctx, side, pot)?;
    ledger.market = ctx.market;
    ledger.authority_pot -= out.pot_deposit;
    ledger.pot = Some(ledger.pot.unwrap_or(0) + out.pot_deposit);
    ledger.supply_y += out.vault_mint;
    ledger.supply_n += out.vault_mint;
    ledger.vault_y = Some(ledger.vault_y.unwrap_or(0) + out.vault_mint);
    ledger.vault_n = Some(ledger.vault_n.unwrap_or(0) + out.vault_mint);
    Ok(())
}

fn do_launch() -> Ledger {
    let mut ledger = do_initialize();
    launch_as(&mut ledger, authority(), SIDE_LIQUIDITY, POT_LIQUIDITY).unwrap();
    ledger
}

fn do_launched_with_buyer() -> Ledger {
    let mut ledger = do_launch();
    ledger.buyer_pot = BUYER_POT_BALANCE;
    ledger.buyer_y = Some(0);
    ledger.buyer_n = Some(0);
    ledger
}

fn buy_with(
    ledger: &mut Ledger,
    buy_mint: Address,
    other: Address,
    in_amount: u64,
    out_amount: u64,
    exact_in: bool,
    amount_with_slippage: u64,
) -> Result<(), ProgramError> {
    let buys_yes = same(&buy_mint, &mint_y());
    let (buy_supply, other_supply) = if buys_yes {
        (ledger.supply_y, ledger.supply_n)
    } else if same(&buy_mint, &mint_n()) {
        (ledger.supply_n, ledger.supply_y)
    } else {
        (0, ledger.supply_n)
    };
    let ctx = Buy {
        buyer: buyer(),
        market_address: market_address(),
        market: ledger.market,
        pot_mint: pot_mint(),
        buy_mint,
        buy_mint_supply: buy_supply,
        other_mint: other,
        other_mint_supply: other_supply,
        mint_y: MintY { address: mint_y() },
        mint_n: MintN { address: mint_n() },
        slot: SLOT,
    };
    let out = program::buy(&ctx, in_amount, out_amount, exact_in, amount_with_slippage)?;
    ledger.buyer_pot -= out.in_amount;
    ledger.pot = Some(ledger.pot.unwrap_or(0) + out.in_amount);
    if buys_yes {
        ledger.supply_y += out.out_amount;
        ledger.buyer_y = Some(ledger.buyer_y.unwrap_or(0) + out.out_amount);
    } else {
        ledger.supply_n += out.out_amount;
        ledger.buyer_n = Some(ledger.buyer_n.unwrap_or(0) + out.out_amount);
    }
    Ok(())
}

fn buy(
    ledger: &mut Ledger,
    buy_yes: bool,
    in_amount: u64,
    out_amount: u64,
    exact_in: bool,
    amount_with_slippage: u64,
) -> Result<(), ProgramError> {
    let (buy_mint, other) = if buy_yes { (mint_y(), mint_n()) } else { (mint_n(), mint_y()) };
    buy_with(ledger, buy_mint, other, in_amount, out_amount, exact_in, amount_with_slippage)
}

fn pause_as(ledger: &mut Ledger, signer: Address) -> Result<(), ProgramError> {
    let mut ctx = Pause { authority: signer, market_address: market_address(), market: ledger.market, slot: SLOT };
    program::pause(&mut ctx)?;
    ledger.market = ctx.market;
    Ok(())
}

fn resolve(ledger: &mut Ledger, outcome: u8) -> Result<(), ProgramError> {
    let mut ctx = Resolve {
        authority: authority(),
        market_address: market_address(),
        market: ledger.market,
        pot_mint: pot_mint(),
        pot_amount: ledger.pot.unwrap_or(0),
        vault_y_amount: ledger.vault_y.unwrap_or(0),
        vault_n_amount: ledger.vault_n.unwrap_or(0),
        slot: SLOT,
    };
    let out = program::resolve(&mut ctx, outcome)?;
    ledger.market = ctx.market;
    ledger.supply_y -= out.burn_y;
    ledger.supply_n -= out.burn_n;
    ledger.vault_y = None;
    ledger.vault_n = None;
    if let Some(fee) = out.fee {
        ledger.pot = Some(ledger.pot.unwrap_or(0) - fee);
        ledger.authority_pot += fee;
    }
    Ok(())
}

fn claim(ledger: &mut Ledger, include_y: bool, include_n: bool) -> Result<(), ProgramError> {
    let ctx = Claim {
        claimer: buyer(),
        market_address: market_address(),
        market: ledger.market,
        pot_mint: pot_mint(),
        mint_y: mint_y(),
        mint_y_supply: ledger.supply_y,
        mint_n: mint_n(),
        mint_n_supply: ledger.supply_n,
        expected_mint_y: MintY { address: mint_y() },
        expected_mint_n: MintN { address: mint_n() },
        pot_amount: ledger.pot.unwrap_or(0),
        claimer_mint_y_token_account: if include_y { ledger.buyer_y } else { None },
        claimer_mint_n_token_account: if include_n { ledger.buyer_n } else { None },
        slot: SLOT,
    };
    let out = program::claim(&ctx)?;
    if let Some(burned) = out.burn_y {
        ledger.supply_y -= burned;
        ledger.buyer_y = None;
    }
    if let Some(burned) = out.burn_n {
        ledger.supply_n -= burned;
        ledger.buyer_n = None;
    }
    ledger.pot = Some(ledger.pot.unwrap_or(0) - out.amount);
    ledger.buyer_pot += out.amount;
    Ok(())
}

fn exchange(e: FloatingOddsExchangeError) -> ProgramError {
    ProgramError::Exchange(e)
}

// ---- instruction flows ----

#[test]
fn initialize_creates_market_and_outcome_mints() {
    let ledger = do_initialize();
    let market = ledger.market;
    assert_eq!(market.seed, SEED);
    assert!(same(&market.authority, &authority()));
    assert!(same(&market.pot_mint, &pot_mint()));
    assert_eq!(market.precision, 1_000_000);
    assert_eq!(market.outcome, 2); // Undecided
    assert_eq!(market.fee_bps, FEE_BPS);
    assert!(!market.is_launched);
    assert!(!market.is_paused);
    assert_eq!(market.bump, MARKET_BUMP);

    assert_eq!(ledger.supply_y, 0);
    assert_eq!(ledger.supply_n, 0);
    let (name_y, symbol_y, uri_y) = ledger.metadata_y.clone().unwrap();
    let (name_n, symbol_n, uri_n) = ledger.metadata_n.clone().unwrap();
    assert!(name_y.len() > 1, "YES metadata should be written");
    assert!(name_n.len() > 1, "NO metadata should be written");
    assert_eq!(
        (name_y.as_str(), symbol_y.as_str(), uri_y.as_str()),
        ("YFOX", "yFOX", "https://example.com/fox.json")
    );
    assert_eq!(
        (name_n.as_str(), symbol_n.as_str(), uri_n.as_str()),
        ("NFOX", "nFOX", "https://example.com/fox.json")
    );
}

#[test]
fn launch_seeds_pot_and_outcome_vaults() {
    let ledger = do_launch();
    assert!(ledger.market.is_launched);
    assert_eq!(ledger.pot, Some(POT_LIQUIDITY));
    assert_eq!(ledger.vault_y, Some(SIDE_LIQUIDITY));
    assert_eq!(ledger.vault_n, Some(SIDE_LIQUIDITY));
    assert_eq!(ledger.supply_y, SIDE_LIQUIDITY);
    assert_eq!(ledger.supply_n, SIDE_LIQUIDITY);
}

#[test]
fn buy_exact_out_mints_yes_against_slippage_cap() {
    let mut ledger = do_launched_with_buyer();
    let out_amount = 10_000u64;
    let quoted_cost =
        quote_exact_output(SIDE_LIQUIDITY, SIDE_LIQUIDITY, out_amount, 10u64.pow(POT_DECIMALS.into()))
            .unwrap();
    buy(&mut ledger, true, 0, out_amount, false, u64::MAX).unwrap();
    assert_eq!(ledger.buyer_y, Some(out_amount));
    assert_eq!(ledger.pot, Some(POT_LIQUIDITY + quoted_cost));
    assert_eq!(ledger.buyer_pot, BUYER_POT_BALANCE - quoted_cost);
}

#[test]
fn buy_exact_in_mints_no_with_minimum_out() {
    let mut ledger = do_launched_with_buyer();
    let in_amount = 5_000_000u64;
    let (quoted_out, actual_cost) =
        quote_exact_input(SIDE_LIQUIDITY, SIDE_LIQUIDITY, in_amount, 10u64.pow(POT_DECIMALS.into()))
            .unwrap();
    buy(&mut ledger, false, in_amount, 0, true, 1).unwrap();
    assert_eq!(ledger.buyer_n, Some(quoted_out));
    assert_eq!(ledger.pot, Some(POT_LIQUIDITY + actual_cost));
    assert_eq!(ledger.buyer_pot, BUYER_POT_BALANCE - actual_cost);
}

#[test]
fn pause_blocks_further_buys_but_leaves_market_launched() {
    let mut ledger = do_launch();
    pause_as(&mut ledger, authority()).unwrap();
    assert!(ledger.market.is_paused);
    assert!(ledger.market.is_launched);
}

#[test]
fn resolve_yes_takes_fee_and_burns_vault_inventory() {
    let mut ledger = do_launched_with_buyer();
    // Buy YES so outstanding claim supply remains after vault burn.
    buy(&mut ledger, true, 0, 25_000, false, u64::MAX).unwrap();
    let pot_before = ledger.pot.unwrap();
    let payout_before = ledger.authority_pot;
    resolve(&mut ledger, 0).unwrap();
    assert_eq!(ledger.market.outcome, 0); // Yes

    let fee = (pot_before as u128 * FEE_BPS as u128).div_ceil(10_000) as u64;
    assert_eq!(ledger.pot, Some(pot_before - fee));
    assert_eq!(ledger.authority_pot - payout_before, fee);
    assert_eq!(payout_before, 0);
    assert_eq!(ledger.supply_y, 25_000);
    assert_eq!(ledger.supply_n, 0);
}

#[test]
fn claim_redeems_winning_yes_tokens_from_pot() {
    let mut ledger = do_launched_with_buyer();
    let out_amount = 25_000u64;
    buy(&mut ledger, true, 0, out_amount, false, u64::MAX).unwrap();
    resolve(&mut ledger, 0).unwrap();

    let pot_before = ledger.pot.unwrap();
    let supply_y = ledger.supply_y;
    let buyer_pot_before = ledger.buyer_pot;
    claim(&mut ledger, true, false).unwrap();

    let expected = (pot_before as u128 * out_amount as u128 / supply_y as u128) as u64;
    assert_eq!(ledger.buyer_pot, buyer_pot_before + expected);
    assert!(ledger.buyer_y.is_none(), "YES token account should be closed after claim");
}

// ---- rejected instructions ----

#[test]
fn rejects_initialize_with_empty_metadata() {
    let result = try_initialize("", "FOX", "https://example.com", false);
    assert_eq!(result.err(), Some(exchange(FloatingOddsExchangeError::InvalidMintMetadata)));
}

#[test]
fn rejects_initialize_when_pot_mint_is_freezable() {
    let result = try_initialize("FOX", "FOX", "https://example.com", true);
    assert_eq!(result.err(), Some(exchange(FloatingOddsExchangeError::PotMintFreezable)));
}

#[test]
fn rejects_initialize_when_prefixed_name_exceeds_metadata_buffer() {
    // NAME_MAX_LEN is 32; the prefix adds 1 byte ("Y"/"N"), so a 32-byte name does not fit.
    let name = "abcdefghijklmnopqrstuvwxyz012345"; // 32 bytes
    assert_eq!(name.len(), 32);
    let result = try_initialize(name, "FOX", "https://example.com", false);
    assert_eq!(result.err(), Some(exchange(FloatingOddsExchangeError::InvalidMetadata)));
}

#[test]
fn rejects_initialize_with_fee_above_whole() {
    let result = program::initialize(&initialize_ctx(false), &bumps(), SEED, 10_001, "FOX", "FOX", "u");
    assert_eq!(
        result.err(),
        Some(ProgramError::BasisPoints(BasisPointsError::InvalidBasisPoints))
    );
}

#[test]
fn rejects_launch_when_amounts_are_zero() {
    let mut ledger = do_initialize();
    let result = launch_as(&mut ledger, authority(), 0, POT_LIQUIDITY);
    assert_eq!(result, Err(exchange(FloatingOddsExchangeError::InvalidAmount)));
}

#[test]
fn rejects_second_launch() {
    let mut ledger = do_launch();
    let result = launch_as(&mut ledger, authority(), SIDE_LIQUIDITY, POT_LIQUIDITY);
    assert_eq!(result, Err(exchange(FloatingOddsExchangeError::MarketAlreadyLaunched)));
}

#[test]
fn rejects_launch_from_non_authority() {
    let mut ledger = do_initialize();
    let result = launch_as(&mut ledger, stranger(), SIDE_LIQUIDITY, POT_LIQUIDITY);
    assert_eq!(result, Err(exchange(FloatingOddsExchangeError::UnauthorizedAuthority)));
}

#[test]
fn rejects_buy_before_launch() {
    let mut ledger = do_initialize();
    ledger.buyer_pot = BUYER_POT_BALANCE;
    let result = buy(&mut ledger, true, 0, 1_000, false, u64::MAX);
    assert_eq!(result, Err(exchange(FloatingOddsExchangeError::MarketNotLaunched)));
}

#[test]
fn rejects_buy_when_paused() {
    let mut ledger = do_launched_with_buyer();
    pause_as(&mut ledger, authority()).unwrap();
    let result = buy(&mut ledger, true, 0, 1_000, false, u64::MAX);
    assert_eq!(result, Err(exchange(FloatingOddsExchangeError::MarketPaused)));
}

#[test]
fn rejects_buy_after_resolve() {
    let mut ledger = do_launched_with_buyer();
    resolve(&mut ledger, 0).unwrap();
    let result = buy(&mut ledger, true, 0, 1_000, false, u64::MAX);
    assert_eq!(result, Err(exchange(FloatingOddsExchangeError::MarketAlreadyResolved)));
}

#[test]
fn rejects_buy_with_unrelated_mint() {
    let mut ledger = do_launched_with_buyer();
    let result = buy_with(&mut ledger, other_mint(), mint_n(), 0, 1_000, false, u64::MAX);
    assert_eq!(result, Err(exchange(FloatingOddsExchangeError::InvalidMint)));
}

#[test]
fn rejects_buy_when_exact_out_slippage_exceeded() {
    let mut ledger = do_launched_with_buyer();
    let result = buy(&mut ledger, true, 0, 10_000, false, 1);
    assert_eq!(result, Err(exchange(FloatingOddsExchangeError::SlippageExceeded)));
}

#[test]
fn rejects_buy_when_exact_in_cannot_mint_any_amount() {
    let mut ledger = do_launched_with_buyer();
    // Cost of one unit at 50/50 with precision 1e6 is ~5e5; budget of 1 -> InsufficientLiquidity.
    let result = buy(&mut ledger, true, 1, 0, true, 0);
    assert_eq!(result, Err(exchange(FloatingOddsExchangeError::InsufficientLiquidity)));
}

#[test]
fn rejects_buy_with_zero_exact_in_budget() {
    let mut ledger = do_launched_with_buyer();
    let result = buy(&mut ledger, true, 0, 0, true, 0);
    assert_eq!(result, Err(exchange(FloatingOddsExchangeError::InvalidAmount)));
}

#[test]
fn rejects_buy_when_exact_in_misses_minimum_out() {
    let mut ledger = do_launched_with_buyer();
    let result = buy(&mut ledger, true, 5_000_000, 0, true, 1_000);
    assert_eq!(result, Err(exchange(FloatingOddsExchangeError::SlippageExceeded)));
}

#[test]
fn rejects_buy_with_mismatched_other_mint() {
    let mut ledger = do_launched_with_buyer();
    let result = buy_with(&mut ledger, mint_y(), other_mint(), 0, 1_000, false, u64::MAX);
    assert_eq!(result, Err(ProgramError::InvalidSeeds));
}

#[test]
fn rejects_pause_before_launch() {
    let mut ledger = do_initialize();
    let result = pause_as(&mut ledger, authority());
    assert_eq!(result, Err(exchange(FloatingOddsExchangeError::MarketNotLaunched)));
}

#[test]
fn rejects_pause_from_non_authority() {
    let mut ledger = do_launch();
    let result = pause_as(&mut ledger, stranger());
    assert_eq!(result, Err(exchange(FloatingOddsExchangeError::UnauthorizedAuthority)));
}

#[test]
fn rejects_pause_after_resolve() {
    let mut ledger = do_launch();
    resolve(&mut ledger, 0).unwrap();
    let result = pause_as(&mut ledger, authority());
    assert_eq!(result, Err(exchange(FloatingOddsExchangeError::MarketAlreadyResolved)));
}

#[test]
fn rejects_resolve_with_undecided_outcome() {
    let mut ledger = do_launch();
    let result = resolve(&mut ledger, 2);
    assert_eq!(result, Err(exchange(FloatingOddsExchangeError::MarketIsAlreadyUndecided)));
}

#[test]
fn rejects_resolve_with_invalid_outcome_byte() {
    let mut ledger = do_launch();
    let result = resolve(&mut ledger, 4);
    assert_eq!(result, Err(exchange(FloatingOddsExchangeError::InvalidOutcome)));
}

#[test]
fn rejects_resolve_before_launch() {
    let mut ledger = do_initialize();
    let result = resolve(&mut ledger, 0);
    assert_eq!(result, Err(exchange(FloatingOddsExchangeError::MarketNotLaunched)));
}

#[test]
fn rejects_second_resolve() {
    let mut ledger = do_launch();
    resolve(&mut ledger, 0).unwrap();
    let result = resolve(&mut ledger, 1);
    assert_eq!(result, Err(exchange(FloatingOddsExchangeError::MarketAlreadyResolved)));
}

#[test]
fn rejects_claim_before_resolve() {
    let mut ledger = do_launched_with_buyer();
    buy(&mut ledger, true, 0, 5_000, false, u64::MAX).unwrap();
    let result = claim(&mut ledger, true, false);
    assert_eq!(result, Err(exchange(FloatingOddsExchangeError::MarketNotResolved)));
}

#[test]
fn rejects_claim_without_winning_token_account() {
    let mut ledger = do_launched_with_buyer();
    buy(&mut ledger, true, 0, 5_000, false, u64::MAX).unwrap();
    resolve(&mut ledger, 0).unwrap();
    // Outcome Yes but the YES token account is left out.
    let result = claim(&mut ledger, false, false);
    assert_eq!(result, Err(exchange(FloatingOddsExchangeError::TokenAccountNotInitialized)));
}

#[test]
fn rejects_claim_with_zero_winning_balance() {
    let mut ledger = do_launched_with_buyer();
    resolve(&mut ledger, 0).unwrap();
    let result = claim(&mut ledger, true, false);
    assert_eq!(result, Err(exchange(FloatingOddsExchangeError::InvalidAmount)));
}

// ---- further flows ----

#[test]
fn refund_takes_no_fee_and_pays_both_sides_pro_rata() {
    let mut ledger = do_launched_with_buyer();
    buy(&mut ledger, true, 0, 30_000, false, u64::MAX).unwrap();
    buy(&mut ledger, false, 0, 10_000, false, u64::MAX).unwrap();
    let pot_before = ledger.pot.unwrap();
    resolve(&mut ledger, 3).unwrap();
    assert_eq!(ledger.pot, Some(pot_before));
    assert_eq!(ledger.authority_pot, 0);
    // Only the buyer's tokens remain after the vaults are burned: the buyer takes it all.
    let buyer_pot_before = ledger.buyer_pot;
    claim(&mut ledger, true, true).unwrap();
    assert_eq!(ledger.buyer_pot, buyer_pot_before + pot_before);
    assert_eq!(ledger.pot, Some(0));
}

#[test]
fn claims_are_not_blocked_by_pause() {
    let mut ledger = do_launched_with_buyer();
    buy(&mut ledger, false, 0, 20_000, false, u64::MAX).unwrap();
    pause_as(&mut ledger, authority()).unwrap();
    resolve(&mut ledger, 1).unwrap();
    let pot_before = ledger.pot.unwrap();
    claim(&mut ledger, false, true).unwrap();
    assert_eq!(ledger.pot, Some(0));
    assert!(pot_before > 0);
}

#[test]
fn rejects_claim_with_wrong_outcome_mint() {
    let ledger = do_launch();
    let mut market = ledger.market;
    market.outcome = 0;
    let ctx = Claim {
        claimer: buyer(),
        market_address: market_address(),
        market,
        pot_mint: pot_mint(),
        mint_y: other_mint(),
        mint_y_supply: 1,
        mint_n: mint_n(),
        mint_n_supply: 1,
        expected_mint_y: MintY { address: mint_y() },
        expected_mint_n: MintN { address: mint_n() },
        pot_amount: 10,
        claimer_mint_y_token_account: Some(1),
        claimer_mint_n_token_account: None,
        slot: SLOT,
    };
    assert_eq!(program::claim(&ctx).err(), Some(ProgramError::InvalidSeeds));
}

#[test]
fn settled_market_rejects_pause_from_stranger() {
    let mut ledger = do_launch();
    resolve(&mut ledger, 3).unwrap();
    assert_eq!(ledger.market.outcome, 3);
    assert!(ledger.market.is_launched);
    let result = pause_as(&mut ledger, stranger());
    assert_eq!(result, Err(exchange(FloatingOddsExchangeError::UnauthorizedAuthority)));
    let result = resolve(&mut ledger, 0);
    assert_eq!(result, Err(exchange(FloatingOddsExchangeError::MarketAlreadyResolved)));
}
