//! Records the exchange emits after each instruction.
use vstd::prelude::*;

use crate::state::Address;

verus! {

/// A market was created.
#[derive(Clone, Copy, Debug)]
pub struct MarketInitialized {
    pub market: Address,
    pub authority: Address,
    pub seed: u64,
    pub slot: u64,
}

/// A market was seeded with liquidity and opened.
#[derive(Clone, Copy, Debug)]
pub struct MarketLaunched {
    pub market: Address,
    pub slot: u64,
}

/// A bet was bought.
#[derive(Clone, Copy, Debug)]
pub struct BetCreated {
    pub buyer: Address,
    pub market: Address,
    pub in_amount: u64,
    pub out_amount: u64,
    pub slot: u64,
}

/// Winnings or a refund were paid out.
#[derive(Clone, Copy, Debug)]
pub struct WinningsClaimed {
    pub claimer: Address,
    pub market: Address,
    pub amount: u64,
    pub slot: u64,
}

/// A market was settled.
#[derive(Clone, Copy, Debug)]
pub struct MarketResolved {
    pub market: Address,
    pub slot: u64,
}

/// A market stopped taking bets.
#[derive(Clone, Copy, Debug)]
pub struct MarketPaused {
    pub market: Address,
    pub slot: u64,
}

} // verus!
