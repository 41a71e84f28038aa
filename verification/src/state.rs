//! The market account and the outcome it settles on.
use vstd::prelude::*;

use crate::errors::{FloatingOddsExchangeError, ProgramError};

verus! {

/// A 32-byte account address.
#[derive(Clone, Copy, Debug)]
pub struct Address {
    pub bytes: [u8; 32],
}

impl View for Address {
    type V = Seq<u8>;

    open spec fn view(&self) -> Seq<u8> {
        self.bytes@
    }
}

impl Address {
    /// The address made of these 32 bytes.
    pub fn new_from_array(bytes: [u8; 32]) -> (r: Address)
        ensures
            r@ == bytes@,
    {
        Address { bytes }
    }

    /// Whether two addresses are the same 32 bytes.
    pub fn same_as(&self, other: &Address) -> (r: bool)
        ensures
            r == (self@ == other@),
    {
        let mut i: usize = 0;
        while i < 32
            invariant
                0 <= i <= 32,
                self.bytes@.len() == 32,
                other.bytes@.len() == 32,
                forall|j: int| 0 <= j < i ==> self.bytes@[j] == other.bytes@[j],
            decreases 32 - i,
        {
            if self.bytes[i] != other.bytes[i] {
                return false;
            }
            i = i + 1;
        }
        assert(self.bytes@ =~= other.bytes@);
        true
    }
}

/// How a market settles. Stored in the market as its byte: 0 to 3 in this order.
#[derive(Clone, Copy, Debug, PartialEq, Eq, Structural)]
pub enum Outcome {
    Yes,
    No,
    Undecided,
    Refunded,
}

impl Outcome {
    /// The byte that stands for the outcome.
    pub open spec fn byte(self) -> u8 {
        match self {
            Outcome::Yes => 0,
            Outcome::No => 1,
            Outcome::Undecided => 2,
            Outcome::Refunded => 3,
        }
    }

    /// The outcome a byte stands for, or `InvalidOutcome` above 3.
    pub open spec fn from_byte(value: u8) -> Result<Outcome, ProgramError> {
        if value == 0 {
            Ok(Outcome::Yes)
        } else if value == 1 {
            Ok(Outcome::No)
        } else if value == 2 {
            Ok(Outcome::Undecided)
        } else if value == 3 {
            Ok(Outcome::Refunded)
        } else {
            Err(ProgramError::Exchange(FloatingOddsExchangeError::InvalidOutcome))
        }
    }
}

impl From<Outcome> for u8 {
    fn from(outcome: Outcome) -> (r: u8) {
        match outcome {
            Outcome::Yes => 0,
            Outcome::No => 1,
            Outcome::Undecided => 2,
            Outcome::Refunded => 3,
        }
    }
}

impl vstd::std_specs::convert::FromSpecImpl<Outcome> for u8 {
    open spec fn obeys_from_spec() -> bool {
        true
    }

    open spec fn from_spec(outcome: Outcome) -> u8 {
        outcome.byte()
    }
}

impl TryFrom<u8> for Outcome {
    type Error = ProgramError;

    fn try_from(value: u8) -> (r: Result<Outcome, ProgramError>) {
        match value {
            0 => Ok(Outcome::Yes),
            1 => Ok(Outcome::No),
            2 => Ok(Outcome::Undecided),
            3 => Ok(Outcome::Refunded),
            _ => Err(ProgramError::Exchange(FloatingOddsExchangeError::InvalidOutcome)),
        }
    }
}

impl vstd::std_specs::convert::TryFromSpecImpl<u8> for Outcome {
    open spec fn obeys_try_from_spec() -> bool {
        true
    }

    open spec fn try_from_spec(value: u8) -> Result<Outcome, ProgramError> {
        Outcome::from_byte(value)
    }
}

/// The byte of an outcome.
pub fn outcome_byte(outcome: Outcome) -> (r: u8)
    ensures
        r == outcome.byte(),
{
    u8::from(outcome)
}

/// The outcome of a byte, or `InvalidOutcome` above 3.
pub fn parse_outcome(value: u8) -> (r: Result<Outcome, ProgramError>)
    ensures
        r == Outcome::from_byte(value),
{
    Outcome::try_from(value)
}

/// The address of the market's YES outcome mint, derived from the market's address.
#[derive(Clone, Copy, Debug)]
pub struct MintY {
    pub address: Address,
}

/// The address of the market's NO outcome mint, derived from the market's address.
#[derive(Clone, Copy, Debug)]
pub struct MintN {
    pub address: Address,
}

/// The market account.
#[derive(Clone, Copy, Debug)]
pub struct Market {
    pub seed: u64,
    pub authority: Address,
    pub payout: Address,
    pub pot_mint: Address,
    pub precision: u64,
    pub outcome: u8,
    pub fee_bps: u16,
    pub mint_y_bump: u8,
    pub mint_n_bump: u8,
    pub bump: u8,
    pub is_launched: bool,
    pub is_paused: bool,
}

impl Market {
    /// What every market that the exchange has written satisfies: a stored outcome, a fee
    /// rate of at most 100%, pausing and settling only after launch.
    pub open spec fn wf(&self) -> bool {
        &&& self.outcome <= 3
        &&& self.fee_bps <= 10000
        &&& self.is_paused ==> self.is_launched
        &&& self.outcome != Outcome::Undecided.byte() ==> self.is_launched
    }

    /// Whether the market still takes a settlement (its outcome is `Undecided`).
    pub open spec fn is_undecided(&self) -> bool {
        self.outcome == Outcome::Undecided.byte()
    }
}

} // verus!
