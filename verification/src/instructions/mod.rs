//! The decisions of each instruction of the exchange: what it checks, how it changes the
//! market, and which token movements it asks for.
pub mod launch;
pub mod pause;
pub mod resolve;
pub mod buy;
pub mod claim;
pub mod initialize;
