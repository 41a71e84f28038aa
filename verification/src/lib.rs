use vstd::prelude::*;

pub mod basis;
pub mod checked;
pub mod constants;
pub mod errors;
pub mod events;
pub mod fixed;
pub mod instructions;
pub mod laws;
pub mod math;
pub mod program;
pub mod state;

verus! {

} // verus!
