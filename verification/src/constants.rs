//! Limits of the outcome tokens' metadata.
use vstd::prelude::*;

verus! {

/// Longest metadata name, in bytes.
pub const NAME_MAX_LEN: usize = 32;

/// Longest metadata symbol, in bytes.
pub const SYMBOL_MAX_LEN: usize = 10;

/// Longest metadata URI, in bytes.
pub const URI_MAX_LEN: usize = 200;

} // verus!
