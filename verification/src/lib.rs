//! A peer-to-peer lending accounting engine.
//!
//! The engine keeps its persistent state in fixed-size byte buffers supplied
//! by a host ledger runtime: a lender ledger (a fixed-capacity array of
//! per-lender slots), and one buffer per loan (a header followed by an
//! append-only contribution log and an append-only repayment log).  Every
//! record has a fixed little-endian byte layout; the codec in [`state`]
//! converts between records and their byte spans, and the operations in
//! [`processor`] validate preconditions and mutate the buffers while
//! preserving the financial invariants.

use vstd::prelude::*;

pub mod buffer;
pub mod error;
pub mod instruction;
pub mod keys;
pub mod ledger;
pub mod loan;
pub mod processor;
pub mod state;
pub mod utils;

verus! {

/// Smallest unit scale: one whole coin is `10^9` units.
pub const DASSI_COIN_DECIMALS: u64 = 1_000_000_000;

} // verus!
