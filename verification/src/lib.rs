//! Client-side protocol for a remote vending-machine ledger program:
//! fixed-layout state codec, instruction encoding, account resolution,
//! transaction planning, and reconciliation reporting.

use vstd::prelude::*;

pub mod errors;
pub mod ids;
pub mod instruction;
pub mod orchestrate;
pub mod report;
pub mod resolver;
pub mod state;
pub mod token;

verus! {

} // verus!
