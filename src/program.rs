//! Data of the on-chain agent program: instructions, account state and errors.

use vstd::prelude::*;

pub mod error;
pub mod instruction;
pub mod state;

verus! {

/// Dispatcher of the program's instructions.
pub struct Processor;

} // verus!
