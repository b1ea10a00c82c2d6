//! A multisignature wallet: account layouts, instruction payloads and the
//! decision logic of each instruction, with their contracts.

mod clock;
pub mod codec;
pub mod error;
pub mod instruction;
pub mod laws;
pub mod state;

use vstd::prelude::*;

verus! {

} // verus!
