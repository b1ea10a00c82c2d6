use vstd::prelude::*;

verus! {

/// The stored size of an account record or of an instruction payload.
pub trait DataLen {
    const LEN: usize;
}

} // verus!
