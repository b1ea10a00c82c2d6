//! Program-derived addresses: the seeds each account derives from, and the
//! check of a derived address against the account that was passed.

use vstd::prelude::*;

use crate::error::{MultisigError, ProgramError, program_error_of};

verus! {

/// What checking `derived` against `pda` gives: the derivation's own error,
/// `PdaMismatch` when the addresses differ, or success.
pub open spec fn derived_check(derived: Result<[u8; 32], ProgramError>, pda: Seq<u8>) -> Result<(), ProgramError> {
    match derived {
        Err(e) => Err(e),
        Ok(d) => if d@ == pda { Ok(()) } else { Err(program_error_of(MultisigError::PdaMismatch)) },
    }
}

/// Checks an address derived by the runtime against the account's address.
pub fn check_derived(derived: Result<[u8; 32], ProgramError>, pda: &[u8; 32]) -> (r: Result<(), ProgramError>)
    ensures
        r == derived_check(derived, pda@),
{
    match derived {
        Err(e) => Err(e),
        Ok(d) => {
            if crate::codec::keys_equal(&d, pda) {
                Ok(())
            } else {
                Err(ProgramError::Custom(MultisigError::PdaMismatch.code()))
            }
        },
    }
}

/// The bytes of the text "multisig".
pub open spec fn multisig_seed() -> Seq<u8> {
    seq![109u8, 117, 108, 116, 105, 115, 105, 103]
}

/// The bytes of the text "proposal".
pub open spec fn proposal_seed() -> Seq<u8> {
    seq![112u8, 114, 111, 112, 111, 115, 97, 108]
}

/// The bytes of the text "vault".
pub open spec fn vault_seed() -> Seq<u8> {
    seq![118u8, 97, 117, 108, 116]
}

/// The bytes of the text "multisig".
pub fn multisig_seed_bytes() -> (r: Vec<u8>)
    ensures
        r@ == multisig_seed(),
{
    let r: Vec<u8> = vec![109u8, 117, 108, 116, 105, 115, 105, 103];
    assert(r@ =~= multisig_seed());
    r
}

/// The bytes of the text "proposal".
pub fn proposal_seed_bytes() -> (r: Vec<u8>)
    ensures
        r@ == proposal_seed(),
{
    let r: Vec<u8> = vec![112u8, 114, 111, 112, 111, 115, 97, 108];
    assert(r@ =~= proposal_seed());
    r
}

/// The bytes of the text "vault".
pub fn vault_seed_bytes() -> (r: Vec<u8>)
    ensures
        r@ == vault_seed(),
{
    let r: Vec<u8> = vec![118u8, 97, 117, 108, 116];
    assert(r@ =~= vault_seed());
    r
}

/// The bytes of a key, as an owned seed.
pub fn key_seed(key: &[u8; 32]) -> (r: Vec<u8>)
    ensures
        r@ == key@,
{
    let mut r: Vec<u8> = Vec::new();
    let mut i: usize = 0;
    while i < 32
        invariant
            key@.len() == 32,
            0 <= i <= 32,
            r@ == key@.take(i as int),
        decreases 32 - i,
    {
        r.push(key[i]);
        assert(key@.take(i + 1) =~= key@.take(i as int).push(key@[i as int]));
        i = i + 1;
    }
    assert(key@.take(32) =~= key@);
    r
}

} // verus!
