pub mod add_member;
pub mod create_proposal;
pub mod execute;
pub mod init_multisig;
pub mod modify_config;
pub mod remove_member;
pub mod vote;

pub use create_proposal::CreateProposalData;
pub use vote::VoteData;

use vstd::prelude::*;

use crate::error::ProgramError;

verus! {

/// The instructions of the program, by the first byte of their data.
#[derive(Clone, Copy, Debug, PartialEq, Eq, Structural)]
pub enum MultisigInstruction {
    InitMultisig,
    AddMember,
    ModifyConfig,
    RemoveMember,
    CreateProposal,
    Vote,
    Execute,
}

/// The instruction that a tag byte selects, if any.
pub open spec fn instruction_of(tag: u8) -> Option<MultisigInstruction> {
    if tag == 0 {
        Some(MultisigInstruction::InitMultisig)
    } else if tag == 1 {
        Some(MultisigInstruction::AddMember)
    } else if tag == 2 {
        Some(MultisigInstruction::ModifyConfig)
    } else if tag == 3 {
        Some(MultisigInstruction::RemoveMember)
    } else if tag == 4 {
        Some(MultisigInstruction::CreateProposal)
    } else if tag == 5 {
        Some(MultisigInstruction::Vote)
    } else if tag == 6 {
        Some(MultisigInstruction::Execute)
    } else {
        None
    }
}

/// Selects the instruction by the first byte of the instruction data; the
/// rest of the data is the instruction's payload. Empty data and unknown
/// tags are refused.
pub fn decode_instruction(data: &[u8]) -> (r: Result<MultisigInstruction, ProgramError>)
    ensures
        data@.len() == 0 ==> r == Err::<MultisigInstruction, ProgramError>(ProgramError::InvalidInstructionData),
        data@.len() > 0 ==> r == match instruction_of(data@[0]) {
            Some(i) => Ok::<MultisigInstruction, ProgramError>(i),
            None => Err(ProgramError::InvalidInstructionData),
        },
{
    if data.len() == 0 {
        return Err(ProgramError::InvalidInstructionData);
    }
    match data[0] {
        0 => Ok(MultisigInstruction::InitMultisig),
        1 => Ok(MultisigInstruction::AddMember),
        2 => Ok(MultisigInstruction::ModifyConfig),
        3 => Ok(MultisigInstruction::RemoveMember),
        4 => Ok(MultisigInstruction::CreateProposal),
        5 => Ok(MultisigInstruction::Vote),
        6 => Ok(MultisigInstruction::Execute),
        _ => Err(ProgramError::InvalidInstructionData),
    }
}

/// The checks that the instructions on an existing multisig make first: at
/// least `required` accounts, a signing payer, and a multisig account that
/// holds data.
pub open spec fn accounts_check(num_accounts: usize, required: usize, payer_is_signer: bool, multisig_is_empty: bool) -> Result<(), ProgramError> {
    if num_accounts < required {
        Err(ProgramError::NotEnoughAccountKeys)
    } else if !payer_is_signer {
        Err(ProgramError::MissingRequiredSignature)
    } else if multisig_is_empty {
        Err(ProgramError::InvalidAccountData)
    } else {
        Ok(())
    }
}

/// Makes the checks of `accounts_check`.
pub fn check_accounts(num_accounts: usize, required: usize, payer_is_signer: bool, multisig_is_empty: bool) -> (r: Result<(), ProgramError>)
    ensures
        r == accounts_check(num_accounts, required, payer_is_signer, multisig_is_empty),
{
    if num_accounts < required {
        return Err(ProgramError::NotEnoughAccountKeys);
    }
    if !payer_is_signer {
        return Err(ProgramError::MissingRequiredSignature);
    }
    if multisig_is_empty {
        return Err(ProgramError::InvalidAccountData);
    }
    Ok(())
}

/// The lamports an account holding `held` must receive to hold `required`.
pub fn lamports_shortfall(required: u64, held: u64) -> (r: u64)
    requires
        held <= required,
    ensures
        r == required - held,
{
    required - held
}

/// The lamports an account holding `held` has beyond `required`.
pub fn lamports_surplus(held: u64, required: u64) -> (r: u64)
    requires
        required <= held,
    ensures
        r == held - required,
{
    held - required
}

} // verus!
