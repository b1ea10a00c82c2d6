use vstd::prelude::*;

verus! {

/// Errors specific to the multisig program. Each one travels to the runtime
/// as `ProgramError::Custom(code)`, with the code given by `MultisigError::code`.
#[derive(Clone, Copy, Debug, PartialEq, Eq, Structural)]
pub enum MultisigError {
    /// overflow error
    WriteOverflow,
    /// invalid instruction data
    InvalidInstructionData,
    /// pda mismatch
    PdaMismatch,
    /// invalid owner
    InvalidOwner,
    /// multisig already initialized
    MultisigAlreadyInitialized,
    /// member not found
    MemberNotFound,
    /// not admin
    NotAdmin,
    /// invalid proposal status
    InvalidProposalStatus,
    /// member already exists
    MemberAlreadyExists,
    /// member already voted
    MemberAlreadyVoted,
    /// invalid voting option
    InvalidVotingOption,
    /// proposal not expired
    ProposalNotExpired,
}

/// The numeric code of each error: its position in the declaration.
pub open spec fn error_code(e: MultisigError) -> u32 {
    match e {
        MultisigError::WriteOverflow => 0,
        MultisigError::InvalidInstructionData => 1,
        MultisigError::PdaMismatch => 2,
        MultisigError::InvalidOwner => 3,
        MultisigError::MultisigAlreadyInitialized => 4,
        MultisigError::MemberNotFound => 5,
        MultisigError::NotAdmin => 6,
        MultisigError::InvalidProposalStatus => 7,
        MultisigError::MemberAlreadyExists => 8,
        MultisigError::MemberAlreadyVoted => 9,
        MultisigError::InvalidVotingOption => 10,
        MultisigError::ProposalNotExpired => 11,
    }
}

impl MultisigError {
    /// The code under which the runtime reports this error.
    pub fn code(&self) -> (r: u32)
        ensures
            r == error_code(*self),
    {
        match self {
            MultisigError::WriteOverflow => 0,
            MultisigError::InvalidInstructionData => 1,
            MultisigError::PdaMismatch => 2,
            MultisigError::InvalidOwner => 3,
            MultisigError::MultisigAlreadyInitialized => 4,
            MultisigError::MemberNotFound => 5,
            MultisigError::NotAdmin => 6,
            MultisigError::InvalidProposalStatus => 7,
            MultisigError::MemberAlreadyExists => 8,
            MultisigError::MemberAlreadyVoted => 9,
            MultisigError::InvalidVotingOption => 10,
            MultisigError::ProposalNotExpired => 11,
        }
    }
}

/// The errors that the program's logic reports to the runtime: the runtime's
/// own error kinds that this program raises, and `Custom` for a `MultisigError`.
/// Errors raised by the runtime itself (a failed cross-program call, a failed
/// system call) travel as `Runtime` with the runtime's numeric code.
#[derive(Clone, Copy, Debug, PartialEq, Eq, Structural)]
pub enum ProgramError {
    Custom(u32),
    InvalidInstructionData,
    InvalidAccountData,
    MissingRequiredSignature,
    AccountAlreadyInitialized,
    NotEnoughAccountKeys,
    Runtime(u64),
}

/// The `ProgramError` that a `MultisigError` becomes.
pub open spec fn program_error_of(e: MultisigError) -> ProgramError {
    ProgramError::Custom(error_code(e))
}

impl From<MultisigError> for ProgramError {
    fn from(e: MultisigError) -> (r: ProgramError) {
        ProgramError::Custom(e.code())
    }
}

impl vstd::std_specs::convert::FromSpecImpl<MultisigError> for ProgramError {
    open spec fn obeys_from_spec() -> bool {
        true
    }

    open spec fn from_spec(e: MultisigError) -> ProgramError {
        program_error_of(e)
    }
}

/// The `ProgramError` that a `MultisigError` becomes, as a plain call.
pub fn to_program_error(e: MultisigError) -> (r: ProgramError)
    ensures
        r == program_error_of(e),
{
    ProgramError::Custom(e.code())
}

} // verus!
