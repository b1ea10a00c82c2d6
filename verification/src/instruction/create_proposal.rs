use vstd::prelude::*;
use vstd::bytes::*;

use crate::codec::{push_range, get_u64_le, put_u64_le, u64_at};
use crate::error::{MultisigError, ProgramError};
use crate::instruction::accounts_check;
use crate::state::multisig::{
    first_match, get_member_index_if_exists, header_of, no_match, read_header, record, search_error, MultisigView,
    MULTISIG_LEN,
};
use crate::state::pda::derived_check;
use crate::state::proposal::{pending_proposal, Proposal, ProposalView};
use crate::state::utils::DataLen;

verus! {

/// The payload of the instruction: the bumps of the multisig's and the proposal's addresses, and the multisig's id.
#[derive(Debug, Clone, Copy)]
pub struct CreateProposalData {
    pub multisig_bump: u8,
    pub proposal_bump: u8,
    pub multisig_id: u64,
}

impl DataLen for CreateProposalData {
    const LEN: usize = 10;
}

impl CreateProposalData {
    /// The payload as it is sent: field after field, integers in
    /// little-endian order.
    pub open spec fn to_layout(self) -> Seq<u8> {
        seq![self.multisig_bump, self.proposal_bump]
            + spec_u64_to_le_bytes(self.multisig_id)
    }

    /// The payload that the first `CreateProposalData::LEN` bytes hold.
    pub open spec fn from_layout(s: Seq<u8>) -> CreateProposalData {
        CreateProposalData {
            multisig_bump: s[0],
            proposal_bump: s[1],
            multisig_id: u64_at(s, 2),
        }
    }

    /// Reads the payload from the first `CreateProposalData::LEN` bytes.
    pub fn from_bytes(bytes: &[u8]) -> (r: CreateProposalData)
        requires
            bytes@.len() >= 10,
        ensures
            r == CreateProposalData::from_layout(bytes@),
    {
        CreateProposalData {
            multisig_bump: bytes[0],
            proposal_bump: bytes[1],
            multisig_id: get_u64_le(bytes, 2),
        }
    }

    /// The payload as it is sent.
    pub fn to_bytes(&self) -> (r: [u8; 10])
        ensures
            r@ == self.to_layout(),
    {
        proof {
            lemma_auto_spec_u64_to_from_le_bytes();
        }
        let mut bytes = [0u8; 10];
        bytes[0] = self.multisig_bump;
        bytes[1] = self.proposal_bump;
        put_u64_le(&mut bytes, 2, self.multisig_id);
        assert(bytes@ =~= self.to_layout());
        bytes
    }
}

/// Reading back a sent payload gives the payload that was sent.
pub proof fn lemma_create_proposal_data_roundtrip(d: CreateProposalData)
    ensures
        d.to_layout().len() == 10,
        CreateProposalData::from_layout(d.to_layout()) == d,
{
    lemma_auto_spec_u64_to_from_le_bytes();
    let s = d.to_layout();
    assert(s.subrange(2, 10) =~= spec_u64_to_le_bytes(d.multisig_id));
}

/// Sending a payload read from `CreateProposalData::LEN` bytes gives back those bytes.
pub proof fn lemma_create_proposal_data_canonical(s: Seq<u8>)
    requires
        s.len() == 10,
    ensures
        CreateProposalData::from_layout(s).to_layout() == s,
{
    lemma_auto_spec_u64_to_from_le_bytes();
    assert(spec_u64_to_le_bytes(spec_u64_from_le_bytes(s.subrange(2, 10))) == s.subrange(2, 10));
    assert(CreateProposalData::from_layout(s).to_layout() =~= s);
}

/// The checks made on the accounts before anything is read: those of
/// `accounts_check` with four accounts, then a proposal account that holds
/// neither data nor lamports.
pub fn check_create_proposal_accounts(
    num_accounts: usize,
    payer_is_signer: bool,
    multisig_is_empty: bool,
    proposal_is_empty: bool,
    proposal_lamports: u64,
) -> (r: Result<(), ProgramError>)
    ensures
        r == match accounts_check(num_accounts, 4, payer_is_signer, multisig_is_empty) {
            Err(e) => Err::<(), ProgramError>(e),
            Ok(()) => if !proposal_is_empty || proposal_lamports != 0 {
                Err(ProgramError::InvalidAccountData)
            } else {
                Ok(())
            },
        },
{
    crate::instruction::check_accounts(num_accounts, 4, payer_is_signer, multisig_is_empty)?;
    if !proposal_is_empty || proposal_lamports != 0 {
        return Err(ProgramError::InvalidAccountData);
    }
    Ok(())
}

/// Checks the proposal's address, then finds the payer's member record, whose
/// id becomes the proposal's creator: any member may create a proposal.
/// `proposal_derived` is what the runtime derived from `Proposal::pda_seeds(multisig_key, counter, proposal_bump)`,
/// with `counter` the multisig's proposal counter.
pub fn authorize_create_proposal(
    multisig_data: &[u8],
    payer: &[u8; 32],
    proposal_key: &[u8; 32],
    proposal_derived: Result<[u8; 32], ProgramError>,
) -> (r: Result<u8, ProgramError>)
    requires
        multisig_data@.len() >= MULTISIG_LEN,
    ensures
        match derived_check(proposal_derived, proposal_key@) {
            Err(e) => r == Err::<u8, ProgramError>(e),
            Ok(_) => match r {
                Ok(id) => exists|i: int| first_match(multisig_data@, i, payer@, false)
                    && id == record(multisig_data@, i).member_id,
                Err(e) => no_match(multisig_data@, payer@, false)
                    && e == search_error(multisig_data@, MultisigError::MemberNotFound),
            },
        },
{
    Proposal::validate_pda(proposal_key, proposal_derived)?;
    get_member_index_if_exists(payer, multisig_data)
}

/// The proposal that the multisig at `multisig_key` creates at clock time
/// `now`, by member `creator`: the next id, pending, no votes.
pub open spec fn new_proposal(data: Seq<u8>, multisig_key: Seq<u8>, creator: u8, proposal_bump: u8, now: i64) -> ProposalView {
    let h = header_of(data);
    pending_proposal(multisig_key, h.proposal_counter, creator, h.max_expiry_duration, proposal_bump, now)
}

/// The multisig account's data once a proposal is created: the counter of
/// proposals is one more.
pub open spec fn counted_layout(data: Seq<u8>) -> Seq<u8> {
    let h = header_of(data);
    MultisigView { proposal_counter: (h.proposal_counter + 1) as u64, ..h }.to_layout()
        + data.skip(MULTISIG_LEN as int)
}

/// The multisig account's data with one more proposal counted.
pub fn count_proposal(multisig_data: &[u8]) -> (r: Vec<u8>)
    requires
        multisig_data@.len() >= MULTISIG_LEN,
        header_of(multisig_data@).proposal_counter < u64::MAX,
    ensures
        r@ == counted_layout(multisig_data@),
{
    let len: usize = multisig_data.len();
    let mut multisig = read_header(multisig_data);
    multisig.proposal_counter = multisig.proposal_counter + 1;
    let header = multisig.to_bytes();
    let mut d: Vec<u8> = Vec::new();
    push_range(&mut d, &header, 0, 90);
    assert(header@.subrange(0, 90) =~= header@);
    push_range(&mut d, multisig_data, 90, len);
    assert(multisig_data@.subrange(90, len as int) =~= multisig_data@.skip(90));
    d
}

} // verus!
