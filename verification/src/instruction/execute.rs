use vstd::prelude::*;
use vstd::bytes::*;

use crate::codec::{push_range, get_u64_le, put_u64_le, u64_at};
use crate::error::{MultisigError, ProgramError, program_error_of};
use crate::state::multisig::{
    get_member_index_if_exists, header_of, no_match, read_header, search_error, MultisigView, MULTISIG_LEN,
};
use crate::state::proposal::{status_code, Proposal, ProposalStatus, ProposalView, PROPOSAL_LEN};
use crate::state::utils::DataLen;

verus! {

/// The payload of the instruction: the proposal to settle, the multisig's id and the bumps.
#[derive(Debug, Clone, Copy, PartialEq)]
pub struct ExecuteData {
    pub proposal_id: u64,
    pub multisig_id: u64,
    pub bump: u8,
    pub vault_bump: u8,
    pub proposal_bump: u8,
}

impl DataLen for ExecuteData {
    const LEN: usize = 19;
}

impl ExecuteData {
    /// The payload as it is sent: field after field, integers in
    /// little-endian order.
    pub open spec fn to_layout(self) -> Seq<u8> {
        spec_u64_to_le_bytes(self.proposal_id)
            + spec_u64_to_le_bytes(self.multisig_id)
            + seq![self.bump, self.vault_bump, self.proposal_bump]
    }

    /// The payload that the first `ExecuteData::LEN` bytes hold.
    pub open spec fn from_layout(s: Seq<u8>) -> ExecuteData {
        ExecuteData {
            proposal_id: u64_at(s, 0),
            multisig_id: u64_at(s, 8),
            bump: s[16],
            vault_bump: s[17],
            proposal_bump: s[18],
        }
    }

    /// Reads the payload from the first `ExecuteData::LEN` bytes.
    pub fn from_bytes(bytes: &[u8]) -> (r: ExecuteData)
        requires
            bytes@.len() >= 19,
        ensures
            r == ExecuteData::from_layout(bytes@),
    {
        ExecuteData {
            proposal_id: get_u64_le(bytes, 0),
            multisig_id: get_u64_le(bytes, 8),
            bump: bytes[16],
            vault_bump: bytes[17],
            proposal_bump: bytes[18],
        }
    }

    /// The payload as it is sent.
    pub fn to_bytes(&self) -> (r: [u8; 19])
        ensures
            r@ == self.to_layout(),
    {
        proof {
            lemma_auto_spec_u64_to_from_le_bytes();
        }
        let mut bytes = [0u8; 19];
        put_u64_le(&mut bytes, 0, self.proposal_id);
        put_u64_le(&mut bytes, 8, self.multisig_id);
        bytes[16] = self.bump;
        bytes[17] = self.vault_bump;
        bytes[18] = self.proposal_bump;
        assert(bytes@ =~= self.to_layout());
        bytes
    }
}

/// Reading back a sent payload gives the payload that was sent.
pub proof fn lemma_execute_data_roundtrip(d: ExecuteData)
    ensures
        d.to_layout().len() == 19,
        ExecuteData::from_layout(d.to_layout()) == d,
{
    lemma_auto_spec_u64_to_from_le_bytes();
    let s = d.to_layout();
    assert(s.subrange(0, 8) =~= spec_u64_to_le_bytes(d.proposal_id));
    assert(s.subrange(8, 16) =~= spec_u64_to_le_bytes(d.multisig_id));
}

/// Sending a payload read from `ExecuteData::LEN` bytes gives back those bytes.
pub proof fn lemma_execute_data_canonical(s: Seq<u8>)
    requires
        s.len() == 19,
    ensures
        ExecuteData::from_layout(s).to_layout() == s,
{
    lemma_auto_spec_u64_to_from_le_bytes();
    assert(spec_u64_to_le_bytes(spec_u64_from_le_bytes(s.subrange(0, 8))) == s.subrange(0, 8));
    assert(spec_u64_to_le_bytes(spec_u64_from_le_bytes(s.subrange(8, 16))) == s.subrange(8, 16));
    assert(ExecuteData::from_layout(s).to_layout() =~= s);
}

/// The status that settling gives a proposal: vetoed once the vetoes reach
/// the veto threshold, else approved once the yes votes reach the threshold,
/// else rejected once the no votes exceed the threshold, else unchanged.
pub open spec fn settled_status(p: ProposalView, m: MultisigView) -> u8 {
    if p.veto_votes >= m.veto_threshold {
        status_code(ProposalStatus::Vetoed)
    } else if p.yes_votes >= m.threshold {
        status_code(ProposalStatus::Approved)
    } else if p.no_votes > m.threshold {
        status_code(ProposalStatus::Rejected)
    } else {
        p.status
    }
}

/// The proposal account's data once settled.
pub open spec fn settled_layout(multisig_data: Seq<u8>, proposal_data: Seq<u8>) -> Seq<u8> {
    let p = ProposalView::from_layout(proposal_data);
    ProposalView { status: settled_status(p, header_of(multisig_data)), ..p }.to_layout()
        + proposal_data.skip(PROPOSAL_LEN as int)
}

/// What settling gives, at the clock reading `clock`: the proposal account's
/// new data, or the error that refuses it.
pub open spec fn settle_outcome(
    multisig_data: Seq<u8>,
    proposal_data: Seq<u8>,
    payer: Seq<u8>,
    clock: Result<i64, ProgramError>,
) -> Result<Seq<u8>, ProgramError> {
    let p = ProposalView::from_layout(proposal_data);
    if p.status != status_code(ProposalStatus::Pending) {
        Err(program_error_of(MultisigError::InvalidProposalStatus))
    } else {
        match clock {
            Err(e) => Err(e),
            Ok(now) => if p.expiry < now as u64 {
                Err(program_error_of(MultisigError::ProposalNotExpired))
            } else if no_match(multisig_data, payer, false) {
                Err(search_error(multisig_data, MultisigError::MemberNotFound))
            } else {
                Ok(settled_layout(multisig_data, proposal_data))
            },
        }
    }
}

/// Settles a pending proposal at the clock reading `clock`, on behalf of the
/// member `payer`. A proposal no longer pending is refused, then a failed
/// clock reading, then a proposal whose expiry lies before the clock, then a
/// payer who is not a member.
pub fn settle_proposal(
    multisig_data: &[u8],
    proposal_data: &[u8],
    payer: &[u8; 32],
    clock: Result<i64, ProgramError>,
) -> (r: Result<Vec<u8>, ProgramError>)
    requires
        multisig_data@.len() >= MULTISIG_LEN,
        proposal_data@.len() >= PROPOSAL_LEN,
    ensures
        match r {
            Ok(d) => settle_outcome(multisig_data@, proposal_data@, payer@, clock) == Ok::<Seq<u8>, ProgramError>(d@),
            Err(e) => settle_outcome(multisig_data@, proposal_data@, payer@, clock) == Err::<Seq<u8>, ProgramError>(e),
        },
{
    let len: usize = proposal_data.len();
    let multisig = read_header(multisig_data);
    let mut proposal = match Proposal::from_bytes(proposal_data) {
        Ok(p) => p,
        Err(e) => return Err(e),
    };
    if proposal.status != ProposalStatus::Pending.code() {
        return Err(ProgramError::Custom(MultisigError::InvalidProposalStatus.code()));
    }
    let now: i64 = clock?;
    if proposal.expiry < now as u64 {
        return Err(ProgramError::Custom(MultisigError::ProposalNotExpired.code()));
    }
    match get_member_index_if_exists(payer, multisig_data) {
        Ok(_) => {},
        Err(e) => return Err(e),
    }
    if proposal.veto_votes >= multisig.veto_threshold {
        proposal.status = ProposalStatus::Vetoed.code();
    } else if proposal.yes_votes >= multisig.threshold {
        proposal.status = ProposalStatus::Approved.code();
    } else if proposal.no_votes > multisig.threshold {
        proposal.status = ProposalStatus::Rejected.code();
    }
    let header = proposal.to_bytes();
    let mut d: Vec<u8> = Vec::new();
    push_range(&mut d, &header, 0, 54);
    assert(header@.subrange(0, 54) =~= header@);
    push_range(&mut d, proposal_data, 54, len);
    assert(proposal_data@.subrange(54, len as int) =~= proposal_data@.skip(54));
    Ok(d)
}

/// Settles a pending proposal now: the cluster's clock is read and
/// `settle_proposal` decides with that reading; a failed read is a `Runtime` error.
pub fn settle_proposal_now(multisig_data: &[u8], proposal_data: &[u8], payer: &[u8; 32]) -> (r: Result<Vec<u8>, ProgramError>)
    requires
        multisig_data@.len() >= MULTISIG_LEN,
        proposal_data@.len() >= PROPOSAL_LEN,
    ensures
        exists|clock: Result<i64, ProgramError>|
            #![trigger settle_outcome(multisig_data@, proposal_data@, payer@, clock)]
            (clock matches Err(ce) ==> ce is Runtime) && match r {
            Ok(d) => settle_outcome(multisig_data@, proposal_data@, payer@, clock) == Ok::<Seq<u8>, ProgramError>(d@),
            Err(e) => settle_outcome(multisig_data@, proposal_data@, payer@, clock) == Err::<Seq<u8>, ProgramError>(e),
        },
{
    let clock = crate::clock::clock_unix_timestamp();
    settle_proposal(multisig_data, proposal_data, payer, clock)
}

} // verus!
