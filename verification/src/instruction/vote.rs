use vstd::prelude::*;
use vstd::bytes::*;

use crate::codec::{push_range, get_u64_le, put_u64_le, u64_at};
use crate::error::ProgramError;
use crate::error::{MultisigError, program_error_of};
use crate::state::proposal::{status_of, Proposal, ProposalStatus, ProposalView, PROPOSAL_LEN};
use crate::state::utils::DataLen;

verus! {

/// The payload of the instruction: the proposal voted on, the vote, the bumps of both addresses and the multisig's id.
pub struct VoteData {
    pub proposal_id: u64,
    pub vote: u8,
    pub multisig_bump: u8,
    pub proposal_bump: u8,
    pub multisig_id: u64,
}

impl DataLen for VoteData {
    const LEN: usize = 19;
}

impl VoteData {
    /// The payload as it is sent: field after field, integers in
    /// little-endian order.
    pub open spec fn to_layout(self) -> Seq<u8> {
        spec_u64_to_le_bytes(self.proposal_id)
            + seq![self.vote, self.multisig_bump, self.proposal_bump]
            + spec_u64_to_le_bytes(self.multisig_id)
    }

    /// The payload that the first `VoteData::LEN` bytes hold.
    pub open spec fn from_layout(s: Seq<u8>) -> VoteData {
        VoteData {
            proposal_id: u64_at(s, 0),
            vote: s[8],
            multisig_bump: s[9],
            proposal_bump: s[10],
            multisig_id: u64_at(s, 11),
        }
    }

    /// Reads the payload from the first `VoteData::LEN` bytes.
    pub fn from_bytes(bytes: &[u8]) -> (r: Result<VoteData, ProgramError>)
        requires
            bytes@.len() >= 19,
        ensures
            r == Ok::<VoteData, ProgramError>(VoteData::from_layout(bytes@)),
    {
        Ok(VoteData {
            proposal_id: get_u64_le(bytes, 0),
            vote: bytes[8],
            multisig_bump: bytes[9],
            proposal_bump: bytes[10],
            multisig_id: get_u64_le(bytes, 11),
        })
    }

    /// The payload as it is sent.
    pub fn to_bytes(&self) -> (r: [u8; 19])
        ensures
            r@ == self.to_layout(),
    {
        proof {
            lemma_auto_spec_u64_to_from_le_bytes();
        }
        let mut bytes = [0u8; 19];
        put_u64_le(&mut bytes, 0, self.proposal_id);
        bytes[8] = self.vote;
        bytes[9] = self.multisig_bump;
        bytes[10] = self.proposal_bump;
        put_u64_le(&mut bytes, 11, self.multisig_id);
        assert(bytes@ =~= self.to_layout());
        bytes
    }
}

/// Reading back a sent payload gives the payload that was sent.
pub proof fn lemma_vote_data_roundtrip(d: VoteData)
    ensures
        d.to_layout().len() == 19,
        VoteData::from_layout(d.to_layout()) == d,
{
    lemma_auto_spec_u64_to_from_le_bytes();
    let s = d.to_layout();
    assert(s.subrange(0, 8) =~= spec_u64_to_le_bytes(d.proposal_id));
    assert(s.subrange(11, 19) =~= spec_u64_to_le_bytes(d.multisig_id));
}

/// Sending a payload read from `VoteData::LEN` bytes gives back those bytes.
pub proof fn lemma_vote_data_canonical(s: Seq<u8>)
    requires
        s.len() == 19,
    ensures
        VoteData::from_layout(s).to_layout() == s,
{
    lemma_auto_spec_u64_to_from_le_bytes();
    assert(spec_u64_to_le_bytes(spec_u64_from_le_bytes(s.subrange(0, 8))) == s.subrange(0, 8));
    assert(spec_u64_to_le_bytes(spec_u64_from_le_bytes(s.subrange(11, 19))) == s.subrange(11, 19));
    assert(VoteData::from_layout(s).to_layout() =~= s);
}

/// The checks made on the accounts before anything is read: at least three
/// accounts and a signing payer, both refused as bad instruction data.
pub fn check_vote_accounts(num_accounts: usize, payer_is_signer: bool) -> (r: Result<(), ProgramError>)
    ensures
        r == (if num_accounts < 3 || !payer_is_signer {
            Err::<(), ProgramError>(ProgramError::InvalidInstructionData)
        } else {
            Ok(())
        }),
{
    if num_accounts < 3 {
        return Err(ProgramError::InvalidInstructionData);
    }
    if !payer_is_signer {
        return Err(ProgramError::InvalidInstructionData);
    }
    Ok(())
}

/// The ids of the members who voted, after the proposal in its account.
pub open spec fn voter_list(proposal_data: Seq<u8>) -> Seq<u8> {
    proposal_data.skip(PROPOSAL_LEN as int)
}

/// What checking a vote of member `member_index` gives: a status byte that
/// names no status is refused, so is a proposal that is no longer pending,
/// and so is a member who already voted.
pub open spec fn vote_check(proposal_data: Seq<u8>, member_index: u8) -> Result<(), ProgramError> {
    match status_of(ProposalView::from_layout(proposal_data).status) {
        None => Err(program_error_of(MultisigError::InvalidProposalStatus)),
        Some(s) => if s != ProposalStatus::Pending {
            Err(ProgramError::InvalidInstructionData)
        } else if voter_list(proposal_data).contains(member_index) {
            Err(program_error_of(MultisigError::MemberAlreadyVoted))
        } else {
            Ok(())
        },
    }
}

/// Checks that member `member_index` may vote on the proposal whose account
/// holds `proposal_data`.
pub fn check_vote(proposal_data: &[u8], member_index: u8) -> (r: Result<(), ProgramError>)
    requires
        proposal_data@.len() >= PROPOSAL_LEN,
    ensures
        r == vote_check(proposal_data@, member_index),
        r is Ok <==> proposal_data@[41] == 0
            && forall|k: int| PROPOSAL_LEN <= k < proposal_data@.len() ==> proposal_data@[k] != member_index,
        proposal_data@[41] == 0 && (exists|k: int| PROPOSAL_LEN <= k < proposal_data@.len() && proposal_data@[k] == member_index)
            ==> r == Err::<(), ProgramError>(program_error_of(MultisigError::MemberAlreadyVoted)),
{
    let len: usize = proposal_data.len();
    let proposal = match Proposal::from_bytes(proposal_data) {
        Ok(p) => p,
        Err(e) => return Err(e),
    };
    let status = match proposal.get_status() {
        Ok(s) => s,
        Err(e) => return Err(ProgramError::from(e)),
    };
    if status != ProposalStatus::Pending {
        return Err(ProgramError::InvalidInstructionData);
    }
    let mut j: usize = 54;
    while j < len
        invariant
            len == proposal_data@.len(),
            54 <= j <= len,
            status_of(ProposalView::from_layout(proposal_data@).status) == Some(ProposalStatus::Pending),
            forall|k: int| 54 <= k < j ==> proposal_data@[k] != member_index,
        decreases len - j,
    {
        if proposal_data[j] == member_index {
            assert(voter_list(proposal_data@)[j - 54] == member_index);
            assert(voter_list(proposal_data@).contains(member_index));
            return Err(ProgramError::Custom(MultisigError::MemberAlreadyVoted.code()));
        }
        j = j + 1;
    }
    assert(!voter_list(proposal_data@).contains(member_index)) by {
        if voter_list(proposal_data@).contains(member_index) {
            let k = choose|k: int| 0 <= k < voter_list(proposal_data@).len() && voter_list(proposal_data@)[k] == member_index;
            assert(proposal_data@[k + 54] == member_index);
        }
    }
    Ok(())
}

/// Where a vote goes in the voter list, which keeps the yes voters first,
/// then the no voters, then the vetoes.
pub open spec fn vote_position(p: ProposalView, vote: u8) -> int {
    if vote == 0 {
        p.yes_votes + p.no_votes
    } else if vote == 1 {
        p.yes_votes as int
    } else {
        p.total_votes()
    }
}

/// The proposal with one more vote of kind `vote`: `0` no, `1` yes, `2` veto.
pub open spec fn counted_vote(p: ProposalView, vote: u8) -> ProposalView {
    if vote == 0 {
        ProposalView { no_votes: (p.no_votes + 1) as u8, ..p }
    } else if vote == 1 {
        ProposalView { yes_votes: (p.yes_votes + 1) as u8, ..p }
    } else {
        ProposalView { veto_votes: (p.veto_votes + 1) as u8, ..p }
    }
}

/// The proposal account's data once member `member_index` votes `vote`: the
/// account is one byte longer, the vote is counted, and the voter's id is
/// inserted at the end of the section of its kind, the later voters moving
/// one place down.
pub open spec fn voted_layout(proposal_data: Seq<u8>, member_index: u8, vote: u8) -> Seq<u8> {
    let p = ProposalView::from_layout(proposal_data);
    let list = voter_list(proposal_data).push(0u8);
    let pos = vote_position(p, vote);
    counted_vote(p, vote).to_layout()
        + list.take(pos)
        + seq![member_index]
        + list.subrange(pos, p.total_votes())
        + list.skip(p.total_votes() + 1)
}

/// Records the vote `vote` of member `member_index` on the proposal whose
/// account holds `proposal_data`; options other than no, yes and veto are refused.
pub fn cast_vote(proposal_data: &[u8], member_index: u8, vote: u8) -> (r: Result<Vec<u8>, ProgramError>)
    requires
        proposal_data@.len() >= PROPOSAL_LEN,
        vote <= 2 ==> ProposalView::from_layout(proposal_data@).total_votes() <= voter_list(proposal_data@).len(),
        vote == 0 ==> ProposalView::from_layout(proposal_data@).no_votes < u8::MAX,
        vote == 1 ==> ProposalView::from_layout(proposal_data@).yes_votes < u8::MAX,
        vote == 2 ==> ProposalView::from_layout(proposal_data@).veto_votes < u8::MAX,
    ensures
        vote > 2 ==> r == Err::<Vec<u8>, ProgramError>(ProgramError::InvalidInstructionData),
        vote <= 2 ==> (r matches Ok(d) && d@ == voted_layout(proposal_data@, member_index, vote)),
{
    let len: usize = proposal_data.len();
    let mut proposal = match Proposal::from_bytes(proposal_data) {
        Ok(p) => p,
        Err(e) => return Err(e),
    };
    let ghost p0 = proposal@;
    let yes: usize = proposal.yes_votes as usize;
    let no: usize = proposal.no_votes as usize;
    let veto: usize = proposal.veto_votes as usize;
    let total: usize = yes + no + veto;
    let pos: usize;
    if vote == 0 {
        pos = yes + no;
        proposal.no_votes = proposal.no_votes + 1;
    } else if vote == 1 {
        pos = yes;
        proposal.yes_votes = proposal.yes_votes + 1;
    } else if vote == 2 {
        pos = total;
        proposal.veto_votes = proposal.veto_votes + 1;
    } else {
        return Err(ProgramError::InvalidInstructionData);
    }
    assert(proposal@ == counted_vote(p0, vote));
    assert(pos == vote_position(p0, vote));
    let header = proposal.to_bytes();
    let mut d: Vec<u8> = Vec::new();
    push_range(&mut d, &header, 0, 54);
    assert(header@.subrange(0, 54) =~= header@);
    push_range(&mut d, proposal_data, 54, 54 + pos);
    d.push(member_index);
    push_range(&mut d, proposal_data, 54 + pos, 54 + total);
    let ghost list = voter_list(proposal_data@).push(0u8);
    assert(proposal_data@.subrange(54, 54 + pos) =~= list.take(pos as int));
    assert(proposal_data@.subrange(54 + pos, 54 + total) =~= list.subrange(pos as int, total as int));
    if 54 + total < len {
        push_range(&mut d, proposal_data, 54 + total + 1, len);
        d.push(0u8);
        assert(proposal_data@.subrange(54 + total + 1, len as int).push(0u8) =~= list.skip(total + 1));
    } else {
        assert(list.skip(total + 1) =~= Seq::<u8>::empty());
    }
    assert(d@ =~= voted_layout(proposal_data@, member_index, vote));
    Ok(d)
}

} // verus!
