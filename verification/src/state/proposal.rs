use vstd::prelude::*;
use vstd::bytes::*;

use crate::codec::{get_key, get_u64_le, key_at, put_bytes, put_u64_le, u64_at};
use crate::error::{MultisigError, ProgramError, program_error_of};
use crate::state::pda::{check_derived, derived_check, key_seed, proposal_seed, proposal_seed_bytes};
use crate::state::utils::DataLen;

verus! {

/// Where a proposal stands.
#[derive(Clone, Copy, Debug, PartialEq, Eq, Structural)]
pub enum ProposalStatus {
    Pending,
    Approved,
    Rejected,
    Vetoed,
}

/// The byte that stores each status.
pub open spec fn status_code(s: ProposalStatus) -> u8 {
    match s {
        ProposalStatus::Pending => 0,
        ProposalStatus::Approved => 1,
        ProposalStatus::Rejected => 2,
        ProposalStatus::Vetoed => 3,
    }
}

impl ProposalStatus {
    /// The byte that stores this status.
    pub fn code(&self) -> (r: u8)
        ensures
            r == status_code(*self),
    {
        match self {
            ProposalStatus::Pending => 0,
            ProposalStatus::Approved => 1,
            ProposalStatus::Rejected => 2,
            ProposalStatus::Vetoed => 3,
        }
    }
}

/// A proposal of a multisig: which multisig, its id, the id of the member
/// who created it, its status byte, the vote counts, when it expires and
/// the bump of its address. The voters' ids follow it in the account.
#[derive(Clone, Copy, Debug)]
pub struct Proposal {
    pub multisig: [u8; 32],
    pub id: u64,
    pub creator: u8,
    pub status: u8,
    pub yes_votes: u8,
    pub no_votes: u8,
    pub veto_votes: u8,
    pub expiry: u64,
    pub bump: u8,
}

/// The mathematical value of a `Proposal`.
#[verifier::ext_equal]
pub struct ProposalView {
    pub multisig: Seq<u8>,
    pub id: u64,
    pub creator: u8,
    pub status: u8,
    pub yes_votes: u8,
    pub no_votes: u8,
    pub veto_votes: u8,
    pub expiry: u64,
    pub bump: u8,
}

impl View for Proposal {
    type V = ProposalView;

    open spec fn view(&self) -> ProposalView {
        ProposalView {
            multisig: self.multisig@,
            id: self.id,
            creator: self.creator,
            status: self.status,
            yes_votes: self.yes_votes,
            no_votes: self.no_votes,
            veto_votes: self.veto_votes,
            expiry: self.expiry,
            bump: self.bump,
        }
    }
}

/// The size of a stored proposal.
pub const PROPOSAL_LEN: usize = 54;

/// The status that a status byte stands for, if any.
pub open spec fn status_of(code: u8) -> Option<ProposalStatus> {
    if code == 0 {
        Some(ProposalStatus::Pending)
    } else if code == 1 {
        Some(ProposalStatus::Approved)
    } else if code == 2 {
        Some(ProposalStatus::Rejected)
    } else if code == 3 {
        Some(ProposalStatus::Vetoed)
    } else {
        None
    }
}

/// The expiry of a proposal created at `now` in a multisig whose proposals
/// last `duration` seconds: the clock read as unsigned, plus the duration,
/// wrapping around past `u64::MAX`.
pub open spec fn expiry_at(now: i64, duration: u32) -> u64 {
    (now as u64).wrapping_add(duration as u64)
}

/// A pending proposal with no votes, created at `now`.
pub open spec fn pending_proposal(multisig: Seq<u8>, id: u64, creator: u8, duration: u32, bump: u8, now: i64) -> ProposalView {
    ProposalView {
        multisig,
        id,
        creator,
        status: status_code(ProposalStatus::Pending),
        yes_votes: 0,
        no_votes: 0,
        veto_votes: 0,
        expiry: expiry_at(now, duration),
        bump,
    }
}

impl ProposalView {
    /// The proposal as it is stored, integers in little-endian order.
    pub open spec fn to_layout(self) -> Seq<u8> {
        self.multisig
            + spec_u64_to_le_bytes(self.id)
            + seq![self.creator, self.status, self.yes_votes, self.no_votes, self.veto_votes]
            + spec_u64_to_le_bytes(self.expiry)
            + seq![self.bump]
    }

    /// The proposal that the first `Proposal::LEN` stored bytes hold.
    pub open spec fn from_layout(s: Seq<u8>) -> ProposalView {
        ProposalView {
            multisig: key_at(s, 0),
            id: u64_at(s, 32),
            creator: s[40],
            status: s[41],
            yes_votes: s[42],
            no_votes: s[43],
            veto_votes: s[44],
            expiry: u64_at(s, 45),
            bump: s[53],
        }
    }

    /// Whether the multisig key has its 32 bytes.
    pub open spec fn wf(self) -> bool {
        self.multisig.len() == 32
    }

    /// The number of votes cast.
    pub open spec fn total_votes(self) -> int {
        self.yes_votes + self.no_votes + self.veto_votes
    }
}

impl DataLen for Proposal {
    const LEN: usize = 54;
}

impl Proposal {
    /// A pending proposal with no votes, created now: the cluster's clock is
    /// read, and the proposal expires `expiry_duration` seconds after it. A
    /// failed read of the clock is passed on.
    pub fn new(multisig: [u8; 32], id: u64, creator: u8, expiry_duration: u32, bump: u8) -> (r: Result<Proposal, ProgramError>)
        ensures
            match r {
                Ok(p) => exists|now: i64| p@ == pending_proposal(multisig@, id, creator, expiry_duration, bump, now),
                Err(e) => e is Runtime,
            },
    {
        let now: i64 = crate::clock::clock_unix_timestamp()?;
        Ok(Proposal::new_at(multisig, id, creator, expiry_duration, bump, now))
    }

    /// A pending proposal with no votes, created at clock time `now`; it
    /// expires `expiry_duration` seconds after `now`.
    pub fn new_at(multisig: [u8; 32], id: u64, creator: u8, expiry_duration: u32, bump: u8, now: i64) -> (p: Proposal)
        ensures
            p@ == pending_proposal(multisig@, id, creator, expiry_duration, bump, now),
            p.status == 0 && p.yes_votes == 0 && p.no_votes == 0 && p.veto_votes == 0,
            0 <= now && now + expiry_duration <= u64::MAX ==> p.expiry == now + expiry_duration,
    {
        let start: u64 = #[verifier::truncate] (now as u64);
        let span: u64 = expiry_duration as u64;
        Proposal {
            multisig,
            id,
            creator,
            status: ProposalStatus::Pending.code(),
            yes_votes: 0,
            no_votes: 0,
            veto_votes: 0,
            expiry: start.wrapping_add(span),
            bump,
        }
    }

    /// The seeds of a proposal's address: "proposal", the multisig's key,
    /// the proposal id in little-endian order, and the bump.
    pub fn pda_seeds(owner: &[u8; 32], id_seed: u64, bump: u8) -> (r: Vec<Vec<u8>>)
        ensures
            r@.len() == 4,
            r@[0]@ == proposal_seed(),
            r@[1]@ == owner@,
            r@[2]@ == spec_u64_to_le_bytes(id_seed),
            r@[3]@ == seq![bump],
    {
        let mut r: Vec<Vec<u8>> = Vec::new();
        r.push(proposal_seed_bytes());
        r.push(key_seed(owner));
        r.push(u64_to_le_bytes(id_seed));
        let b: Vec<u8> = vec![bump];
        r.push(b);
        r
    }

    /// Checks the address that the runtime derived from
    /// `Proposal::pda_seeds(owner, id_seed, bump)` against the account `pda`.
    pub fn validate_pda(pda: &[u8; 32], derived: Result<[u8; 32], ProgramError>) -> (r: Result<(), ProgramError>)
        ensures
            r == derived_check(derived, pda@),
    {
        check_derived(derived, pda)
    }

    /// Reads a proposal from the first `Proposal::LEN` bytes.
    pub fn from_bytes(bytes: &[u8]) -> (r: Result<Proposal, ProgramError>)
        requires
            bytes@.len() >= PROPOSAL_LEN,
        ensures
            r matches Ok(p) && p@ == ProposalView::from_layout(bytes@),
    {
        let p = Proposal {
            multisig: get_key(bytes, 0),
            id: get_u64_le(bytes, 32),
            creator: bytes[40],
            status: bytes[41],
            yes_votes: bytes[42],
            no_votes: bytes[43],
            veto_votes: bytes[44],
            expiry: get_u64_le(bytes, 45),
            bump: bytes[53],
        };
        assert(p@ =~= ProposalView::from_layout(bytes@));
        Ok(p)
    }

    /// The stored form of this proposal.
    pub fn to_bytes(&self) -> (r: [u8; 54])
        ensures
            r@ == self@.to_layout(),
    {
        proof {
            lemma_auto_spec_u64_to_from_le_bytes();
        }
        let mut bytes = [0u8; 54];
        put_bytes(&mut bytes, 0, &self.multisig);
        put_u64_le(&mut bytes, 32, self.id);
        bytes[40] = self.creator;
        bytes[41] = self.status;
        bytes[42] = self.yes_votes;
        bytes[43] = self.no_votes;
        bytes[44] = self.veto_votes;
        put_u64_le(&mut bytes, 45, self.expiry);
        bytes[53] = self.bump;
        assert(bytes@ =~= self@.to_layout());
        bytes
    }

    /// The status that the status byte stands for.
    pub fn get_status(&self) -> (r: Result<ProposalStatus, MultisigError>)
        ensures
            match status_of(self.status) {
                Some(s) => r == Ok::<ProposalStatus, MultisigError>(s),
                None => r == Err::<ProposalStatus, MultisigError>(MultisigError::InvalidProposalStatus),
            },
    {
        match self.status {
            0 => Ok(ProposalStatus::Pending),
            1 => Ok(ProposalStatus::Approved),
            2 => Ok(ProposalStatus::Rejected),
            3 => Ok(ProposalStatus::Vetoed),
            _ => Err(MultisigError::InvalidProposalStatus),
        }
    }

    /// Counts a vote: `0` is a no, `1` a yes; any other option is refused
    /// and leaves the proposal as it was.
    pub fn vote(&mut self, vote: u8) -> (r: Result<(), ProgramError>)
        requires
            vote == 0 ==> old(self).no_votes < u8::MAX,
            vote == 1 ==> old(self).yes_votes < u8::MAX,
        ensures
            vote == 0 ==> r is Ok && final(self)@ == (ProposalView { no_votes: (old(self).no_votes + 1) as u8, ..old(self)@ }),
            vote == 1 ==> r is Ok && final(self)@ == (ProposalView { yes_votes: (old(self).yes_votes + 1) as u8, ..old(self)@ }),
            vote != 0 && vote != 1 ==> r == Err::<(), ProgramError>(program_error_of(MultisigError::InvalidVotingOption))
                && *final(self) == *old(self),
    {
        if vote != 0 && vote != 1 {
            return Err(ProgramError::Custom(MultisigError::InvalidVotingOption.code()));
        }
        if vote == 0 {
            self.no_votes = self.no_votes + 1;
        } else {
            self.yes_votes = self.yes_votes + 1;
        }
        Ok(())
    }
}

/// Reading back a stored proposal gives the proposal that was stored.
pub proof fn lemma_proposal_layout_roundtrip(v: ProposalView)
    requires
        v.wf(),
    ensures
        v.to_layout().len() == PROPOSAL_LEN,
        ProposalView::from_layout(v.to_layout()) == v,
{
    lemma_auto_spec_u64_to_from_le_bytes();
    let s = v.to_layout();
    assert(s.subrange(32, 40) =~= spec_u64_to_le_bytes(v.id));
    assert(s.subrange(45, 53) =~= spec_u64_to_le_bytes(v.expiry));
    assert(key_at(s, 0) =~= v.multisig);
    assert(ProposalView::from_layout(s) =~= v);
}

/// Storing a proposal read from `Proposal::LEN` bytes gives back those bytes.
pub proof fn lemma_proposal_layout_canonical(s: Seq<u8>)
    requires
        s.len() == PROPOSAL_LEN,
    ensures
        ProposalView::from_layout(s).wf(),
        ProposalView::from_layout(s).to_layout() == s,
{
    lemma_auto_spec_u64_to_from_le_bytes();
    assert(spec_u64_to_le_bytes(spec_u64_from_le_bytes(s.subrange(32, 40))) == s.subrange(32, 40));
    assert(spec_u64_to_le_bytes(spec_u64_from_le_bytes(s.subrange(45, 53))) == s.subrange(45, 53));
    assert(ProposalView::from_layout(s).to_layout() =~= s);
}

/// A status byte read back names the status that was stored.
pub proof fn lemma_status_code_roundtrip(s: ProposalStatus)
    ensures
        status_of(status_code(s)) == Some(s),
{
}

} // verus!
