use vstd::prelude::*;
use vstd::bytes::*;

use crate::codec::{get_key, get_u32_le, get_u64_le, key_at, put_bytes, put_u32_le, put_u64_le, u32_at, u64_at};
use crate::error::{MultisigError, ProgramError, program_error_of};
use crate::state::member::{MemberView, MEMBER_LEN};
use crate::state::pda::{check_derived, derived_check, multisig_seed, multisig_seed_bytes};
use crate::state::utils::DataLen;

verus! {

/// The configuration and counters of a multisig. It heads the multisig
/// account; the members' records follow it.
#[derive(Clone, Copy, Debug, PartialEq)]
pub struct Multisig {
    pub creator: [u8; 32],
    pub threshold: u8,
    pub num_members: u8,
    pub max_expiry_duration: u32,
    pub veto_threshold: u8,
    pub proposal_counter: u64,
    pub members_counter: u8,
    pub vault: [u8; 32],
    pub multisig_id: u64,
    pub bump: u8,
    pub vault_bump: u8,
}

/// The mathematical value of a `Multisig`.
#[verifier::ext_equal]
pub struct MultisigView {
    pub creator: Seq<u8>,
    pub threshold: u8,
    pub num_members: u8,
    pub max_expiry_duration: u32,
    pub veto_threshold: u8,
    pub proposal_counter: u64,
    pub members_counter: u8,
    pub vault: Seq<u8>,
    pub multisig_id: u64,
    pub bump: u8,
    pub vault_bump: u8,
}

impl View for Multisig {
    type V = MultisigView;

    open spec fn view(&self) -> MultisigView {
        MultisigView {
            creator: self.creator@,
            threshold: self.threshold,
            num_members: self.num_members,
            max_expiry_duration: self.max_expiry_duration,
            veto_threshold: self.veto_threshold,
            proposal_counter: self.proposal_counter,
            members_counter: self.members_counter,
            vault: self.vault@,
            multisig_id: self.multisig_id,
            bump: self.bump,
            vault_bump: self.vault_bump,
        }
    }
}

/// The size of the stored multisig header.
pub const MULTISIG_LEN: usize = 90;

impl MultisigView {
    /// The header as it is stored, field after field, integers in
    /// little-endian order.
    pub open spec fn to_layout(self) -> Seq<u8> {
        self.creator
            + seq![self.threshold, self.num_members]
            + spec_u32_to_le_bytes(self.max_expiry_duration)
            + seq![self.veto_threshold]
            + spec_u64_to_le_bytes(self.proposal_counter)
            + seq![self.members_counter]
            + self.vault
            + spec_u64_to_le_bytes(self.multisig_id)
            + seq![self.bump, self.vault_bump]
    }

    /// The header that stored bytes hold.
    pub open spec fn from_layout(s: Seq<u8>) -> MultisigView {
        MultisigView {
            creator: key_at(s, 0),
            threshold: s[32],
            num_members: s[33],
            max_expiry_duration: u32_at(s, 34),
            veto_threshold: s[38],
            proposal_counter: u64_at(s, 39),
            members_counter: s[47],
            vault: key_at(s, 48),
            multisig_id: u64_at(s, 80),
            bump: s[88],
            vault_bump: s[89],
        }
    }

    /// Whether both keys have their 32 bytes.
    pub open spec fn wf(self) -> bool {
        self.creator.len() == 32 && self.vault.len() == 32
    }
}

impl DataLen for Multisig {
    const LEN: usize = 90;
}

impl Multisig {
    /// A new multisig: no proposal yet, and a member count equal to the
    /// number of initial members.
    pub fn new(
        creator: [u8; 32],
        threshold: u8,
        num_members: u8,
        max_expiry_duration: u32,
        veto_threshold: u8,
        vault: [u8; 32],
        multisig_id: u64,
        bump: u8,
        vault_bump: u8,
    ) -> (m: Multisig)
        ensures
            m@ == (MultisigView {
                creator: creator@,
                threshold,
                num_members,
                max_expiry_duration,
                veto_threshold,
                proposal_counter: 0,
                members_counter: num_members,
                vault: vault@,
                multisig_id,
                bump,
                vault_bump,
            }),
    {
        Multisig {
            creator,
            threshold,
            num_members,
            max_expiry_duration,
            veto_threshold,
            proposal_counter: 0,
            members_counter: num_members,
            vault,
            multisig_id,
            bump,
            vault_bump,
        }
    }

    /// The seeds of the multisig's address: "multisig", the id in
    /// little-endian order, and the bump.
    pub fn pda_seeds(multisig_id: u64, bump: u8) -> (r: Vec<Vec<u8>>)
        ensures
            r@.len() == 3,
            r@[0]@ == multisig_seed(),
            r@[1]@ == spec_u64_to_le_bytes(multisig_id),
            r@[2]@ == seq![bump],
    {
        let mut r: Vec<Vec<u8>> = Vec::new();
        r.push(multisig_seed_bytes());
        r.push(u64_to_le_bytes(multisig_id));
        let b: Vec<u8> = vec![bump];
        r.push(b);
        r
    }

    /// Checks the address that the runtime derived from
    /// `Multisig::pda_seeds(multisig_id, bump)` against the account `pda`.
    pub fn validate_pda(pda: &[u8; 32], derived: Result<[u8; 32], ProgramError>) -> (r: Result<(), ProgramError>)
        ensures
            r == derived_check(derived, pda@),
    {
        check_derived(derived, pda)
    }

    /// Reads a header from exactly `Multisig::LEN` bytes.
    pub fn from_bytes(bytes: &[u8]) -> (r: Result<Multisig, ProgramError>)
        ensures
            match r {
                Ok(m) => bytes@.len() == MULTISIG_LEN && m@ == MultisigView::from_layout(bytes@),
                Err(e) => bytes@.len() != MULTISIG_LEN && e == ProgramError::InvalidAccountData,
            },
    {
        if bytes.len() != 90 {
            return Err(ProgramError::InvalidAccountData);
        }
        let m = Multisig {
            creator: get_key(bytes, 0),
            threshold: bytes[32],
            num_members: bytes[33],
            max_expiry_duration: get_u32_le(bytes, 34),
            veto_threshold: bytes[38],
            proposal_counter: get_u64_le(bytes, 39),
            members_counter: bytes[47],
            vault: get_key(bytes, 48),
            multisig_id: get_u64_le(bytes, 80),
            bump: bytes[88],
            vault_bump: bytes[89],
        };
        assert(m@ =~= MultisigView::from_layout(bytes@));
        Ok(m)
    }

    /// The stored form of this header.
    pub fn to_bytes(&self) -> (r: [u8; 90])
        ensures
            r@ == self@.to_layout(),
    {
        proof {
            lemma_auto_spec_u64_to_from_le_bytes();
            lemma_auto_spec_u32_to_from_le_bytes();
        }
        let mut bytes = [0u8; 90];
        put_bytes(&mut bytes, 0, &self.creator);
        bytes[32] = self.threshold;
        bytes[33] = self.num_members;
        put_u32_le(&mut bytes, 34, self.max_expiry_duration);
        bytes[38] = self.veto_threshold;
        put_u64_le(&mut bytes, 39, self.proposal_counter);
        bytes[47] = self.members_counter;
        put_bytes(&mut bytes, 48, &self.vault);
        put_u64_le(&mut bytes, 80, self.multisig_id);
        bytes[88] = self.bump;
        bytes[89] = self.vault_bump;
        assert(bytes@ =~= self@.to_layout());
        bytes
    }
}

/// Reading back a stored header gives the header that was stored.
pub proof fn lemma_multisig_layout_roundtrip(v: MultisigView)
    requires
        v.wf(),
    ensures
        v.to_layout().len() == MULTISIG_LEN,
        MultisigView::from_layout(v.to_layout()) == v,
{
    lemma_auto_spec_u64_to_from_le_bytes();
    lemma_auto_spec_u32_to_from_le_bytes();
    let s = v.to_layout();
    assert(s.subrange(34, 38) =~= spec_u32_to_le_bytes(v.max_expiry_duration));
    assert(s.subrange(39, 47) =~= spec_u64_to_le_bytes(v.proposal_counter));
    assert(s.subrange(80, 88) =~= spec_u64_to_le_bytes(v.multisig_id));
    assert(key_at(s, 0) =~= v.creator);
    assert(key_at(s, 48) =~= v.vault);
    assert(MultisigView::from_layout(s) =~= v);
}

/// Storing a header read from `Multisig::LEN` bytes gives back those bytes.
pub proof fn lemma_multisig_layout_canonical(s: Seq<u8>)
    requires
        s.len() == MULTISIG_LEN,
    ensures
        MultisigView::from_layout(s).wf(),
        MultisigView::from_layout(s).to_layout() == s,
{
    lemma_auto_spec_u64_to_from_le_bytes();
    lemma_auto_spec_u32_to_from_le_bytes();
    let v = MultisigView::from_layout(s);
    assert(spec_u32_to_le_bytes(spec_u32_from_le_bytes(s.subrange(34, 38))) == s.subrange(34, 38));
    assert(spec_u64_to_le_bytes(spec_u64_from_le_bytes(s.subrange(39, 47))) == s.subrange(39, 47));
    assert(spec_u64_to_le_bytes(spec_u64_from_le_bytes(s.subrange(80, 88))) == s.subrange(80, 88));
    assert(v.to_layout() =~= s);
}

/// Where the record of member `i` starts in the multisig account.
pub open spec fn record_offset(i: int) -> int {
    MULTISIG_LEN + i * MEMBER_LEN
}

/// Whether the multisig account holds a complete record `i`.
pub open spec fn has_record(data: Seq<u8>, i: int) -> bool {
    0 <= i && record_offset(i + 1) <= data.len()
}

/// The member that record `i` holds.
pub open spec fn record(data: Seq<u8>, i: int) -> MemberView {
    MemberView::from_layout(data.subrange(record_offset(i), record_offset(i + 1)))
}

/// Whether record `i` belongs to `key`, and, when `admin_only`, has the admin role.
pub open spec fn record_matches(data: Seq<u8>, i: int, key: Seq<u8>, admin_only: bool) -> bool {
    &&& record(data, i).pubkey == key
    &&& admin_only ==> record(data, i).is_admin()
}

/// Record `i` is the first complete record that matches.
pub open spec fn first_match(data: Seq<u8>, i: int, key: Seq<u8>, admin_only: bool) -> bool {
    &&& has_record(data, i)
    &&& record_matches(data, i, key, admin_only)
    &&& forall|j: int| 0 <= j < i ==> !#[trigger] record_matches(data, j, key, admin_only)
}

/// No complete record matches.
pub open spec fn no_match(data: Seq<u8>, key: Seq<u8>, admin_only: bool) -> bool {
    forall|j: int| has_record(data, j) ==> !#[trigger] record_matches(data, j, key, admin_only)
}

/// Whether the members' region ends in an incomplete record.
pub open spec fn has_partial_record(data: Seq<u8>) -> bool {
    (data.len() - MULTISIG_LEN) % (MEMBER_LEN as int) != 0
}

/// The error of a search that found no matching record: an incomplete
/// record is reported as bad account data, otherwise `missing`.
pub open spec fn search_error(data: Seq<u8>, missing: MultisigError) -> ProgramError {
    if has_partial_record(data) {
        ProgramError::InvalidAccountData
    } else {
        program_error_of(missing)
    }
}

/// Walks the members' records in order and gives the index of the first one
/// that matches; a record cut short stops the walk with an error.
fn find_record(key: &[u8; 32], data: &[u8], admin_only: bool, missing: MultisigError) -> (r: Result<usize, ProgramError>)
    requires
        data@.len() >= MULTISIG_LEN,
    ensures
        match r {
            Ok(i) => first_match(data@, i as int, key@, admin_only),
            Err(e) => no_match(data@, key@, admin_only) && e == search_error(data@, missing),
        },
{
    let len: usize = data.len();
    let mut off: usize = 90;
    let mut i: usize = 0;
    while off < len
        invariant
            len == data@.len(),
            len >= MULTISIG_LEN,
            off == record_offset(i as int),
            off <= len,
            forall|j: int| 0 <= j < i ==> has_record(data@, j) && !#[trigger] record_matches(data@, j, key@, admin_only),
        decreases len - off,
    {
        if len - off < 34 {
            assert((len - MULTISIG_LEN) % (MEMBER_LEN as int) == (len - off)) by (nonlinear_arith)
                requires
                    len - MULTISIG_LEN == i * MEMBER_LEN + (len - off),
                    0 < len - off < MEMBER_LEN,
            ;
            return Err(ProgramError::InvalidAccountData);
        }
        let k: bool = crate::codec::key_matches(data, off, key);
        assert(crate::codec::key_at(data@, off as int) =~= record(data@, i as int).pubkey);
        if k && (!admin_only || data[off + 33] == 1) {
            return Ok(i);
        }
        off = off + 34;
        i = i + 1;
    }
    assert((len - MULTISIG_LEN) % (MEMBER_LEN as int) == 0) by (nonlinear_arith)
        requires
            len - MULTISIG_LEN == i * MEMBER_LEN,
    ;
    Err(ProgramError::Custom(missing.code()))
}

/// Succeeds when `payer` is the key of an admin among the members; the
/// records are read in order and one cut short ends the search with an error.
pub fn check_admin_action(payer: &[u8; 32], multisig_data: &[u8]) -> (r: Result<(), ProgramError>)
    requires
        multisig_data@.len() >= MULTISIG_LEN,
    ensures
        match r {
            Ok(()) => exists|i: int| first_match(multisig_data@, i, payer@, true),
            Err(e) => no_match(multisig_data@, payer@, true)
                && e == search_error(multisig_data@, MultisigError::NotAdmin),
        },
{
    match find_record(payer, multisig_data, true, MultisigError::NotAdmin) {
        Ok(_) => Ok(()),
        Err(e) => Err(e),
    }
}

/// The id of the first admin record with key `payer`.
pub fn get_admin_index_if_exists(payer: &[u8; 32], multisig_data: &[u8]) -> (r: Result<u8, ProgramError>)
    requires
        multisig_data@.len() >= MULTISIG_LEN,
    ensures
        match r {
            Ok(id) => exists|i: int| first_match(multisig_data@, i, payer@, true)
                && id == record(multisig_data@, i).member_id,
            Err(e) => no_match(multisig_data@, payer@, true)
                && e == search_error(multisig_data@, MultisigError::NotAdmin),
        },
{
    let len: usize = multisig_data.len();
    match find_record(payer, multisig_data, true, MultisigError::NotAdmin) {
        Ok(i) => Ok(multisig_data[90 + i * 34 + 32]),
        Err(e) => Err(e),
    }
}

/// Succeeds when `payer` is the key of one of the members.
pub fn check_member_exists(payer: &[u8; 32], multisig_data: &[u8]) -> (r: Result<(), ProgramError>)
    requires
        multisig_data@.len() >= MULTISIG_LEN,
    ensures
        match r {
            Ok(()) => exists|i: int| first_match(multisig_data@, i, payer@, false),
            Err(e) => no_match(multisig_data@, payer@, false)
                && e == search_error(multisig_data@, MultisigError::MemberNotFound),
        },
{
    match find_record(payer, multisig_data, false, MultisigError::MemberNotFound) {
        Ok(_) => Ok(()),
        Err(e) => Err(e),
    }
}

/// The id of the first member record with key `payer`.
pub fn get_member_index_if_exists(payer: &[u8; 32], multisig_data: &[u8]) -> (r: Result<u8, ProgramError>)
    requires
        multisig_data@.len() >= MULTISIG_LEN,
    ensures
        match r {
            Ok(id) => exists|i: int| first_match(multisig_data@, i, payer@, false)
                && id == record(multisig_data@, i).member_id,
            Err(e) => no_match(multisig_data@, payer@, false)
                && e == search_error(multisig_data@, MultisigError::MemberNotFound),
        },
{
    let len: usize = multisig_data.len();
    match find_record(payer, multisig_data, false, MultisigError::MemberNotFound) {
        Ok(i) => Ok(multisig_data[90 + i * 34 + 32]),
        Err(e) => Err(e),
    }
}

/// The header that a multisig account's data begins with.
pub open spec fn header_of(data: Seq<u8>) -> MultisigView {
    MultisigView::from_layout(data)
}

/// The header read from the first `Multisig::LEN` bytes is the header of the whole data.
pub proof fn lemma_header_prefix(data: Seq<u8>)
    requires
        data.len() >= MULTISIG_LEN,
    ensures
        MultisigView::from_layout(data.subrange(0, MULTISIG_LEN as int)) == header_of(data),
{
    let p = data.subrange(0, MULTISIG_LEN as int);
    assert(p.subrange(34, 38) =~= data.subrange(34, 38));
    assert(p.subrange(39, 47) =~= data.subrange(39, 47));
    assert(p.subrange(80, 88) =~= data.subrange(80, 88));
    assert(key_at(p, 0) =~= key_at(data, 0));
    assert(key_at(p, 48) =~= key_at(data, 48));
    assert(MultisigView::from_layout(p) =~= header_of(data));
}

/// Reads the header at the start of a multisig account's data.
pub fn read_header(data: &[u8]) -> (m: Multisig)
    requires
        data@.len() >= MULTISIG_LEN,
    ensures
        m@ == header_of(data@),
{
    proof {
        lemma_header_prefix(data@);
    }
    let len: usize = data.len();
    match Multisig::from_bytes(vstd::slice::slice_subrange(data, 0, 90)) {
        Ok(m) => m,
        Err(_) => {
            assert(false);
            Multisig::new([0u8; 32], 0, 0, 0, 0, [0u8; 32], 0, 0, 0)
        },
    }
}

} // verus!
