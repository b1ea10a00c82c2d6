use vstd::prelude::*;
use vstd::bytes::*;

use crate::codec::{push_range, push_zeros, get_u64_le, put_u64_le, u64_at};
use crate::error::{MultisigError, ProgramError, program_error_of};
use crate::state::member::MEMBER_LEN;
use crate::state::multisig::{has_record, header_of, read_header, record, record_offset, has_partial_record, MultisigView, MULTISIG_LEN};
use crate::state::utils::DataLen;

verus! {

/// The payload of the instruction: the id of the member to remove, and the multisig's bump and id.
#[derive(Debug, Clone, Copy, PartialEq)]
pub struct RemoveMemberData {
    pub member_id: u8,
    pub bump: u8,
    pub multisig_id: u64,
}

impl DataLen for RemoveMemberData {
    const LEN: usize = 10;
}

impl RemoveMemberData {
    /// The payload as it is sent: field after field, integers in
    /// little-endian order.
    pub open spec fn to_layout(self) -> Seq<u8> {
        seq![self.member_id, self.bump]
            + spec_u64_to_le_bytes(self.multisig_id)
    }

    /// The payload that the first `RemoveMemberData::LEN` bytes hold.
    pub open spec fn from_layout(s: Seq<u8>) -> RemoveMemberData {
        RemoveMemberData {
            member_id: s[0],
            bump: s[1],
            multisig_id: u64_at(s, 2),
        }
    }

    /// Reads the payload from the first `RemoveMemberData::LEN` bytes.
    pub fn from_bytes(bytes: &[u8]) -> (r: RemoveMemberData)
        requires
            bytes@.len() >= 10,
        ensures
            r == RemoveMemberData::from_layout(bytes@),
    {
        RemoveMemberData {
            member_id: bytes[0],
            bump: bytes[1],
            multisig_id: get_u64_le(bytes, 2),
        }
    }

    /// The payload as it is sent.
    pub fn to_bytes(&self) -> (r: [u8; 10])
        ensures
            r@ == self.to_layout(),
    {
        proof {
            lemma_auto_spec_u64_to_from_le_bytes();
        }
        let mut bytes = [0u8; 10];
        bytes[0] = self.member_id;
        bytes[1] = self.bump;
        put_u64_le(&mut bytes, 2, self.multisig_id);
        assert(bytes@ =~= self.to_layout());
        bytes
    }
}

/// Reading back a sent payload gives the payload that was sent.
pub proof fn lemma_remove_member_data_roundtrip(d: RemoveMemberData)
    ensures
        d.to_layout().len() == 10,
        RemoveMemberData::from_layout(d.to_layout()) == d,
{
    lemma_auto_spec_u64_to_from_le_bytes();
    let s = d.to_layout();
    assert(s.subrange(2, 10) =~= spec_u64_to_le_bytes(d.multisig_id));
}

/// Sending a payload read from `RemoveMemberData::LEN` bytes gives back those bytes.
pub proof fn lemma_remove_member_data_canonical(s: Seq<u8>)
    requires
        s.len() == 10,
    ensures
        RemoveMemberData::from_layout(s).to_layout() == s,
{
    lemma_auto_spec_u64_to_from_le_bytes();
    assert(spec_u64_to_le_bytes(spec_u64_from_le_bytes(s.subrange(2, 10))) == s.subrange(2, 10));
    assert(RemoveMemberData::from_layout(s).to_layout() =~= s);
}

impl RemoveMemberData {
    /// Reads the payload, which must be exactly `RemoveMemberData::LEN` bytes.
    pub fn load(data: &[u8]) -> (r: Result<RemoveMemberData, ProgramError>)
        ensures
            data@.len() != 10 ==> r == Err::<RemoveMemberData, ProgramError>(
                program_error_of(MultisigError::InvalidInstructionData),
            ),
            data@.len() == 10 ==> r == Ok::<RemoveMemberData, ProgramError>(RemoveMemberData::from_layout(data@)),
    {
        if data.len() != 10 {
            return Err(ProgramError::Custom(MultisigError::InvalidInstructionData.code()));
        }
        Ok(RemoveMemberData::from_bytes(data))
    }
}

/// The size of a multisig account of `data_len` bytes once one record is gone.
pub fn account_len_after_removing(data_len: usize) -> (r: usize)
    requires
        data_len >= MEMBER_LEN,
    ensures
        r == data_len - MEMBER_LEN,
{
    data_len - 34
}

/// Whether record `i` has id `member_id`.
pub open spec fn id_matches(data: Seq<u8>, i: int, member_id: u8) -> bool {
    record(data, i).member_id == member_id
}

/// Record `i` is the first complete record with id `member_id`.
pub open spec fn first_id_match(data: Seq<u8>, i: int, member_id: u8) -> bool {
    &&& has_record(data, i)
    &&& id_matches(data, i, member_id)
    &&& forall|j: int| 0 <= j < i ==> !#[trigger] id_matches(data, j, member_id)
}

/// No complete record has id `member_id`.
pub open spec fn no_id_match(data: Seq<u8>, member_id: u8) -> bool {
    forall|j: int| has_record(data, j) ==> !#[trigger] id_matches(data, j, member_id)
}

/// The error of a search by id that found nothing: a record cut short is
/// refused as bad instruction data, otherwise the member is not found.
pub open spec fn id_search_error(data: Seq<u8>) -> ProgramError {
    if has_partial_record(data) {
        program_error_of(MultisigError::InvalidInstructionData)
    } else {
        program_error_of(MultisigError::MemberNotFound)
    }
}

/// A complete record's id is the byte after its key.
pub proof fn lemma_id_byte(data: Seq<u8>, j: int, member_id: u8)
    requires
        has_record(data, j),
    ensures
        id_matches(data, j, member_id) <==> data[record_offset(j) + 32] == member_id,
{
    assert(data.subrange(record_offset(j), record_offset(j + 1))[32] == data[record_offset(j) + 32]);
}

/// The first record with an id, read on the bytes: its id byte is `member_id`,
/// and no record before it has that id byte.
pub proof fn lemma_first_id_match_bytes(data: Seq<u8>, i: int, member_id: u8)
    requires
        first_id_match(data, i, member_id),
    ensures
        has_record(data, i) && data[record_offset(i) + 32] == member_id,
        forall|j: int| 0 <= j < i ==> data[#[trigger] record_offset(j) + 32] != member_id,
{
    lemma_id_byte(data, i, member_id);
    assert forall|j: int| 0 <= j < i implies data[#[trigger] record_offset(j) + 32] != member_id by {
        assert(!id_matches(data, j, member_id));
        assert(has_record(data, j));
        lemma_id_byte(data, j, member_id);
    }
}

/// No record with an id, read on the bytes: no complete record has that id byte.
pub proof fn lemma_no_id_match_bytes(data: Seq<u8>, member_id: u8)
    requires
        no_id_match(data, member_id),
    ensures
        !exists|j: int| has_record(data, j) && data[#[trigger] record_offset(j) + 32] == member_id,
{
    assert forall|j: int| has_record(data, j) implies data[#[trigger] record_offset(j) + 32] != member_id by {
        assert(!id_matches(data, j, member_id));
        lemma_id_byte(data, j, member_id);
    }
}

/// Walks the members' records in order and gives the index of the first one
/// with id `member_id`; a record cut short stops the walk with an error.
pub fn find_member_by_id(data: &[u8], member_id: u8) -> (r: Result<usize, ProgramError>)
    requires
        data@.len() >= MULTISIG_LEN,
    ensures
        match r {
            Ok(i) => first_id_match(data@, i as int, member_id),
            Err(e) => no_id_match(data@, member_id) && e == id_search_error(data@),
        },
        r is Ok <==> exists|j: int| has_record(data@, j) && data@[#[trigger] record_offset(j) + 32] == member_id,
        r matches Ok(i) ==> has_record(data@, i as int) && data@[record_offset(i as int) + 32] == member_id
            && forall|j: int| 0 <= j < i ==> data@[#[trigger] record_offset(j) + 32] != member_id,
{
    let len: usize = data.len();
    let mut off: usize = 90;
    let mut i: usize = 0;
    while off < len
        invariant
            len == data@.len(),
            len >= MULTISIG_LEN,
            off == record_offset(i as int),
            off <= len,
            forall|j: int| 0 <= j < i ==> has_record(data@, j) && !#[trigger] id_matches(data@, j, member_id),
        decreases len - off,
    {
        if len - off < 34 {
            assert((len - MULTISIG_LEN) % (MEMBER_LEN as int) == (len - off)) by (nonlinear_arith)
                requires
                    len - MULTISIG_LEN == i * MEMBER_LEN + (len - off),
                    0 < len - off < MEMBER_LEN,
            ;
            proof {
                lemma_no_id_match_bytes(data@, member_id);
            }
            return Err(ProgramError::Custom(MultisigError::InvalidInstructionData.code()));
        }
        if data[off + 32] == member_id {
            proof {
                lemma_first_id_match_bytes(data@, i as int, member_id);
            }
            return Ok(i);
        }
        off = off + 34;
        i = i + 1;
    }
    assert((len - MULTISIG_LEN) % (MEMBER_LEN as int) == 0) by (nonlinear_arith)
        requires
            len - MULTISIG_LEN == i * MEMBER_LEN,
    ;
    proof {
        lemma_no_id_match_bytes(data@, member_id);
    }
    Err(ProgramError::Custom(MultisigError::MemberNotFound.code()))
}

/// `s` with every byte from position `z` on set to zero.
pub open spec fn zero_from(s: Seq<u8>, z: int) -> Seq<u8> {
    Seq::new(s.len(), |j: int| if j >= z { 0u8 } else { s[j] })
}

/// The multisig account's data once record `i` is gone: the header counts
/// one member less, the records after `i` move up by one, the account is one
/// record shorter, and every byte from where the old member count ended is zero.
pub open spec fn removed_layout(data: Seq<u8>, i: int) -> Seq<u8> {
    let h = header_of(data);
    let off = record_offset(i);
    zero_from(
        MultisigView { num_members: (h.num_members - 1) as u8, ..h }.to_layout()
            + data.subrange(MULTISIG_LEN as int, off)
            + data.subrange(off + MEMBER_LEN, data.len() as int),
        record_offset(h.num_members as int),
    )
}

/// Removes the first member with id `member_id` from the multisig account's
/// `data`. A record cut short before it is found is refused, and so is an id
/// that no record has.
pub fn remove_member_data(data: &[u8], member_id: u8) -> (r: Result<Vec<u8>, ProgramError>)
    requires
        data@.len() >= MULTISIG_LEN,
        forall|i: int| first_id_match(data@, i, member_id) ==> header_of(data@).num_members >= 1
            && record_offset(header_of(data@).num_members as int) <= data@.len(),
    ensures
        match r {
            Ok(d) => exists|i: int| first_id_match(data@, i, member_id) && d@ == removed_layout(data@, i),
            Err(e) => no_id_match(data@, member_id) && e == id_search_error(data@),
        },
        r is Ok <==> exists|j: int| has_record(data@, j) && data@[#[trigger] record_offset(j) + 32] == member_id,
        r matches Ok(d) ==> exists|i: int| #![trigger record_offset(i)]
            has_record(data@, i) && data@[record_offset(i) + 32] == member_id
            && (forall|j: int| 0 <= j < i ==> data@[#[trigger] record_offset(j) + 32] != member_id)
            && d@ == removed_layout(data@, i),
{
    let len: usize = data.len();
    let mut multisig = read_header(data);
    let old: u8 = multisig.num_members;
    let i = find_member_by_id(data, member_id)?;
    assert(first_id_match(data@, i as int, member_id));
    assert(has_record(data@, i as int) && data@[record_offset(i as int) + 32] == member_id);
    let off: usize = 90 + i * 34;
    multisig.num_members = old - 1;
    let header = multisig.to_bytes();
    let mut q: Vec<u8> = Vec::new();
    push_range(&mut q, &header, 0, 90);
    assert(header@.subrange(0, 90) =~= header@);
    push_range(&mut q, data, 90, off);
    push_range(&mut q, data, off + 34, len);
    let ghost shifted = q@;
    let z: usize = 90 + old as usize * 34;
    let n: usize = len - 34;
    if z < n {
        let mut d: Vec<u8> = Vec::new();
        push_range(&mut d, q.as_slice(), 0, z);
        push_zeros(&mut d, n - z);
        assert(d@ =~= zero_from(shifted, z as int));
        assert(d@ == removed_layout(data@, i as int));
        Ok(d)
    } else {
        assert(q@ =~= zero_from(shifted, z as int));
        assert(q@ == removed_layout(data@, i as int));
        Ok(q)
    }
}

} // verus!
