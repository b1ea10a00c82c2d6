use vstd::prelude::*;
use vstd::bytes::*;

use crate::codec::{push_range, get_u64_le, put_u64_le, u64_at};
use crate::error::{MultisigError, ProgramError, program_error_of};
use crate::state::member::{ends_short, full_records, lemma_stamped_records_len, push_stamped, stamped_records, MEMBER_LEN};
use crate::state::multisig::{header_of, read_header, record_offset, MultisigView, MULTISIG_LEN};
use crate::state::utils::DataLen;

verus! {

/// The payload of the instruction: how many members the instruction adds, and the multisig's bump and id.
#[derive(Debug, Clone, Copy, PartialEq)]
pub struct AddMemberData {
    pub num_members: u8,
    pub bump: u8,
    pub multisig_id: u64,
}

impl DataLen for AddMemberData {
    const LEN: usize = 10;
}

impl AddMemberData {
    /// The payload as it is sent: field after field, integers in
    /// little-endian order.
    pub open spec fn to_layout(self) -> Seq<u8> {
        seq![self.num_members, self.bump]
            + spec_u64_to_le_bytes(self.multisig_id)
    }

    /// The payload that the first `AddMemberData::LEN` bytes hold.
    pub open spec fn from_layout(s: Seq<u8>) -> AddMemberData {
        AddMemberData {
            num_members: s[0],
            bump: s[1],
            multisig_id: u64_at(s, 2),
        }
    }

    /// Reads the payload from the first `AddMemberData::LEN` bytes.
    pub fn from_bytes(bytes: &[u8]) -> (r: AddMemberData)
        requires
            bytes@.len() >= 10,
        ensures
            r == AddMemberData::from_layout(bytes@),
    {
        AddMemberData {
            num_members: bytes[0],
            bump: bytes[1],
            multisig_id: get_u64_le(bytes, 2),
        }
    }

    /// The payload as it is sent.
    pub fn to_bytes(&self) -> (r: [u8; 10])
        ensures
            r@ == self.to_layout(),
    {
        proof {
            lemma_auto_spec_u64_to_from_le_bytes();
        }
        let mut bytes = [0u8; 10];
        bytes[0] = self.num_members;
        bytes[1] = self.bump;
        put_u64_le(&mut bytes, 2, self.multisig_id);
        assert(bytes@ =~= self.to_layout());
        bytes
    }
}

/// Reading back a sent payload gives the payload that was sent.
pub proof fn lemma_add_member_data_roundtrip(d: AddMemberData)
    ensures
        d.to_layout().len() == 10,
        AddMemberData::from_layout(d.to_layout()) == d,
{
    lemma_auto_spec_u64_to_from_le_bytes();
    let s = d.to_layout();
    assert(s.subrange(2, 10) =~= spec_u64_to_le_bytes(d.multisig_id));
}

/// Sending a payload read from `AddMemberData::LEN` bytes gives back those bytes.
pub proof fn lemma_add_member_data_canonical(s: Seq<u8>)
    requires
        s.len() == 10,
    ensures
        AddMemberData::from_layout(s).to_layout() == s,
{
    lemma_auto_spec_u64_to_from_le_bytes();
    assert(spec_u64_to_le_bytes(spec_u64_from_le_bytes(s.subrange(2, 10))) == s.subrange(2, 10));
    assert(AddMemberData::from_layout(s).to_layout() =~= s);
}

/// The size of a multisig account of `data_len` bytes once `added` more
/// records fit in it.
pub fn account_len_after_adding(data_len: usize, added: u8) -> (r: usize)
    requires
        data_len + added * MEMBER_LEN <= usize::MAX,
    ensures
        r == data_len + added * MEMBER_LEN,
{
    data_len + 34 * added as usize
}

/// The multisig account's data once the members in `members_bytes` are
/// added: the header counts `added` more members, and the complete records of
/// `members_bytes` are written after the existing members, stamped with the
/// ids that follow the old member count.
pub open spec fn added_members_layout(data: Seq<u8>, added: u8, members_bytes: Seq<u8>) -> Seq<u8> {
    let h = header_of(data);
    let last = record_offset(h.num_members as int);
    let k = full_records(members_bytes);
    MultisigView { num_members: (h.num_members + added) as u8, ..h }.to_layout()
        + data.subrange(MULTISIG_LEN as int, last)
        + stamped_records(members_bytes, k, h.num_members as int)
        + data.skip(last + k * MEMBER_LEN)
}

/// Adds the members of `members_bytes` to the multisig account's `data`,
/// which already has room for them. A record cut short is refused.
pub fn add_members(data: &[u8], added: u8, members_bytes: &[u8]) -> (r: Result<Vec<u8>, ProgramError>)
    requires
        data@.len() >= MULTISIG_LEN,
        record_offset(header_of(data@).num_members + full_records(members_bytes@)) <= data@.len(),
        header_of(data@).num_members + full_records(members_bytes@) <= 256,
        !ends_short(members_bytes@) ==> header_of(data@).num_members + added <= u8::MAX,
    ensures
        ends_short(members_bytes@) ==> r == Err::<Vec<u8>, ProgramError>(
            program_error_of(MultisigError::InvalidInstructionData),
        ),
        !ends_short(members_bytes@) ==> (r matches Ok(d) && d@ == added_members_layout(data@, added, members_bytes@)),
{
    let len: usize = data.len();
    let mut multisig = read_header(data);
    let old: u8 = multisig.num_members;
    let last: usize = 90 + old as usize * 34;
    let n: usize = members_bytes.len();
    let k: usize = n / 34;
    if n % 34 != 0 {
        return Err(ProgramError::Custom(MultisigError::InvalidInstructionData.code()));
    }
    multisig.num_members = old + added;
    let header = multisig.to_bytes();
    let mut d: Vec<u8> = Vec::new();
    crate::codec::push_range(&mut d, &header, 0, 90);
    assert(header@.subrange(0, 90) =~= header@);
    push_range(&mut d, data, 90, last);
    let ghost prefix = d@;
    let mut i: usize = 0;
    while i < k
        invariant
            n == members_bytes@.len(),
            k == n / 34,
            0 <= i <= k,
            old as int + k <= 256,
            d@ == prefix + stamped_records(members_bytes@, i as nat, old as int),
        decreases k - i,
    {
        push_stamped(&mut d, members_bytes, i, old + i as u8);
        i = i + 1;
    }
    proof {
        lemma_stamped_records_len(members_bytes@, k as nat, old as int);
    }
    push_range(&mut d, data, last + k * 34, len);
    assert(data@.subrange((last + k * 34) as int, len as int) =~= data@.skip(last + k * 34));
    Ok(d)
}

} // verus!
