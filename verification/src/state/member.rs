use vstd::prelude::*;

use crate::error::ProgramError;
use crate::state::utils::DataLen;

verus! {

/// A member of a multisig: its key, its id within the multisig and its role
/// (`1` for an admin, anything else for a plain member).
#[derive(Clone, Copy, Debug, PartialEq)]
pub struct Member {
    pub pubkey: [u8; 32],
    pub member_id: u8,
    pub role: u8,
}

/// The mathematical value of a `Member`.
#[verifier::ext_equal]
pub struct MemberView {
    pub pubkey: Seq<u8>,
    pub member_id: u8,
    pub role: u8,
}

impl View for Member {
    type V = MemberView;

    open spec fn view(&self) -> MemberView {
        MemberView { pubkey: self.pubkey@, member_id: self.member_id, role: self.role }
    }
}

/// The size of a stored member: key, id, role.
pub const MEMBER_LEN: usize = 34;

impl MemberView {
    /// A member as it is stored: the key, then the id, then the role.
    pub open spec fn to_layout(self) -> Seq<u8> {
        self.pubkey + seq![self.member_id, self.role]
    }

    /// The member that a stored record holds.
    pub open spec fn from_layout(s: Seq<u8>) -> MemberView {
        MemberView { pubkey: s.subrange(0, 32), member_id: s[32], role: s[33] }
    }

    /// Whether the key has its 32 bytes.
    pub open spec fn wf(self) -> bool {
        self.pubkey.len() == 32
    }

    /// Whether this member is an admin.
    pub open spec fn is_admin(self) -> bool {
        self.role == 1
    }
}

impl DataLen for Member {
    const LEN: usize = 34;
}

impl Member {
    /// A member with the given key and role, and id 0.
    pub fn new(pubkey: [u8; 32], role: u8) -> (m: Member)
        ensures
            m@ == (MemberView { pubkey: pubkey@, member_id: 0, role }),
    {
        Member { pubkey, member_id: 0, role }
    }

    /// Reads a member from exactly `Member::LEN` bytes.
    pub fn from_bytes(bytes: &[u8]) -> (r: Result<Member, ProgramError>)
        ensures
            match r {
                Ok(m) => bytes@.len() == MEMBER_LEN && m@ == MemberView::from_layout(bytes@),
                Err(e) => bytes@.len() != MEMBER_LEN && e == ProgramError::InvalidAccountData,
            },
    {
        if bytes.len() != 34 {
            return Err(ProgramError::InvalidAccountData);
        }
        let pubkey = crate::codec::get_key(bytes, 0);
        let m = Member { pubkey, member_id: bytes[32], role: bytes[33] };
        assert(m@ =~= MemberView::from_layout(bytes@));
        Ok(m)
    }

    /// The stored form of this member.
    pub fn to_bytes(&self) -> (r: [u8; 34])
        ensures
            r@ == self@.to_layout(),
    {
        let mut bytes = [0u8; 34];
        crate::codec::put_bytes(&mut bytes, 0, &self.pubkey);
        bytes[32] = self.member_id;
        bytes[33] = self.role;
        assert(bytes@ =~= self@.to_layout());
        bytes
    }
}

/// Reading back a stored member gives the member that was stored.
pub proof fn lemma_member_layout_roundtrip(v: MemberView)
    requires
        v.wf(),
    ensures
        v.to_layout().len() == MEMBER_LEN,
        MemberView::from_layout(v.to_layout()) == v,
{
    assert(MemberView::from_layout(v.to_layout()) =~= v);
}

/// Storing a member read from `Member::LEN` bytes gives back those bytes.
pub proof fn lemma_member_layout_canonical(s: Seq<u8>)
    requires
        s.len() == MEMBER_LEN,
    ensures
        MemberView::from_layout(s).wf(),
        MemberView::from_layout(s).to_layout() == s,
{
    assert(MemberView::from_layout(s).to_layout() =~= s);
}

/// The number of complete records in a run of stored members.
pub open spec fn full_records(s: Seq<u8>) -> nat {
    s.len() / (MEMBER_LEN as nat)
}

/// Whether a run of stored members ends in a record cut short.
pub open spec fn ends_short(s: Seq<u8>) -> bool {
    s.len() % (MEMBER_LEN as nat) != 0
}

/// Record `i` of a run of stored members.
pub open spec fn chunk(s: Seq<u8>, i: int) -> Seq<u8> {
    s.subrange(i * MEMBER_LEN, (i + 1) * MEMBER_LEN)
}

/// Record `i` of `s` with its id byte set to `id`.
pub open spec fn stamped(s: Seq<u8>, i: int, id: int) -> Seq<u8> {
    chunk(s, i).update(32, id as u8)
}

/// The first `n` records of `s`, record `i` stamped with id `first_id + i`.
pub open spec fn stamped_records(s: Seq<u8>, n: nat, first_id: int) -> Seq<u8>
    decreases n,
{
    if n == 0 {
        seq![]
    } else {
        stamped_records(s, (n - 1) as nat, first_id) + stamped(s, n - 1, first_id + n - 1)
    }
}

/// `n` stamped records take `n` record lengths.
pub proof fn lemma_stamped_records_len(s: Seq<u8>, n: nat, first_id: int)
    requires
        n * MEMBER_LEN <= s.len(),
    ensures
        stamped_records(s, n, first_id).len() == n * MEMBER_LEN,
    decreases n,
{
    if n > 0 {
        lemma_stamped_records_len(s, (n - 1) as nat, first_id);
    }
}

/// Appends record `i` of `s`, stamped with `id`.
pub fn push_stamped(d: &mut Vec<u8>, s: &[u8], i: usize, id: u8)
    requires
        (i + 1) * MEMBER_LEN <= s@.len(),
    ensures
        final(d)@ == old(d)@ + stamped(s@, i as int, id as int),
{
    let ghost start = d@;
    let len: usize = s.len();
    let off: usize = i * 34;
    crate::codec::push_range(d, s, off, off + 32);
    d.push(id);
    d.push(s[off + 33]);
    assert(stamped(s@, i as int, id as int) =~= s@.subrange(off as int, off + 32) + seq![id, s@[off + 33]]);
    assert(d@ =~= start + stamped(s@, i as int, id as int));
}

} // verus!
