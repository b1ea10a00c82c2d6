use vstd::prelude::*;
use vstd::bytes::*;

use crate::codec::{push_zeros, zeros, get_u32_le, get_u64_le, put_u32_le, put_u64_le, u32_at, u64_at};
use crate::error::ProgramError;
use crate::state::member::{ends_short, full_records, lemma_stamped_records_len, push_stamped, stamped_records, MEMBER_LEN};
use crate::state::multisig::{Multisig, MultisigView, MULTISIG_LEN};
use crate::state::pda::derived_check;
use crate::state::utils::DataLen;

verus! {

/// The payload of the instruction: the parameters of a new multisig.
#[derive(Debug, Clone, Copy, PartialEq)]
pub struct InitMultisigData {
    pub threshold: u8,
    pub num_members: u8,
    pub max_expiry_duration: u32,
    pub veto_threshold: u8,
    pub multisig_id: u64,
    pub bump: u8,
    pub vault_bump: u8,
}

impl DataLen for InitMultisigData {
    const LEN: usize = 17;
}

impl InitMultisigData {
    /// The payload as it is sent: field after field, integers in
    /// little-endian order.
    pub open spec fn to_layout(self) -> Seq<u8> {
        seq![self.threshold, self.num_members]
            + spec_u32_to_le_bytes(self.max_expiry_duration)
            + seq![self.veto_threshold]
            + spec_u64_to_le_bytes(self.multisig_id)
            + seq![self.bump, self.vault_bump]
    }

    /// The payload that the first `InitMultisigData::LEN` bytes hold.
    pub open spec fn from_layout(s: Seq<u8>) -> InitMultisigData {
        InitMultisigData {
            threshold: s[0],
            num_members: s[1],
            max_expiry_duration: u32_at(s, 2),
            veto_threshold: s[6],
            multisig_id: u64_at(s, 7),
            bump: s[15],
            vault_bump: s[16],
        }
    }

    /// Reads the payload from the first `InitMultisigData::LEN` bytes.
    pub fn from_bytes(bytes: &[u8]) -> (r: InitMultisigData)
        requires
            bytes@.len() >= 17,
        ensures
            r == InitMultisigData::from_layout(bytes@),
    {
        InitMultisigData {
            threshold: bytes[0],
            num_members: bytes[1],
            max_expiry_duration: get_u32_le(bytes, 2),
            veto_threshold: bytes[6],
            multisig_id: get_u64_le(bytes, 7),
            bump: bytes[15],
            vault_bump: bytes[16],
        }
    }

    /// The payload as it is sent.
    pub fn to_bytes(&self) -> (r: [u8; 17])
        ensures
            r@ == self.to_layout(),
    {
        proof {
            lemma_auto_spec_u64_to_from_le_bytes();
            lemma_auto_spec_u32_to_from_le_bytes();
        }
        let mut bytes = [0u8; 17];
        bytes[0] = self.threshold;
        bytes[1] = self.num_members;
        put_u32_le(&mut bytes, 2, self.max_expiry_duration);
        bytes[6] = self.veto_threshold;
        put_u64_le(&mut bytes, 7, self.multisig_id);
        bytes[15] = self.bump;
        bytes[16] = self.vault_bump;
        assert(bytes@ =~= self.to_layout());
        bytes
    }
}

/// Reading back a sent payload gives the payload that was sent.
pub proof fn lemma_init_multisig_data_roundtrip(d: InitMultisigData)
    ensures
        d.to_layout().len() == 17,
        InitMultisigData::from_layout(d.to_layout()) == d,
{
    lemma_auto_spec_u64_to_from_le_bytes();
    lemma_auto_spec_u32_to_from_le_bytes();
    let s = d.to_layout();
    assert(s.subrange(2, 6) =~= spec_u32_to_le_bytes(d.max_expiry_duration));
    assert(s.subrange(7, 15) =~= spec_u64_to_le_bytes(d.multisig_id));
}

/// Sending a payload read from `InitMultisigData::LEN` bytes gives back those bytes.
pub proof fn lemma_init_multisig_data_canonical(s: Seq<u8>)
    requires
        s.len() == 17,
    ensures
        InitMultisigData::from_layout(s).to_layout() == s,
{
    lemma_auto_spec_u64_to_from_le_bytes();
    lemma_auto_spec_u32_to_from_le_bytes();
    assert(spec_u32_to_le_bytes(spec_u32_from_le_bytes(s.subrange(2, 6))) == s.subrange(2, 6));
    assert(spec_u64_to_le_bytes(spec_u64_from_le_bytes(s.subrange(7, 15))) == s.subrange(7, 15));
    assert(InitMultisigData::from_layout(s).to_layout() =~= s);
}

/// The checks made on the accounts before anything is read: at least four
/// accounts, a signing payer, and a multisig account that holds no data yet.
pub fn check_init_multisig_accounts(num_accounts: usize, payer_is_signer: bool, multisig_is_empty: bool) -> (r: Result<(), ProgramError>)
    ensures
        r == (if num_accounts < 4 {
            Err::<(), ProgramError>(ProgramError::NotEnoughAccountKeys)
        } else if !payer_is_signer {
            Err(ProgramError::MissingRequiredSignature)
        } else if !multisig_is_empty {
            Err(ProgramError::AccountAlreadyInitialized)
        } else {
            Ok(())
        }),
{
    if num_accounts < 4 {
        return Err(ProgramError::NotEnoughAccountKeys);
    }
    if !payer_is_signer {
        return Err(ProgramError::MissingRequiredSignature);
    }
    if !multisig_is_empty {
        return Err(ProgramError::AccountAlreadyInitialized);
    }
    Ok(())
}

/// The size of a multisig account with room for `num_members` records.
pub open spec fn multisig_account_len(num_members: u8) -> int {
    MULTISIG_LEN + num_members * MEMBER_LEN
}

/// The header of the multisig that `ix` creates for `payer`, with vault `vault`.
pub open spec fn init_header(ix: InitMultisigData, payer: Seq<u8>, vault: Seq<u8>) -> MultisigView {
    MultisigView {
        creator: payer,
        threshold: ix.threshold,
        num_members: ix.num_members,
        max_expiry_duration: ix.max_expiry_duration,
        veto_threshold: ix.veto_threshold,
        proposal_counter: 0,
        members_counter: ix.num_members,
        vault,
        multisig_id: ix.multisig_id,
        bump: ix.bump,
        vault_bump: ix.vault_bump,
    }
}

/// Checks the two addresses and gives the multisig to create and the size of
/// its account. `multisig_derived` is what the runtime derived from
/// `Multisig::pda_seeds(ix.multisig_id, ix.bump)`, `vault_derived` what it
/// derived from `Vault::pda_seeds(multisig_key, ix.vault_bump)`.
pub fn plan_init_multisig(
    ix: &InitMultisigData,
    payer: &[u8; 32],
    multisig_key: &[u8; 32],
    vault_key: &[u8; 32],
    multisig_derived: Result<[u8; 32], ProgramError>,
    vault_derived: Result<[u8; 32], ProgramError>,
) -> (r: Result<(Multisig, usize), ProgramError>)
    ensures
        match derived_check(multisig_derived, multisig_key@) {
            Err(e) => r == Err::<(Multisig, usize), ProgramError>(e),
            Ok(_) => match derived_check(vault_derived, vault_key@) {
                Err(e) => r == Err::<(Multisig, usize), ProgramError>(e),
                Ok(_) => r matches Ok((m, space)) && m@ == init_header(*ix, payer@, vault_key@)
                    && space == multisig_account_len(ix.num_members),
            },
        },
        r matches Ok((m, space)) ==> {
            &&& m.creator@ == payer@
            &&& m.threshold == ix.threshold
            &&& m.veto_threshold == ix.veto_threshold
            &&& m.num_members == ix.num_members
            &&& m.max_expiry_duration == ix.max_expiry_duration
            &&& m.proposal_counter == 0
            &&& m.members_counter == ix.num_members
            &&& m.vault@ == vault_key@
            &&& m.multisig_id == ix.multisig_id
            &&& m.bump == ix.bump
            &&& m.vault_bump == ix.vault_bump
            &&& space == 90 + 34 * ix.num_members
        },
{
    Multisig::validate_pda(multisig_key, multisig_derived)?;
    crate::state::Vault::validate_pda(vault_key, vault_derived)?;
    let space: usize = 90 + 34 * ix.num_members as usize;
    let multisig = Multisig::new(
        *payer,
        ix.threshold,
        ix.num_members,
        ix.max_expiry_duration,
        ix.veto_threshold,
        *vault_key,
        ix.multisig_id,
        ix.bump,
        ix.vault_bump,
    );
    Ok((multisig, space))
}

/// The data of the newly created multisig account of `space` bytes: the
/// header, then one record for each complete record in `members_bytes`,
/// stamped with its position as id, then zeros. A record cut short is refused.
pub fn init_multisig_account_data(multisig: &Multisig, members_bytes: &[u8], space: usize) -> (r: Result<Vec<u8>, ProgramError>)
    requires
        MULTISIG_LEN + full_records(members_bytes@) * MEMBER_LEN <= space,
    ensures
        ends_short(members_bytes@) ==> r == Err::<Vec<u8>, ProgramError>(ProgramError::InvalidAccountData),
        !ends_short(members_bytes@) ==> (r matches Ok(d) && d@ == multisig@.to_layout()
            + stamped_records(members_bytes@, full_records(members_bytes@), 0)
            + zeros((space - MULTISIG_LEN - members_bytes@.len()) as nat)),
{
    let n: usize = members_bytes.len();
    let k: usize = n / 34;
    let header = multisig.to_bytes();
    let mut d: Vec<u8> = Vec::new();
    crate::codec::push_range(&mut d, &header, 0, 90);
    assert(header@.subrange(0, 90) =~= header@);
    let mut i: usize = 0;
    while i < k
        invariant
            n == members_bytes@.len(),
            k == n / 34,
            0 <= i <= k,
            d@ == multisig@.to_layout() + stamped_records(members_bytes@, i as nat, 0),
        decreases k - i,
    {
        push_stamped(&mut d, members_bytes, i, i as u8);
        i = i + 1;
    }
    if n % 34 != 0 {
        return Err(ProgramError::InvalidAccountData);
    }
    proof {
        lemma_stamped_records_len(members_bytes@, k as nat, 0);
    }
    push_zeros(&mut d, space - 90 - n);
    Ok(d)
}

} // verus!
