use pinocchio_multisig::state::DataLen;
use pinocchio_multisig::error::{to_program_error, MultisigError, ProgramError};
use pinocchio_multisig::instruction::add_member::AddMemberData;
use pinocchio_multisig::instruction::execute::ExecuteData;
use pinocchio_multisig::instruction::init_multisig::InitMultisigData;
use pinocchio_multisig::instruction::modify_config::ModifyConfigData;
use pinocchio_multisig::instruction::remove_member::RemoveMemberData;
use pinocchio_multisig::instruction::{CreateProposalData, VoteData};
use pinocchio_multisig::state::{Member, Multisig, Proposal, ProposalStatus, Vault};

fn key(n: u8) -> [u8; 32] {
    let mut k = [0u8; 32];
    for (i, b) in k.iter_mut().enumerate() {
        *b = n.wrapping_add(i as u8);
    }
    k
}

#[test]
fn member_layout_is_key_id_role() {
    let mut m = Member::new(key(9), 1);
    assert_eq!(m.member_id, 0);
    m.member_id = 3;
    let bytes = m.to_bytes();
    assert_eq!(&bytes[..32], &key(9));
    assert_eq!(bytes[32], 3);
    assert_eq!(bytes[33], 1);
    let back = Member::from_bytes(&bytes).unwrap();
    assert_eq!(back, m);
    assert_eq!(Member::LEN, 34);
}

#[test]
fn member_from_bytes_refuses_wrong_length() {
    assert_eq!(Member::from_bytes(&[0u8; 33]), Err(ProgramError::InvalidAccountData));
    assert_eq!(Member::from_bytes(&[0u8; 35]), Err(ProgramError::InvalidAccountData));
}

#[test]
fn multisig_layout_offsets() {
    let m = Multisig::new(key(1), 2, 3, 0x0403_0201, 4, key(50), 0x0c0b_0a09_0807_0605, 7, 8);
    assert_eq!(m.proposal_counter, 0);
    assert_eq!(m.members_counter, 3);
    let b = m.to_bytes();
    assert_eq!(b.len(), Multisig::LEN);
    assert_eq!(&b[..32], &key(1));
    assert_eq!(b[32], 2);
    assert_eq!(b[33], 3);
    assert_eq!(&b[34..38], &[1, 2, 3, 4]);
    assert_eq!(b[38], 4);
    assert_eq!(&b[39..47], &[0u8; 8]);
    assert_eq!(b[47], 3);
    assert_eq!(&b[48..80], &key(50));
    assert_eq!(&b[80..88], &[5, 6, 7, 8, 9, 10, 11, 12]);
    assert_eq!(b[88], 7);
    assert_eq!(b[89], 8);
    assert_eq!(Multisig::from_bytes(&b).unwrap(), m);
}

#[test]
fn multisig_from_bytes_refuses_wrong_length() {
    assert_eq!(Multisig::from_bytes(&[0u8; 89]), Err(ProgramError::InvalidAccountData));
    assert_eq!(Multisig::from_bytes(&[0u8; 91]), Err(ProgramError::InvalidAccountData));
}

#[test]
fn proposal_layout_offsets() {
    let mut p = Proposal::new_at(key(3), 0x0102_0304_0506_0708, 4, 10, 9, 1000);
    p.yes_votes = 5;
    p.no_votes = 6;
    p.veto_votes = 7;
    let b = p.to_bytes();
    assert_eq!(b.len(), Proposal::LEN);
    assert_eq!(&b[..32], &key(3));
    assert_eq!(&b[32..40], &[8, 7, 6, 5, 4, 3, 2, 1]);
    assert_eq!(b[40], 4);
    assert_eq!(b[41], 0);
    assert_eq!(&b[42..45], &[5, 6, 7]);
    assert_eq!(&b[45..53], &(1000u64 + 10).to_le_bytes());
    assert_eq!(b[53], 9);
    let mut longer = b.to_vec();
    longer.extend_from_slice(&[1, 2, 3]);
    let back = Proposal::from_bytes(&longer).unwrap();
    assert_eq!(back.to_bytes(), b);
}

#[test]
fn proposal_expiry_is_clock_plus_duration() {
    let p = Proposal::new_at(key(3), 0, 0, 3 * 24 * 60 * 60, 0, 1_700_000_000);
    assert_eq!(p.expiry, 1_700_000_000 + 259_200);
    assert_eq!(p.status, 0);
    assert_eq!((p.yes_votes, p.no_votes, p.veto_votes), (0, 0, 0));
    // A clock before the epoch reads as a huge unsigned value; the sum wraps.
    let q = Proposal::new_at(key(3), 0, 0, 1, 0, -1);
    assert_eq!(q.expiry, 0);
}

#[test]
fn proposal_status_codes() {
    let mut p = Proposal::new_at(key(3), 0, 0, 1, 0, 0);
    for (code, status) in [
        (0u8, ProposalStatus::Pending),
        (1, ProposalStatus::Approved),
        (2, ProposalStatus::Rejected),
        (3, ProposalStatus::Vetoed),
    ] {
        p.status = code;
        assert_eq!(p.get_status(), Ok(status));
        assert_eq!(status.code(), code);
    }
    p.status = 4;
    assert_eq!(p.get_status(), Err(MultisigError::InvalidProposalStatus));
}

#[test]
fn proposal_vote_counts_yes_and_no() {
    let mut p = Proposal::new_at(key(3), 0, 0, 1, 0, 0);
    assert_eq!(p.vote(1), Ok(()));
    assert_eq!(p.vote(0), Ok(()));
    assert_eq!(p.vote(0), Ok(()));
    assert_eq!((p.yes_votes, p.no_votes, p.veto_votes), (1, 2, 0));
    assert_eq!(p.vote(2), Err(ProgramError::Custom(10)));
    assert_eq!((p.yes_votes, p.no_votes, p.veto_votes), (1, 2, 0));
}

#[test]
fn vault_layout() {
    let v = Vault::new(key(4), 200).unwrap();
    let b = v.to_bytes();
    assert_eq!(&b[..32], &key(4));
    assert_eq!(b[32], 200);
    let back = Vault::from_bytes(&b).unwrap();
    assert_eq!(back.multisig, key(4));
    assert_eq!(back.vault_bump, 200);
    assert!(matches!(Vault::from_bytes(&b[..32]), Err(ProgramError::InvalidAccountData)));
}

#[test]
fn init_multisig_payload_layout() {
    let d = InitMultisigData {
        threshold: 1,
        num_members: 3,
        max_expiry_duration: 259_200,
        veto_threshold: 2,
        multisig_id: 0x0102,
        bump: 250,
        vault_bump: 251,
    };
    let b = d.to_bytes();
    assert_eq!(b.to_vec(), vec![1, 3, 0x80, 0xf4, 0x03, 0x00, 2, 0x02, 0x01, 0, 0, 0, 0, 0, 0, 250, 251]);
    assert_eq!(InitMultisigData::from_bytes(&b), d);
}

#[test]
fn add_and_remove_member_payload_layout() {
    let a = AddMemberData { num_members: 2, bump: 9, multisig_id: 1 };
    assert_eq!(a.to_bytes().to_vec(), vec![2, 9, 1, 0, 0, 0, 0, 0, 0, 0]);
    assert_eq!(AddMemberData::from_bytes(&a.to_bytes()), a);
    let r = RemoveMemberData { member_id: 1, bump: 9, multisig_id: 2 };
    assert_eq!(r.to_bytes().to_vec(), vec![1, 9, 2, 0, 0, 0, 0, 0, 0, 0]);
    assert_eq!(RemoveMemberData::from_bytes(&r.to_bytes()), r);
    assert_eq!(RemoveMemberData::load(&r.to_bytes()), Ok(r));
    assert_eq!(RemoveMemberData::load(&[1, 9]), Err(ProgramError::Custom(1)));
}

#[test]
fn modify_config_payload_layout() {
    let m = ModifyConfigData { threshold: 2, max_expiry_duration: 86_400, veto_threshold: 3, bump: 7, multisig_id: 5 };
    assert_eq!(m.to_bytes().to_vec(), vec![2, 0x80, 0x51, 0x01, 0x00, 3, 7, 5, 0, 0, 0, 0, 0, 0, 0]);
    assert_eq!(ModifyConfigData::from_bytes(&m.to_bytes()), m);
}

#[test]
fn create_proposal_vote_execute_payload_layout() {
    let c = CreateProposalData { multisig_bump: 1, proposal_bump: 2, multisig_id: 3 };
    assert_eq!(c.to_bytes().to_vec(), vec![1, 2, 3, 0, 0, 0, 0, 0, 0, 0]);
    let back = CreateProposalData::from_bytes(&c.to_bytes());
    assert_eq!((back.multisig_bump, back.proposal_bump, back.multisig_id), (1, 2, 3));

    let v = VoteData { proposal_id: 4, vote: 2, multisig_bump: 5, proposal_bump: 6, multisig_id: 7 };
    assert_eq!(v.to_bytes().to_vec(), vec![4, 0, 0, 0, 0, 0, 0, 0, 2, 5, 6, 7, 0, 0, 0, 0, 0, 0, 0]);
    let back = VoteData::from_bytes(&v.to_bytes()).unwrap();
    assert_eq!((back.proposal_id, back.vote, back.multisig_bump, back.proposal_bump, back.multisig_id), (4, 2, 5, 6, 7));

    let e = ExecuteData { proposal_id: 1, multisig_id: 2, bump: 3, vault_bump: 4, proposal_bump: 5 };
    assert_eq!(e.to_bytes().to_vec(), vec![1, 0, 0, 0, 0, 0, 0, 0, 2, 0, 0, 0, 0, 0, 0, 0, 3, 4, 5]);
    assert_eq!(ExecuteData::from_bytes(&e.to_bytes()), e);
}

#[test]
fn error_codes_follow_declaration_order() {
    let all = [
        MultisigError::WriteOverflow,
        MultisigError::InvalidInstructionData,
        MultisigError::PdaMismatch,
        MultisigError::InvalidOwner,
        MultisigError::MultisigAlreadyInitialized,
        MultisigError::MemberNotFound,
        MultisigError::NotAdmin,
        MultisigError::InvalidProposalStatus,
        MultisigError::MemberAlreadyExists,
        MultisigError::MemberAlreadyVoted,
        MultisigError::InvalidVotingOption,
        MultisigError::ProposalNotExpired,
    ];
    for (i, e) in all.iter().enumerate() {
        assert_eq!(e.code(), i as u32);
        assert_eq!(ProgramError::from(*e), ProgramError::Custom(i as u32));
        assert_eq!(to_program_error(*e), ProgramError::Custom(i as u32));
    }
}
