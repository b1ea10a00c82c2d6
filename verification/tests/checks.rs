use pinocchio_multisig::error::ProgramError;
use pinocchio_multisig::instruction::create_proposal::{authorize_create_proposal, check_create_proposal_accounts, count_proposal};
use pinocchio_multisig::instruction::init_multisig::{check_init_multisig_accounts, plan_init_multisig, InitMultisigData};
use pinocchio_multisig::instruction::vote::check_vote_accounts;
use pinocchio_multisig::instruction::{
    check_accounts, decode_instruction, lamports_shortfall, lamports_surplus, MultisigInstruction,
};
use pinocchio_multisig::state::{
    check_admin_action, check_member_exists, get_admin_index_if_exists, get_member_index_if_exists, Member, Multisig,
    Proposal, Vault,
};

fn key(n: u8) -> [u8; 32] {
    [n; 32]
}

fn account(members: &[(u8, u8, u8)]) -> Vec<u8> {
    let mut d = Multisig::new(key(200), 1, members.len() as u8, 60, 1, key(201), 9, 1, 2).to_bytes().to_vec();
    for &(k, id, role) in members {
        let mut m = Member::new(key(k), role);
        m.member_id = id;
        d.extend_from_slice(&m.to_bytes());
    }
    d
}

#[test]
fn decode_instruction_by_tag() {
    assert_eq!(decode_instruction(&[]), Err(ProgramError::InvalidInstructionData));
    let expected = [
        MultisigInstruction::InitMultisig,
        MultisigInstruction::AddMember,
        MultisigInstruction::ModifyConfig,
        MultisigInstruction::RemoveMember,
        MultisigInstruction::CreateProposal,
        MultisigInstruction::Vote,
        MultisigInstruction::Execute,
    ];
    for (tag, ix) in expected.iter().enumerate() {
        assert_eq!(decode_instruction(&[tag as u8, 9, 9]), Ok(*ix));
    }
    assert_eq!(decode_instruction(&[7]), Err(ProgramError::InvalidInstructionData));
}

#[test]
fn account_checks_in_order() {
    assert_eq!(check_accounts(2, 3, false, true), Err(ProgramError::NotEnoughAccountKeys));
    assert_eq!(check_accounts(3, 3, false, true), Err(ProgramError::MissingRequiredSignature));
    assert_eq!(check_accounts(3, 3, true, true), Err(ProgramError::InvalidAccountData));
    assert_eq!(check_accounts(3, 3, true, false), Ok(()));
    assert_eq!(check_init_multisig_accounts(3, true, true), Err(ProgramError::NotEnoughAccountKeys));
    assert_eq!(check_init_multisig_accounts(4, false, true), Err(ProgramError::MissingRequiredSignature));
    assert_eq!(check_init_multisig_accounts(4, true, false), Err(ProgramError::AccountAlreadyInitialized));
    assert_eq!(check_init_multisig_accounts(4, true, true), Ok(()));
    assert_eq!(check_create_proposal_accounts(4, true, false, false, 0), Err(ProgramError::InvalidAccountData));
    assert_eq!(check_create_proposal_accounts(4, true, false, true, 1), Err(ProgramError::InvalidAccountData));
    assert_eq!(check_create_proposal_accounts(4, true, false, true, 0), Ok(()));
    assert_eq!(check_create_proposal_accounts(3, true, false, true, 0), Err(ProgramError::NotEnoughAccountKeys));
    assert_eq!(check_vote_accounts(2, true), Err(ProgramError::InvalidInstructionData));
    assert_eq!(check_vote_accounts(3, false), Err(ProgramError::InvalidInstructionData));
    assert_eq!(check_vote_accounts(3, true), Ok(()));
}

#[test]
fn lamport_differences() {
    assert_eq!(lamports_shortfall(1_000, 400), 600);
    assert_eq!(lamports_shortfall(1_000, 1_000), 0);
    assert_eq!(lamports_surplus(1_000, 400), 600);
}

#[test]
fn pda_seeds_of_each_account() {
    let s = Multisig::pda_seeds(1, 254);
    assert_eq!(s, vec![b"multisig".to_vec(), 1u64.to_le_bytes().to_vec(), vec![254]]);
    let s = Vault::pda_seeds(&key(7), 253);
    assert_eq!(s, vec![b"vault".to_vec(), key(7).to_vec(), vec![253]]);
    let s = Proposal::pda_seeds(&key(8), 5, 252);
    assert_eq!(s, vec![b"proposal".to_vec(), key(8).to_vec(), 5u64.to_le_bytes().to_vec(), vec![252]]);
}

#[test]
fn pda_validation() {
    assert_eq!(Multisig::validate_pda(&key(1), Ok(key(1))), Ok(()));
    assert_eq!(Multisig::validate_pda(&key(1), Ok(key(2))), Err(ProgramError::Custom(2)));
    assert_eq!(Vault::validate_pda(&key(1), Err(ProgramError::Runtime(14))), Err(ProgramError::Runtime(14)));
    assert_eq!(Proposal::validate_pda(&key(3), Ok(key(3))), Ok(()));
}

#[test]
fn plan_init_checks_multisig_then_vault() {
    let ix = InitMultisigData { threshold: 1, num_members: 2, max_expiry_duration: 5, veto_threshold: 1, multisig_id: 4, bump: 1, vault_bump: 2 };
    let r = plan_init_multisig(&ix, &key(1), &key(2), &key(3), Ok(key(9)), Ok(key(8)));
    assert_eq!(r.map(|_| ()), Err(ProgramError::Custom(2)));
    let r = plan_init_multisig(&ix, &key(1), &key(2), &key(3), Ok(key(2)), Ok(key(8)));
    assert_eq!(r.map(|_| ()), Err(ProgramError::Custom(2)));
    let (m, space) = plan_init_multisig(&ix, &key(1), &key(2), &key(3), Ok(key(2)), Ok(key(3))).unwrap();
    assert_eq!(space, 90 + 2 * 34);
    assert_eq!(m.creator, key(1));
    assert_eq!(m.vault, key(3));
    assert_eq!(m.members_counter, 2);
    assert_eq!(m.proposal_counter, 0);
}

#[test]
fn admin_and_member_searches() {
    // key 5 is a plain member, key 6 an admin with id 7, key 6 again as admin with id 8.
    let d = account(&[(5, 0, 0), (6, 7, 1), (6, 8, 1)]);
    assert_eq!(check_admin_action(&key(6), &d), Ok(()));
    assert_eq!(get_admin_index_if_exists(&key(6), &d), Ok(7));
    assert_eq!(check_admin_action(&key(5), &d), Err(ProgramError::Custom(6)));
    assert_eq!(get_admin_index_if_exists(&key(5), &d), Err(ProgramError::Custom(6)));
    assert_eq!(check_member_exists(&key(5), &d), Ok(()));
    assert_eq!(get_member_index_if_exists(&key(6), &d), Ok(7));
    assert_eq!(check_member_exists(&key(9), &d), Err(ProgramError::Custom(5)));
    assert_eq!(get_member_index_if_exists(&key(9), &d), Err(ProgramError::Custom(5)));
}

#[test]
fn searches_stop_at_a_record_cut_short() {
    let mut d = account(&[(5, 0, 0), (6, 1, 1)]);
    d.extend_from_slice(&[1, 2, 3]);
    // A match before the short record is still found.
    assert_eq!(get_member_index_if_exists(&key(6), &d), Ok(1));
    // No match: the short record is reported.
    assert_eq!(check_admin_action(&key(9), &d), Err(ProgramError::InvalidAccountData));
    assert_eq!(check_member_exists(&key(9), &d), Err(ProgramError::InvalidAccountData));
}

#[test]
fn any_member_creates_proposals_and_they_are_counted() {
    let d = account(&[(5, 0, 0), (6, 3, 1)]);
    assert_eq!(authorize_create_proposal(&d, &key(6), &key(40), Ok(key(40))), Ok(3));
    assert_eq!(authorize_create_proposal(&d, &key(5), &key(40), Ok(key(40))), Ok(0));
    assert_eq!(authorize_create_proposal(&d, &key(9), &key(40), Ok(key(40))), Err(ProgramError::Custom(5)));
    assert_eq!(authorize_create_proposal(&d, &key(6), &key(40), Ok(key(41))), Err(ProgramError::Custom(2)));
    let counted = count_proposal(&d);
    let m = Multisig::from_bytes(&counted[..90]).unwrap();
    assert_eq!(m.proposal_counter, 1);
    assert_eq!(&counted[90..], &d[90..]);
    let again = Multisig::from_bytes(&count_proposal(&counted)[..90]).unwrap();
    assert_eq!(again.proposal_counter, 2);
}

#[test]
fn proposal_new_reads_the_clock() {
    // Off the cluster the clock cannot be read, and creation reports it.
    let r = Proposal::new(key(1), 0, 0, 60, 1);
    assert!(matches!(r, Err(ProgramError::Runtime(_))));
}
