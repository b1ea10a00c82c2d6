use pinocchio_multisig::state::DataLen;
use pinocchio_multisig::error::ProgramError;
use pinocchio_multisig::instruction::add_member::{account_len_after_adding, add_members, AddMemberData};
use pinocchio_multisig::instruction::create_proposal::{
    authorize_create_proposal, check_create_proposal_accounts, count_proposal,
};
use pinocchio_multisig::instruction::execute::{settle_proposal, ExecuteData};
use pinocchio_multisig::instruction::init_multisig::{
    check_init_multisig_accounts, init_multisig_account_data, plan_init_multisig, InitMultisigData,
};
use pinocchio_multisig::instruction::modify_config::{modify_config_data, ModifyConfigData};
use pinocchio_multisig::instruction::remove_member::{account_len_after_removing, remove_member_data, RemoveMemberData};
use pinocchio_multisig::instruction::vote::{cast_vote, check_vote, check_vote_accounts};
use pinocchio_multisig::instruction::{check_accounts, decode_instruction, CreateProposalData, MultisigInstruction, VoteData};
use pinocchio_multisig::state::{check_admin_action, get_member_index_if_exists, Member, Multisig, Proposal, Vault};

const NOW: i64 = 1_700_000_000;

struct Account {
    key: [u8; 32],
    data: Vec<u8>,
}

fn key(n: u8) -> [u8; 32] {
    let mut k = [0u8; 32];
    k[0] = n;
    k[31] = 0xa5;
    k
}

/// Runs one instruction of the program against in-memory accounts, the way
/// the on-chain entrypoint does, with every derived address matching.
fn process(payer: &[u8; 32], multisig: &mut Account, vault_key: &[u8; 32], proposal: &mut Account, data: &[u8]) -> Result<(), ProgramError> {
    let ix_data = &data[1..];
    match decode_instruction(data)? {
        MultisigInstruction::InitMultisig => {
            check_init_multisig_accounts(5, true, multisig.data.is_empty())?;
            let ix = InitMultisigData::from_bytes(&ix_data[..InitMultisigData::LEN]);
            let (m, space) = plan_init_multisig(&ix, payer, &multisig.key, vault_key, Ok(multisig.key), Ok(*vault_key))?;
            multisig.data = init_multisig_account_data(&m, &ix_data[InitMultisigData::LEN..], space)?;
        }
        MultisigInstruction::AddMember => {
            check_accounts(4, 3, true, multisig.data.is_empty())?;
            let ix = AddMemberData::from_bytes(&ix_data[..AddMemberData::LEN]);
            Multisig::validate_pda(&multisig.key, Ok(multisig.key))?;
            let space = account_len_after_adding(multisig.data.len(), ix.num_members);
            check_admin_action(payer, &multisig.data)?;
            multisig.data.resize(space, 0);
            multisig.data = add_members(&multisig.data, ix.num_members, &ix_data[AddMemberData::LEN..])?;
        }
        MultisigInstruction::ModifyConfig => {
            check_accounts(3, 2, true, multisig.data.is_empty())?;
            let ix = ModifyConfigData::from_bytes(ix_data);
            Multisig::validate_pda(&multisig.key, Ok(multisig.key))?;
            multisig.data = modify_config_data(&multisig.data, &ix);
        }
        MultisigInstruction::RemoveMember => {
            check_accounts(4, 3, true, multisig.data.is_empty())?;
            let ix = RemoveMemberData::load(ix_data)?;
            Multisig::validate_pda(&multisig.key, Ok(multisig.key))?;
            check_admin_action(payer, &multisig.data)?;
            let space = account_len_after_removing(multisig.data.len());
            let d = remove_member_data(&multisig.data, ix.member_id)?;
            assert_eq!(d.len(), space);
            multisig.data = d;
        }
        MultisigInstruction::CreateProposal => {
            check_create_proposal_accounts(5, true, multisig.data.is_empty(), proposal.data.is_empty(), 0)?;
            let ix = CreateProposalData::from_bytes(&ix_data[..CreateProposalData::LEN]);
            let m = Multisig::from_bytes(&multisig.data[..Multisig::LEN])?;
            let seeds = Proposal::pda_seeds(&multisig.key, m.proposal_counter, ix.proposal_bump);
            assert_eq!(seeds[2], m.proposal_counter.to_le_bytes().to_vec());
            let creator = authorize_create_proposal(&multisig.data, payer, &proposal.key, Ok(proposal.key))?;
            let p = Proposal::new_at(multisig.key, m.proposal_counter, creator, m.max_expiry_duration, ix.proposal_bump, NOW);
            proposal.data = p.to_bytes().to_vec();
            multisig.data = count_proposal(&multisig.data);
        }
        MultisigInstruction::Vote => {
            check_vote_accounts(5, true)?;
            let ix = VoteData::from_bytes(ix_data)?;
            Multisig::validate_pda(&multisig.key, Ok(multisig.key))?;
            Proposal::validate_pda(&proposal.key, Ok(proposal.key))?;
            let index = get_member_index_if_exists(payer, &multisig.data)?;
            check_vote(&proposal.data, index)?;
            proposal.data = cast_vote(&proposal.data, index, ix.vote)?;
        }
        MultisigInstruction::Execute => {
            check_accounts(5, 3, true, multisig.data.is_empty())?;
            let ix = ExecuteData::from_bytes(ix_data);
            Multisig::validate_pda(&multisig.key, Ok(multisig.key))?;
            Proposal::validate_pda(&proposal.key, Ok(proposal.key))?;
            let _ = ix;
            proposal.data = settle_proposal(&multisig.data, &proposal.data, payer, Ok(NOW))?;
        }
    }
    Ok(())
}

fn with_tag(tag: u8, payload: &[u8]) -> Vec<u8> {
    let mut v = vec![tag];
    v.extend_from_slice(payload);
    v
}

fn read_multisig(acc: &Account) -> Multisig {
    Multisig::from_bytes(&acc.data[..Multisig::LEN]).unwrap()
}

fn read_proposal(acc: &Account) -> Proposal {
    Proposal::from_bytes(&acc.data[..Proposal::LEN]).unwrap()
}

fn member_ids(acc: &Account) -> Vec<u8> {
    acc.data[Multisig::LEN..].chunks(Member::LEN).map(|c| Member::from_bytes(c).unwrap().member_id).collect()
}

#[test]
fn test_initialize_and_add_mapping() {
    let fee_payer = key(1);
    let multisig_id = 1;
    let state_bump = 254;
    let vault_bump = 253;
    let mut state = Account { key: key(100), data: Vec::new() };
    let vault_key = key(101);
    let mut proposal_acc = Account { key: key(102), data: Vec::new() };

    // Success: Initialize
    let binding = InitMultisigData {
        threshold: 1,
        num_members: 3,
        max_expiry_duration: 3 * 24 * 60 * 60,
        veto_threshold: 1,
        multisig_id,
        bump: state_bump,
        vault_bump,
    };
    let mut ix = with_tag(0, &binding.to_bytes());
    ix.extend_from_slice(&Member::new(fee_payer, 1).to_bytes());
    ix.extend_from_slice(&Member::new(key(2), 0).to_bytes());
    ix.extend_from_slice(&Member::new(key(3), 0).to_bytes());
    process(&fee_payer, &mut state, &vault_key, &mut proposal_acc, &ix).unwrap();

    let multisig = read_multisig(&state);
    assert_eq!(multisig.creator, fee_payer);
    assert_eq!(multisig.threshold, 1);
    assert_eq!(multisig.num_members, 3);
    assert_eq!(multisig.bump, state_bump);
    assert_eq!(multisig.max_expiry_duration, 3 * 24 * 60 * 60);
    assert_eq!(multisig.veto_threshold, 1);
    assert_eq!(multisig.multisig_id, multisig_id);
    assert_eq!(member_ids(&state), vec![0, 1, 2]);

    // Success: Add member
    let add = AddMemberData { num_members: 2, bump: state_bump, multisig_id };
    let mut ix = with_tag(1, &add.to_bytes());
    ix.extend_from_slice(&Member::new(key(4), 1).to_bytes());
    ix.extend_from_slice(&Member::new(key(5), 0).to_bytes());
    process(&fee_payer, &mut state, &vault_key, &mut proposal_acc, &ix).unwrap();
    let multisig = read_multisig(&state);
    assert_eq!(multisig.num_members, 5);
    assert_eq!(member_ids(&state), vec![0, 1, 2, 3, 4]);

    // Success: Remove member
    let remove = RemoveMemberData { member_id: 1, bump: state_bump, multisig_id };
    let ix = with_tag(3, &remove.to_bytes());
    process(&fee_payer, &mut state, &vault_key, &mut proposal_acc, &ix).unwrap();
    let multisig = read_multisig(&state);
    assert_eq!(multisig.num_members, 4);
    assert_eq!(member_ids(&state), vec![0, 2, 3, 4]);

    // Failure: Remove member
    let result = process(&fee_payer, &mut state, &vault_key, &mut proposal_acc, &ix);
    assert!(result.is_err());
    assert_eq!(result, Err(ProgramError::Custom(5)));

    // Success: Add member
    let mut ix = with_tag(1, &add.to_bytes());
    ix.extend_from_slice(&Member::new(key(4), 1).to_bytes());
    ix.extend_from_slice(&Member::new(key(5), 0).to_bytes());
    process(&fee_payer, &mut state, &vault_key, &mut proposal_acc, &ix).unwrap();
    let multisig = read_multisig(&state);
    assert_eq!(multisig.num_members, 6);

    // Success: Modify config
    let modify = ModifyConfigData {
        threshold: 2,
        max_expiry_duration: 1 * 24 * 60 * 60,
        veto_threshold: 2,
        bump: state_bump,
        multisig_id,
    };
    let ix = with_tag(2, &modify.to_bytes());
    process(&fee_payer, &mut state, &vault_key, &mut proposal_acc, &ix).unwrap();
    let multisig = read_multisig(&state);
    assert_eq!(multisig.threshold, 2);
    assert_eq!(multisig.max_expiry_duration, 1 * 24 * 60 * 60);
    assert_eq!(multisig.veto_threshold, 2);

    // Success: Create proposal
    let create = CreateProposalData { multisig_bump: state_bump, proposal_bump: 250, multisig_id };
    let ix = with_tag(4, &create.to_bytes());
    process(&fee_payer, &mut state, &vault_key, &mut proposal_acc, &ix).unwrap();
    let multisig = read_multisig(&state);
    assert_eq!(multisig.proposal_counter, 1);
    let proposal = read_proposal(&proposal_acc);
    assert_eq!(proposal.multisig, state.key);
    assert_eq!(proposal.id, 0);
    assert_eq!(proposal.creator, 0);
    assert_eq!(proposal.status, 0);

    // Success: Vote
    let vote = VoteData { proposal_id: proposal.id, vote: 1, multisig_bump: state_bump, proposal_bump: 250, multisig_id };
    let ix = with_tag(5, &vote.to_bytes());
    process(&fee_payer, &mut state, &vault_key, &mut proposal_acc, &ix).unwrap();
    let proposal = read_proposal(&proposal_acc);
    assert_eq!(proposal.status, 0);
    assert_eq!(proposal.yes_votes, 1);
    assert_eq!(proposal.no_votes, 0);
    assert_eq!(proposal.veto_votes, 0);
    let voter_list = proposal_acc.data[Proposal::LEN..].to_vec();
    assert_eq!(voter_list, vec![0]);
}

fn init_with_members(payer: &[u8; 32], state: &mut Account, vault_key: &[u8; 32], proposal_acc: &mut Account, members: &[[u8; 32]], threshold: u8, veto_threshold: u8, multisig_id: u64) {
    let binding = InitMultisigData {
        threshold,
        num_members: members.len() as u8,
        max_expiry_duration: 3 * 24 * 60 * 60,
        veto_threshold,
        multisig_id,
        bump: 255,
        vault_bump: 254,
    };
    let mut ix = with_tag(0, &binding.to_bytes());
    for (i, m) in members.iter().enumerate() {
        let role = if i == 0 { 1 } else { 0 };
        let mut member = Member::new(*m, role);
        member.member_id = i as u8;
        ix.extend_from_slice(&member.to_bytes());
    }
    process(payer, state, vault_key, proposal_acc, &ix).unwrap();
}

#[test]
fn test_five_members_different_votes() {
    let members: Vec<[u8; 32]> = (1..=5).map(key).collect();
    let multisig_id = 2;
    let mut state = Account { key: key(100), data: Vec::new() };
    let vault_key = key(101);
    let mut proposal_acc = Account { key: key(102), data: Vec::new() };
    init_with_members(&members[0], &mut state, &vault_key, &mut proposal_acc, &members, 2, 2, multisig_id);

    let create = CreateProposalData { multisig_bump: 255, proposal_bump: 250, multisig_id };
    process(&members[0], &mut state, &vault_key, &mut proposal_acc, &with_tag(4, &create.to_bytes())).unwrap();

    // Each member votes: [yes, no, veto, yes, no]
    let votes = [1, 0, 2, 1, 0];
    for (member, &vote) in members.iter().zip(votes.iter()) {
        let v = VoteData { proposal_id: 0, vote, multisig_bump: 255, proposal_bump: 250, multisig_id };
        process(member, &mut state, &vault_key, &mut proposal_acc, &with_tag(5, &v.to_bytes())).unwrap();
    }

    let proposal = read_proposal(&proposal_acc);
    assert_eq!(proposal.yes_votes, 2);
    assert_eq!(proposal.no_votes, 2);
    assert_eq!(proposal.veto_votes, 1);
    let voter_list = proposal_acc.data[Proposal::LEN..].to_vec();
    assert_eq!(voter_list.len(), 5);
    assert_eq!(voter_list[0], 0);
    assert_eq!(voter_list[1], 3);
    assert_eq!(voter_list[2], 1);
    assert_eq!(voter_list[3], 4);
    assert_eq!(voter_list[4], 2);

    let execute = ExecuteData { proposal_id: 0, multisig_id, bump: 255, vault_bump: 0, proposal_bump: 250 };
    process(&members[0], &mut state, &vault_key, &mut proposal_acc, &with_tag(6, &execute.to_bytes())).unwrap();
    let proposal = read_proposal(&proposal_acc);
    assert_eq!(proposal.status, 1);
}

#[test]
fn test_max_members_and_votes() {
    let members: Vec<[u8; 32]> = (0..250u32)
        .map(|i| {
            let mut k = [7u8; 32];
            k[0] = (i & 0xff) as u8;
            k[1] = (i >> 8) as u8;
            k
        })
        .collect();
    let multisig_id = 3;
    let mut state = Account { key: key(100), data: Vec::new() };
    let vault_key = key(101);
    let mut proposal_acc = Account { key: key(102), data: Vec::new() };
    init_with_members(&members[0], &mut state, &vault_key, &mut proposal_acc, &members, 125, 10, multisig_id);

    let create = CreateProposalData { multisig_bump: 255, proposal_bump: 250, multisig_id };
    process(&members[0], &mut state, &vault_key, &mut proposal_acc, &with_tag(4, &create.to_bytes())).unwrap();

    for member in members.iter() {
        let v = VoteData { proposal_id: 0, vote: 1, multisig_bump: 255, proposal_bump: 250, multisig_id };
        process(member, &mut state, &vault_key, &mut proposal_acc, &with_tag(5, &v.to_bytes())).unwrap();
    }

    let proposal = read_proposal(&proposal_acc);
    assert_eq!(proposal.yes_votes, 250);
    assert_eq!(proposal.no_votes, 0);
    assert_eq!(proposal.veto_votes, 0);
    let voter_list = proposal_acc.data[Proposal::LEN..].to_vec();
    assert_eq!(voter_list.len(), 250);
    let _ = Vault::LEN;
}
