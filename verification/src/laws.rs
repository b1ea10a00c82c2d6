//! Properties of the program that span several operations.

use vstd::prelude::*;

use crate::error::{MultisigError, ProgramError, program_error_of};
use crate::instruction::add_member::added_members_layout;
use crate::instruction::create_proposal::{counted_layout, new_proposal};
use crate::instruction::execute::{settle_outcome, settled_layout, settled_status};
use crate::instruction::init_multisig::{init_header, InitMultisigData};
use crate::instruction::modify_config::{configured_layout, ModifyConfigData};
use crate::instruction::remove_member::{
    first_id_match, id_matches, lemma_first_id_match_bytes, lemma_id_byte, lemma_no_id_match_bytes, no_id_match, removed_layout,
};
use crate::instruction::vote::{counted_vote, vote_check, vote_position, voted_layout, voter_list};
use crate::state::member::{
    chunk, ends_short, full_records, lemma_stamped_records_len, stamped, stamped_records,
    MemberView, MEMBER_LEN,
};
use crate::codec::zeros;
use crate::state::multisig::{
    has_record, header_of, lemma_multisig_layout_roundtrip, no_match, record, record_matches, record_offset, MultisigView, MULTISIG_LEN,
};
use crate::state::proposal::{
    lemma_proposal_layout_roundtrip, status_code, ProposalStatus, ProposalView, PROPOSAL_LEN,
};

verus! {

/// A multisig account is in shape when it holds its header and exactly as
/// many member records as the header counts.
pub open spec fn account_in_shape(data: Seq<u8>) -> bool {
    data.len() >= MULTISIG_LEN && data.len() == record_offset(header_of(data).num_members as int)
}

/// A header followed by anything reads back as that header.
pub proof fn lemma_header_of_layout(v: MultisigView, rest: Seq<u8>)
    requires
        v.wf(),
    ensures
        header_of(v.to_layout() + rest) == v,
        (v.to_layout() + rest).len() == MULTISIG_LEN + rest.len(),
{
    lemma_multisig_layout_roundtrip(v);
    let s = v.to_layout() + rest;
    let l = v.to_layout();
    assert(s.subrange(34, 38) =~= l.subrange(34, 38));
    assert(s.subrange(39, 47) =~= l.subrange(39, 47));
    assert(s.subrange(80, 88) =~= l.subrange(80, 88));
    assert(s.subrange(0, 32) =~= l.subrange(0, 32));
    assert(s.subrange(48, 80) =~= l.subrange(48, 80));
    assert(header_of(s) =~= MultisigView::from_layout(l));
}

/// A proposal followed by anything reads back as that proposal.
pub proof fn lemma_proposal_of_layout(v: ProposalView, rest: Seq<u8>)
    requires
        v.wf(),
    ensures
        ProposalView::from_layout(v.to_layout() + rest) == v,
        (v.to_layout() + rest).len() == PROPOSAL_LEN + rest.len(),
{
    lemma_proposal_layout_roundtrip(v);
    let s = v.to_layout() + rest;
    let l = v.to_layout();
    assert(s.subrange(32, 40) =~= l.subrange(32, 40));
    assert(s.subrange(45, 53) =~= l.subrange(45, 53));
    assert(s.subrange(0, 32) =~= l.subrange(0, 32));
    assert(ProposalView::from_layout(s) =~= ProposalView::from_layout(l));
}

/// Record `i` of a run of stamped records is record `i` of the source,
/// stamped with id `first_id + i`.
pub proof fn lemma_stamped_records_index(s: Seq<u8>, n: nat, first_id: int, i: int)
    requires
        n * MEMBER_LEN <= s.len(),
        0 <= i < n,
    ensures
        stamped_records(s, n, first_id).subrange(i * MEMBER_LEN, (i + 1) * MEMBER_LEN) == stamped(s, i, first_id + i),
    decreases n,
{
    lemma_stamped_records_len(s, n, first_id);
    lemma_stamped_records_len(s, (n - 1) as nat, first_id);
    let prev = stamped_records(s, (n - 1) as nat, first_id);
    if i < n - 1 {
        lemma_stamped_records_index(s, (n - 1) as nat, first_id, i);
        assert(stamped_records(s, n, first_id).subrange(i * MEMBER_LEN, (i + 1) * MEMBER_LEN)
            =~= prev.subrange(i * MEMBER_LEN, (i + 1) * MEMBER_LEN));
    } else {
        assert(stamped_records(s, n, first_id).subrange(i * MEMBER_LEN, (i + 1) * MEMBER_LEN)
            =~= stamped(s, i, first_id + i));
    }
}

/// Adding members: the account grows by nothing (its room was made before),
/// the header counts `added` more members and nothing else changes in it,
/// the members that were there keep their records, and the `i`-th added
/// record sits right after them with id `old + i`. When as many records come
/// as are counted, an account in shape stays in shape.
pub proof fn law_add_members(data: Seq<u8>, added: u8, members_bytes: Seq<u8>)
    requires
        data.len() >= MULTISIG_LEN,
        record_offset(header_of(data).num_members + full_records(members_bytes)) <= data.len(),
        header_of(data).num_members + full_records(members_bytes) <= 256,
        !ends_short(members_bytes),
        header_of(data).num_members + added <= u8::MAX,
    ensures
        ({
            let d = added_members_layout(data, added, members_bytes);
            let h = header_of(data);
            let old = h.num_members as int;
            &&& d.len() == data.len()
            &&& header_of(d) == MultisigView { num_members: (old + added) as u8, ..h }
            &&& forall|j: int| 0 <= j < old ==> #[trigger] record(d, j) == record(data, j)
            &&& forall|i: int| 0 <= i < full_records(members_bytes) ==> #[trigger] record(d, old + i) == MemberView {
                member_id: (old + i) as u8,
                ..MemberView::from_layout(chunk(members_bytes, i))
            }
            &&& full_records(members_bytes) == added && data.len() == record_offset(old + added)
                ==> account_in_shape(d)
        }),
{
    let h = header_of(data);
    let old = h.num_members as int;
    let k = full_records(members_bytes);
    let last = record_offset(old);
    let hv = MultisigView { num_members: (old + added) as u8, ..h };
    let recs = stamped_records(members_bytes, k, old);
    lemma_stamped_records_len(members_bytes, k, old);
    let rest = data.subrange(MULTISIG_LEN as int, last) + recs + data.skip(last + k * MEMBER_LEN);
    let d = added_members_layout(data, added, members_bytes);
    assert(d =~= hv.to_layout() + rest);
    lemma_header_of_layout(hv, rest);
    assert forall|j: int| 0 <= j < old implies #[trigger] record(d, j) == record(data, j) by {
        assert(d.subrange(record_offset(j), record_offset(j + 1)) =~= data.subrange(record_offset(j), record_offset(j + 1)));
    }
    assert forall|i: int| 0 <= i < k implies #[trigger] record(d, old + i) == MemberView {
        member_id: (old + i) as u8,
        ..MemberView::from_layout(chunk(members_bytes, i))
    } by {
        lemma_stamped_records_index(members_bytes, k, old, i);
        assert(d.subrange(record_offset(old + i), record_offset(old + i + 1))
            =~= recs.subrange(i * MEMBER_LEN, (i + 1) * MEMBER_LEN));
        let st = stamped(members_bytes, i, old + i);
        assert(MemberView::from_layout(st) =~= MemberView {
            member_id: (old + i) as u8,
            ..MemberView::from_layout(chunk(members_bytes, i))
        });
    }
}

/// Removing the first member with id `member_id` from an account in shape:
/// the account loses one record and stays in shape, the header counts one
/// member less and nothing else changes in it, the records before the
/// removed one stay, and those after it move up by one.
pub proof fn law_remove_member(data: Seq<u8>, member_id: u8, i: int)
    requires
        account_in_shape(data),
        first_id_match(data, i, member_id),
        header_of(data).num_members >= 1,
    ensures
        ({
            let d = removed_layout(data, i);
            let h = header_of(data);
            let n = h.num_members as int;
            &&& d.len() == data.len() - MEMBER_LEN
            &&& header_of(d) == MultisigView { num_members: (n - 1) as u8, ..h }
            &&& account_in_shape(d)
            &&& forall|j: int| 0 <= j < i ==> #[trigger] record(d, j) == record(data, j)
            &&& forall|j: int| i <= j < n - 1 ==> #[trigger] record(d, j) == record(data, j + 1)
        }),
{
    let h = header_of(data);
    let n = h.num_members as int;
    let off = record_offset(i);
    let hv = MultisigView { num_members: (n - 1) as u8, ..h };
    let rest = data.subrange(MULTISIG_LEN as int, off) + data.subrange(off + MEMBER_LEN, data.len() as int);
    let q = hv.to_layout() + rest;
    lemma_header_of_layout(hv, rest);
    let d = removed_layout(data, i);
    assert(d =~= q);
    assert forall|j: int| 0 <= j < i implies #[trigger] record(d, j) == record(data, j) by {
        assert(d.subrange(record_offset(j), record_offset(j + 1)) =~= data.subrange(record_offset(j), record_offset(j + 1)));
    }
    assert forall|j: int| i <= j < n - 1 implies #[trigger] record(d, j) == record(data, j + 1) by {
        assert(d.subrange(record_offset(j), record_offset(j + 1)) =~= data.subrange(record_offset(j + 1), record_offset(j + 2)));
    }
}

/// Changing the configuration sets the two thresholds and the expiry
/// duration, and leaves the rest of the header, the members and the
/// account's size as they were.
pub proof fn law_modify_config(data: Seq<u8>, ix: ModifyConfigData)
    requires
        data.len() >= MULTISIG_LEN,
    ensures
        ({
            let d = configured_layout(data, ix);
            &&& d.len() == data.len()
            &&& header_of(d) == MultisigView {
                threshold: ix.threshold,
                max_expiry_duration: ix.max_expiry_duration,
                veto_threshold: ix.veto_threshold,
                ..header_of(data)
            }
            &&& d.skip(MULTISIG_LEN as int) == data.skip(MULTISIG_LEN as int)
            &&& account_in_shape(data) ==> account_in_shape(d)
        }),
{
    let hv = MultisigView {
        threshold: ix.threshold,
        max_expiry_duration: ix.max_expiry_duration,
        veto_threshold: ix.veto_threshold,
        ..header_of(data)
    };
    lemma_header_of_layout(hv, data.skip(MULTISIG_LEN as int));
    assert(configured_layout(data, ix).skip(MULTISIG_LEN as int) =~= data.skip(MULTISIG_LEN as int));
}

/// Creating a proposal gives it the current counter as id and counts it, so
/// the next proposal gets the next id; the rest of the multisig account
/// stays as it was.
pub proof fn law_create_proposal(data: Seq<u8>, multisig_key: Seq<u8>, creator: u8, proposal_bump: u8, now: i64)
    requires
        data.len() >= MULTISIG_LEN,
        header_of(data).proposal_counter < u64::MAX,
    ensures
        ({
            let d = counted_layout(data);
            let p = new_proposal(data, multisig_key, creator, proposal_bump, now);
            &&& p.id == header_of(data).proposal_counter
            &&& p.status == status_code(ProposalStatus::Pending)
            &&& p.total_votes() == 0
            &&& header_of(d) == MultisigView { proposal_counter: (p.id + 1) as u64, ..header_of(data) }
            &&& new_proposal(d, multisig_key, creator, proposal_bump, now).id == p.id + 1
            &&& d.skip(MULTISIG_LEN as int) == data.skip(MULTISIG_LEN as int)
            &&& account_in_shape(data) ==> account_in_shape(d)
        }),
{
    let h = header_of(data);
    let hv = MultisigView { proposal_counter: (h.proposal_counter + 1) as u64, ..h };
    lemma_header_of_layout(hv, data.skip(MULTISIG_LEN as int));
    assert(counted_layout(data).skip(MULTISIG_LEN as int) =~= data.skip(MULTISIG_LEN as int));
}

/// The voters who voted yes: the first section of the voter list.
pub open spec fn yes_voters(proposal_data: Seq<u8>) -> Seq<u8> {
    let p = ProposalView::from_layout(proposal_data);
    voter_list(proposal_data).take(p.yes_votes as int)
}

/// The voters who voted no: the second section of the voter list.
pub open spec fn no_voters(proposal_data: Seq<u8>) -> Seq<u8> {
    let p = ProposalView::from_layout(proposal_data);
    voter_list(proposal_data).subrange(p.yes_votes as int, p.yes_votes + p.no_votes)
}

/// The voters who vetoed: the third section of the voter list.
pub open spec fn veto_voters(proposal_data: Seq<u8>) -> Seq<u8> {
    let p = ProposalView::from_layout(proposal_data);
    voter_list(proposal_data).subrange(p.yes_votes + p.no_votes, p.total_votes())
}

/// A proposal account is in tally when its voter list holds exactly as many
/// ids as votes were counted.
pub open spec fn in_tally(proposal_data: Seq<u8>) -> bool {
    proposal_data.len() >= PROPOSAL_LEN
        && voter_list(proposal_data).len() == ProposalView::from_layout(proposal_data).total_votes()
}

/// A vote keeps a proposal account in tally: the voter's id joins the end of
/// the section of its kind, the other sections stay as they were, and only
/// the count of its kind grows, by one.
pub proof fn law_vote_tally(proposal_data: Seq<u8>, member_index: u8, vote: u8)
    requires
        in_tally(proposal_data),
        vote <= 2,
        vote == 0 ==> ProposalView::from_layout(proposal_data).no_votes < u8::MAX,
        vote == 1 ==> ProposalView::from_layout(proposal_data).yes_votes < u8::MAX,
        vote == 2 ==> ProposalView::from_layout(proposal_data).veto_votes < u8::MAX,
    ensures
        ({
            let d = voted_layout(proposal_data, member_index, vote);
            let p = ProposalView::from_layout(proposal_data);
            &&& in_tally(d)
            &&& ProposalView::from_layout(d) == counted_vote(p, vote)
            &&& yes_voters(d) == (if vote == 1 { yes_voters(proposal_data).push(member_index) } else { yes_voters(proposal_data) })
            &&& no_voters(d) == (if vote == 0 { no_voters(proposal_data).push(member_index) } else { no_voters(proposal_data) })
            &&& veto_voters(d) == (if vote == 2 { veto_voters(proposal_data).push(member_index) } else { veto_voters(proposal_data) })
        }),
{
    let p = ProposalView::from_layout(proposal_data);
    let q = counted_vote(p, vote);
    let list = voter_list(proposal_data).push(0u8);
    let pos = vote_position(p, vote);
    let total = p.total_votes();
    let new_list = list.take(pos) + seq![member_index] + list.subrange(pos, total) + list.skip(total + 1);
    lemma_proposal_of_layout(q, new_list);
    let d = voted_layout(proposal_data, member_index, vote);
    assert(d =~= q.to_layout() + new_list);
    assert(voter_list(d) =~= new_list);
    let old_list = voter_list(proposal_data);
    let y = p.yes_votes as int;
    let n = p.no_votes as int;
    if vote == 0 {
        assert(yes_voters(d) =~= yes_voters(proposal_data));
        assert(no_voters(d) =~= no_voters(proposal_data).push(member_index));
        assert(veto_voters(d) =~= veto_voters(proposal_data));
    } else if vote == 1 {
        assert(yes_voters(d) =~= yes_voters(proposal_data).push(member_index));
        assert(no_voters(d) =~= no_voters(proposal_data));
        assert(veto_voters(d) =~= veto_voters(proposal_data));
    } else {
        assert(yes_voters(d) =~= yes_voters(proposal_data));
        assert(no_voters(d) =~= no_voters(proposal_data));
        assert(veto_voters(d) =~= veto_voters(proposal_data).push(member_index));
    }
}

/// A member who voted cannot vote again on the same proposal.
pub proof fn law_no_double_vote(proposal_data: Seq<u8>, member_index: u8, vote: u8)
    requires
        in_tally(proposal_data),
        vote_check(proposal_data, member_index) is Ok,
        vote <= 2,
        vote == 0 ==> ProposalView::from_layout(proposal_data).no_votes < u8::MAX,
        vote == 1 ==> ProposalView::from_layout(proposal_data).yes_votes < u8::MAX,
        vote == 2 ==> ProposalView::from_layout(proposal_data).veto_votes < u8::MAX,
    ensures
        vote_check(voted_layout(proposal_data, member_index, vote), member_index)
            == Err::<(), ProgramError>(program_error_of(MultisigError::MemberAlreadyVoted)),
{
    law_vote_tally(proposal_data, member_index, vote);
    let d = voted_layout(proposal_data, member_index, vote);
    let p = ProposalView::from_layout(proposal_data);
    let list = voter_list(proposal_data).push(0u8);
    let pos = vote_position(p, vote);
    let total = p.total_votes();
    let new_list = list.take(pos) + seq![member_index] + list.subrange(pos, total) + list.skip(total + 1);
    lemma_proposal_of_layout(counted_vote(p, vote), new_list);
    assert(voter_list(d) =~= new_list);
    assert(new_list[pos] == member_index);
    assert(voter_list(d).contains(member_index));
}

/// Settling gives precedence to the veto, then to approval, then to rejection.
pub proof fn law_settle_precedence(p: ProposalView, m: MultisigView)
    ensures
        p.veto_votes >= m.veto_threshold ==> settled_status(p, m) == status_code(ProposalStatus::Vetoed),
        p.veto_votes < m.veto_threshold && p.yes_votes >= m.threshold
            ==> settled_status(p, m) == status_code(ProposalStatus::Approved),
        p.veto_votes < m.veto_threshold && p.yes_votes < m.threshold && p.no_votes > m.threshold
            ==> settled_status(p, m) == status_code(ProposalStatus::Rejected),
        p.veto_votes < m.veto_threshold && p.yes_votes < m.threshold && p.no_votes <= m.threshold
            ==> settled_status(p, m) == p.status,
{
}

/// A proposal that settling decided is final: no member can vote on it any
/// more, and it cannot be settled again.
pub proof fn law_settled_is_final(multisig_data: Seq<u8>, proposal_data: Seq<u8>, member_index: u8)
    requires
        multisig_data.len() >= MULTISIG_LEN,
        proposal_data.len() >= PROPOSAL_LEN,
        settled_status(ProposalView::from_layout(proposal_data), header_of(multisig_data))
            != status_code(ProposalStatus::Pending),
    ensures
        ({
            let d = settled_layout(multisig_data, proposal_data);
            &&& ProposalView::from_layout(d).status != status_code(ProposalStatus::Pending)
            &&& vote_check(d, member_index) is Err
            &&& voter_list(d) == voter_list(proposal_data)
        }),
{
    let p = ProposalView::from_layout(proposal_data);
    let q = ProposalView { status: settled_status(p, header_of(multisig_data)), ..p };
    lemma_proposal_of_layout(q, proposal_data.skip(PROPOSAL_LEN as int));
    let d = settled_layout(multisig_data, proposal_data);
    assert(voter_list(d) =~= voter_list(proposal_data));
}

/// A new multisig account holds the new header, then the members given, the
/// `i`-th with id `i`; when as many members come as the header counts, and the
/// account has exactly their room, it is in shape.
pub proof fn law_init_multisig(m: MultisigView, members_bytes: Seq<u8>, space: int)
    requires
        m.wf(),
        !ends_short(members_bytes),
        MULTISIG_LEN + full_records(members_bytes) * MEMBER_LEN <= space,
    ensures
        ({
            let d = m.to_layout() + stamped_records(members_bytes, full_records(members_bytes), 0)
                + zeros((space - MULTISIG_LEN - members_bytes.len()) as nat);
            &&& d.len() == space
            &&& header_of(d) == m
            &&& forall|i: int| 0 <= i < full_records(members_bytes) ==> #[trigger] record(d, i) == MemberView {
                member_id: i as u8,
                ..MemberView::from_layout(chunk(members_bytes, i))
            }
            &&& m.num_members == full_records(members_bytes) && space == record_offset(m.num_members as int)
                ==> account_in_shape(d)
        }),
{
    let k = full_records(members_bytes);
    let recs = stamped_records(members_bytes, k, 0);
    lemma_stamped_records_len(members_bytes, k, 0);
    let rest = recs + zeros((space - MULTISIG_LEN - members_bytes.len()) as nat);
    let d = m.to_layout() + rest;
    lemma_header_of_layout(m, rest);
    assert(m.to_layout() + recs + zeros((space - MULTISIG_LEN - members_bytes.len()) as nat) =~= d);
    assert forall|i: int| 0 <= i < k implies #[trigger] record(d, i) == MemberView {
        member_id: i as u8,
        ..MemberView::from_layout(chunk(members_bytes, i))
    } by {
        lemma_stamped_records_index(members_bytes, k, 0, i);
        assert(d.subrange(record_offset(i), record_offset(i + 1)) =~= recs.subrange(i * MEMBER_LEN, (i + 1) * MEMBER_LEN));
        assert(MemberView::from_layout(stamped(members_bytes, i, i)) =~= MemberView {
            member_id: i as u8,
            ..MemberView::from_layout(chunk(members_bytes, i))
        });
    }
}

/// An admin that was just added passes the admin check, and a member that
/// was just added passes the membership check.
pub proof fn law_added_member_is_found(data: Seq<u8>, added: u8, members_bytes: Seq<u8>, i: int)
    requires
        data.len() >= MULTISIG_LEN,
        record_offset(header_of(data).num_members + full_records(members_bytes)) <= data.len(),
        header_of(data).num_members + full_records(members_bytes) <= 256,
        !ends_short(members_bytes),
        header_of(data).num_members + added <= u8::MAX,
        0 <= i < full_records(members_bytes),
    ensures
        ({
            let d = added_members_layout(data, added, members_bytes);
            let m = MemberView::from_layout(chunk(members_bytes, i));
            &&& !no_match(d, m.pubkey, false)
            &&& m.is_admin() ==> !no_match(d, m.pubkey, true)
        }),
{
    law_add_members(data, added, members_bytes);
    let d = added_members_layout(data, added, members_bytes);
    let old = header_of(data).num_members as int;
    let m = MemberView::from_layout(chunk(members_bytes, i));
    assert(record(d, old + i).pubkey == m.pubkey);
    assert(record(d, old + i).role == m.role);
    assert(has_record(d, old + i));
    assert(record_matches(d, old + i, m.pubkey, false));
    if m.is_admin() {
        assert(record_matches(d, old + i, m.pubkey, true));
    }
}

/// In an account in shape whose counted members have distinct ids, removing
/// the member with id `member_id` leaves no member with that id.
pub proof fn law_removed_id_is_gone(data: Seq<u8>, member_id: u8, i: int)
    requires
        account_in_shape(data),
        first_id_match(data, i, member_id),
        header_of(data).num_members >= 1,
        forall|a: int, b: int|
            0 <= a < b < header_of(data).num_members
                ==> #[trigger] record(data, a).member_id != #[trigger] record(data, b).member_id,
    ensures
        no_id_match(removed_layout(data, i), member_id),
{
    law_remove_member(data, member_id, i);
    let d = removed_layout(data, i);
    let n = header_of(data).num_members as int;
    assert forall|j: int| has_record(d, j) implies !#[trigger] id_matches(d, j, member_id) by {
        assert(j < n - 1);
        if j < i {
            assert(record(d, j) == record(data, j));
        } else {
            assert(record(d, j) == record(data, j + 1));
            assert(record(data, i).member_id != record(data, j + 1).member_id);
        }
    }
}

/// A new multisig's header carries the payload field by field: the creator is
/// the payer, the approval threshold is the payload's threshold and the veto
/// threshold the payload's veto threshold, the duration, id and bumps are the
/// payload's, no proposal has been made yet, and the member counters are the
/// number of members sent. Stored, the threshold sits in byte 32, the member
/// count in byte 33 and the veto threshold in byte 38, after the payer's key.
pub proof fn law_new_multisig_carries_payload(ix: InitMultisigData, payer: Seq<u8>, vault: Seq<u8>)
    requires
        payer.len() == 32,
        vault.len() == 32,
    ensures
        ({
            let h = init_header(ix, payer, vault);
            &&& h.creator == payer
            &&& h.threshold == ix.threshold
            &&& h.veto_threshold == ix.veto_threshold
            &&& h.num_members == ix.num_members
            &&& h.members_counter == ix.num_members
            &&& h.max_expiry_duration == ix.max_expiry_duration
            &&& h.proposal_counter == 0
            &&& h.vault == vault
            &&& h.multisig_id == ix.multisig_id
            &&& h.bump == ix.bump
            &&& h.vault_bump == ix.vault_bump
            &&& h.to_layout().len() == MULTISIG_LEN
            &&& h.to_layout().take(32) == payer
            &&& h.to_layout()[32] == ix.threshold
            &&& h.to_layout()[33] == ix.num_members
            &&& h.to_layout()[38] == ix.veto_threshold
        }),
{
    let h = init_header(ix, payer, vault);
    lemma_multisig_layout_roundtrip(h);
    assert(h.to_layout().take(32) =~= payer);
}

/// A member may vote on a proposal exactly when its status byte is pending
/// and the member's id is nowhere in the voter list; on a pending proposal
/// whose voter list holds the id, the vote is refused as a second vote.
pub proof fn law_vote_allowed_iff_not_voted(proposal_data: Seq<u8>, member_index: u8)
    requires
        proposal_data.len() >= PROPOSAL_LEN,
    ensures
        vote_check(proposal_data, member_index) is Ok <==> (proposal_data[41] == status_code(ProposalStatus::Pending)
            && forall|k: int| PROPOSAL_LEN <= k < proposal_data.len() ==> proposal_data[k] != member_index),
        proposal_data[41] == status_code(ProposalStatus::Pending)
            && (exists|k: int| PROPOSAL_LEN <= k < proposal_data.len() && proposal_data[k] == member_index)
            ==> vote_check(proposal_data, member_index)
                == Err::<(), ProgramError>(program_error_of(MultisigError::MemberAlreadyVoted)),
{
    let list = voter_list(proposal_data);
    if proposal_data[41] == 0 {
        if list.contains(member_index) {
            let k = choose|k: int| 0 <= k < list.len() && list[k] == member_index;
            assert(proposal_data[k + PROPOSAL_LEN] == member_index);
        } else {
            assert forall|k: int| PROPOSAL_LEN <= k < proposal_data.len() implies proposal_data[k] != member_index by {
                assert(list[k - PROPOSAL_LEN] == proposal_data[k]);
            }
        }
        if exists|k: int| PROPOSAL_LEN <= k < proposal_data.len() && proposal_data[k] == member_index {
            let k = choose|k: int| PROPOSAL_LEN <= k < proposal_data.len() && proposal_data[k] == member_index;
            assert(list[k - PROPOSAL_LEN] == member_index);
        }
    }
}

/// Removing by id looks at the id byte alone, whatever the key or role of the
/// record: the record removed is the first complete record whose id byte is
/// `member_id`, and the search finds none exactly when no complete record has
/// that id byte.
pub proof fn law_remove_by_id_alone(data: Seq<u8>, member_id: u8, i: int)
    ensures
        first_id_match(data, i, member_id) <==> (has_record(data, i) && data[record_offset(i) + 32] == member_id
            && forall|j: int| 0 <= j < i ==> data[#[trigger] record_offset(j) + 32] != member_id),
        no_id_match(data, member_id)
            <==> !exists|j: int| has_record(data, j) && data[#[trigger] record_offset(j) + 32] == member_id,
{
    assert forall|j: int| has_record(data, j) implies
        (#[trigger] id_matches(data, j, member_id) <==> data[record_offset(j) + 32] == member_id) by {
        lemma_id_byte(data, j, member_id);
    }
    if has_record(data, i) && data[record_offset(i) + 32] == member_id
        && forall|j: int| 0 <= j < i ==> data[#[trigger] record_offset(j) + 32] != member_id {
        assert forall|j: int| 0 <= j < i implies !#[trigger] id_matches(data, j, member_id) by {
            assert(record_offset(j + 1) <= record_offset(i + 1)) by (nonlinear_arith)
                requires j < i;
            assert(data[record_offset(j) + 32] != member_id);
            lemma_id_byte(data, j, member_id);
        }
        assert(id_matches(data, i, member_id));
    }
    if first_id_match(data, i, member_id) {
        lemma_first_id_match_bytes(data, i, member_id);
    }
    if no_id_match(data, member_id) {
        lemma_no_id_match_bytes(data, member_id);
    } else {
        let j = choose|j: int| has_record(data, j) && #[trigger] id_matches(data, j, member_id);
        lemma_id_byte(data, j, member_id);
        assert(has_record(data, j) && data[record_offset(j) + 32] == member_id);
    }
}

/// Settling at a clock reading `now` refuses a pending proposal whose expiry
/// lies before `now`, whatever its votes; one that has not expired is settled
/// for any member.
pub proof fn law_settle_refuses_expired(multisig_data: Seq<u8>, proposal_data: Seq<u8>, payer: Seq<u8>, now: i64)
    requires
        ProposalView::from_layout(proposal_data).status == status_code(ProposalStatus::Pending),
    ensures
        ProposalView::from_layout(proposal_data).expiry < now as u64
            ==> settle_outcome(multisig_data, proposal_data, payer, Ok(now))
                == Err::<Seq<u8>, ProgramError>(program_error_of(MultisigError::ProposalNotExpired)),
        ProposalView::from_layout(proposal_data).expiry >= now as u64 && !no_match(multisig_data, payer, false)
            ==> settle_outcome(multisig_data, proposal_data, payer, Ok(now))
                == Ok::<Seq<u8>, ProgramError>(settled_layout(multisig_data, proposal_data)),
{
}

} // verus!
