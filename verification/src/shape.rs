//! The result shaper.
//!
//! Keyed per-channel state is held internally as one ordered mapping from
//! participant to per-participant state; the wire encoding instead
//! carries one key sequence plus one or more value sequences, aligned by
//! index. The functions here flatten the mapping into that encoding.
//! Shaping is purely structural: no unit conversion, no filtering, no
//! truncation.

use vstd::prelude::*;
use crate::ids::AccountId;
use crate::ids::Balance;
use crate::ids::BlockNumber;
use crate::ids::HashValue;
use crate::state::PeerState;

verus! {

/// The key sequence: each participant's account, in table order.
pub open spec fn accounts_of(peers: Seq<PeerState>) -> Seq<AccountId> {
    peers.map_values(|p: PeerState| p.account)
}

/// Each participant's total deposit, in table order.
pub open spec fn deposits_of(peers: Seq<PeerState>) -> Seq<Balance> {
    peers.map_values(|p: PeerState| p.deposit)
}

/// Each participant's total withdrawal, in table order.
pub open spec fn withdrawals_of(peers: Seq<PeerState>) -> Seq<Balance> {
    peers.map_values(|p: PeerState| p.withdrawal)
}

/// Each participant's latest co-signed state sequence number.
pub open spec fn state_seq_nums_of(peers: Seq<PeerState>) -> Seq<u128> {
    peers.map_values(|p: PeerState| p.state_seq_num)
}

/// Each participant's total transferred-out amount.
pub open spec fn transfer_outs_of(peers: Seq<PeerState>) -> Seq<Balance> {
    peers.map_values(|p: PeerState| p.transfer_out)
}

/// Each participant's next pay id list digest.
pub open spec fn next_pay_id_list_hashes_of(peers: Seq<PeerState>) -> Seq<HashValue> {
    peers.map_values(|p: PeerState| p.next_pay_id_list_hash)
}

/// Each participant's latest pay resolve deadline.
pub open spec fn last_pay_resolve_deadlines_of(peers: Seq<PeerState>) -> Seq<BlockNumber> {
    peers.map_values(|p: PeerState| p.last_pay_resolve_deadline)
}

/// Each participant's pending pay out amount.
pub open spec fn pending_pay_outs_of(peers: Seq<PeerState>) -> Seq<Balance> {
    peers.map_values(|p: PeerState| p.pending_pay_out)
}

/// Index alignment of the wire encoding: every value sequence is exactly
/// as long as the key sequence, and index `i` of the key sequence and of
/// every value sequence refers to the one participant at index `i` of
/// the underlying table.
pub proof fn lemma_index_alignment(peers: Seq<PeerState>)
    ensures
        accounts_of(peers).len() == peers.len(),
        deposits_of(peers).len() == peers.len(),
        withdrawals_of(peers).len() == peers.len(),
        state_seq_nums_of(peers).len() == peers.len(),
        transfer_outs_of(peers).len() == peers.len(),
        next_pay_id_list_hashes_of(peers).len() == peers.len(),
        last_pay_resolve_deadlines_of(peers).len() == peers.len(),
        pending_pay_outs_of(peers).len() == peers.len(),
        forall|i: int| 0 <= i < peers.len() ==> {
            &&& #[trigger] accounts_of(peers)[i] == peers[i].account
            &&& deposits_of(peers)[i] == peers[i].deposit
            &&& withdrawals_of(peers)[i] == peers[i].withdrawal
            &&& state_seq_nums_of(peers)[i] == peers[i].state_seq_num
            &&& transfer_outs_of(peers)[i] == peers[i].transfer_out
            &&& next_pay_id_list_hashes_of(peers)[i] == peers[i].next_pay_id_list_hash
            &&& last_pay_resolve_deadlines_of(peers)[i] == peers[i].last_pay_resolve_deadline
            &&& pending_pay_outs_of(peers)[i] == peers[i].pending_pay_out
        },
{
}

/// Flattens the participant table into the key sequence.
pub fn shape_accounts(peers: &Vec<PeerState>) -> (r: Vec<AccountId>)
    ensures
        r@ == accounts_of(peers@),
{
    let n = peers.len();
    let mut r: Vec<AccountId> = Vec::new();
    let mut i: usize = 0;
    while i < n
        invariant
            n == peers.len(),
            i <= n,
            r@.len() == i,
            forall|j: int| 0 <= j < i ==> r@[j] == peers@[j].account,
        decreases n - i,
    {
        r.push(peers[i].account);
        i += 1;
    }
    proof {
        assert(r@ =~= accounts_of(peers@));
    }
    r
}

/// Flattens the balance map: the key sequence paired with the deposit
/// and withdrawal sequences, index-aligned.
pub fn shape_balance_map(peers: &Vec<PeerState>) -> (r: (Vec<AccountId>, Vec<Balance>, Vec<Balance>))
    ensures
        r.0@ == accounts_of(peers@),
        r.1@ == deposits_of(peers@),
        r.2@ == withdrawals_of(peers@),
{
    let n = peers.len();
    let mut accounts: Vec<AccountId> = Vec::new();
    let mut deposits: Vec<Balance> = Vec::new();
    let mut withdrawals: Vec<Balance> = Vec::new();
    let mut i: usize = 0;
    while i < n
        invariant
            n == peers.len(),
            i <= n,
            accounts@.len() == i,
            deposits@.len() == i,
            withdrawals@.len() == i,
            forall|j: int| 0 <= j < i ==> {
                &&& accounts@[j] == peers@[j].account
                &&& deposits@[j] == peers@[j].deposit
                &&& withdrawals@[j] == peers@[j].withdrawal
            },
        decreases n - i,
    {
        accounts.push(peers[i].account);
        deposits.push(peers[i].deposit);
        withdrawals.push(peers[i].withdrawal);
        i += 1;
    }
    proof {
        assert(accounts@ =~= accounts_of(peers@));
        assert(deposits@ =~= deposits_of(peers@));
        assert(withdrawals@ =~= withdrawals_of(peers@));
    }
    (accounts, deposits, withdrawals)
}

/// Flattens the state sequence-number map.
pub fn shape_state_seq_num_map(peers: &Vec<PeerState>) -> (r: (Vec<AccountId>, Vec<u128>))
    ensures
        r.0@ == accounts_of(peers@),
        r.1@ == state_seq_nums_of(peers@),
{
    let n = peers.len();
    let mut accounts: Vec<AccountId> = Vec::new();
    let mut seq_nums: Vec<u128> = Vec::new();
    let mut i: usize = 0;
    while i < n
        invariant
            n == peers.len(),
            i <= n,
            accounts@.len() == i,
            seq_nums@.len() == i,
            forall|j: int| 0 <= j < i ==> {
                &&& accounts@[j] == peers@[j].account
                &&& seq_nums@[j] == peers@[j].state_seq_num
            },
        decreases n - i,
    {
        accounts.push(peers[i].account);
        seq_nums.push(peers[i].state_seq_num);
        i += 1;
    }
    proof {
        assert(accounts@ =~= accounts_of(peers@));
        assert(seq_nums@ =~= state_seq_nums_of(peers@));
    }
    (accounts, seq_nums)
}

/// Flattens the transfer-out map.
pub fn shape_transfer_out_map(peers: &Vec<PeerState>) -> (r: (Vec<AccountId>, Vec<Balance>))
    ensures
        r.0@ == accounts_of(peers@),
        r.1@ == transfer_outs_of(peers@),
{
    let n = peers.len();
    let mut accounts: Vec<AccountId> = Vec::new();
    let mut amounts: Vec<Balance> = Vec::new();
    let mut i: usize = 0;
    while i < n
        invariant
            n == peers.len(),
            i <= n,
            accounts@.len() == i,
            amounts@.len() == i,
            forall|j: int| 0 <= j < i ==> {
                &&& accounts@[j] == peers@[j].account
                &&& amounts@[j] == peers@[j].transfer_out
            },
        decreases n - i,
    {
        accounts.push(peers[i].account);
        amounts.push(peers[i].transfer_out);
        i += 1;
    }
    proof {
        assert(accounts@ =~= accounts_of(peers@));
        assert(amounts@ =~= transfer_outs_of(peers@));
    }
    (accounts, amounts)
}

/// Flattens the next-pay-id-list-hash map.
pub fn shape_next_pay_id_list_hash_map(peers: &Vec<PeerState>) -> (r: (Vec<AccountId>, Vec<HashValue>))
    ensures
        r.0@ == accounts_of(peers@),
        r.1@ == next_pay_id_list_hashes_of(peers@),
{
    let n = peers.len();
    let mut accounts: Vec<AccountId> = Vec::new();
    let mut hashes: Vec<HashValue> = Vec::new();
    let mut i: usize = 0;
    while i < n
        invariant
            n == peers.len(),
            i <= n,
            accounts@.len() == i,
            hashes@.len() == i,
            forall|j: int| 0 <= j < i ==> {
                &&& accounts@[j] == peers@[j].account
                &&& hashes@[j] == peers@[j].next_pay_id_list_hash
            },
        decreases n - i,
    {
        accounts.push(peers[i].account);
        hashes.push(peers[i].next_pay_id_list_hash);
        i += 1;
    }
    proof {
        assert(accounts@ =~= accounts_of(peers@));
        assert(hashes@ =~= next_pay_id_list_hashes_of(peers@));
    }
    (accounts, hashes)
}

/// Flattens the last-pay-resolve-deadline map.
pub fn shape_last_pay_resolve_deadline_map(peers: &Vec<PeerState>) -> (r: (
    Vec<AccountId>,
    Vec<BlockNumber>,
))
    ensures
        r.0@ == accounts_of(peers@),
        r.1@ == last_pay_resolve_deadlines_of(peers@),
{
    let n = peers.len();
    let mut accounts: Vec<AccountId> = Vec::new();
    let mut deadlines: Vec<BlockNumber> = Vec::new();
    let mut i: usize = 0;
    while i < n
        invariant
            n == peers.len(),
            i <= n,
            accounts@.len() == i,
            deadlines@.len() == i,
            forall|j: int| 0 <= j < i ==> {
                &&& accounts@[j] == peers@[j].account
                &&& deadlines@[j] == peers@[j].last_pay_resolve_deadline
            },
        decreases n - i,
    {
        accounts.push(peers[i].account);
        deadlines.push(peers[i].last_pay_resolve_deadline);
        i += 1;
    }
    proof {
        assert(accounts@ =~= accounts_of(peers@));
        assert(deadlines@ =~= last_pay_resolve_deadlines_of(peers@));
    }
    (accounts, deadlines)
}

/// Flattens the pending-pay-out map.
pub fn shape_pending_pay_out_map(peers: &Vec<PeerState>) -> (r: (Vec<AccountId>, Vec<Balance>))
    ensures
        r.0@ == accounts_of(peers@),
        r.1@ == pending_pay_outs_of(peers@),
{
    let n = peers.len();
    let mut accounts: Vec<AccountId> = Vec::new();
    let mut amounts: Vec<Balance> = Vec::new();
    let mut i: usize = 0;
    while i < n
        invariant
            n == peers.len(),
            i <= n,
            accounts@.len() == i,
            amounts@.len() == i,
            forall|j: int| 0 <= j < i ==> {
                &&& accounts@[j] == peers@[j].account
                &&& amounts@[j] == peers@[j].pending_pay_out
            },
        decreases n - i,
    {
        accounts.push(peers[i].account);
        amounts.push(peers[i].pending_pay_out);
        i += 1;
    }
    proof {
        assert(accounts@ =~= accounts_of(peers@));
        assert(amounts@ =~= pending_pay_outs_of(peers@));
    }
    (accounts, amounts)
}

/// Flattens the migration info: accounts, deposits, withdrawals, state
/// sequence numbers, transferred-out amounts and pending pay outs, all
/// index-aligned.
pub fn shape_migration_info(peers: &Vec<PeerState>) -> (r: (
    Vec<AccountId>,
    Vec<Balance>,
    Vec<Balance>,
    Vec<u128>,
    Vec<Balance>,
    Vec<Balance>,
))
    ensures
        r.0@ == accounts_of(peers@),
        r.1@ == deposits_of(peers@),
        r.2@ == withdrawals_of(peers@),
        r.3@ == state_seq_nums_of(peers@),
        r.4@ == transfer_outs_of(peers@),
        r.5@ == pending_pay_outs_of(peers@),
{
    let n = peers.len();
    let mut accounts: Vec<AccountId> = Vec::new();
    let mut deposits: Vec<Balance> = Vec::new();
    let mut withdrawals: Vec<Balance> = Vec::new();
    let mut seq_nums: Vec<u128> = Vec::new();
    let mut transfer_outs: Vec<Balance> = Vec::new();
    let mut pending: Vec<Balance> = Vec::new();
    let mut i: usize = 0;
    while i < n
        invariant
            n == peers.len(),
            i <= n,
            accounts@.len() == i,
            deposits@.len() == i,
            withdrawals@.len() == i,
            seq_nums@.len() == i,
            transfer_outs@.len() == i,
            pending@.len() == i,
            forall|j: int| 0 <= j < i ==> {
                &&& accounts@[j] == peers@[j].account
                &&& deposits@[j] == peers@[j].deposit
                &&& withdrawals@[j] == peers@[j].withdrawal
                &&& seq_nums@[j] == peers@[j].state_seq_num
                &&& transfer_outs@[j] == peers@[j].transfer_out
                &&& pending@[j] == peers@[j].pending_pay_out
            },
        decreases n - i,
    {
        accounts.push(peers[i].account);
        deposits.push(peers[i].deposit);
        withdrawals.push(peers[i].withdrawal);
        seq_nums.push(peers[i].state_seq_num);
        transfer_outs.push(peers[i].transfer_out);
        pending.push(peers[i].pending_pay_out);
        i += 1;
    }
    proof {
        assert(accounts@ =~= accounts_of(peers@));
        assert(deposits@ =~= deposits_of(peers@));
        assert(withdrawals@ =~= withdrawals_of(peers@));
        assert(seq_nums@ =~= state_seq_nums_of(peers@));
        assert(transfer_outs@ =~= transfer_outs_of(peers@));
        assert(pending@ =~= pending_pay_outs_of(peers@));
    }
    (accounts, deposits, withdrawals, seq_nums, transfer_outs, pending)
}

/// Copies an owner list for the wire.
pub fn shape_owner_list(owners: &Vec<AccountId>) -> (r: Vec<AccountId>)
    ensures
        r@ == owners@,
{
    let n = owners.len();
    let mut r: Vec<AccountId> = Vec::new();
    let mut i: usize = 0;
    while i < n
        invariant
            n == owners.len(),
            i <= n,
            r@.len() == i,
            forall|j: int| 0 <= j < i ==> r@[j] == owners@[j],
        decreases n - i,
    {
        r.push(owners[i]);
        i += 1;
    }
    proof {
        assert(r@ =~= owners@);
    }
    r
}

} // verus!
