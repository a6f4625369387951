//! The model of the versioned state accessor.
//!
//! The state machine's history is a chain of snapshots, one per block,
//! addressed by a monotonically increasing index; the last entry is the
//! current head. Each retained snapshot either carries a consistent,
//! immutable view of the machine's data, or records that the accessor
//! fails at that snapshot (for example because the query api is not
//! supported there). Keyed state is held as an ordered mapping and only
//! flattened into parallel sequences at the wire boundary.

use vstd::prelude::*;
use crate::error::AccessorFailure;
use crate::ids::AccountId;
use crate::ids::Balance;
use crate::ids::BlockNumber;
use crate::ids::HashValue;

verus! {

/// The status code of a channel that was never created.
pub const CHANNEL_STATUS_UNINITIALIZED: u8 = 0;

/// Per-participant channel state, kept at the same index across every
/// parallel sequence the wire encoding exposes.
#[derive(Clone, Copy, Debug, PartialEq, Eq, Structural)]
pub struct PeerState {
    /// The participant this entry belongs to.
    pub account: AccountId,
    /// Total amount the participant deposited into the channel.
    pub deposit: Balance,
    /// Total amount the participant withdrew from the channel.
    pub withdrawal: Balance,
    /// Sequence number of the participant's latest co-signed state.
    pub state_seq_num: u128,
    /// Total amount transferred out to the other peers.
    pub transfer_out: Balance,
    /// Digest of the participant's next pay id list.
    pub next_pay_id_list_hash: HashValue,
    /// Latest deadline among the participant's unresolved payments.
    pub last_pay_resolve_deadline: BlockNumber,
    /// Total amount locked in the participant's pending payments.
    pub pending_pay_out: Balance,
}

/// A pending cooperative-withdraw intent of a channel.
#[derive(Clone, Copy, Debug, PartialEq, Eq, Structural)]
pub struct WithdrawIntent {
    /// The account the withdrawal pays out to.
    pub receiver: AccountId,
    /// The amount to withdraw.
    pub amount: Balance,
    /// The block by which the withdrawal must be finalized.
    pub deadline: BlockNumber,
    /// Digest of the sequence numbers the intent was signed over.
    pub seq_num_hash: HashValue,
}

/// The state of one payment channel at one snapshot.
#[derive(Clone, Debug, PartialEq, Eq)]
pub struct ChannelState {
    /// The channel's status code.
    pub status: u8,
    /// When settlement becomes final, once settling has started.
    pub settle_finalized_time: Option<BlockNumber>,
    /// Sequence number of the latest cooperative withdrawal.
    pub cooperative_withdraw_seq_num: u128,
    /// Per-participant state, one entry per participant.
    pub peers: Vec<PeerState>,
    /// The pending withdraw intent, if any.
    pub withdraw_intent: Option<WithdrawIntent>,
    /// The channel's deposit limit.
    pub balance_limit: Balance,
    /// Whether the deposit limit is enforced.
    pub balance_limits_enabled: bool,
}

/// The state of one registered multi-owner wallet at one snapshot.
#[derive(Clone, Debug, PartialEq, Eq)]
pub struct WalletState {
    /// The wallet's owners.
    pub owners: Vec<AccountId>,
    /// The wallet's balance.
    pub balance: Balance,
}

/// One consistent, immutable view of the state machine's data at one
/// snapshot. Keyed state is an ordered mapping from key to value.
#[derive(Clone, Debug, PartialEq, Eq)]
pub struct StateView {
    /// Account of the ledger operation module.
    pub ledger_id: AccountId,
    /// Account of the wallet registry module.
    pub wallet_id: AccountId,
    /// Account of the liquidity pool module.
    pub pool_id: AccountId,
    /// Account of the pay resolver module.
    pub pay_resolver_id: AccountId,
    /// Channels by channel id.
    pub channels: Vec<(HashValue, ChannelState)>,
    /// Wallets by wallet id.
    pub wallets: Vec<(HashValue, WalletState)>,
    /// Pool balances by owner account.
    pub pool_balances: Vec<(AccountId, Balance)>,
    /// Pool allowances by (owner, spender) pair.
    pub allowances: Vec<((AccountId, AccountId), Balance)>,
    /// Channel counts by status code; a code absent here is not a valid
    /// status code at this snapshot.
    pub status_nums: Vec<(u8, u8)>,
}

/// What the accessor holds for one retained snapshot: either a consistent
/// view, or the failure it reports for every query at that snapshot.
#[derive(Clone, Debug, PartialEq, Eq)]
pub enum SnapshotSlot {
    /// The accessor serves queries at this snapshot from this view.
    Ready(StateView),
    /// The accessor fails every query at this snapshot.
    Faulted(AccessorFailure),
}

/// The state machine's retained history: one slot per block number from
/// zero up to the current head.
#[derive(Clone, Debug, PartialEq, Eq)]
pub struct StateChain {
    /// Slot `i` serves snapshot `i`; the last slot is the current head.
    pub slots: Vec<SnapshotSlot>,
}

/// The value the first entry of `s` with key `key` carries, if any.
pub open spec fn lookup<K, V>(s: Seq<(K, V)>, key: K) -> Option<V>
    decreases s.len(),
{
    if s.len() == 0 {
        None
    } else if s[0].0 == key {
        Some(s[0].1)
    } else {
        lookup(s.drop_first(), key)
    }
}

/// If no entry before index `k` carries `key`, the lookup is decided by
/// the entries from `k` on.
pub proof fn lemma_lookup_skip<K, V>(s: Seq<(K, V)>, key: K, k: int)
    requires
        0 <= k <= s.len(),
        forall|j: int| 0 <= j < k ==> s[j].0 != key,
    ensures
        lookup(s, key) == lookup(s.skip(k), key),
    decreases k,
{
    if k > 0 {
        lemma_lookup_skip(s.drop_first(), key, k - 1);
        assert(s.drop_first().skip(k - 1) =~= s.skip(k));
    } else {
        assert(s.skip(0) =~= s);
    }
}

impl StateChain {
    /// A chain is well formed when it retains at least the genesis
    /// snapshot.
    pub open spec fn wf(self) -> bool {
        self.slots.len() >= 1
    }

    /// The current head's snapshot index.
    pub open spec fn spec_head(self) -> BlockNumber {
        (self.slots.len() - 1) as BlockNumber
    }

    /// Returns the current head's snapshot index.
    pub fn head(&self) -> (r: BlockNumber)
        requires
            self.wf(),
        ensures
            r == self.spec_head(),
    {
        (self.slots.len() - 1) as BlockNumber
    }
}

impl StateView {
    /// Position of the channel in the ordered mapping, if it exists.
    pub fn find_channel(&self, channel_id: HashValue) -> (r: Option<usize>)
        ensures
            match r {
                Some(i) => i < self.channels.len()
                    && lookup(self.channels@, channel_id) == Some(self.channels@[i as int].1),
                None => lookup(self.channels@, channel_id) is None,
            },
    {
        let n = self.channels.len();
        let mut i: usize = 0;
        while i < n
            invariant
                n == self.channels.len(),
                i <= n,
                forall|j: int| 0 <= j < i ==> self.channels@[j].0 != channel_id,
            decreases n - i,
        {
            if self.channels[i].0 == channel_id {
                proof {
                    lemma_lookup_skip(self.channels@, channel_id, i as int);
                    assert(self.channels@.skip(i as int)[0] == self.channels@[i as int]);
                }
                return Some(i);
            }
            i += 1;
        }
        proof {
            lemma_lookup_skip(self.channels@, channel_id, n as int);
            assert(self.channels@.skip(n as int) =~= Seq::<(HashValue, ChannelState)>::empty());
        }
        None
    }

    /// Position of the wallet in the ordered mapping, if it exists.
    pub fn find_wallet(&self, wallet_id: HashValue) -> (r: Option<usize>)
        ensures
            match r {
                Some(i) => i < self.wallets.len()
                    && lookup(self.wallets@, wallet_id) == Some(self.wallets@[i as int].1),
                None => lookup(self.wallets@, wallet_id) is None,
            },
    {
        let n = self.wallets.len();
        let mut i: usize = 0;
        while i < n
            invariant
                n == self.wallets.len(),
                i <= n,
                forall|j: int| 0 <= j < i ==> self.wallets@[j].0 != wallet_id,
            decreases n - i,
        {
            if self.wallets[i].0 == wallet_id {
                proof {
                    lemma_lookup_skip(self.wallets@, wallet_id, i as int);
                    assert(self.wallets@.skip(i as int)[0] == self.wallets@[i as int]);
                }
                return Some(i);
            }
            i += 1;
        }
        proof {
            lemma_lookup_skip(self.wallets@, wallet_id, n as int);
            assert(self.wallets@.skip(n as int) =~= Seq::<(HashValue, WalletState)>::empty());
        }
        None
    }

    /// The pool balance of `owner`, if the pool holds one.
    pub fn pool_balance_of(&self, owner: AccountId) -> (r: Option<Balance>)
        ensures
            r == lookup(self.pool_balances@, owner),
    {
        let n = self.pool_balances.len();
        let mut i: usize = 0;
        while i < n
            invariant
                n == self.pool_balances.len(),
                i <= n,
                forall|j: int| 0 <= j < i ==> self.pool_balances@[j].0 != owner,
            decreases n - i,
        {
            if self.pool_balances[i].0 == owner {
                proof {
                    lemma_lookup_skip(self.pool_balances@, owner, i as int);
                    assert(self.pool_balances@.skip(i as int)[0] == self.pool_balances@[i as int]);
                }
                return Some(self.pool_balances[i].1);
            }
            i += 1;
        }
        proof {
            lemma_lookup_skip(self.pool_balances@, owner, n as int);
            assert(self.pool_balances@.skip(n as int) =~= Seq::<(AccountId, Balance)>::empty());
        }
        None
    }

    /// The allowance the pool grants `spender` on behalf of `owner`, if
    /// one was set.
    pub fn allowance_of(&self, owner: AccountId, spender: AccountId) -> (r: Option<Balance>)
        ensures
            r == lookup(self.allowances@, (owner, spender)),
    {
        let n = self.allowances.len();
        let mut i: usize = 0;
        while i < n
            invariant
                n == self.allowances.len(),
                i <= n,
                forall|j: int| 0 <= j < i ==> self.allowances@[j].0 != (owner, spender),
            decreases n - i,
        {
            if self.allowances[i].0.0 == owner && self.allowances[i].0.1 == spender {
                proof {
                    lemma_lookup_skip(self.allowances@, (owner, spender), i as int);
                    assert(self.allowances@.skip(i as int)[0] == self.allowances@[i as int]);
                }
                return Some(self.allowances[i].1);
            }
            i += 1;
        }
        proof {
            lemma_lookup_skip(self.allowances@, (owner, spender), n as int);
            assert(self.allowances@.skip(n as int) =~= Seq::<((AccountId, AccountId), Balance)>::empty());
        }
        None
    }

    /// The channel count recorded for `status`, if it is a valid status
    /// code at this snapshot.
    pub fn status_num_of(&self, status: u8) -> (r: Option<u8>)
        ensures
            r == lookup(self.status_nums@, status),
    {
        let n = self.status_nums.len();
        let mut i: usize = 0;
        while i < n
            invariant
                n == self.status_nums.len(),
                i <= n,
                forall|j: int| 0 <= j < i ==> self.status_nums@[j].0 != status,
            decreases n - i,
        {
            if self.status_nums[i].0 == status {
                proof {
                    lemma_lookup_skip(self.status_nums@, status, i as int);
                    assert(self.status_nums@.skip(i as int)[0] == self.status_nums@[i as int]);
                }
                return Some(self.status_nums[i].1);
            }
            i += 1;
        }
        proof {
            lemma_lookup_skip(self.status_nums@, status, n as int);
            assert(self.status_nums@.skip(n as int) =~= Seq::<(u8, u8)>::empty());
        }
        None
    }
}

} // verus!
