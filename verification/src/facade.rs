//! The query facade.
//!
//! One public operation per logical query. Each operation resolves the
//! optional snapshot identifier, addresses the versioned accessor's slot
//! at the resolved snapshot, reshapes the raw result for the wire, and
//! normalizes any accessor failure into the uniform error envelope. The
//! operations are independent, read-only and stateless: each result is a
//! function of the retained history, the supplied keys and the supplied
//! snapshot alone.

use vstd::prelude::*;
use crate::error::is_normalized;
use crate::error::normalize;
use crate::error::AccessorFailure;
use crate::error::QueryError;
use crate::error::QueryOp;
use crate::ids::AccountId;
use crate::ids::Balance;
use crate::ids::BlockNumber;
use crate::ids::HashValue;
use crate::shape::accounts_of;
use crate::shape::deposits_of;
use crate::shape::last_pay_resolve_deadlines_of;
use crate::shape::next_pay_id_list_hashes_of;
use crate::shape::pending_pay_outs_of;
use crate::shape::shape_balance_map;
use crate::shape::shape_last_pay_resolve_deadline_map;
use crate::shape::shape_migration_info;
use crate::shape::shape_next_pay_id_list_hash_map;
use crate::shape::shape_owner_list;
use crate::shape::shape_pending_pay_out_map;
use crate::shape::shape_state_seq_num_map;
use crate::shape::shape_transfer_out_map;
use crate::shape::state_seq_nums_of;
use crate::shape::transfer_outs_of;
use crate::shape::withdrawals_of;
use crate::snapshot::resolve_spec;
use crate::state::lookup;
use crate::state::SnapshotSlot;
use crate::state::StateChain;
use crate::state::StateView;
use crate::state::CHANNEL_STATUS_UNINITIALIZED;

verus! {

/// What a query operation finds at the snapshot a request addresses:
/// the identifier is not retained, the accessor fails at the resolved
/// snapshot, or a consistent view is ready there.
pub enum SlotView {
    /// The supplied identifier lies past the head.
    NotRetained(BlockNumber),
    /// The accessor fails every query at the resolved snapshot.
    Fault(AccessorFailure),
    /// The view the accessor serves at the resolved snapshot.
    Ready(StateView),
}

/// The slot retained for snapshot `n`.
pub open spec fn slot_of(chain: StateChain, n: BlockNumber) -> SlotView
    recommends
        n <= chain.spec_head(),
{
    match chain.slots@[n as int] {
        SnapshotSlot::Ready(v) => SlotView::Ready(v),
        SnapshotSlot::Faulted(f) => SlotView::Fault(f),
    }
}

/// What a request with snapshot identifier `at` finds in `chain`.
pub open spec fn slot_at(chain: StateChain, at: Option<BlockNumber>) -> SlotView {
    match at {
        None => slot_of(chain, chain.spec_head()),
        Some(n) => if n <= chain.spec_head() {
            slot_of(chain, n)
        } else {
            SlotView::NotRetained(n)
        },
    }
}

/// The error discipline every operation shares: an unretained snapshot
/// identifier is reported as a resolution error, an accessor failure as
/// the uniform envelope with the operation's fixed message, and a ready
/// view always yields a result.
pub open spec fn fails_as<T>(
    m: CelerPayModule,
    op: QueryOp,
    at: Option<BlockNumber>,
    r: Result<T, QueryError>,
) -> bool {
    match slot_at(m.chain, at) {
        SlotView::NotRetained(n) => r matches Err(e) && e == (QueryError::SnapshotNotFound {
            requested: n,
            head: m.chain.spec_head(),
        }),
        SlotView::Fault(f) => r matches Err(QueryError::Accessor(env)) && is_normalized(
            env,
            op,
            f,
        ),
        SlotView::Ready(_) => r is Ok,
    }
}

/// The identifier of the conditional payment with hash `pay_hash`,
/// derived by folding the pay resolver's own account into the hash.
pub open spec fn pay_id_of(pay_hash: HashValue, resolver: AccountId) -> HashValue {
    HashValue(pay_hash.0 ^ resolver.0)
}

/// The read-only query gateway over the state machine's retained
/// history.
pub struct CelerPayModule {
    /// The retained history the gateway serves queries from.
    pub chain: StateChain,
}

/// Resolves `at` to the index of the retained slot it addresses.
fn resolve_index(chain: &StateChain, at: Option<BlockNumber>) -> (r: Result<usize, QueryError>)
    requires
        chain.wf(),
    ensures
        match r {
            Ok(i) => i < chain.slots.len() && resolve_spec(at, chain.spec_head()) == Some(
                i as BlockNumber,
            ),
            Err(e) => resolve_spec(at, chain.spec_head()) is None && (at matches Some(n) && e
                == (QueryError::SnapshotNotFound { requested: n, head: chain.spec_head() })),
        },
{
    let head = chain.head();
    match at {
        None => Ok(chain.slots.len() - 1),
        Some(n) => if n <= head {
            Ok(n as usize)
        } else {
            Err(QueryError::SnapshotNotFound { requested: n, head })
        },
    }
}

impl CelerPayModule {
    /// A gateway is well formed when its retained history is.
    pub open spec fn wf(self) -> bool {
        self.chain.wf()
    }

    /// Creates a gateway over the given retained history.
    pub fn new(chain: StateChain) -> (r: Self)
        ensures
            r.chain == chain,
    {
        CelerPayModule { chain }
    }

    /// What `get_celer_ledger_id` must return.
    pub open spec fn celer_ledger_id_post(
        self,
        at: Option<BlockNumber>,
        r: Result<AccountId, QueryError>,
    ) -> bool {
        &&& fails_as(self, QueryOp::CelerLedgerId, at, r)
        &&& slot_at(self.chain, at) matches SlotView::Ready(v) ==> r == Ok::<
            AccountId,
            QueryError,
        >(v.ledger_id)
    }

    /// The account of the ledger operation module.
    pub fn get_celer_ledger_id(&self, at: Option<BlockNumber>) -> (r: Result<
        AccountId,
        QueryError,
    >)
        requires
            self.wf(),
        ensures
            self.celer_ledger_id_post(at, r),
    {
        let i = match resolve_index(&self.chain, at) {
            Ok(i) => i,
            Err(e) => return Err(e),
        };
        match &self.chain.slots[i] {
            SnapshotSlot::Faulted(f) => Err(
                QueryError::Accessor(normalize(QueryOp::CelerLedgerId, f)),
            ),
            SnapshotSlot::Ready(view) => Ok(view.ledger_id),
        }
    }

    /// What `get_settle_finalized_time` must return.
    pub open spec fn settle_finalized_time_post(
        self,
        channel_id: HashValue,
        at: Option<BlockNumber>,
        r: Result<Option<BlockNumber>, QueryError>,
    ) -> bool {
        &&& fails_as(self, QueryOp::SettleFinalizedTime, at, r)
        &&& slot_at(self.chain, at) matches SlotView::Ready(v) ==> match lookup(
            v.channels@,
            channel_id,
        ) {
            None => r == Ok::<Option<BlockNumber>, QueryError>(None),
            Some(ch) => r == Ok::<Option<BlockNumber>, QueryError>(ch.settle_finalized_time),
        }
    }

    /// When the channel's settlement becomes final, once settling has
    /// started; `None` for a channel that does not exist or is not
    /// settling.
    pub fn get_settle_finalized_time(&self, channel_id: HashValue, at: Option<BlockNumber>) -> (r:
        Result<Option<BlockNumber>, QueryError>)
        requires
            self.wf(),
        ensures
            self.settle_finalized_time_post(channel_id, at, r),
    {
        let i = match resolve_index(&self.chain, at) {
            Ok(i) => i,
            Err(e) => return Err(e),
        };
        match &self.chain.slots[i] {
            SnapshotSlot::Faulted(f) => Err(
                QueryError::Accessor(normalize(QueryOp::SettleFinalizedTime, f)),
            ),
            SnapshotSlot::Ready(view) => match view.find_channel(channel_id) {
                None => Ok(None),
                Some(k) => Ok(view.channels[k].1.settle_finalized_time),
            },
        }
    }

    /// What `get_channel_status` must return.
    pub open spec fn channel_status_post(
        self,
        channel_id: HashValue,
        at: Option<BlockNumber>,
        r: Result<u8, QueryError>,
    ) -> bool {
        &&& fails_as(self, QueryOp::ChannelStatus, at, r)
        &&& slot_at(self.chain, at) matches SlotView::Ready(v) ==> match lookup(
            v.channels@,
            channel_id,
        ) {
            None => r == Ok::<u8, QueryError>(CHANNEL_STATUS_UNINITIALIZED),
            Some(ch) => r == Ok::<u8, QueryError>(ch.status),
        }
    }

    /// The channel's status code; a channel that was never created has
    /// the defined uninitialized code, not an error.
    pub fn get_channel_status(&self, channel_id: HashValue, at: Option<BlockNumber>) -> (r: Result<
        u8,
        QueryError,
    >)
        requires
            self.wf(),
        ensures
            self.channel_status_post(channel_id, at, r),
    {
        let i = match resolve_index(&self.chain, at) {
            Ok(i) => i,
            Err(e) => return Err(e),
        };
        match &self.chain.slots[i] {
            SnapshotSlot::Faulted(f) => Err(
                QueryError::Accessor(normalize(QueryOp::ChannelStatus, f)),
            ),
            SnapshotSlot::Ready(view) => match view.find_channel(channel_id) {
                None => Ok(CHANNEL_STATUS_UNINITIALIZED),
                Some(k) => Ok(view.channels[k].1.status),
            },
        }
    }

    /// What `get_cooperative_withdraw_seq_num` must return.
    pub open spec fn cooperative_withdraw_seq_num_post(
        self,
        channel_id: HashValue,
        at: Option<BlockNumber>,
        r: Result<Option<u128>, QueryError>,
    ) -> bool {
        &&& fails_as(self, QueryOp::CooperativeWithdrawSeqNum, at, r)
        &&& slot_at(self.chain, at) matches SlotView::Ready(v) ==> match lookup(
            v.channels@,
            channel_id,
        ) {
            None => r == Ok::<Option<u128>, QueryError>(None),
            Some(ch) => r == Ok::<Option<u128>, QueryError>(
                Some(ch.cooperative_withdraw_seq_num),
            ),
        }
    }

    /// The sequence number of the channel's latest cooperative
    /// withdrawal; `None` for a channel that does not exist.
    pub fn get_cooperative_withdraw_seq_num(
        &self,
        channel_id: HashValue,
        at: Option<BlockNumber>,
    ) -> (r: Result<Option<u128>, QueryError>)
        requires
            self.wf(),
        ensures
            self.cooperative_withdraw_seq_num_post(channel_id, at, r),
    {
        let i = match resolve_index(&self.chain, at) {
            Ok(i) => i,
            Err(e) => return Err(e),
        };
        match &self.chain.slots[i] {
            SnapshotSlot::Faulted(f) => Err(
                QueryError::Accessor(normalize(QueryOp::CooperativeWithdrawSeqNum, f)),
            ),
            SnapshotSlot::Ready(view) => match view.find_channel(channel_id) {
                None => Ok(None),
                Some(k) => Ok(Some(view.channels[k].1.cooperative_withdraw_seq_num)),
            },
        }
    }

    /// What `get_balance_map` must return.
    pub open spec fn balance_map_post(
        self,
        channel_id: HashValue,
        at: Option<BlockNumber>,
        r: Result<(Vec<AccountId>, Vec<Balance>, Vec<Balance>), QueryError>,
    ) -> bool {
        &&& fails_as(self, QueryOp::BalanceMap, at, r)
        &&& slot_at(self.chain, at) matches SlotView::Ready(v) ==> match lookup(
            v.channels@,
            channel_id,
        ) {
            None => r matches Ok(t) && t.0@.len() == 0 && t.1@.len() == 0 && t.2@.len() == 0,
            Some(ch) => r matches Ok(t) && t.0@ == accounts_of(ch.peers@) && t.1@ == deposits_of(
                ch.peers@,
            ) && t.2@ == withdrawals_of(ch.peers@),
        }
    }

    /// The channel's balance map: the participant sequence paired with
    /// the deposit and withdrawal sequences, index-aligned. A channel
    /// that does not exist yields three empty sequences.
    pub fn get_balance_map(&self, channel_id: HashValue, at: Option<BlockNumber>) -> (r: Result<
        (Vec<AccountId>, Vec<Balance>, Vec<Balance>),
        QueryError,
    >)
        requires
            self.wf(),
        ensures
            self.balance_map_post(channel_id, at, r),
    {
        let i = match resolve_index(&self.chain, at) {
            Ok(i) => i,
            Err(e) => return Err(e),
        };
        match &self.chain.slots[i] {
            SnapshotSlot::Faulted(f) => Err(
                QueryError::Accessor(normalize(QueryOp::BalanceMap, f)),
            ),
            SnapshotSlot::Ready(view) => match view.find_channel(channel_id) {
                None => Ok((Vec::new(), Vec::new(), Vec::new())),
                Some(k) => Ok(shape_balance_map(&view.channels[k].1.peers)),
            },
        }
    }

    /// What `get_state_seq_num_map` must return.
    pub open spec fn state_seq_num_map_post(
        self,
        channel_id: HashValue,
        at: Option<BlockNumber>,
        r: Result<Option<(Vec<AccountId>, Vec<u128>)>, QueryError>,
    ) -> bool {
        &&& fails_as(self, QueryOp::StateSeqNumMap, at, r)
        &&& slot_at(self.chain, at) matches SlotView::Ready(v) ==> match lookup(
            v.channels@,
            channel_id,
        ) {
            None => r matches Ok(o) && o is None,
            Some(ch) => r matches Ok(Some(t)) && t.0@ == accounts_of(ch.peers@) && t.1@
                == state_seq_nums_of(ch.peers@),
        }
    }

    /// The channel's state sequence-number map, index-aligned; `None`
    /// for a channel that does not exist.
    pub fn get_state_seq_num_map(&self, channel_id: HashValue, at: Option<BlockNumber>) -> (r:
        Result<Option<(Vec<AccountId>, Vec<u128>)>, QueryError>)
        requires
            self.wf(),
        ensures
            self.state_seq_num_map_post(channel_id, at, r),
    {
        let i = match resolve_index(&self.chain, at) {
            Ok(i) => i,
            Err(e) => return Err(e),
        };
        match &self.chain.slots[i] {
            SnapshotSlot::Faulted(f) => Err(
                QueryError::Accessor(normalize(QueryOp::StateSeqNumMap, f)),
            ),
            SnapshotSlot::Ready(view) => match view.find_channel(channel_id) {
                None => Ok(None),
                Some(k) => Ok(Some(shape_state_seq_num_map(&view.channels[k].1.peers))),
            },
        }
    }

    /// What `get_transfer_out_map` must return.
    pub open spec fn transfer_out_map_post(
        self,
        channel_id: HashValue,
        at: Option<BlockNumber>,
        r: Result<Option<(Vec<AccountId>, Vec<Balance>)>, QueryError>,
    ) -> bool {
        &&& fails_as(self, QueryOp::TransferOutMap, at, r)
        &&& slot_at(self.chain, at) matches SlotView::Ready(v) ==> match lookup(
            v.channels@,
            channel_id,
        ) {
            None => r matches Ok(o) && o is None,
            Some(ch) => r matches Ok(Some(t)) && t.0@ == accounts_of(ch.peers@) && t.1@
                == transfer_outs_of(ch.peers@),
        }
    }

    /// The channel's transfer-out map, index-aligned; `None` for a
    /// channel that does not exist.
    pub fn get_transfer_out_map(&self, channel_id: HashValue, at: Option<BlockNumber>) -> (r:
        Result<Option<(Vec<AccountId>, Vec<Balance>)>, QueryError>)
        requires
            self.wf(),
        ensures
            self.transfer_out_map_post(channel_id, at, r),
    {
        let i = match resolve_index(&self.chain, at) {
            Ok(i) => i,
            Err(e) => return Err(e),
        };
        match &self.chain.slots[i] {
            SnapshotSlot::Faulted(f) => Err(
                QueryError::Accessor(normalize(QueryOp::TransferOutMap, f)),
            ),
            SnapshotSlot::Ready(view) => match view.find_channel(channel_id) {
                None => Ok(None),
                Some(k) => Ok(Some(shape_transfer_out_map(&view.channels[k].1.peers))),
            },
        }
    }

    /// What `get_next_pay_id_list_hash_map` must return.
    pub open spec fn next_pay_id_list_hash_map_post(
        self,
        channel_id: HashValue,
        at: Option<BlockNumber>,
        r: Result<Option<(Vec<AccountId>, Vec<HashValue>)>, QueryError>,
    ) -> bool {
        &&& fails_as(self, QueryOp::NextPayIdListHashMap, at, r)
        &&& slot_at(self.chain, at) matches SlotView::Ready(v) ==> match lookup(
            v.channels@,
            channel_id,
        ) {
            None => r matches Ok(o) && o is None,
            Some(ch) => r matches Ok(Some(t)) && t.0@ == accounts_of(ch.peers@) && t.1@
                == next_pay_id_list_hashes_of(ch.peers@),
        }
    }

    /// The channel's next-pay-id-list-hash map, index-aligned; `None`
    /// for a channel that does not exist.
    pub fn get_next_pay_id_list_hash_map(
        &self,
        channel_id: HashValue,
        at: Option<BlockNumber>,
    ) -> (r: Result<Option<(Vec<AccountId>, Vec<HashValue>)>, QueryError>)
        requires
            self.wf(),
        ensures
            self.next_pay_id_list_hash_map_post(channel_id, at, r),
    {
        let i = match resolve_index(&self.chain, at) {
            Ok(i) => i,
            Err(e) => return Err(e),
        };
        match &self.chain.slots[i] {
            SnapshotSlot::Faulted(f) => Err(
                QueryError::Accessor(normalize(QueryOp::NextPayIdListHashMap, f)),
            ),
            SnapshotSlot::Ready(view) => match view.find_channel(channel_id) {
                None => Ok(None),
                Some(k) => Ok(Some(shape_next_pay_id_list_hash_map(&view.channels[k].1.peers))),
            },
        }
    }

    /// What `get_last_pay_resolve_deadline_map` must return.
    pub open spec fn last_pay_resolve_deadline_map_post(
        self,
        channel_id: HashValue,
        at: Option<BlockNumber>,
        r: Result<Option<(Vec<AccountId>, Vec<BlockNumber>)>, QueryError>,
    ) -> bool {
        &&& fails_as(self, QueryOp::LastPayResolveDeadlineMap, at, r)
        &&& slot_at(self.chain, at) matches SlotView::Ready(v) ==> match lookup(
            v.channels@,
            channel_id,
        ) {
            None => r matches Ok(o) && o is None,
            Some(ch) => r matches Ok(Some(t)) && t.0@ == accounts_of(ch.peers@) && t.1@
                == last_pay_resolve_deadlines_of(ch.peers@),
        }
    }

    /// The channel's last-pay-resolve-deadline map, index-aligned;
    /// `None` for a channel that does not exist.
    pub fn get_last_pay_resolve_deadline_map(
        &self,
        channel_id: HashValue,
        at: Option<BlockNumber>,
    ) -> (r: Result<Option<(Vec<AccountId>, Vec<BlockNumber>)>, QueryError>)
        requires
            self.wf(),
        ensures
            self.last_pay_resolve_deadline_map_post(channel_id, at, r),
    {
        let i = match resolve_index(&self.chain, at) {
            Ok(i) => i,
            Err(e) => return Err(e),
        };
        match &self.chain.slots[i] {
            SnapshotSlot::Faulted(f) => Err(
                QueryError::Accessor(normalize(QueryOp::LastPayResolveDeadlineMap, f)),
            ),
            SnapshotSlot::Ready(view) => match view.find_channel(channel_id) {
                None => Ok(None),
                Some(k) => Ok(
                    Some(shape_last_pay_resolve_deadline_map(&view.channels[k].1.peers)),
                ),
            },
        }
    }

    /// What `get_pending_pay_out_map` must return.
    pub open spec fn pending_pay_out_map_post(
        self,
        channel_id: HashValue,
        at: Option<BlockNumber>,
        r: Result<Option<(Vec<AccountId>, Vec<Balance>)>, QueryError>,
    ) -> bool {
        &&& fails_as(self, QueryOp::PendingPayOutMap, at, r)
        &&& slot_at(self.chain, at) matches SlotView::Ready(v) ==> match lookup(
            v.channels@,
            channel_id,
        ) {
            None => r matches Ok(o) && o is None,
            Some(ch) => r matches Ok(Some(t)) && t.0@ == accounts_of(ch.peers@) && t.1@
                == pending_pay_outs_of(ch.peers@),
        }
    }

    /// The channel's pending-pay-out map, index-aligned; `None` for a
    /// channel that does not exist.
    pub fn get_pending_pay_out_map(&self, channel_id: HashValue, at: Option<BlockNumber>) -> (r:
        Result<Option<(Vec<AccountId>, Vec<Balance>)>, QueryError>)
        requires
            self.wf(),
        ensures
            self.pending_pay_out_map_post(channel_id, at, r),
    {
        let i = match resolve_index(&self.chain, at) {
            Ok(i) => i,
            Err(e) => return Err(e),
        };
        match &self.chain.slots[i] {
            SnapshotSlot::Faulted(f) => Err(
                QueryError::Accessor(normalize(QueryOp::PendingPayOutMap, f)),
            ),
            SnapshotSlot::Ready(view) => match view.find_channel(channel_id) {
                None => Ok(None),
                Some(k) => Ok(Some(shape_pending_pay_out_map(&view.channels[k].1.peers))),
            },
        }
    }

    /// What `get_withdraw_intent` must return.
    pub open spec fn withdraw_intent_post(
        self,
        channel_id: HashValue,
        at: Option<BlockNumber>,
        r: Result<Option<(AccountId, Balance, BlockNumber, HashValue)>, QueryError>,
    ) -> bool {
        &&& fails_as(self, QueryOp::WithdrawIntent, at, r)
        &&& slot_at(self.chain, at) matches SlotView::Ready(v) ==> match lookup(
            v.channels@,
            channel_id,
        ) {
            None => r matches Ok(o) && o is None,
            Some(ch) => match ch.withdraw_intent {
                None => r matches Ok(o) && o is None,
                Some(w) => r matches Ok(Some(t)) && t == (w.receiver, w.amount, w.deadline,
                w.seq_num_hash),
            },
        }
    }

    /// The channel's pending withdraw intent as a fixed-arity tuple;
    /// `None` when the channel does not exist or no intent is pending.
    pub fn get_withdraw_intent(&self, channel_id: HashValue, at: Option<BlockNumber>) -> (r:
        Result<Option<(AccountId, Balance, BlockNumber, HashValue)>, QueryError>)
        requires
            self.wf(),
        ensures
            self.withdraw_intent_post(channel_id, at, r),
    {
        let i = match resolve_index(&self.chain, at) {
            Ok(i) => i,
            Err(e) => return Err(e),
        };
        match &self.chain.slots[i] {
            SnapshotSlot::Faulted(f) => Err(
                QueryError::Accessor(normalize(QueryOp::WithdrawIntent, f)),
            ),
            SnapshotSlot::Ready(view) => match view.find_channel(channel_id) {
                None => Ok(None),
                Some(k) => match view.channels[k].1.withdraw_intent {
                    None => Ok(None),
                    Some(w) => Ok(Some((w.receiver, w.amount, w.deadline, w.seq_num_hash))),
                },
            },
        }
    }

    /// What `get_channel_status_num` must return.
    pub open spec fn channel_status_num_post(
        self,
        channel_status: u8,
        at: Option<BlockNumber>,
        r: Result<Option<u8>, QueryError>,
    ) -> bool {
        &&& fails_as(self, QueryOp::ChannelStatusNum, at, r)
        &&& slot_at(self.chain, at) matches SlotView::Ready(v) ==> r matches Ok(o) && o == lookup(
            v.status_nums@,
            channel_status,
        )
    }

    /// The number of channels recorded under the given status code;
    /// `None` when the code is not a valid status code at the resolved
    /// snapshot.
    pub fn get_channel_status_num(&self, channel_status: u8, at: Option<BlockNumber>) -> (r:
        Result<Option<u8>, QueryError>)
        requires
            self.wf(),
        ensures
            self.channel_status_num_post(channel_status, at, r),
    {
        let i = match resolve_index(&self.chain, at) {
            Ok(i) => i,
            Err(e) => return Err(e),
        };
        match &self.chain.slots[i] {
            SnapshotSlot::Faulted(f) => Err(
                QueryError::Accessor(normalize(QueryOp::ChannelStatusNum, f)),
            ),
            SnapshotSlot::Ready(view) => Ok(view.status_num_of(channel_status)),
        }
    }

    /// What `get_balance_limit` must return.
    pub open spec fn balance_limit_post(
        self,
        channel_id: HashValue,
        at: Option<BlockNumber>,
        r: Result<Option<Balance>, QueryError>,
    ) -> bool {
        &&& fails_as(self, QueryOp::BalanceLimit, at, r)
        &&& slot_at(self.chain, at) matches SlotView::Ready(v) ==> match lookup(
            v.channels@,
            channel_id,
        ) {
            None => r == Ok::<Option<Balance>, QueryError>(None),
            Some(ch) => r == Ok::<Option<Balance>, QueryError>(Some(ch.balance_limit)),
        }
    }

    /// The channel's deposit limit; `None` for a channel that does not
    /// exist.
    pub fn get_balance_limit(&self, channel_id: HashValue, at: Option<BlockNumber>) -> (r: Result<
        Option<Balance>,
        QueryError,
    >)
        requires
            self.wf(),
        ensures
            self.balance_limit_post(channel_id, at, r),
    {
        let i = match resolve_index(&self.chain, at) {
            Ok(i) => i,
            Err(e) => return Err(e),
        };
        match &self.chain.slots[i] {
            SnapshotSlot::Faulted(f) => Err(
                QueryError::Accessor(normalize(QueryOp::BalanceLimit, f)),
            ),
            SnapshotSlot::Ready(view) => match view.find_channel(channel_id) {
                None => Ok(None),
                Some(k) => Ok(Some(view.channels[k].1.balance_limit)),
            },
        }
    }

    /// What `get_balance_limits_enabled` must return.
    pub open spec fn balance_limits_enabled_post(
        self,
        channel_id: HashValue,
        at: Option<BlockNumber>,
        r: Result<Option<bool>, QueryError>,
    ) -> bool {
        &&& fails_as(self, QueryOp::BalanceLimitsEnabled, at, r)
        &&& slot_at(self.chain, at) matches SlotView::Ready(v) ==> match lookup(
            v.channels@,
            channel_id,
        ) {
            None => r == Ok::<Option<bool>, QueryError>(None),
            Some(ch) => r == Ok::<Option<bool>, QueryError>(Some(ch.balance_limits_enabled)),
        }
    }

    /// Whether the channel enforces its deposit limit; `None` for a
    /// channel that does not exist.
    pub fn get_balance_limits_enabled(&self, channel_id: HashValue, at: Option<BlockNumber>) -> (r:
        Result<Option<bool>, QueryError>)
        requires
            self.wf(),
        ensures
            self.balance_limits_enabled_post(channel_id, at, r),
    {
        let i = match resolve_index(&self.chain, at) {
            Ok(i) => i,
            Err(e) => return Err(e),
        };
        match &self.chain.slots[i] {
            SnapshotSlot::Faulted(f) => Err(
                QueryError::Accessor(normalize(QueryOp::BalanceLimitsEnabled, f)),
            ),
            SnapshotSlot::Ready(view) => match view.find_channel(channel_id) {
                None => Ok(None),
                Some(k) => Ok(Some(view.channels[k].1.balance_limits_enabled)),
            },
        }
    }

    /// What `get_peers_migration_info` must return.
    pub open spec fn peers_migration_info_post(
        self,
        channel_id: HashValue,
        at: Option<BlockNumber>,
        r: Result<
            Option<(Vec<AccountId>, Vec<Balance>, Vec<Balance>, Vec<u128>, Vec<Balance>, Vec<
                Balance,
            >)>,
            QueryError,
        >,
    ) -> bool {
        &&& fails_as(self, QueryOp::PeersMigrationInfo, at, r)
        &&& slot_at(self.chain, at) matches SlotView::Ready(v) ==> match lookup(
            v.channels@,
            channel_id,
        ) {
            None => r matches Ok(o) && o is None,
            Some(ch) => r matches Ok(Some(t)) && t.0@ == accounts_of(ch.peers@) && t.1@
                == deposits_of(ch.peers@) && t.2@ == withdrawals_of(ch.peers@) && t.3@
                == state_seq_nums_of(ch.peers@) && t.4@ == transfer_outs_of(ch.peers@) && t.5@
                == pending_pay_outs_of(ch.peers@),
        }
    }

    /// The channel's migration info: accounts, deposits, withdrawals,
    /// state sequence numbers, transferred-out amounts and pending pay
    /// outs, index-aligned; `None` for a channel that does not exist.
    pub fn get_peers_migration_info(&self, channel_id: HashValue, at: Option<BlockNumber>) -> (r:
        Result<
        Option<(Vec<AccountId>, Vec<Balance>, Vec<Balance>, Vec<u128>, Vec<Balance>, Vec<Balance>)>,
        QueryError,
    >)
        requires
            self.wf(),
        ensures
            self.peers_migration_info_post(channel_id, at, r),
    {
        let i = match resolve_index(&self.chain, at) {
            Ok(i) => i,
            Err(e) => return Err(e),
        };
        match &self.chain.slots[i] {
            SnapshotSlot::Faulted(f) => Err(
                QueryError::Accessor(normalize(QueryOp::PeersMigrationInfo, f)),
            ),
            SnapshotSlot::Ready(view) => match view.find_channel(channel_id) {
                None => Ok(None),
                Some(k) => Ok(Some(shape_migration_info(&view.channels[k].1.peers))),
            },
        }
    }

    /// What `get_celer_wallet_id` must return.
    pub open spec fn celer_wallet_id_post(
        self,
        at: Option<BlockNumber>,
        r: Result<AccountId, QueryError>,
    ) -> bool {
        &&& fails_as(self, QueryOp::CelerWalletId, at, r)
        &&& slot_at(self.chain, at) matches SlotView::Ready(v) ==> r == Ok::<
            AccountId,
            QueryError,
        >(v.wallet_id)
    }

    /// The account of the wallet registry module.
    pub fn get_celer_wallet_id(&self, at: Option<BlockNumber>) -> (r: Result<
        AccountId,
        QueryError,
    >)
        requires
            self.wf(),
        ensures
            self.celer_wallet_id_post(at, r),
    {
        let i = match resolve_index(&self.chain, at) {
            Ok(i) => i,
            Err(e) => return Err(e),
        };
        match &self.chain.slots[i] {
            SnapshotSlot::Faulted(f) => Err(
                QueryError::Accessor(normalize(QueryOp::CelerWalletId, f)),
            ),
            SnapshotSlot::Ready(view) => Ok(view.wallet_id),
        }
    }

    /// What `get_wallet_owners` must return.
    pub open spec fn wallet_owners_post(
        self,
        wallet_id: HashValue,
        at: Option<BlockNumber>,
        r: Result<Option<Vec<AccountId>>, QueryError>,
    ) -> bool {
        &&& fails_as(self, QueryOp::WalletOwners, at, r)
        &&& slot_at(self.chain, at) matches SlotView::Ready(v) ==> match lookup(
            v.wallets@,
            wallet_id,
        ) {
            None => r matches Ok(o) && o is None,
            Some(w) => r matches Ok(Some(t)) && t@ == w.owners@,
        }
    }

    /// The wallet's owner list; `None` for a wallet that does not
    /// exist.
    pub fn get_wallet_owners(&self, wallet_id: HashValue, at: Option<BlockNumber>) -> (r: Result<
        Option<Vec<AccountId>>,
        QueryError,
    >)
        requires
            self.wf(),
        ensures
            self.wallet_owners_post(wallet_id, at, r),
    {
        let i = match resolve_index(&self.chain, at) {
            Ok(i) => i,
            Err(e) => return Err(e),
        };
        match &self.chain.slots[i] {
            SnapshotSlot::Faulted(f) => Err(
                QueryError::Accessor(normalize(QueryOp::WalletOwners, f)),
            ),
            SnapshotSlot::Ready(view) => match view.find_wallet(wallet_id) {
                None => Ok(None),
                Some(k) => Ok(Some(shape_owner_list(&view.wallets[k].1.owners))),
            },
        }
    }

    /// What `get_wallet_balance` must return.
    pub open spec fn wallet_balance_post(
        self,
        wallet_id: HashValue,
        at: Option<BlockNumber>,
        r: Result<Option<Balance>, QueryError>,
    ) -> bool {
        &&& fails_as(self, QueryOp::WalletBalance, at, r)
        &&& slot_at(self.chain, at) matches SlotView::Ready(v) ==> match lookup(
            v.wallets@,
            wallet_id,
        ) {
            None => r == Ok::<Option<Balance>, QueryError>(None),
            Some(w) => r == Ok::<Option<Balance>, QueryError>(Some(w.balance)),
        }
    }

    /// The wallet's balance; `None` for a wallet that does not exist.
    pub fn get_wallet_balance(&self, wallet_id: HashValue, at: Option<BlockNumber>) -> (r: Result<
        Option<Balance>,
        QueryError,
    >)
        requires
            self.wf(),
        ensures
            self.wallet_balance_post(wallet_id, at, r),
    {
        let i = match resolve_index(&self.chain, at) {
            Ok(i) => i,
            Err(e) => return Err(e),
        };
        match &self.chain.slots[i] {
            SnapshotSlot::Faulted(f) => Err(
                QueryError::Accessor(normalize(QueryOp::WalletBalance, f)),
            ),
            SnapshotSlot::Ready(view) => match view.find_wallet(wallet_id) {
                None => Ok(None),
                Some(k) => Ok(Some(view.wallets[k].1.balance)),
            },
        }
    }

    /// What `get_pool_id` must return.
    pub open spec fn pool_id_post(
        self,
        at: Option<BlockNumber>,
        r: Result<AccountId, QueryError>,
    ) -> bool {
        &&& fails_as(self, QueryOp::PoolId, at, r)
        &&& slot_at(self.chain, at) matches SlotView::Ready(v) ==> r == Ok::<
            AccountId,
            QueryError,
        >(v.pool_id)
    }

    /// The account of the liquidity pool module.
    pub fn get_pool_id(&self, at: Option<BlockNumber>) -> (r: Result<AccountId, QueryError>)
        requires
            self.wf(),
        ensures
            self.pool_id_post(at, r),
    {
        let i = match resolve_index(&self.chain, at) {
            Ok(i) => i,
            Err(e) => return Err(e),
        };
        match &self.chain.slots[i] {
            SnapshotSlot::Faulted(f) => Err(QueryError::Accessor(normalize(QueryOp::PoolId, f))),
            SnapshotSlot::Ready(view) => Ok(view.pool_id),
        }
    }

    /// What `get_pool_balance` must return.
    pub open spec fn pool_balance_post(
        self,
        owner: AccountId,
        at: Option<BlockNumber>,
        r: Result<Option<Balance>, QueryError>,
    ) -> bool {
        &&& fails_as(self, QueryOp::PoolBalance, at, r)
        &&& slot_at(self.chain, at) matches SlotView::Ready(v) ==> r matches Ok(o) && o == lookup(
            v.pool_balances@,
            owner,
        )
    }

    /// The owner's pool balance; `None` when the pool holds none.
    pub fn get_pool_balance(&self, owner: AccountId, at: Option<BlockNumber>) -> (r: Result<
        Option<Balance>,
        QueryError,
    >)
        requires
            self.wf(),
        ensures
            self.pool_balance_post(owner, at, r),
    {
        let i = match resolve_index(&self.chain, at) {
            Ok(i) => i,
            Err(e) => return Err(e),
        };
        match &self.chain.slots[i] {
            SnapshotSlot::Faulted(f) => Err(
                QueryError::Accessor(normalize(QueryOp::PoolBalance, f)),
            ),
            SnapshotSlot::Ready(view) => Ok(view.pool_balance_of(owner)),
        }
    }

    /// What `get_allowance` must return.
    pub open spec fn allowance_post(
        self,
        owner: AccountId,
        spender: AccountId,
        at: Option<BlockNumber>,
        r: Result<Option<Balance>, QueryError>,
    ) -> bool {
        &&& fails_as(self, QueryOp::Allowance, at, r)
        &&& slot_at(self.chain, at) matches SlotView::Ready(v) ==> r matches Ok(o) && o == lookup(
            v.allowances@,
            (owner, spender),
        )
    }

    /// The allowance the pool grants `spender` on behalf of `owner`;
    /// `None` when none was set.
    pub fn get_allowance(&self, owner: AccountId, spender: AccountId, at: Option<BlockNumber>) -> (
        r: Result<Option<Balance>, QueryError>)
        requires
            self.wf(),
        ensures
            self.allowance_post(owner, spender, at, r),
    {
        let i = match resolve_index(&self.chain, at) {
            Ok(i) => i,
            Err(e) => return Err(e),
        };
        match &self.chain.slots[i] {
            SnapshotSlot::Faulted(f) => Err(
                QueryError::Accessor(normalize(QueryOp::Allowance, f)),
            ),
            SnapshotSlot::Ready(view) => Ok(view.allowance_of(owner, spender)),
        }
    }

    /// What `get_pay_resolver_id` must return.
    pub open spec fn pay_resolver_id_post(
        self,
        at: Option<BlockNumber>,
        r: Result<AccountId, QueryError>,
    ) -> bool {
        &&& fails_as(self, QueryOp::PayResolverId, at, r)
        &&& slot_at(self.chain, at) matches SlotView::Ready(v) ==> r == Ok::<
            AccountId,
            QueryError,
        >(v.pay_resolver_id)
    }

    /// The account of the pay resolver module.
    pub fn get_pay_resolver_id(&self, at: Option<BlockNumber>) -> (r: Result<
        AccountId,
        QueryError,
    >)
        requires
            self.wf(),
        ensures
            self.pay_resolver_id_post(at, r),
    {
        let i = match resolve_index(&self.chain, at) {
            Ok(i) => i,
            Err(e) => return Err(e),
        };
        match &self.chain.slots[i] {
            SnapshotSlot::Faulted(f) => Err(
                QueryError::Accessor(normalize(QueryOp::PayResolverId, f)),
            ),
            SnapshotSlot::Ready(view) => Ok(view.pay_resolver_id),
        }
    }

    /// What `calculate_pay_id` must return.
    pub open spec fn calculate_pay_id_post(
        self,
        pay_hash: HashValue,
        at: Option<BlockNumber>,
        r: Result<HashValue, QueryError>,
    ) -> bool {
        &&& fails_as(self, QueryOp::CalculatePayId, at, r)
        &&& slot_at(self.chain, at) matches SlotView::Ready(v) ==> r == Ok::<
            HashValue,
            QueryError,
        >(pay_id_of(pay_hash, v.pay_resolver_id))
    }

    /// The payment identifier derived from the pay hash and the pay
    /// resolver's own account: a pure derivation with no state
    /// dependency beyond the resolver id, dispatched through the same
    /// snapshot-scoped accessor for consistency with the rest of the
    /// query surface.
    pub fn calculate_pay_id(&self, pay_hash: HashValue, at: Option<BlockNumber>) -> (r: Result<
        HashValue,
        QueryError,
    >)
        requires
            self.wf(),
        ensures
            self.calculate_pay_id_post(pay_hash, at, r),
    {
        let i = match resolve_index(&self.chain, at) {
            Ok(i) => i,
            Err(e) => return Err(e),
        };
        match &self.chain.slots[i] {
            SnapshotSlot::Faulted(f) => Err(
                QueryError::Accessor(normalize(QueryOp::CalculatePayId, f)),
            ),
            SnapshotSlot::Ready(view) => Ok(HashValue(pay_hash.0 ^ view.pay_resolver_id.0)),
        }
    }
}

} // verus!
