//! Laws of the query surface.
//!
//! Every operation's contract is stated as a function of the retained
//! history, the supplied keys and the supplied snapshot identifier, so
//! the guarantees shared by the whole surface can be stated and proved
//! once, here: determinism, equivalence of the default snapshot with the
//! head's own identifier, and the distinction between an absent entity
//! and a present-but-empty one.

use vstd::prelude::*;
use crate::error::QueryError;
use crate::facade::slot_at;
use crate::facade::CelerPayModule;
use crate::facade::SlotView;
use crate::ids::AccountId;
use crate::ids::Balance;
use crate::ids::BlockNumber;
use crate::ids::HashValue;
use crate::state::lookup;
use crate::state::StateChain;

verus! {

/// A request with no snapshot identifier and a request naming the
/// current head's own identifier address the same slot, so every
/// operation's contract coincides for the two.
pub proof fn lemma_default_snapshot_slot(chain: StateChain)
    requires
        chain.wf(),
    ensures
        slot_at(chain, None) == slot_at(chain, Some(chain.spec_head())),
{
}

/// `get_celer_ledger_id` with no snapshot identifier accepts exactly the
/// results it accepts with the head's own identifier.
pub proof fn lemma_default_snapshot_celer_ledger_id(
    m: CelerPayModule,
    r: Result<AccountId, QueryError>,
)
    requires
        m.wf(),
    ensures
        m.celer_ledger_id_post(None, r) <==> m.celer_ledger_id_post(Some(m.chain.spec_head()), r),
{
    lemma_default_snapshot_slot(m.chain);
}

/// `get_channel_status` with no snapshot identifier accepts exactly the
/// results it accepts with the head's own identifier.
pub proof fn lemma_default_snapshot_channel_status(
    m: CelerPayModule,
    channel_id: HashValue,
    r: Result<u8, QueryError>,
)
    requires
        m.wf(),
    ensures
        m.channel_status_post(channel_id, None, r) <==> m.channel_status_post(
            channel_id,
            Some(m.chain.spec_head()),
            r,
        ),
{
    lemma_default_snapshot_slot(m.chain);
}

/// `get_state_seq_num_map` with no snapshot identifier accepts exactly
/// the results it accepts with the head's own identifier.
pub proof fn lemma_default_snapshot_state_seq_num_map(
    m: CelerPayModule,
    channel_id: HashValue,
    r: Result<Option<(Vec<AccountId>, Vec<u128>)>, QueryError>,
)
    requires
        m.wf(),
    ensures
        m.state_seq_num_map_post(channel_id, None, r) <==> m.state_seq_num_map_post(
            channel_id,
            Some(m.chain.spec_head()),
            r,
        ),
{
    lemma_default_snapshot_slot(m.chain);
}

/// `calculate_pay_id` with no snapshot identifier accepts exactly the
/// results it accepts with the head's own identifier.
pub proof fn lemma_default_snapshot_calculate_pay_id(
    m: CelerPayModule,
    pay_hash: HashValue,
    r: Result<HashValue, QueryError>,
)
    requires
        m.wf(),
    ensures
        m.calculate_pay_id_post(pay_hash, None, r) <==> m.calculate_pay_id_post(
            pay_hash,
            Some(m.chain.spec_head()),
            r,
        ),
{
    lemma_default_snapshot_slot(m.chain);
}

/// Determinism of a scalar query: any two results that
/// `get_channel_status` may return for one history, one channel and one
/// snapshot agree in every observable part.
pub proof fn lemma_channel_status_deterministic(
    m: CelerPayModule,
    channel_id: HashValue,
    at: Option<BlockNumber>,
    r1: Result<u8, QueryError>,
    r2: Result<u8, QueryError>,
)
    requires
        m.channel_status_post(channel_id, at, r1),
        m.channel_status_post(channel_id, at, r2),
    ensures
        r1 is Ok <==> r2 is Ok,
        r1 matches Ok(a) ==> (r2 matches Ok(b) && a == b),
        r1 matches Err(QueryError::SnapshotNotFound { requested: q1, head: h1 }) ==> (r2 matches
            Err(QueryError::SnapshotNotFound { requested: q2, head: h2 }) && q1 == q2 && h1 == h2),
        r1 matches Err(QueryError::Accessor(e1)) ==> (r2 matches Err(QueryError::Accessor(e2))
            && e1.code == e2.code && e1.message@ == e2.message@ && e1.diagnostic@
            == e2.diagnostic@),
{
}

/// Determinism of a keyed-collection query: any two results that
/// `get_state_seq_num_map` may return for one history, one channel and
/// one snapshot agree in every observable part.
pub proof fn lemma_state_seq_num_map_deterministic(
    m: CelerPayModule,
    channel_id: HashValue,
    at: Option<BlockNumber>,
    r1: Result<Option<(Vec<AccountId>, Vec<u128>)>, QueryError>,
    r2: Result<Option<(Vec<AccountId>, Vec<u128>)>, QueryError>,
)
    requires
        m.state_seq_num_map_post(channel_id, at, r1),
        m.state_seq_num_map_post(channel_id, at, r2),
    ensures
        r1 is Ok <==> r2 is Ok,
        r1 matches Ok(o1) ==> (r2 matches Ok(o2) && (o1 is Some <==> o2 is Some)),
        r1 matches Ok(Some(t1)) ==> (r2 matches Ok(Some(t2)) && t1.0@ == t2.0@ && t1.1@
            == t2.1@),
        r1 matches Err(QueryError::SnapshotNotFound { requested: q1, head: h1 }) ==> (r2 matches
            Err(QueryError::SnapshotNotFound { requested: q2, head: h2 }) && q1 == q2 && h1 == h2),
        r1 matches Err(QueryError::Accessor(e1)) ==> (r2 matches Err(QueryError::Accessor(e2))
            && e1.code == e2.code && e1.message@ == e2.message@ && e1.diagnostic@
            == e2.diagnostic@),
{
}

/// Determinism of the pure derivation: any two results that
/// `calculate_pay_id` may return for one history, one pay hash and one
/// snapshot carry the same identifier.
pub proof fn lemma_calculate_pay_id_deterministic(
    m: CelerPayModule,
    pay_hash: HashValue,
    at: Option<BlockNumber>,
    r1: Result<HashValue, QueryError>,
    r2: Result<HashValue, QueryError>,
)
    requires
        m.calculate_pay_id_post(pay_hash, at, r1),
        m.calculate_pay_id_post(pay_hash, at, r2),
    ensures
        r1 is Ok <==> r2 is Ok,
        r1 matches Ok(a) ==> (r2 matches Ok(b) && a == b),
{
}

/// Absence, not emptiness: a channel that does not exist at the
/// resolved snapshot yields `None` for the whole keyed group, never
/// empty-but-present sequences.
pub proof fn lemma_absent_channel_yields_none(
    m: CelerPayModule,
    channel_id: HashValue,
    at: Option<BlockNumber>,
    r: Result<Option<(Vec<AccountId>, Vec<u128>)>, QueryError>,
)
    requires
        m.wf(),
        m.state_seq_num_map_post(channel_id, at, r),
        slot_at(m.chain, at) matches SlotView::Ready(v) && lookup(v.channels@, channel_id)
            is None,
    ensures
        r matches Ok(o) && o is None,
{
}

/// Emptiness, not absence: a channel that exists with no participants
/// yields a present group of empty, index-aligned sequences, so callers
/// can tell "exists but empty" from "does not exist".
pub proof fn lemma_empty_channel_yields_empty(
    m: CelerPayModule,
    channel_id: HashValue,
    at: Option<BlockNumber>,
    r: Result<Option<(Vec<AccountId>, Vec<u128>)>, QueryError>,
)
    requires
        m.wf(),
        m.state_seq_num_map_post(channel_id, at, r),
        slot_at(m.chain, at) matches SlotView::Ready(v) && (lookup(v.channels@, channel_id)
            matches Some(ch) && ch.peers@.len() == 0),
    ensures
        r matches Ok(Some(t)) && t.0@.len() == 0 && t.1@.len() == 0,
{
}

/// Absence, not emptiness, for wallets: a wallet that does not exist at
/// the resolved snapshot yields `None` for the whole owner list.
pub proof fn lemma_absent_wallet_yields_none(
    m: CelerPayModule,
    wallet_id: HashValue,
    at: Option<BlockNumber>,
    r: Result<Option<Vec<AccountId>>, QueryError>,
)
    requires
        m.wf(),
        m.wallet_owners_post(wallet_id, at, r),
        slot_at(m.chain, at) matches SlotView::Ready(v) && lookup(v.wallets@, wallet_id) is None,
    ensures
        r matches Ok(o) && o is None,
{
}


/// `get_settle_finalized_time` with no snapshot identifier accepts exactly the results it
/// accepts with the head's own identifier.
pub proof fn lemma_default_snapshot_settle_finalized_time(
    m: CelerPayModule,
    channel_id: HashValue,
    r: Result<Option<BlockNumber>, QueryError>,
)
    requires
        m.wf(),
    ensures
        m.settle_finalized_time_post(channel_id, None, r) <==> m.settle_finalized_time_post(channel_id, Some(m.chain.spec_head()), r),
{
    lemma_default_snapshot_slot(m.chain);
}

/// `get_cooperative_withdraw_seq_num` with no snapshot identifier accepts exactly the results it
/// accepts with the head's own identifier.
pub proof fn lemma_default_snapshot_cooperative_withdraw_seq_num(
    m: CelerPayModule,
    channel_id: HashValue,
    r: Result<Option<u128>, QueryError>,
)
    requires
        m.wf(),
    ensures
        m.cooperative_withdraw_seq_num_post(channel_id, None, r) <==> m.cooperative_withdraw_seq_num_post(channel_id, Some(m.chain.spec_head()), r),
{
    lemma_default_snapshot_slot(m.chain);
}

/// `get_balance_map` with no snapshot identifier accepts exactly the results it
/// accepts with the head's own identifier.
pub proof fn lemma_default_snapshot_balance_map(
    m: CelerPayModule,
    channel_id: HashValue,
    r: Result<(Vec<AccountId>, Vec<Balance>, Vec<Balance>), QueryError>,
)
    requires
        m.wf(),
    ensures
        m.balance_map_post(channel_id, None, r) <==> m.balance_map_post(channel_id, Some(m.chain.spec_head()), r),
{
    lemma_default_snapshot_slot(m.chain);
}

/// `get_transfer_out_map` with no snapshot identifier accepts exactly the results it
/// accepts with the head's own identifier.
pub proof fn lemma_default_snapshot_transfer_out_map(
    m: CelerPayModule,
    channel_id: HashValue,
    r: Result<Option<(Vec<AccountId>, Vec<Balance>)>, QueryError>,
)
    requires
        m.wf(),
    ensures
        m.transfer_out_map_post(channel_id, None, r) <==> m.transfer_out_map_post(channel_id, Some(m.chain.spec_head()), r),
{
    lemma_default_snapshot_slot(m.chain);
}

/// `get_next_pay_id_list_hash_map` with no snapshot identifier accepts exactly the results it
/// accepts with the head's own identifier.
pub proof fn lemma_default_snapshot_next_pay_id_list_hash_map(
    m: CelerPayModule,
    channel_id: HashValue,
    r: Result<Option<(Vec<AccountId>, Vec<HashValue>)>, QueryError>,
)
    requires
        m.wf(),
    ensures
        m.next_pay_id_list_hash_map_post(channel_id, None, r) <==> m.next_pay_id_list_hash_map_post(channel_id, Some(m.chain.spec_head()), r),
{
    lemma_default_snapshot_slot(m.chain);
}

/// `get_last_pay_resolve_deadline_map` with no snapshot identifier accepts exactly the results it
/// accepts with the head's own identifier.
pub proof fn lemma_default_snapshot_last_pay_resolve_deadline_map(
    m: CelerPayModule,
    channel_id: HashValue,
    r: Result<Option<(Vec<AccountId>, Vec<BlockNumber>)>, QueryError>,
)
    requires
        m.wf(),
    ensures
        m.last_pay_resolve_deadline_map_post(channel_id, None, r) <==> m.last_pay_resolve_deadline_map_post(channel_id, Some(m.chain.spec_head()), r),
{
    lemma_default_snapshot_slot(m.chain);
}

/// `get_pending_pay_out_map` with no snapshot identifier accepts exactly the results it
/// accepts with the head's own identifier.
pub proof fn lemma_default_snapshot_pending_pay_out_map(
    m: CelerPayModule,
    channel_id: HashValue,
    r: Result<Option<(Vec<AccountId>, Vec<Balance>)>, QueryError>,
)
    requires
        m.wf(),
    ensures
        m.pending_pay_out_map_post(channel_id, None, r) <==> m.pending_pay_out_map_post(channel_id, Some(m.chain.spec_head()), r),
{
    lemma_default_snapshot_slot(m.chain);
}

/// `get_withdraw_intent` with no snapshot identifier accepts exactly the results it
/// accepts with the head's own identifier.
pub proof fn lemma_default_snapshot_withdraw_intent(
    m: CelerPayModule,
    channel_id: HashValue,
    r: Result<Option<(AccountId, Balance, BlockNumber, HashValue)>, QueryError>,
)
    requires
        m.wf(),
    ensures
        m.withdraw_intent_post(channel_id, None, r) <==> m.withdraw_intent_post(channel_id, Some(m.chain.spec_head()), r),
{
    lemma_default_snapshot_slot(m.chain);
}

/// `get_channel_status_num` with no snapshot identifier accepts exactly the results it
/// accepts with the head's own identifier.
pub proof fn lemma_default_snapshot_channel_status_num(
    m: CelerPayModule,
    channel_status: u8,
    r: Result<Option<u8>, QueryError>,
)
    requires
        m.wf(),
    ensures
        m.channel_status_num_post(channel_status, None, r) <==> m.channel_status_num_post(channel_status, Some(m.chain.spec_head()), r),
{
    lemma_default_snapshot_slot(m.chain);
}

/// `get_balance_limit` with no snapshot identifier accepts exactly the results it
/// accepts with the head's own identifier.
pub proof fn lemma_default_snapshot_balance_limit(
    m: CelerPayModule,
    channel_id: HashValue,
    r: Result<Option<Balance>, QueryError>,
)
    requires
        m.wf(),
    ensures
        m.balance_limit_post(channel_id, None, r) <==> m.balance_limit_post(channel_id, Some(m.chain.spec_head()), r),
{
    lemma_default_snapshot_slot(m.chain);
}

/// `get_balance_limits_enabled` with no snapshot identifier accepts exactly the results it
/// accepts with the head's own identifier.
pub proof fn lemma_default_snapshot_balance_limits_enabled(
    m: CelerPayModule,
    channel_id: HashValue,
    r: Result<Option<bool>, QueryError>,
)
    requires
        m.wf(),
    ensures
        m.balance_limits_enabled_post(channel_id, None, r) <==> m.balance_limits_enabled_post(channel_id, Some(m.chain.spec_head()), r),
{
    lemma_default_snapshot_slot(m.chain);
}

/// `get_peers_migration_info` with no snapshot identifier accepts exactly the results it
/// accepts with the head's own identifier.
pub proof fn lemma_default_snapshot_peers_migration_info(
    m: CelerPayModule,
    channel_id: HashValue,
    r: Result<Option<(Vec<AccountId>, Vec<Balance>, Vec<Balance>, Vec<u128>, Vec<Balance>, Vec<Balance>)>, QueryError>,
)
    requires
        m.wf(),
    ensures
        m.peers_migration_info_post(channel_id, None, r) <==> m.peers_migration_info_post(channel_id, Some(m.chain.spec_head()), r),
{
    lemma_default_snapshot_slot(m.chain);
}

/// `get_celer_wallet_id` with no snapshot identifier accepts exactly the results it
/// accepts with the head's own identifier.
pub proof fn lemma_default_snapshot_celer_wallet_id(
    m: CelerPayModule,
    r: Result<AccountId, QueryError>,
)
    requires
        m.wf(),
    ensures
        m.celer_wallet_id_post(None, r) <==> m.celer_wallet_id_post(Some(m.chain.spec_head()), r),
{
    lemma_default_snapshot_slot(m.chain);
}

/// `get_wallet_owners` with no snapshot identifier accepts exactly the results it
/// accepts with the head's own identifier.
pub proof fn lemma_default_snapshot_wallet_owners(
    m: CelerPayModule,
    wallet_id: HashValue,
    r: Result<Option<Vec<AccountId>>, QueryError>,
)
    requires
        m.wf(),
    ensures
        m.wallet_owners_post(wallet_id, None, r) <==> m.wallet_owners_post(wallet_id, Some(m.chain.spec_head()), r),
{
    lemma_default_snapshot_slot(m.chain);
}

/// `get_wallet_balance` with no snapshot identifier accepts exactly the results it
/// accepts with the head's own identifier.
pub proof fn lemma_default_snapshot_wallet_balance(
    m: CelerPayModule,
    wallet_id: HashValue,
    r: Result<Option<Balance>, QueryError>,
)
    requires
        m.wf(),
    ensures
        m.wallet_balance_post(wallet_id, None, r) <==> m.wallet_balance_post(wallet_id, Some(m.chain.spec_head()), r),
{
    lemma_default_snapshot_slot(m.chain);
}

/// `get_pool_id` with no snapshot identifier accepts exactly the results it
/// accepts with the head's own identifier.
pub proof fn lemma_default_snapshot_pool_id(
    m: CelerPayModule,
    r: Result<AccountId, QueryError>,
)
    requires
        m.wf(),
    ensures
        m.pool_id_post(None, r) <==> m.pool_id_post(Some(m.chain.spec_head()), r),
{
    lemma_default_snapshot_slot(m.chain);
}

/// `get_pool_balance` with no snapshot identifier accepts exactly the results it
/// accepts with the head's own identifier.
pub proof fn lemma_default_snapshot_pool_balance(
    m: CelerPayModule,
    owner: AccountId,
    r: Result<Option<Balance>, QueryError>,
)
    requires
        m.wf(),
    ensures
        m.pool_balance_post(owner, None, r) <==> m.pool_balance_post(owner, Some(m.chain.spec_head()), r),
{
    lemma_default_snapshot_slot(m.chain);
}

/// `get_allowance` with no snapshot identifier accepts exactly the results it
/// accepts with the head's own identifier.
pub proof fn lemma_default_snapshot_allowance(
    m: CelerPayModule,
    owner: AccountId,
    spender: AccountId,
    r: Result<Option<Balance>, QueryError>,
)
    requires
        m.wf(),
    ensures
        m.allowance_post(owner, spender, None, r) <==> m.allowance_post(owner, spender, Some(m.chain.spec_head()), r),
{
    lemma_default_snapshot_slot(m.chain);
}

/// `get_pay_resolver_id` with no snapshot identifier accepts exactly the results it
/// accepts with the head's own identifier.
pub proof fn lemma_default_snapshot_pay_resolver_id(
    m: CelerPayModule,
    r: Result<AccountId, QueryError>,
)
    requires
        m.wf(),
    ensures
        m.pay_resolver_id_post(None, r) <==> m.pay_resolver_id_post(Some(m.chain.spec_head()), r),
{
    lemma_default_snapshot_slot(m.chain);
}


/// Determinism: any two results that `get_celer_ledger_id` may return for one
/// history, one set of keys and one snapshot agree in every observable
/// part.
pub proof fn lemma_celer_ledger_id_deterministic(
    m: CelerPayModule,
    at: Option<BlockNumber>,
    r1: Result<AccountId, QueryError>,
    r2: Result<AccountId, QueryError>,
)
    requires
        m.celer_ledger_id_post(at, r1),
        m.celer_ledger_id_post(at, r2),
    ensures
        r1 is Ok <==> r2 is Ok,
        r1 matches Ok(a) ==> (r2 matches Ok(b) && a == b),
        r1 matches Err(QueryError::SnapshotNotFound { requested: q1, head: h1 }) ==> (r2 matches
            Err(QueryError::SnapshotNotFound { requested: q2, head: h2 }) && q1 == q2 && h1 == h2),
        r1 matches Err(QueryError::Accessor(e1)) ==> (r2 matches Err(QueryError::Accessor(e2))
            && e1.code == e2.code && e1.message@ == e2.message@ && e1.diagnostic@
            == e2.diagnostic@),
{
}

/// Determinism: any two results that `get_settle_finalized_time` may return for one
/// history, one set of keys and one snapshot agree in every observable
/// part.
pub proof fn lemma_settle_finalized_time_deterministic(
    m: CelerPayModule,
    channel_id: HashValue,
    at: Option<BlockNumber>,
    r1: Result<Option<BlockNumber>, QueryError>,
    r2: Result<Option<BlockNumber>, QueryError>,
)
    requires
        m.settle_finalized_time_post(channel_id, at, r1),
        m.settle_finalized_time_post(channel_id, at, r2),
    ensures
        r1 is Ok <==> r2 is Ok,
        r1 matches Ok(a) ==> (r2 matches Ok(b) && a == b),
        r1 matches Err(QueryError::SnapshotNotFound { requested: q1, head: h1 }) ==> (r2 matches
            Err(QueryError::SnapshotNotFound { requested: q2, head: h2 }) && q1 == q2 && h1 == h2),
        r1 matches Err(QueryError::Accessor(e1)) ==> (r2 matches Err(QueryError::Accessor(e2))
            && e1.code == e2.code && e1.message@ == e2.message@ && e1.diagnostic@
            == e2.diagnostic@),
{
}

/// Determinism: any two results that `get_cooperative_withdraw_seq_num` may return for one
/// history, one set of keys and one snapshot agree in every observable
/// part.
pub proof fn lemma_cooperative_withdraw_seq_num_deterministic(
    m: CelerPayModule,
    channel_id: HashValue,
    at: Option<BlockNumber>,
    r1: Result<Option<u128>, QueryError>,
    r2: Result<Option<u128>, QueryError>,
)
    requires
        m.cooperative_withdraw_seq_num_post(channel_id, at, r1),
        m.cooperative_withdraw_seq_num_post(channel_id, at, r2),
    ensures
        r1 is Ok <==> r2 is Ok,
        r1 matches Ok(a) ==> (r2 matches Ok(b) && a == b),
        r1 matches Err(QueryError::SnapshotNotFound { requested: q1, head: h1 }) ==> (r2 matches
            Err(QueryError::SnapshotNotFound { requested: q2, head: h2 }) && q1 == q2 && h1 == h2),
        r1 matches Err(QueryError::Accessor(e1)) ==> (r2 matches Err(QueryError::Accessor(e2))
            && e1.code == e2.code && e1.message@ == e2.message@ && e1.diagnostic@
            == e2.diagnostic@),
{
}

/// Determinism: any two results that `get_withdraw_intent` may return for one
/// history, one set of keys and one snapshot agree in every observable
/// part.
pub proof fn lemma_withdraw_intent_deterministic(
    m: CelerPayModule,
    channel_id: HashValue,
    at: Option<BlockNumber>,
    r1: Result<Option<(AccountId, Balance, BlockNumber, HashValue)>, QueryError>,
    r2: Result<Option<(AccountId, Balance, BlockNumber, HashValue)>, QueryError>,
)
    requires
        m.withdraw_intent_post(channel_id, at, r1),
        m.withdraw_intent_post(channel_id, at, r2),
    ensures
        r1 is Ok <==> r2 is Ok,
        r1 matches Ok(a) ==> (r2 matches Ok(b) && a == b),
        r1 matches Err(QueryError::SnapshotNotFound { requested: q1, head: h1 }) ==> (r2 matches
            Err(QueryError::SnapshotNotFound { requested: q2, head: h2 }) && q1 == q2 && h1 == h2),
        r1 matches Err(QueryError::Accessor(e1)) ==> (r2 matches Err(QueryError::Accessor(e2))
            && e1.code == e2.code && e1.message@ == e2.message@ && e1.diagnostic@
            == e2.diagnostic@),
{
}

/// Determinism: any two results that `get_channel_status_num` may return for one
/// history, one set of keys and one snapshot agree in every observable
/// part.
pub proof fn lemma_channel_status_num_deterministic(
    m: CelerPayModule,
    channel_status: u8,
    at: Option<BlockNumber>,
    r1: Result<Option<u8>, QueryError>,
    r2: Result<Option<u8>, QueryError>,
)
    requires
        m.channel_status_num_post(channel_status, at, r1),
        m.channel_status_num_post(channel_status, at, r2),
    ensures
        r1 is Ok <==> r2 is Ok,
        r1 matches Ok(a) ==> (r2 matches Ok(b) && a == b),
        r1 matches Err(QueryError::SnapshotNotFound { requested: q1, head: h1 }) ==> (r2 matches
            Err(QueryError::SnapshotNotFound { requested: q2, head: h2 }) && q1 == q2 && h1 == h2),
        r1 matches Err(QueryError::Accessor(e1)) ==> (r2 matches Err(QueryError::Accessor(e2))
            && e1.code == e2.code && e1.message@ == e2.message@ && e1.diagnostic@
            == e2.diagnostic@),
{
}

/// Determinism: any two results that `get_balance_limit` may return for one
/// history, one set of keys and one snapshot agree in every observable
/// part.
pub proof fn lemma_balance_limit_deterministic(
    m: CelerPayModule,
    channel_id: HashValue,
    at: Option<BlockNumber>,
    r1: Result<Option<Balance>, QueryError>,
    r2: Result<Option<Balance>, QueryError>,
)
    requires
        m.balance_limit_post(channel_id, at, r1),
        m.balance_limit_post(channel_id, at, r2),
    ensures
        r1 is Ok <==> r2 is Ok,
        r1 matches Ok(a) ==> (r2 matches Ok(b) && a == b),
        r1 matches Err(QueryError::SnapshotNotFound { requested: q1, head: h1 }) ==> (r2 matches
            Err(QueryError::SnapshotNotFound { requested: q2, head: h2 }) && q1 == q2 && h1 == h2),
        r1 matches Err(QueryError::Accessor(e1)) ==> (r2 matches Err(QueryError::Accessor(e2))
            && e1.code == e2.code && e1.message@ == e2.message@ && e1.diagnostic@
            == e2.diagnostic@),
{
}

/// Determinism: any two results that `get_balance_limits_enabled` may return for one
/// history, one set of keys and one snapshot agree in every observable
/// part.
pub proof fn lemma_balance_limits_enabled_deterministic(
    m: CelerPayModule,
    channel_id: HashValue,
    at: Option<BlockNumber>,
    r1: Result<Option<bool>, QueryError>,
    r2: Result<Option<bool>, QueryError>,
)
    requires
        m.balance_limits_enabled_post(channel_id, at, r1),
        m.balance_limits_enabled_post(channel_id, at, r2),
    ensures
        r1 is Ok <==> r2 is Ok,
        r1 matches Ok(a) ==> (r2 matches Ok(b) && a == b),
        r1 matches Err(QueryError::SnapshotNotFound { requested: q1, head: h1 }) ==> (r2 matches
            Err(QueryError::SnapshotNotFound { requested: q2, head: h2 }) && q1 == q2 && h1 == h2),
        r1 matches Err(QueryError::Accessor(e1)) ==> (r2 matches Err(QueryError::Accessor(e2))
            && e1.code == e2.code && e1.message@ == e2.message@ && e1.diagnostic@
            == e2.diagnostic@),
{
}

/// Determinism: any two results that `get_celer_wallet_id` may return for one
/// history, one set of keys and one snapshot agree in every observable
/// part.
pub proof fn lemma_celer_wallet_id_deterministic(
    m: CelerPayModule,
    at: Option<BlockNumber>,
    r1: Result<AccountId, QueryError>,
    r2: Result<AccountId, QueryError>,
)
    requires
        m.celer_wallet_id_post(at, r1),
        m.celer_wallet_id_post(at, r2),
    ensures
        r1 is Ok <==> r2 is Ok,
        r1 matches Ok(a) ==> (r2 matches Ok(b) && a == b),
        r1 matches Err(QueryError::SnapshotNotFound { requested: q1, head: h1 }) ==> (r2 matches
            Err(QueryError::SnapshotNotFound { requested: q2, head: h2 }) && q1 == q2 && h1 == h2),
        r1 matches Err(QueryError::Accessor(e1)) ==> (r2 matches Err(QueryError::Accessor(e2))
            && e1.code == e2.code && e1.message@ == e2.message@ && e1.diagnostic@
            == e2.diagnostic@),
{
}

/// Determinism: any two results that `get_wallet_balance` may return for one
/// history, one set of keys and one snapshot agree in every observable
/// part.
pub proof fn lemma_wallet_balance_deterministic(
    m: CelerPayModule,
    wallet_id: HashValue,
    at: Option<BlockNumber>,
    r1: Result<Option<Balance>, QueryError>,
    r2: Result<Option<Balance>, QueryError>,
)
    requires
        m.wallet_balance_post(wallet_id, at, r1),
        m.wallet_balance_post(wallet_id, at, r2),
    ensures
        r1 is Ok <==> r2 is Ok,
        r1 matches Ok(a) ==> (r2 matches Ok(b) && a == b),
        r1 matches Err(QueryError::SnapshotNotFound { requested: q1, head: h1 }) ==> (r2 matches
            Err(QueryError::SnapshotNotFound { requested: q2, head: h2 }) && q1 == q2 && h1 == h2),
        r1 matches Err(QueryError::Accessor(e1)) ==> (r2 matches Err(QueryError::Accessor(e2))
            && e1.code == e2.code && e1.message@ == e2.message@ && e1.diagnostic@
            == e2.diagnostic@),
{
}

/// Determinism: any two results that `get_pool_id` may return for one
/// history, one set of keys and one snapshot agree in every observable
/// part.
pub proof fn lemma_pool_id_deterministic(
    m: CelerPayModule,
    at: Option<BlockNumber>,
    r1: Result<AccountId, QueryError>,
    r2: Result<AccountId, QueryError>,
)
    requires
        m.pool_id_post(at, r1),
        m.pool_id_post(at, r2),
    ensures
        r1 is Ok <==> r2 is Ok,
        r1 matches Ok(a) ==> (r2 matches Ok(b) && a == b),
        r1 matches Err(QueryError::SnapshotNotFound { requested: q1, head: h1 }) ==> (r2 matches
            Err(QueryError::SnapshotNotFound { requested: q2, head: h2 }) && q1 == q2 && h1 == h2),
        r1 matches Err(QueryError::Accessor(e1)) ==> (r2 matches Err(QueryError::Accessor(e2))
            && e1.code == e2.code && e1.message@ == e2.message@ && e1.diagnostic@
            == e2.diagnostic@),
{
}

/// Determinism: any two results that `get_pool_balance` may return for one
/// history, one set of keys and one snapshot agree in every observable
/// part.
pub proof fn lemma_pool_balance_deterministic(
    m: CelerPayModule,
    owner: AccountId,
    at: Option<BlockNumber>,
    r1: Result<Option<Balance>, QueryError>,
    r2: Result<Option<Balance>, QueryError>,
)
    requires
        m.pool_balance_post(owner, at, r1),
        m.pool_balance_post(owner, at, r2),
    ensures
        r1 is Ok <==> r2 is Ok,
        r1 matches Ok(a) ==> (r2 matches Ok(b) && a == b),
        r1 matches Err(QueryError::SnapshotNotFound { requested: q1, head: h1 }) ==> (r2 matches
            Err(QueryError::SnapshotNotFound { requested: q2, head: h2 }) && q1 == q2 && h1 == h2),
        r1 matches Err(QueryError::Accessor(e1)) ==> (r2 matches Err(QueryError::Accessor(e2))
            && e1.code == e2.code && e1.message@ == e2.message@ && e1.diagnostic@
            == e2.diagnostic@),
{
}

/// Determinism: any two results that `get_allowance` may return for one
/// history, one set of keys and one snapshot agree in every observable
/// part.
pub proof fn lemma_allowance_deterministic(
    m: CelerPayModule,
    owner: AccountId,
    spender: AccountId,
    at: Option<BlockNumber>,
    r1: Result<Option<Balance>, QueryError>,
    r2: Result<Option<Balance>, QueryError>,
)
    requires
        m.allowance_post(owner, spender, at, r1),
        m.allowance_post(owner, spender, at, r2),
    ensures
        r1 is Ok <==> r2 is Ok,
        r1 matches Ok(a) ==> (r2 matches Ok(b) && a == b),
        r1 matches Err(QueryError::SnapshotNotFound { requested: q1, head: h1 }) ==> (r2 matches
            Err(QueryError::SnapshotNotFound { requested: q2, head: h2 }) && q1 == q2 && h1 == h2),
        r1 matches Err(QueryError::Accessor(e1)) ==> (r2 matches Err(QueryError::Accessor(e2))
            && e1.code == e2.code && e1.message@ == e2.message@ && e1.diagnostic@
            == e2.diagnostic@),
{
}

/// Determinism: any two results that `get_pay_resolver_id` may return for one
/// history, one set of keys and one snapshot agree in every observable
/// part.
pub proof fn lemma_pay_resolver_id_deterministic(
    m: CelerPayModule,
    at: Option<BlockNumber>,
    r1: Result<AccountId, QueryError>,
    r2: Result<AccountId, QueryError>,
)
    requires
        m.pay_resolver_id_post(at, r1),
        m.pay_resolver_id_post(at, r2),
    ensures
        r1 is Ok <==> r2 is Ok,
        r1 matches Ok(a) ==> (r2 matches Ok(b) && a == b),
        r1 matches Err(QueryError::SnapshotNotFound { requested: q1, head: h1 }) ==> (r2 matches
            Err(QueryError::SnapshotNotFound { requested: q2, head: h2 }) && q1 == q2 && h1 == h2),
        r1 matches Err(QueryError::Accessor(e1)) ==> (r2 matches Err(QueryError::Accessor(e2))
            && e1.code == e2.code && e1.message@ == e2.message@ && e1.diagnostic@
            == e2.diagnostic@),
{
}

/// Determinism: any two results that `get_transfer_out_map` may return for one
/// history, one set of keys and one snapshot agree in every observable
/// part.
pub proof fn lemma_transfer_out_map_deterministic(
    m: CelerPayModule,
    channel_id: HashValue,
    at: Option<BlockNumber>,
    r1: Result<Option<(Vec<AccountId>, Vec<Balance>)>, QueryError>,
    r2: Result<Option<(Vec<AccountId>, Vec<Balance>)>, QueryError>,
)
    requires
        m.transfer_out_map_post(channel_id, at, r1),
        m.transfer_out_map_post(channel_id, at, r2),
    ensures
        r1 is Ok <==> r2 is Ok,
        r1 matches Ok(o1) ==> (r2 matches Ok(o2) && (o1 is Some <==> o2 is Some)),
        r1 matches Ok(Some(t1)) ==> (r2 matches Ok(Some(t2)) && t1.0@ == t2.0@ && t1.1@
            == t2.1@),
        r1 matches Err(QueryError::SnapshotNotFound { requested: q1, head: h1 }) ==> (r2 matches
            Err(QueryError::SnapshotNotFound { requested: q2, head: h2 }) && q1 == q2 && h1 == h2),
        r1 matches Err(QueryError::Accessor(e1)) ==> (r2 matches Err(QueryError::Accessor(e2))
            && e1.code == e2.code && e1.message@ == e2.message@ && e1.diagnostic@
            == e2.diagnostic@),
{
}

/// Determinism: any two results that `get_next_pay_id_list_hash_map` may return for one
/// history, one set of keys and one snapshot agree in every observable
/// part.
pub proof fn lemma_next_pay_id_list_hash_map_deterministic(
    m: CelerPayModule,
    channel_id: HashValue,
    at: Option<BlockNumber>,
    r1: Result<Option<(Vec<AccountId>, Vec<HashValue>)>, QueryError>,
    r2: Result<Option<(Vec<AccountId>, Vec<HashValue>)>, QueryError>,
)
    requires
        m.next_pay_id_list_hash_map_post(channel_id, at, r1),
        m.next_pay_id_list_hash_map_post(channel_id, at, r2),
    ensures
        r1 is Ok <==> r2 is Ok,
        r1 matches Ok(o1) ==> (r2 matches Ok(o2) && (o1 is Some <==> o2 is Some)),
        r1 matches Ok(Some(t1)) ==> (r2 matches Ok(Some(t2)) && t1.0@ == t2.0@ && t1.1@
            == t2.1@),
        r1 matches Err(QueryError::SnapshotNotFound { requested: q1, head: h1 }) ==> (r2 matches
            Err(QueryError::SnapshotNotFound { requested: q2, head: h2 }) && q1 == q2 && h1 == h2),
        r1 matches Err(QueryError::Accessor(e1)) ==> (r2 matches Err(QueryError::Accessor(e2))
            && e1.code == e2.code && e1.message@ == e2.message@ && e1.diagnostic@
            == e2.diagnostic@),
{
}

/// Determinism: any two results that `get_last_pay_resolve_deadline_map` may return for one
/// history, one set of keys and one snapshot agree in every observable
/// part.
pub proof fn lemma_last_pay_resolve_deadline_map_deterministic(
    m: CelerPayModule,
    channel_id: HashValue,
    at: Option<BlockNumber>,
    r1: Result<Option<(Vec<AccountId>, Vec<BlockNumber>)>, QueryError>,
    r2: Result<Option<(Vec<AccountId>, Vec<BlockNumber>)>, QueryError>,
)
    requires
        m.last_pay_resolve_deadline_map_post(channel_id, at, r1),
        m.last_pay_resolve_deadline_map_post(channel_id, at, r2),
    ensures
        r1 is Ok <==> r2 is Ok,
        r1 matches Ok(o1) ==> (r2 matches Ok(o2) && (o1 is Some <==> o2 is Some)),
        r1 matches Ok(Some(t1)) ==> (r2 matches Ok(Some(t2)) && t1.0@ == t2.0@ && t1.1@
            == t2.1@),
        r1 matches Err(QueryError::SnapshotNotFound { requested: q1, head: h1 }) ==> (r2 matches
            Err(QueryError::SnapshotNotFound { requested: q2, head: h2 }) && q1 == q2 && h1 == h2),
        r1 matches Err(QueryError::Accessor(e1)) ==> (r2 matches Err(QueryError::Accessor(e2))
            && e1.code == e2.code && e1.message@ == e2.message@ && e1.diagnostic@
            == e2.diagnostic@),
{
}

/// Determinism: any two results that `get_pending_pay_out_map` may return for one
/// history, one set of keys and one snapshot agree in every observable
/// part.
pub proof fn lemma_pending_pay_out_map_deterministic(
    m: CelerPayModule,
    channel_id: HashValue,
    at: Option<BlockNumber>,
    r1: Result<Option<(Vec<AccountId>, Vec<Balance>)>, QueryError>,
    r2: Result<Option<(Vec<AccountId>, Vec<Balance>)>, QueryError>,
)
    requires
        m.pending_pay_out_map_post(channel_id, at, r1),
        m.pending_pay_out_map_post(channel_id, at, r2),
    ensures
        r1 is Ok <==> r2 is Ok,
        r1 matches Ok(o1) ==> (r2 matches Ok(o2) && (o1 is Some <==> o2 is Some)),
        r1 matches Ok(Some(t1)) ==> (r2 matches Ok(Some(t2)) && t1.0@ == t2.0@ && t1.1@
            == t2.1@),
        r1 matches Err(QueryError::SnapshotNotFound { requested: q1, head: h1 }) ==> (r2 matches
            Err(QueryError::SnapshotNotFound { requested: q2, head: h2 }) && q1 == q2 && h1 == h2),
        r1 matches Err(QueryError::Accessor(e1)) ==> (r2 matches Err(QueryError::Accessor(e2))
            && e1.code == e2.code && e1.message@ == e2.message@ && e1.diagnostic@
            == e2.diagnostic@),
{
}

/// Determinism: any two results that `get_wallet_owners` may return for one
/// history, one set of keys and one snapshot agree in every observable
/// part.
pub proof fn lemma_wallet_owners_deterministic(
    m: CelerPayModule,
    wallet_id: HashValue,
    at: Option<BlockNumber>,
    r1: Result<Option<Vec<AccountId>>, QueryError>,
    r2: Result<Option<Vec<AccountId>>, QueryError>,
)
    requires
        m.wallet_owners_post(wallet_id, at, r1),
        m.wallet_owners_post(wallet_id, at, r2),
    ensures
        r1 is Ok <==> r2 is Ok,
        r1 matches Ok(o1) ==> (r2 matches Ok(o2) && (o1 is Some <==> o2 is Some)),
        r1 matches Ok(Some(t1)) ==> (r2 matches Ok(Some(t2)) && t1@ == t2@),
        r1 matches Err(QueryError::SnapshotNotFound { requested: q1, head: h1 }) ==> (r2 matches
            Err(QueryError::SnapshotNotFound { requested: q2, head: h2 }) && q1 == q2 && h1 == h2),
        r1 matches Err(QueryError::Accessor(e1)) ==> (r2 matches Err(QueryError::Accessor(e2))
            && e1.code == e2.code && e1.message@ == e2.message@ && e1.diagnostic@
            == e2.diagnostic@),
{
}

/// Determinism: any two results that `get_peers_migration_info` may return for one
/// history, one set of keys and one snapshot agree in every observable
/// part.
pub proof fn lemma_peers_migration_info_deterministic(
    m: CelerPayModule,
    channel_id: HashValue,
    at: Option<BlockNumber>,
    r1: Result<Option<(Vec<AccountId>, Vec<Balance>, Vec<Balance>, Vec<u128>, Vec<Balance>, Vec<Balance>)>, QueryError>,
    r2: Result<Option<(Vec<AccountId>, Vec<Balance>, Vec<Balance>, Vec<u128>, Vec<Balance>, Vec<Balance>)>, QueryError>,
)
    requires
        m.peers_migration_info_post(channel_id, at, r1),
        m.peers_migration_info_post(channel_id, at, r2),
    ensures
        r1 is Ok <==> r2 is Ok,
        r1 matches Ok(o1) ==> (r2 matches Ok(o2) && (o1 is Some <==> o2 is Some)),
        r1 matches Ok(Some(t1)) ==> (r2 matches Ok(Some(t2)) && t1.0@ == t2.0@ && t1.1@
            == t2.1@ && t1.2@ == t2.2@ && t1.3@ == t2.3@ && t1.4@ == t2.4@ && t1.5@ == t2.5@),
        r1 matches Err(QueryError::SnapshotNotFound { requested: q1, head: h1 }) ==> (r2 matches
            Err(QueryError::SnapshotNotFound { requested: q2, head: h2 }) && q1 == q2 && h1 == h2),
        r1 matches Err(QueryError::Accessor(e1)) ==> (r2 matches Err(QueryError::Accessor(e2))
            && e1.code == e2.code && e1.message@ == e2.message@ && e1.diagnostic@
            == e2.diagnostic@),
{
}

/// Determinism: any two results that `get_balance_map` may return for one
/// history, one set of keys and one snapshot agree in every observable
/// part.
pub proof fn lemma_balance_map_deterministic(
    m: CelerPayModule,
    channel_id: HashValue,
    at: Option<BlockNumber>,
    r1: Result<(Vec<AccountId>, Vec<Balance>, Vec<Balance>), QueryError>,
    r2: Result<(Vec<AccountId>, Vec<Balance>, Vec<Balance>), QueryError>,
)
    requires
        m.balance_map_post(channel_id, at, r1),
        m.balance_map_post(channel_id, at, r2),
    ensures
        r1 is Ok <==> r2 is Ok,
        r1 matches Ok(t1) ==> (r2 matches Ok(t2) && t1.0@ == t2.0@ && t1.1@ == t2.1@ && t1.2@
            == t2.2@),
        r1 matches Err(QueryError::SnapshotNotFound { requested: q1, head: h1 }) ==> (r2 matches
            Err(QueryError::SnapshotNotFound { requested: q2, head: h2 }) && q1 == q2 && h1 == h2),
        r1 matches Err(QueryError::Accessor(e1)) ==> (r2 matches Err(QueryError::Accessor(e2))
            && e1.code == e2.code && e1.message@ == e2.message@ && e1.diagnostic@
            == e2.diagnostic@),
{
    if let Ok(t1v) = r1 {
        if let Ok(t2v) = r2 {
            assert(t1v.0@ =~= t2v.0@);
            assert(t1v.1@ =~= t2v.1@);
            assert(t1v.2@ =~= t2v.2@);
        }
    }
}


/// Absence, not emptiness: a channel that does not exist at the
/// resolved snapshot yields `None` for the whole keyed group of
/// `get_transfer_out_map`.
pub proof fn lemma_absent_channel_transfer_out_map(
    m: CelerPayModule,
    channel_id: HashValue,
    at: Option<BlockNumber>,
    r: Result<Option<(Vec<AccountId>, Vec<Balance>)>, QueryError>,
)
    requires
        m.wf(),
        m.transfer_out_map_post(channel_id, at, r),
        slot_at(m.chain, at) matches SlotView::Ready(v) && lookup(v.channels@, channel_id)
            is None,
    ensures
        r matches Ok(o) && o is None,
{
}

/// Absence, not emptiness: a channel that does not exist at the
/// resolved snapshot yields `None` for the whole keyed group of
/// `get_next_pay_id_list_hash_map`.
pub proof fn lemma_absent_channel_next_pay_id_list_hash_map(
    m: CelerPayModule,
    channel_id: HashValue,
    at: Option<BlockNumber>,
    r: Result<Option<(Vec<AccountId>, Vec<HashValue>)>, QueryError>,
)
    requires
        m.wf(),
        m.next_pay_id_list_hash_map_post(channel_id, at, r),
        slot_at(m.chain, at) matches SlotView::Ready(v) && lookup(v.channels@, channel_id)
            is None,
    ensures
        r matches Ok(o) && o is None,
{
}

/// Absence, not emptiness: a channel that does not exist at the
/// resolved snapshot yields `None` for the whole keyed group of
/// `get_last_pay_resolve_deadline_map`.
pub proof fn lemma_absent_channel_last_pay_resolve_deadline_map(
    m: CelerPayModule,
    channel_id: HashValue,
    at: Option<BlockNumber>,
    r: Result<Option<(Vec<AccountId>, Vec<BlockNumber>)>, QueryError>,
)
    requires
        m.wf(),
        m.last_pay_resolve_deadline_map_post(channel_id, at, r),
        slot_at(m.chain, at) matches SlotView::Ready(v) && lookup(v.channels@, channel_id)
            is None,
    ensures
        r matches Ok(o) && o is None,
{
}

/// Absence, not emptiness: a channel that does not exist at the
/// resolved snapshot yields `None` for the whole keyed group of
/// `get_pending_pay_out_map`.
pub proof fn lemma_absent_channel_pending_pay_out_map(
    m: CelerPayModule,
    channel_id: HashValue,
    at: Option<BlockNumber>,
    r: Result<Option<(Vec<AccountId>, Vec<Balance>)>, QueryError>,
)
    requires
        m.wf(),
        m.pending_pay_out_map_post(channel_id, at, r),
        slot_at(m.chain, at) matches SlotView::Ready(v) && lookup(v.channels@, channel_id)
            is None,
    ensures
        r matches Ok(o) && o is None,
{
}

/// Absence, not emptiness: a channel that does not exist at the
/// resolved snapshot yields `None` for the whole keyed group of
/// `get_peers_migration_info`.
pub proof fn lemma_absent_channel_peers_migration_info(
    m: CelerPayModule,
    channel_id: HashValue,
    at: Option<BlockNumber>,
    r: Result<Option<(Vec<AccountId>, Vec<Balance>, Vec<Balance>, Vec<u128>, Vec<Balance>, Vec<Balance>)>, QueryError>,
)
    requires
        m.wf(),
        m.peers_migration_info_post(channel_id, at, r),
        slot_at(m.chain, at) matches SlotView::Ready(v) && lookup(v.channels@, channel_id)
            is None,
    ensures
        r matches Ok(o) && o is None,
{
}

} // verus!
