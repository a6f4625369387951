//! Error normalization.
//!
//! Every failure of the underlying state machine's versioned accessor is
//! converted into one fixed envelope: a single reserved application error
//! code, a fixed per-operation human message, and a diagnostic rendering
//! of the underlying failure. Callers must not branch on the message text
//! for correctness; the envelope exists for logging and diagnostics.
//!
//! A snapshot that cannot be resolved is reported before any accessor
//! work as a distinct resolution error.

use vstd::prelude::*;
use crate::ids::BlockNumber;

verus! {

/// The single reserved application error code shared by every operation.
/// Distinct from transport-level or malformed-request codes.
pub const APP_ERROR_CODE: i64 = 9876;

/// A failure raised by the versioned state accessor while serving a query.
///
/// The gateway never inspects a failure beyond rendering it; the variants
/// cover the causes the accessor can report.
#[derive(Clone, Copy, Debug, PartialEq, Eq, Structural)]
pub enum AccessorFailure {
    /// The runtime at the resolved snapshot does not support the query api.
    UnsupportedAtSnapshot,
    /// The query api exists at the resolved snapshot but under an
    /// incompatible version.
    VersionMismatch,
    /// The accessor failed internally while executing the query.
    InternalFault,
}

/// Names one logical query of the gateway; used to select the fixed
/// per-operation message of the error envelope.
#[derive(Clone, Copy, Debug, PartialEq, Eq, Structural)]
pub enum QueryOp {
    CelerLedgerId,
    SettleFinalizedTime,
    ChannelStatus,
    CooperativeWithdrawSeqNum,
    BalanceMap,
    StateSeqNumMap,
    TransferOutMap,
    NextPayIdListHashMap,
    LastPayResolveDeadlineMap,
    PendingPayOutMap,
    WithdrawIntent,
    ChannelStatusNum,
    BalanceLimit,
    BalanceLimitsEnabled,
    PeersMigrationInfo,
    CelerWalletId,
    WalletOwners,
    WalletBalance,
    PoolId,
    PoolBalance,
    Allowance,
    PayResolverId,
    CalculatePayId,
}

/// The uniform error envelope returned for every accessor failure.
#[derive(Clone, Debug, PartialEq, Eq)]
pub struct ErrorEnvelope {
    /// Always [`APP_ERROR_CODE`].
    pub code: i64,
    /// The fixed human message of the failing operation.
    pub message: String,
    /// A rendering of the underlying accessor failure, opaque to callers.
    pub diagnostic: String,
}

/// An error returned by a query operation: either the supplied snapshot
/// identifier is not retained, or the accessor failed and its failure was
/// normalized into the fixed envelope.
#[derive(Clone, Debug, PartialEq, Eq)]
pub enum QueryError {
    /// The supplied snapshot identifier does not correspond to any
    /// retained snapshot; the operation was not attempted.
    SnapshotNotFound { requested: BlockNumber, head: BlockNumber },
    /// The accessor failed; the failure is reported as the fixed envelope.
    Accessor(ErrorEnvelope),
}

/// The fixed human message of each operation.
pub open spec fn message_of(op: QueryOp) -> Seq<char> {
    match op {
        QueryOp::CelerLedgerId => "Can't get celer ledger id"@,
        QueryOp::SettleFinalizedTime => "Can't get settle finalized time"@,
        QueryOp::ChannelStatus => "Can't get channel status"@,
        QueryOp::CooperativeWithdrawSeqNum => "Can't get cooperative withdraw sequence number"@,
        QueryOp::BalanceMap => "Can't get balance map"@,
        QueryOp::StateSeqNumMap => "Can't get state sequence number map"@,
        QueryOp::TransferOutMap => "Can't get transfer out map"@,
        QueryOp::NextPayIdListHashMap => "Can't get next pay id list hash map"@,
        QueryOp::LastPayResolveDeadlineMap => "Can't get last pay resolve deadline map"@,
        QueryOp::PendingPayOutMap => "Can't get pending pay out map"@,
        QueryOp::WithdrawIntent => "Can't get withdraw intent"@,
        QueryOp::ChannelStatusNum => "Can't get channel status num"@,
        QueryOp::BalanceLimit => "Can't get balance limit"@,
        QueryOp::BalanceLimitsEnabled => "Can't get balance limits enabled"@,
        QueryOp::PeersMigrationInfo => "Can't get peers migration info"@,
        QueryOp::CelerWalletId => "Can't get celer wallet id"@,
        QueryOp::WalletOwners => "Can't get wallet owners"@,
        QueryOp::WalletBalance => "Can't get wallet balance"@,
        QueryOp::PoolId => "Can't get pool id"@,
        QueryOp::PoolBalance => "Can't get pool balance"@,
        QueryOp::Allowance => "Can't get allowed balance of spender"@,
        QueryOp::PayResolverId => "Can't get pay resolver id"@,
        QueryOp::CalculatePayId => "Can't calculate pay id"@,
    }
}

/// The diagnostic rendering of each accessor failure.
pub open spec fn diagnostic_of(f: AccessorFailure) -> Seq<char> {
    match f {
        AccessorFailure::UnsupportedAtSnapshot => "runtime api not supported at the resolved snapshot"@,
        AccessorFailure::VersionMismatch => "runtime api version mismatch at the resolved snapshot"@,
        AccessorFailure::InternalFault => "internal accessor fault"@,
    }
}

/// Holds exactly when `env` is the envelope that normalizing failure `f`
/// of operation `op` must produce.
pub open spec fn is_normalized(env: ErrorEnvelope, op: QueryOp, f: AccessorFailure) -> bool {
    &&& env.code == APP_ERROR_CODE
    &&& env.message@ == message_of(op)
    &&& env.diagnostic@ == diagnostic_of(f)
}

/// Every operation's fixed message is non-empty.
pub proof fn lemma_message_nonempty(op: QueryOp)
    ensures
        message_of(op).len() > 0,
{
    match op {
        QueryOp::CelerLedgerId => reveal_strlit("Can't get celer ledger id"),
        QueryOp::SettleFinalizedTime => reveal_strlit("Can't get settle finalized time"),
        QueryOp::ChannelStatus => reveal_strlit("Can't get channel status"),
        QueryOp::CooperativeWithdrawSeqNum => reveal_strlit("Can't get cooperative withdraw sequence number"),
        QueryOp::BalanceMap => reveal_strlit("Can't get balance map"),
        QueryOp::StateSeqNumMap => reveal_strlit("Can't get state sequence number map"),
        QueryOp::TransferOutMap => reveal_strlit("Can't get transfer out map"),
        QueryOp::NextPayIdListHashMap => reveal_strlit("Can't get next pay id list hash map"),
        QueryOp::LastPayResolveDeadlineMap => reveal_strlit("Can't get last pay resolve deadline map"),
        QueryOp::PendingPayOutMap => reveal_strlit("Can't get pending pay out map"),
        QueryOp::WithdrawIntent => reveal_strlit("Can't get withdraw intent"),
        QueryOp::ChannelStatusNum => reveal_strlit("Can't get channel status num"),
        QueryOp::BalanceLimit => reveal_strlit("Can't get balance limit"),
        QueryOp::BalanceLimitsEnabled => reveal_strlit("Can't get balance limits enabled"),
        QueryOp::PeersMigrationInfo => reveal_strlit("Can't get peers migration info"),
        QueryOp::CelerWalletId => reveal_strlit("Can't get celer wallet id"),
        QueryOp::WalletOwners => reveal_strlit("Can't get wallet owners"),
        QueryOp::WalletBalance => reveal_strlit("Can't get wallet balance"),
        QueryOp::PoolId => reveal_strlit("Can't get pool id"),
        QueryOp::PoolBalance => reveal_strlit("Can't get pool balance"),
        QueryOp::Allowance => reveal_strlit("Can't get allowed balance of spender"),
        QueryOp::PayResolverId => reveal_strlit("Can't get pay resolver id"),
        QueryOp::CalculatePayId => reveal_strlit("Can't calculate pay id"),
    }
}

/// Every accessor failure's diagnostic rendering is non-empty.
pub proof fn lemma_diagnostic_nonempty(f: AccessorFailure)
    ensures
        diagnostic_of(f).len() > 0,
{
    match f {
        AccessorFailure::UnsupportedAtSnapshot => reveal_strlit(
            "runtime api not supported at the resolved snapshot",
        ),
        AccessorFailure::VersionMismatch => reveal_strlit(
            "runtime api version mismatch at the resolved snapshot",
        ),
        AccessorFailure::InternalFault => reveal_strlit("internal accessor fault"),
    }
}

impl QueryOp {
    /// The fixed human message of this operation.
    pub fn message(&self) -> (r: String)
        ensures
            r@ == message_of(*self),
    {
        match self {
            QueryOp::CelerLedgerId => "Can't get celer ledger id".to_owned(),
            QueryOp::SettleFinalizedTime => "Can't get settle finalized time".to_owned(),
            QueryOp::ChannelStatus => "Can't get channel status".to_owned(),
            QueryOp::CooperativeWithdrawSeqNum => "Can't get cooperative withdraw sequence number".to_owned(),
            QueryOp::BalanceMap => "Can't get balance map".to_owned(),
            QueryOp::StateSeqNumMap => "Can't get state sequence number map".to_owned(),
            QueryOp::TransferOutMap => "Can't get transfer out map".to_owned(),
            QueryOp::NextPayIdListHashMap => "Can't get next pay id list hash map".to_owned(),
            QueryOp::LastPayResolveDeadlineMap => "Can't get last pay resolve deadline map".to_owned(),
            QueryOp::PendingPayOutMap => "Can't get pending pay out map".to_owned(),
            QueryOp::WithdrawIntent => "Can't get withdraw intent".to_owned(),
            QueryOp::ChannelStatusNum => "Can't get channel status num".to_owned(),
            QueryOp::BalanceLimit => "Can't get balance limit".to_owned(),
            QueryOp::BalanceLimitsEnabled => "Can't get balance limits enabled".to_owned(),
            QueryOp::PeersMigrationInfo => "Can't get peers migration info".to_owned(),
            QueryOp::CelerWalletId => "Can't get celer wallet id".to_owned(),
            QueryOp::WalletOwners => "Can't get wallet owners".to_owned(),
            QueryOp::WalletBalance => "Can't get wallet balance".to_owned(),
            QueryOp::PoolId => "Can't get pool id".to_owned(),
            QueryOp::PoolBalance => "Can't get pool balance".to_owned(),
            QueryOp::Allowance => "Can't get allowed balance of spender".to_owned(),
            QueryOp::PayResolverId => "Can't get pay resolver id".to_owned(),
            QueryOp::CalculatePayId => "Can't calculate pay id".to_owned(),
        }
    }
}

impl AccessorFailure {
    /// The diagnostic rendering of this failure.
    pub fn render(&self) -> (r: String)
        ensures
            r@ == diagnostic_of(*self),
    {
        match self {
            AccessorFailure::UnsupportedAtSnapshot => "runtime api not supported at the resolved snapshot".to_owned(),
            AccessorFailure::VersionMismatch => "runtime api version mismatch at the resolved snapshot".to_owned(),
            AccessorFailure::InternalFault => "internal accessor fault".to_owned(),
        }
    }
}

/// Converts an accessor failure of operation `op` into the uniform
/// envelope: the reserved code, the operation's fixed message, and a
/// non-empty diagnostic rendering of the failure.
pub fn normalize(op: QueryOp, failure: &AccessorFailure) -> (env: ErrorEnvelope)
    ensures
        is_normalized(env, op, *failure),
        env.message@.len() > 0,
        env.diagnostic@.len() > 0,
{
    proof {
        lemma_message_nonempty(op);
        lemma_diagnostic_nonempty(*failure);
    }
    ErrorEnvelope { code: APP_ERROR_CODE, message: op.message(), diagnostic: failure.render() }
}

} // verus!
