use celer_pay_rpc::AccessorFailure;
use celer_pay_rpc::AccountId;
use celer_pay_rpc::CelerPayModule;
use celer_pay_rpc::HashValue;
use celer_pay_rpc::QueryError;
use celer_pay_rpc::SnapshotSlot;
use celer_pay_rpc::StateChain;
use celer_pay_rpc::StateView;
use celer_pay_rpc::APP_ERROR_CODE;
use celer_pay_rpc::snapshot::resolve_snapshot;

fn empty_view() -> StateView {
    StateView {
        ledger_id: AccountId(1),
        wallet_id: AccountId(2),
        pool_id: AccountId(3),
        pay_resolver_id: AccountId(4),
        channels: vec![],
        wallets: vec![],
        pool_balances: vec![],
        allowances: vec![],
        status_nums: vec![],
    }
}

fn faulted_gateway(f: AccessorFailure) -> CelerPayModule {
    CelerPayModule::new(StateChain {
        slots: vec![SnapshotSlot::Ready(empty_view()), SnapshotSlot::Faulted(f)],
    })
}

fn expect_envelope(r: Result<(Vec<AccountId>, Vec<u128>, Vec<u128>), QueryError>) -> (i64, String, String) {
    match r {
        Err(QueryError::Accessor(env)) => (env.code, env.message, env.diagnostic),
        other => panic!("expected an accessor envelope, got {:?}", other),
    }
}

#[test]
fn accessor_failure_surfaces_fixed_envelope() {
    let failures = vec![
        AccessorFailure::UnsupportedAtSnapshot,
        AccessorFailure::VersionMismatch,
        AccessorFailure::InternalFault,
    ];
    for f in failures {
        let m = faulted_gateway(f);
        let (code, message, diagnostic) = expect_envelope(m.get_balance_map(HashValue(1), None));
        assert_eq!(code, APP_ERROR_CODE);
        assert_eq!(code, 9876);
        assert_eq!(message, "Can't get balance map");
        assert!(!message.is_empty());
        assert!(!diagnostic.is_empty());
    }
}

#[test]
fn diagnostic_renders_the_underlying_failure() {
    let m = faulted_gateway(AccessorFailure::InternalFault);
    let (_, _, diagnostic) = expect_envelope(m.get_balance_map(HashValue(1), None));
    assert_eq!(diagnostic, "internal accessor fault");

    let m = faulted_gateway(AccessorFailure::UnsupportedAtSnapshot);
    let (_, _, diagnostic) = expect_envelope(m.get_balance_map(HashValue(1), None));
    assert_eq!(diagnostic, "runtime api not supported at the resolved snapshot");

    let m = faulted_gateway(AccessorFailure::VersionMismatch);
    let (_, _, diagnostic) = expect_envelope(m.get_balance_map(HashValue(1), None));
    assert_eq!(diagnostic, "runtime api version mismatch at the resolved snapshot");
}

#[test]
fn envelope_message_is_per_operation() {
    let m = faulted_gateway(AccessorFailure::InternalFault);
    match m.get_celer_ledger_id(None) {
        Err(QueryError::Accessor(env)) => assert_eq!(env.message, "Can't get celer ledger id"),
        other => panic!("expected an accessor envelope, got {:?}", other),
    }
    match m.get_wallet_balance(HashValue(5), None) {
        Err(QueryError::Accessor(env)) => assert_eq!(env.message, "Can't get wallet balance"),
        other => panic!("expected an accessor envelope, got {:?}", other),
    }
    match m.calculate_pay_id(HashValue(9), None) {
        Err(QueryError::Accessor(env)) => assert_eq!(env.message, "Can't calculate pay id"),
        other => panic!("expected an accessor envelope, got {:?}", other),
    }
    match m.get_allowance(AccountId(1), AccountId(2), None) {
        Err(QueryError::Accessor(env)) => {
            assert_eq!(env.message, "Can't get allowed balance of spender")
        }
        other => panic!("expected an accessor envelope, got {:?}", other),
    }
}

#[test]
fn resolution_error_reports_requested_and_head() {
    let m = faulted_gateway(AccessorFailure::InternalFault);
    assert_eq!(
        m.get_celer_ledger_id(Some(5)),
        Err(QueryError::SnapshotNotFound { requested: 5, head: 1 })
    );
}

#[test]
fn resolve_snapshot_defaults_to_head() {
    assert_eq!(resolve_snapshot(None, 5), Ok(5));
    assert_eq!(resolve_snapshot(Some(3), 5), Ok(3));
    assert_eq!(resolve_snapshot(Some(5), 5), Ok(5));
    assert_eq!(
        resolve_snapshot(Some(6), 5),
        Err(QueryError::SnapshotNotFound { requested: 6, head: 5 })
    );
}

#[test]
fn faulted_historic_snapshot_leaves_head_usable() {
    let m = CelerPayModule::new(StateChain {
        slots: vec![
            SnapshotSlot::Faulted(AccessorFailure::UnsupportedAtSnapshot),
            SnapshotSlot::Ready(empty_view()),
        ],
    });
    assert_eq!(m.get_celer_ledger_id(None), Ok(AccountId(1)));
    match m.get_celer_ledger_id(Some(0)) {
        Err(QueryError::Accessor(env)) => {
            assert_eq!(env.code, APP_ERROR_CODE);
            assert!(!env.diagnostic.is_empty());
        }
        other => panic!("expected an accessor envelope, got {:?}", other),
    }
}
