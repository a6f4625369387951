use celer_pay_rpc::AccountId;
use celer_pay_rpc::CelerPayModule;
use celer_pay_rpc::ChannelState;
use celer_pay_rpc::HashValue;
use celer_pay_rpc::PeerState;
use celer_pay_rpc::QueryError;
use celer_pay_rpc::SnapshotSlot;
use celer_pay_rpc::StateChain;
use celer_pay_rpc::StateView;
use celer_pay_rpc::WalletState;
use celer_pay_rpc::WithdrawIntent;
use celer_pay_rpc::CHANNEL_STATUS_UNINITIALIZED;

fn peer(
    account: u64,
    deposit: u128,
    withdrawal: u128,
    seq: u128,
    transfer_out: u128,
    hash: u64,
    deadline: u64,
    pending: u128,
) -> PeerState {
    PeerState {
        account: AccountId(account),
        deposit,
        withdrawal,
        state_seq_num: seq,
        transfer_out,
        next_pay_id_list_hash: HashValue(hash),
        last_pay_resolve_deadline: deadline,
        pending_pay_out: pending,
    }
}

fn older_view() -> StateView {
    StateView {
        ledger_id: AccountId(1),
        wallet_id: AccountId(2),
        pool_id: AccountId(3),
        pay_resolver_id: AccountId(4),
        channels: vec![],
        wallets: vec![],
        pool_balances: vec![(AccountId(11), 700)],
        allowances: vec![],
        status_nums: vec![(0, 0), (1, 0), (2, 0), (3, 0)],
    }
}

fn head_view() -> StateView {
    StateView {
        ledger_id: AccountId(101),
        wallet_id: AccountId(102),
        pool_id: AccountId(103),
        pay_resolver_id: AccountId(104),
        channels: vec![
            (
                HashValue(1),
                ChannelState {
                    status: 1,
                    settle_finalized_time: Some(90),
                    cooperative_withdraw_seq_num: 7,
                    peers: vec![
                        peer(11, 100, 10, 5, 20, 71, 300, 40),
                        peer(12, 200, 0, 6, 30, 72, 400, 50),
                    ],
                    withdraw_intent: Some(WithdrawIntent {
                        receiver: AccountId(11),
                        amount: 25,
                        deadline: 500,
                        seq_num_hash: HashValue(77),
                    }),
                    balance_limit: 1000,
                    balance_limits_enabled: true,
                },
            ),
            (
                HashValue(2),
                ChannelState {
                    status: 2,
                    settle_finalized_time: None,
                    cooperative_withdraw_seq_num: 0,
                    peers: vec![],
                    withdraw_intent: None,
                    balance_limit: 0,
                    balance_limits_enabled: false,
                },
            ),
        ],
        wallets: vec![
            (
                HashValue(5),
                WalletState { owners: vec![AccountId(11), AccountId(12)], balance: 555 },
            ),
        ],
        pool_balances: vec![(AccountId(11), 1000), (AccountId(12), 2000)],
        allowances: vec![((AccountId(11), AccountId(12)), 300)],
        status_nums: vec![(0, 0), (1, 1), (2, 1), (3, 0)],
    }
}

fn gateway() -> CelerPayModule {
    CelerPayModule::new(StateChain {
        slots: vec![SnapshotSlot::Ready(older_view()), SnapshotSlot::Ready(head_view())],
    })
}

#[test]
fn never_created_channel_status_is_uninitialized() {
    let m = gateway();
    assert_eq!(m.get_channel_status(HashValue(999), None), Ok(CHANNEL_STATUS_UNINITIALIZED));
    assert_eq!(m.get_channel_status(HashValue(999), None), Ok(0));
}

#[test]
fn existing_channel_status_is_reported() {
    let m = gateway();
    assert_eq!(m.get_channel_status(HashValue(1), None), Ok(1));
    assert_eq!(m.get_channel_status(HashValue(2), None), Ok(2));
}

#[test]
fn balance_map_two_participants_is_aligned() {
    let m = gateway();
    let (accounts, deposits, withdrawals) = m.get_balance_map(HashValue(1), None).unwrap();
    assert_eq!(accounts.len(), 2);
    assert_eq!(deposits.len(), 2);
    assert_eq!(withdrawals.len(), 2);
    assert_eq!(accounts, vec![AccountId(11), AccountId(12)]);
    assert_eq!(deposits, vec![100, 200]);
    assert_eq!(withdrawals, vec![10, 0]);
}

#[test]
fn balance_map_of_absent_channel_is_empty() {
    let m = gateway();
    let (accounts, deposits, withdrawals) = m.get_balance_map(HashValue(999), None).unwrap();
    assert!(accounts.is_empty());
    assert!(deposits.is_empty());
    assert!(withdrawals.is_empty());
}

#[test]
fn snapshot_past_head_is_not_found() {
    let m = gateway();
    assert_eq!(
        m.get_channel_status(HashValue(1), Some(2)),
        Err(QueryError::SnapshotNotFound { requested: 2, head: 1 })
    );
    assert_eq!(
        m.get_balance_map(HashValue(1), Some(7)),
        Err(QueryError::SnapshotNotFound { requested: 7, head: 1 })
    );
}

#[test]
fn calculate_pay_id_is_pure_and_stable() {
    let m = gateway();
    let first = m.calculate_pay_id(HashValue(0b1100), None);
    let second = m.calculate_pay_id(HashValue(0b1100), None);
    assert_eq!(first, second);
    assert_eq!(first, Ok(HashValue(0b1100 ^ 104)));
}

#[test]
fn default_snapshot_equals_head_identifier() {
    let m = gateway();
    assert_eq!(m.get_celer_ledger_id(None), m.get_celer_ledger_id(Some(1)));
    assert_eq!(
        m.get_channel_status(HashValue(1), None),
        m.get_channel_status(HashValue(1), Some(1))
    );
    assert_eq!(
        m.get_state_seq_num_map(HashValue(1), None),
        m.get_state_seq_num_map(HashValue(1), Some(1))
    );
    assert_eq!(
        m.calculate_pay_id(HashValue(42), None),
        m.calculate_pay_id(HashValue(42), Some(1))
    );
}

#[test]
fn repeated_calls_return_same_result() {
    let m = gateway();
    assert_eq!(
        m.get_state_seq_num_map(HashValue(1), Some(1)),
        m.get_state_seq_num_map(HashValue(1), Some(1))
    );
    assert_eq!(
        m.get_peers_migration_info(HashValue(1), None),
        m.get_peers_migration_info(HashValue(1), None)
    );
}

#[test]
fn absent_channel_yields_none_group() {
    let m = gateway();
    assert_eq!(m.get_state_seq_num_map(HashValue(999), None), Ok(None));
    assert_eq!(m.get_transfer_out_map(HashValue(999), None), Ok(None));
    assert_eq!(m.get_next_pay_id_list_hash_map(HashValue(999), None), Ok(None));
    assert_eq!(m.get_last_pay_resolve_deadline_map(HashValue(999), None), Ok(None));
    assert_eq!(m.get_pending_pay_out_map(HashValue(999), None), Ok(None));
    assert_eq!(m.get_peers_migration_info(HashValue(999), None), Ok(None));
}

#[test]
fn empty_channel_yields_present_empty_group() {
    let m = gateway();
    assert_eq!(m.get_state_seq_num_map(HashValue(2), None), Ok(Some((vec![], vec![]))));
    assert_eq!(m.get_transfer_out_map(HashValue(2), None), Ok(Some((vec![], vec![]))));
}

#[test]
fn state_seq_num_map_values() {
    let m = gateway();
    assert_eq!(
        m.get_state_seq_num_map(HashValue(1), None),
        Ok(Some((vec![AccountId(11), AccountId(12)], vec![5, 6])))
    );
}

#[test]
fn transfer_out_map_values() {
    let m = gateway();
    assert_eq!(
        m.get_transfer_out_map(HashValue(1), None),
        Ok(Some((vec![AccountId(11), AccountId(12)], vec![20, 30])))
    );
}

#[test]
fn next_pay_id_list_hash_map_values() {
    let m = gateway();
    assert_eq!(
        m.get_next_pay_id_list_hash_map(HashValue(1), None),
        Ok(Some((vec![AccountId(11), AccountId(12)], vec![HashValue(71), HashValue(72)])))
    );
}

#[test]
fn last_pay_resolve_deadline_map_values() {
    let m = gateway();
    assert_eq!(
        m.get_last_pay_resolve_deadline_map(HashValue(1), None),
        Ok(Some((vec![AccountId(11), AccountId(12)], vec![300, 400])))
    );
}

#[test]
fn pending_pay_out_map_values() {
    let m = gateway();
    assert_eq!(
        m.get_pending_pay_out_map(HashValue(1), None),
        Ok(Some((vec![AccountId(11), AccountId(12)], vec![40, 50])))
    );
}

#[test]
fn migration_info_six_sequences_aligned() {
    let m = gateway();
    let (accounts, deposits, withdrawals, seq_nums, transfer_outs, pending) =
        m.get_peers_migration_info(HashValue(1), None).unwrap().unwrap();
    assert_eq!(accounts.len(), 2);
    assert_eq!(deposits.len(), 2);
    assert_eq!(withdrawals.len(), 2);
    assert_eq!(seq_nums.len(), 2);
    assert_eq!(transfer_outs.len(), 2);
    assert_eq!(pending.len(), 2);
    assert_eq!(accounts, vec![AccountId(11), AccountId(12)]);
    assert_eq!(deposits, vec![100, 200]);
    assert_eq!(withdrawals, vec![10, 0]);
    assert_eq!(seq_nums, vec![5, 6]);
    assert_eq!(transfer_outs, vec![20, 30]);
    assert_eq!(pending, vec![40, 50]);
}

#[test]
fn withdraw_intent_present_and_absent() {
    let m = gateway();
    assert_eq!(
        m.get_withdraw_intent(HashValue(1), None),
        Ok(Some((AccountId(11), 25, 500, HashValue(77))))
    );
    assert_eq!(m.get_withdraw_intent(HashValue(2), None), Ok(None));
    assert_eq!(m.get_withdraw_intent(HashValue(999), None), Ok(None));
}

#[test]
fn settle_finalized_time_present_and_absent() {
    let m = gateway();
    assert_eq!(m.get_settle_finalized_time(HashValue(1), None), Ok(Some(90)));
    assert_eq!(m.get_settle_finalized_time(HashValue(2), None), Ok(None));
    assert_eq!(m.get_settle_finalized_time(HashValue(999), None), Ok(None));
}

#[test]
fn cooperative_withdraw_seq_num_present_and_absent() {
    let m = gateway();
    assert_eq!(m.get_cooperative_withdraw_seq_num(HashValue(1), None), Ok(Some(7)));
    assert_eq!(m.get_cooperative_withdraw_seq_num(HashValue(999), None), Ok(None));
}

#[test]
fn balance_limit_and_enabled_flag() {
    let m = gateway();
    assert_eq!(m.get_balance_limit(HashValue(1), None), Ok(Some(1000)));
    assert_eq!(m.get_balance_limits_enabled(HashValue(1), None), Ok(Some(true)));
    assert_eq!(m.get_balance_limit(HashValue(999), None), Ok(None));
    assert_eq!(m.get_balance_limits_enabled(HashValue(999), None), Ok(None));
}

#[test]
fn channel_status_num_lookup() {
    let m = gateway();
    assert_eq!(m.get_channel_status_num(1, None), Ok(Some(1)));
    assert_eq!(m.get_channel_status_num(3, None), Ok(Some(0)));
    assert_eq!(m.get_channel_status_num(9, None), Ok(None));
}

#[test]
fn wallet_owners_and_balance() {
    let m = gateway();
    assert_eq!(
        m.get_wallet_owners(HashValue(5), None),
        Ok(Some(vec![AccountId(11), AccountId(12)]))
    );
    assert_eq!(m.get_wallet_balance(HashValue(5), None), Ok(Some(555)));
    assert_eq!(m.get_wallet_owners(HashValue(999), None), Ok(None));
    assert_eq!(m.get_wallet_balance(HashValue(999), None), Ok(None));
}

#[test]
fn pool_balance_and_allowance() {
    let m = gateway();
    assert_eq!(m.get_pool_balance(AccountId(11), None), Ok(Some(1000)));
    assert_eq!(m.get_pool_balance(AccountId(999), None), Ok(None));
    assert_eq!(m.get_allowance(AccountId(11), AccountId(12), None), Ok(Some(300)));
    assert_eq!(m.get_allowance(AccountId(12), AccountId(11), None), Ok(None));
}

#[test]
fn system_account_ids_at_head() {
    let m = gateway();
    assert_eq!(m.get_celer_ledger_id(None), Ok(AccountId(101)));
    assert_eq!(m.get_celer_wallet_id(None), Ok(AccountId(102)));
    assert_eq!(m.get_pool_id(None), Ok(AccountId(103)));
    assert_eq!(m.get_pay_resolver_id(None), Ok(AccountId(104)));
}

#[test]
fn historic_snapshot_returns_old_view() {
    let m = gateway();
    assert_eq!(m.get_celer_ledger_id(Some(0)), Ok(AccountId(1)));
    assert_eq!(m.get_pool_balance(AccountId(11), Some(0)), Ok(Some(700)));
    assert_eq!(m.get_channel_status(HashValue(1), Some(0)), Ok(0));
    assert_eq!(m.calculate_pay_id(HashValue(0b1100), Some(0)), Ok(HashValue(0b1100 ^ 4)));
}
