use eth_payload_builder::builder::{
    apply_inclusion_list, default_ethereum_payload, execute_best_transactions, BuildAcc,
    EthereumPayloadBuilder, EvmEnv, IlOutcome, PackOutcome,
};
use eth_payload_builder::block::{Header, SealedHeader};
use eth_payload_builder::chain::ChainSpec;
use eth_payload_builder::config::EthereumBuilderConfig;
use eth_payload_builder::payload::{
    BuildArguments, BuildOutcome, CachedReads, CancelSignal, Client, EthPayloadBuilderAttributes,
    PayloadBuilderError, PayloadConfig,
};
use eth_payload_builder::pool::{
    BestTransactionsAttributes, InvalidPoolTransactionError, TransactionPool,
};
use eth_payload_builder::execute::BlockExecutionInput;
use eth_payload_builder::noop::{BlockExecutionError, NoopBlockExecutorProvider};
use eth_payload_builder::state::{AccountInfo, WorkingState};
use eth_payload_builder::tx::{SignedTx, Withdrawal, DATA_GAS_PER_BLOB, MAX_DATA_GAS_PER_BLOCK};

const BLOCK_GAS_LIMIT: u64 = 30_000_000;
const BASE_FEE: u64 = 7;
const TIP: u64 = 10;
const PARENT_HASH: u64 = 0xfeed;

fn mk_tx(sender: usize, nonce: u64, gas_limit: u64, gas_used: u64) -> SignedTx {
    SignedTx {
        hash: 1000 + sender as u64 * 100 + nonce,
        sender,
        to: 9,
        nonce,
        tx_type: 2,
        gas_limit,
        max_fee_per_gas: BASE_FEE + TIP,
        max_priority_fee_per_gas: TIP,
        blob_gas: 0,
        sidecar: 0,
        value: 0,
        gas_used,
        reverted: false,
        unsupported: false,
        db_fault: false,
        log_word: 0,
        deposit: None,
    }
}

fn mk_blob_tx(sender: usize, nonce: u64, blob_gas: u64, sidecar: u64) -> SignedTx {
    let mut t = mk_tx(sender, nonce, 100_000, 21_000);
    t.tx_type = 3;
    t.blob_gas = blob_gas;
    t.sidecar = sidecar;
    t
}

fn mk_state(accounts: Vec<AccountInfo>) -> WorkingState {
    WorkingState { accounts, beacon_root: None, history_parent_hash: None, el_requests: vec![] }
}

fn funded(nonce: u64) -> AccountInfo {
    AccountInfo { nonce, balance: 1_000_000_000_000_000 }
}

fn mk_acc(state: WorkingState) -> BuildAcc {
    BuildAcc {
        state,
        cumulative_gas_used: 0,
        sum_blob_gas_used: 0,
        total_fees: 0,
        receipts: vec![],
        executed_txs: vec![],
    }
}

fn pack(
    state: WorkingState,
    txs: Vec<SignedTx>,
) -> (PackOutcome, eth_payload_builder::pool::BestTransactionsIter) {
    let pool = TransactionPool::new(txs);
    let mut it = pool.best_transactions_with_attributes(BestTransactionsAttributes {
        base_fee: BASE_FEE,
        blob_gas_price: None,
    });
    let out = execute_best_transactions(mk_acc(state), &mut it, BLOCK_GAS_LIMIT, BASE_FEE, false);
    (out, it)
}

fn mk_parent() -> SealedHeader {
    SealedHeader {
        header: Header {
            parent_hash: 0,
            ommers_hash: 0,
            beneficiary: 0,
            state_root: 0,
            transactions_root: 0,
            receipts_root: 0,
            withdrawals_root: None,
            logs_bloom: 0,
            difficulty: 0,
            number: 100,
            gas_limit: BLOCK_GAS_LIMIT,
            gas_used: 15_000_000,
            timestamp: 900,
            extra_data: 0,
            mix_hash: 0,
            nonce: 0,
            base_fee_per_gas: Some(BASE_FEE),
            parent_beacon_block_root: None,
            blob_gas_used: Some(0),
            excess_blob_gas: Some(0),
            requests_hash: None,
        },
        hash: PARENT_HASH,
    }
}

fn all_forks() -> ChainSpec {
    ChainSpec { shanghai_time: Some(0), cancun_time: Some(0), prague_time: Some(0) }
}

fn mk_attributes(il: Option<Vec<Option<SignedTx>>>) -> EthPayloadBuilderAttributes {
    EthPayloadBuilderAttributes {
        id: 7,
        timestamp: 1000,
        suggested_fee_recipient: 5,
        prev_randao: 0xda0,
        parent_beacon_block_root: Some(0xbeac),
        withdrawals: vec![],
        il,
    }
}

fn mk_args(
    state: WorkingState,
    pool_txs: Vec<SignedTx>,
    il: Option<Vec<Option<SignedTx>>>,
    best_payload: Option<u128>,
) -> BuildArguments {
    BuildArguments {
        client: Client { chain_spec: all_forks(), state_hash: PARENT_HASH, state },
        pool: TransactionPool::new(pool_txs),
        cached_reads: CachedReads { generation: 0 },
        config: PayloadConfig { parent_header: mk_parent(), attributes: mk_attributes(il) },
        cancel: CancelSignal { cancelled: false },
        best_payload,
    }
}

fn build(args: BuildArguments) -> Result<BuildOutcome, PayloadBuilderError> {
    let builder = EthereumPayloadBuilder::new(EthereumBuilderConfig::new(0xe77a, BLOCK_GAS_LIMIT));
    builder.try_build(args)
}

#[test]
fn gas_packing_marks_overflowing_tx_invalid() {
    // block gas limit 30M; A takes 25M, B's 10M can no longer fit
    let a = mk_tx(1, 0, 25_000_000, 25_000_000);
    let b = mk_tx(2, 0, 10_000_000, 10_000_000);
    let st = mk_state(vec![funded(0), funded(0), funded(0)]);
    let (out, it) = pack(st, vec![a, b]);
    match out {
        PackOutcome::Done(acc) => {
            assert_eq!(acc.executed_txs, vec![a]);
            assert_eq!(acc.cumulative_gas_used, 25_000_000);
            assert_eq!(it.banned.len(), 1);
            assert_eq!(it.banned[0].sender, 2);
            assert_eq!(
                it.banned[0].reason,
                InvalidPoolTransactionError::ExceedsGasLimit {
                    tx_gas: 10_000_000,
                    block_gas: 30_000_000
                }
            );
        }
        _ => panic!("expected Done"),
    }
}

#[test]
fn exact_gas_fit_is_included_and_one_more_is_not() {
    let exact = mk_tx(1, 0, BLOCK_GAS_LIMIT, 21_000);
    let st = mk_state(vec![funded(0), funded(0)]);
    let (out, it) = pack(st, vec![exact]);
    match out {
        PackOutcome::Done(acc) => {
            assert_eq!(acc.executed_txs, vec![exact]);
            assert_eq!(it.banned.len(), 0);
        }
        _ => panic!("expected Done"),
    }
    let over = mk_tx(1, 0, BLOCK_GAS_LIMIT + 1, 21_000);
    let st2 = mk_state(vec![funded(0), funded(0)]);
    let (out2, it2) = pack(st2, vec![over]);
    match out2 {
        PackOutcome::Done(acc) => {
            assert!(acc.executed_txs.is_empty());
            assert_eq!(
                it2.banned[0].reason,
                InvalidPoolTransactionError::ExceedsGasLimit {
                    tx_gas: BLOCK_GAS_LIMIT + 1,
                    block_gas: BLOCK_GAS_LIMIT
                }
            );
        }
        _ => panic!("expected Done"),
    }
}

#[test]
fn nonce_too_low_skips_only_that_tx() {
    // A spends nonce 5, B repeats nonce 5 and is skipped without eviction,
    // C at nonce 6 still goes in
    let a = mk_tx(1, 5, 100_000, 21_000);
    let b = mk_tx(1, 5, 100_000, 30_000);
    let c = mk_tx(1, 6, 100_000, 22_000);
    let st = mk_state(vec![funded(0), funded(5)]);
    let (out, it) = pack(st, vec![a, b, c]);
    match out {
        PackOutcome::Done(acc) => {
            assert_eq!(acc.executed_txs, vec![a, c]);
            assert_eq!(it.banned.len(), 0);
            // receipts carry the strictly increasing prefix sums
            assert_eq!(acc.receipts.len(), 2);
            assert_eq!(acc.receipts[0].cumulative_gas_used, 21_000);
            assert_eq!(acc.receipts[1].cumulative_gas_used, 43_000);
            assert_eq!(acc.total_fees, (TIP as u128) * 43_000);
        }
        _ => panic!("expected Done"),
    }
}

#[test]
fn other_error_drops_sender_descendants() {
    let mut bad = mk_tx(1, 0, 100_000, 21_000);
    bad.unsupported = true;
    let next = mk_tx(1, 1, 100_000, 21_000);
    let st = mk_state(vec![funded(0), funded(0)]);
    let (out, it) = pack(st, vec![bad, next]);
    match out {
        PackOutcome::Done(acc) => {
            assert!(acc.executed_txs.is_empty());
            assert_eq!(it.banned.len(), 1);
            assert_eq!(
                it.banned[0].reason,
                InvalidPoolTransactionError::Consensus(
                    eth_payload_builder::pool::InvalidTransactionError::TxTypeNotSupported
                )
            );
        }
        _ => panic!("expected Done"),
    }
}

#[test]
fn blob_cap_exact_fit_triggers_skip_blobs() {
    // X reaches the blob cap exactly; Y is never considered afterwards
    let x = mk_blob_tx(1, 0, MAX_DATA_GAS_PER_BLOCK, 71);
    let y = mk_blob_tx(2, 0, DATA_GAS_PER_BLOB, 72);
    let st = mk_state(vec![funded(0), funded(0), funded(0)]);
    let (out, it) = pack(st, vec![x, y]);
    match out {
        PackOutcome::Done(acc) => {
            assert_eq!(acc.executed_txs, vec![x]);
            assert_eq!(acc.sum_blob_gas_used, MAX_DATA_GAS_PER_BLOCK);
            assert!(it.skip_blob_txs);
            assert_eq!(it.banned.len(), 0);
        }
        _ => panic!("expected Done"),
    }
}

#[test]
fn blob_cap_overflow_marks_invalid() {
    let x = mk_blob_tx(1, 0, MAX_DATA_GAS_PER_BLOCK - 1, 71);
    let y = mk_blob_tx(2, 0, 2, 72);
    let st = mk_state(vec![funded(0), funded(0), funded(0)]);
    let (out, it) = pack(st, vec![x, y]);
    match out {
        PackOutcome::Done(acc) => {
            assert_eq!(acc.executed_txs, vec![x]);
            assert!(!it.skip_blob_txs);
            assert_eq!(
                it.banned[0].reason,
                InvalidPoolTransactionError::ExceedsGasLimit {
                    tx_gas: 2,
                    block_gas: MAX_DATA_GAS_PER_BLOCK
                }
            );
        }
        _ => panic!("expected Done"),
    }
}

#[test]
fn cancelled_build_returns_cancelled() {
    let a = mk_tx(1, 0, 100_000, 21_000);
    let st = mk_state(vec![funded(0), funded(0)]);
    let mut args = mk_args(st, vec![a], None, None);
    args.cancel = CancelSignal { cancelled: true };
    match build(args) {
        Ok(BuildOutcome::Cancelled) => {}
        _ => panic!("expected Cancelled"),
    }
}

#[test]
fn il_restart_includes_unlocked_entry() {
    // T1 wants nonce 5 while the sender sits at 4; T2 spends nonce 4, so
    // the restart lets T1 in: inclusion order T2 then T1
    let t1 = mk_tx(1, 5, 100_000, 21_000);
    let t2 = mk_tx(1, 4, 100_000, 22_000);
    let st = mk_state(vec![funded(0), funded(4)]);
    let il = vec![Some(t1), Some(t2)];
    let out = apply_inclusion_list(mk_acc(st), &il, BLOCK_GAS_LIMIT, BASE_FEE);
    match out {
        IlOutcome::Done { acc, il_bitfield } => {
            assert_eq!(acc.executed_txs, vec![t2, t1]);
            assert_eq!(il_bitfield, vec![false, false]);
            assert_eq!(acc.receipts[0].cumulative_gas_used, 22_000);
            assert_eq!(acc.receipts[1].cumulative_gas_used, 43_000);
        }
        _ => panic!("expected Done"),
    }
}

#[test]
fn il_rejects_blob_tx_immediately() {
    let blob = mk_blob_tx(1, 0, DATA_GAS_PER_BLOB, 71);
    let st = mk_state(vec![funded(0), funded(0)]);
    let il = vec![Some(blob)];
    let out = apply_inclusion_list(mk_acc(st), &il, BLOCK_GAS_LIMIT, BASE_FEE);
    match out {
        IlOutcome::Done { acc, il_bitfield } => {
            assert!(acc.executed_txs.is_empty());
            assert_eq!(il_bitfield, vec![false]);
            assert_eq!(acc.sum_blob_gas_used, 0);
        }
        _ => panic!("expected Done"),
    }
}

#[test]
fn il_transient_entry_stays_set() {
    // an entry whose nonce stays out of reach remains set at the fixed point
    let stuck = mk_tx(1, 9, 100_000, 21_000);
    let st = mk_state(vec![funded(0), funded(4)]);
    let il = vec![Some(stuck)];
    let out = apply_inclusion_list(mk_acc(st), &il, BLOCK_GAS_LIMIT, BASE_FEE);
    match out {
        IlOutcome::Done { acc, il_bitfield } => {
            assert!(acc.executed_txs.is_empty());
            assert_eq!(il_bitfield, vec![true]);
        }
        _ => panic!("expected Done"),
    }
}

#[test]
fn il_second_pass_produces_no_change() {
    // after the pass terminates, running it again over the same list and
    // the state it left includes nothing further and clears no slot
    let t1 = mk_tx(1, 5, 100_000, 21_000);
    let t2 = mk_tx(1, 4, 100_000, 22_000);
    let stuck = mk_tx(2, 9, 100_000, 21_000);
    let st = mk_state(vec![funded(0), funded(4), funded(0)]);
    let il = vec![Some(t1), Some(t2), Some(stuck)];
    let first = apply_inclusion_list(mk_acc(st), &il, BLOCK_GAS_LIMIT, BASE_FEE);
    let (acc1, bf1) = match first {
        IlOutcome::Done { acc, il_bitfield } => (acc, il_bitfield),
        _ => panic!("expected Done"),
    };
    assert_eq!(acc1.executed_txs, vec![t2, t1]);
    assert_eq!(bf1, vec![false, false, true]);
    let executed_before = acc1.executed_txs.clone();
    let gas_before = acc1.cumulative_gas_used;
    let second = apply_inclusion_list(acc1, &il, BLOCK_GAS_LIMIT, BASE_FEE);
    match second {
        IlOutcome::Done { acc, il_bitfield } => {
            assert_eq!(acc.executed_txs, executed_before);
            assert_eq!(acc.cumulative_gas_used, gas_before);
            assert_eq!(il_bitfield, vec![false, false, true]);
        }
        _ => panic!("expected Done"),
    }
}

#[test]
fn revenue_gate_requires_strict_improvement() {
    let a = mk_tx(1, 0, 100_000, 21_000);
    let fees = (TIP as u128) * 21_000;
    let st = mk_state(vec![funded(0), funded(0)]);
    match build(mk_args(st, vec![a], None, Some(fees))) {
        Ok(BuildOutcome::Aborted { fees: f, .. }) => assert_eq!(f, fees),
        _ => panic!("expected Aborted"),
    }
    let st2 = mk_state(vec![funded(0), funded(0)]);
    match build(mk_args(st2, vec![a], None, Some(fees - 1))) {
        Ok(BuildOutcome::Better { payload, .. }) => assert_eq!(payload.fees, fees),
        _ => panic!("expected Better"),
    }
}

#[test]
fn built_block_carries_consensus_fields() {
    let a = mk_tx(1, 0, 100_000, 21_000);
    let blob = mk_blob_tx(2, 0, DATA_GAS_PER_BLOB, 71);
    let st = mk_state(vec![funded(0), funded(0), funded(0)]);
    match build(mk_args(st, vec![a, blob], None, None)) {
        Ok(BuildOutcome::Better { payload, .. }) => {
            let h = &payload.block.header;
            assert_eq!(h.parent_hash, PARENT_HASH);
            assert_eq!(h.number, 101);
            assert_eq!(h.gas_limit, BLOCK_GAS_LIMIT);
            assert_eq!(h.gas_used, 42_000);
            assert_eq!(h.timestamp, 1000);
            assert_eq!(h.beneficiary, 5);
            assert_eq!(h.mix_hash, 0xda0);
            assert_eq!(h.difficulty, 0);
            assert_eq!(h.extra_data, 0xe77a);
            assert_eq!(h.base_fee_per_gas, Some(BASE_FEE));
            assert_eq!(h.parent_beacon_block_root, Some(0xbeac));
            assert_eq!(h.blob_gas_used, Some(DATA_GAS_PER_BLOB));
            assert!(h.excess_blob_gas.is_some());
            assert!(h.withdrawals_root.is_some());
            assert!(h.requests_hash.is_some());
            assert!(h.gas_used <= h.gas_limit);
            assert_eq!(payload.block.body.transactions, vec![a, blob]);
            assert_eq!(payload.sidecars, vec![71]);
            assert_eq!(payload.id, 7);
        }
        _ => panic!("expected Better"),
    }
}

#[test]
fn same_inputs_build_the_same_block() {
    let a = mk_tx(1, 0, 100_000, 21_000);
    let run = |st: WorkingState| match build(mk_args(st, vec![a], None, None)) {
        Ok(BuildOutcome::Better { payload, .. }) => payload.block.hash,
        _ => panic!("expected Better"),
    };
    let h1 = run(mk_state(vec![funded(0), funded(0)]));
    let h2 = run(mk_state(vec![funded(0), funded(0)]));
    assert_eq!(h1, h2);
}

#[test]
fn empty_mempool_builds_like_il_of_nones() {
    let h1 = match build(mk_args(mk_state(vec![funded(0)]), vec![], None, None)) {
        Ok(BuildOutcome::Better { payload, .. }) => payload.block.hash,
        _ => panic!("expected Better"),
    };
    let h2 = match build(mk_args(mk_state(vec![funded(0)]), vec![], Some(vec![None, None]), None)) {
        Ok(BuildOutcome::Better { payload, .. }) => payload.block.hash,
        _ => panic!("expected Better"),
    };
    assert_eq!(h1, h2);
}

#[test]
fn provider_error_on_unknown_parent() {
    let mut args = mk_args(mk_state(vec![funded(0)]), vec![], None, None);
    args.client.state_hash = PARENT_HASH + 1;
    match build(args) {
        Err(PayloadBuilderError::Provider) => {}
        _ => panic!("expected Provider error"),
    }
}

#[test]
fn environment_error_without_parent_base_fee() {
    let mut args = mk_args(mk_state(vec![funded(0)]), vec![], None, None);
    args.config.parent_header.header.base_fee_per_gas = None;
    match build(args) {
        Err(PayloadBuilderError::Other) => {}
        _ => panic!("expected Other error"),
    }
}

#[test]
fn db_fault_is_fatal() {
    let mut bad = mk_tx(1, 0, 100_000, 21_000);
    bad.db_fault = true;
    let st = mk_state(vec![funded(0), funded(0)]);
    match build(mk_args(st, vec![bad], None, None)) {
        Err(PayloadBuilderError::EvmExecutionError) => {}
        _ => panic!("expected EvmExecutionError"),
    }
}

#[test]
fn withdrawal_overflow_is_internal_error() {
    let mut args = mk_args(mk_state(vec![funded(0)]), vec![], None, None);
    args.client.state.accounts[0].balance = u128::MAX;
    args.config.attributes.withdrawals =
        vec![Withdrawal { index: 0, validator_index: 0, address: 0, amount_gwei: 1 }];
    match build(args) {
        Err(PayloadBuilderError::Internal) => {}
        _ => panic!("expected Internal error"),
    }
}

#[test]
fn withdrawals_credit_recipients() {
    let mut args = mk_args(mk_state(vec![funded(0)]), vec![], None, None);
    args.config.attributes.withdrawals =
        vec![Withdrawal { index: 0, validator_index: 3, address: 0, amount_gwei: 2 }];
    match build(args) {
        Ok(BuildOutcome::Better { payload, .. }) => {
            assert_eq!(payload.block.body.withdrawals.as_ref().map(|w| w.len()), Some(1));
        }
        _ => panic!("expected Better"),
    }
}

#[test]
fn prague_requests_carry_deposits_then_queued_requests() {
    let mut dep = mk_tx(1, 0, 100_000, 21_000);
    dep.deposit = Some(0xdd);
    let mut st = mk_state(vec![funded(0), funded(0)]);
    st.el_requests = vec![eth_payload_builder::tx::Request { request_type: 1, payload: 0xaa }];
    match build(mk_args(st, vec![dep], None, None)) {
        Ok(BuildOutcome::Better { payload, .. }) => {
            let rs = payload.requests.expect("prague requests");
            assert_eq!(rs.len(), 2);
            assert_eq!(rs[0].request_type, 0);
            assert_eq!(rs[0].payload, 0xdd);
            assert_eq!(rs[1].request_type, 1);
            assert_eq!(rs[1].payload, 0xaa);
        }
        _ => panic!("expected Better"),
    }
}

#[test]
fn empty_payload_path_still_applies_il() {
    let t = mk_tx(1, 0, 100_000, 21_000);
    let builder = EthereumPayloadBuilder::new(EthereumBuilderConfig::new(0, BLOCK_GAS_LIMIT));
    let client = Client {
        chain_spec: all_forks(),
        state_hash: PARENT_HASH,
        state: mk_state(vec![funded(0), funded(0)]),
    };
    let config =
        PayloadConfig { parent_header: mk_parent(), attributes: mk_attributes(Some(vec![Some(t)])) };
    let payload = builder.build_empty_payload(client, config).expect("payload");
    assert_eq!(payload.block.body.transactions, vec![t]);
}

#[test]
fn pre_cancun_block_has_no_blob_fields() {
    let a = mk_tx(1, 0, 100_000, 21_000);
    let mut args = mk_args(mk_state(vec![funded(0), funded(0)]), vec![a], None, None);
    args.client.chain_spec =
        ChainSpec { shanghai_time: Some(0), cancun_time: None, prague_time: None };
    match build(args) {
        Ok(BuildOutcome::Better { payload, .. }) => {
            assert_eq!(payload.block.header.blob_gas_used, None);
            assert_eq!(payload.block.header.excess_blob_gas, None);
            assert_eq!(payload.block.header.requests_hash, None);
            assert!(payload.requests.is_none());
        }
        _ => panic!("expected Better"),
    }
}

#[test]
fn default_payload_matches_try_build() {
    let a = mk_tx(1, 0, 100_000, 21_000);
    let st = mk_state(vec![funded(0), funded(0)]);
    let args = mk_args(st, vec![a], None, None);
    let env = EvmEnv {
        number: 101,
        timestamp: 1000,
        gas_limit: BLOCK_GAS_LIMIT,
        base_fee: BASE_FEE,
        blob_gas_price: Some(1),
        beneficiary: 5,
        prev_randao: 0xda0,
    };
    let cfg = EthereumBuilderConfig::new(0xe77a, BLOCK_GAS_LIMIT);
    let h1 = match default_ethereum_payload(&cfg, args, env) {
        Ok(BuildOutcome::Better { payload, .. }) => payload.block.hash,
        _ => panic!("expected Better"),
    };
    let st2 = mk_state(vec![funded(0), funded(0)]);
    let h2 = match build(mk_args(st2, vec![a], None, None)) {
        Ok(BuildOutcome::Better { payload, .. }) => payload.block.hash,
        _ => panic!("expected Better"),
    };
    assert_eq!(h1, h2);
}

#[test]
fn il_blob_tx_leaves_no_sidecar_in_block() {
    let blob = mk_blob_tx(1, 0, DATA_GAS_PER_BLOB, 71);
    let st = mk_state(vec![funded(0), funded(0)]);
    match build(mk_args(st, vec![], Some(vec![Some(blob)]), None)) {
        Ok(BuildOutcome::Better { payload, .. }) => {
            assert!(payload.block.body.transactions.is_empty());
            assert!(payload.sidecars.is_empty());
            assert_eq!(payload.block.header.blob_gas_used, Some(0));
        }
        _ => panic!("expected Better"),
    }
}

#[test]
fn aborted_outcome_carries_no_payload() {
    let a = mk_tx(1, 0, 100_000, 21_000);
    let fees = (TIP as u128) * 21_000;
    let st = mk_state(vec![funded(0), funded(0)]);
    let outcome = build(mk_args(st, vec![a], None, Some(fees))).expect("outcome");
    assert!(outcome.into_payload().is_none());
}

#[test]
fn noop_executor_refuses_blocks() {
    let provider = NoopBlockExecutorProvider {};
    let mut exec = provider.executor();
    assert_eq!(exec.size_hint(), 0);
    let st = mk_state(vec![]);
    match build(mk_args(st, vec![], None, None)) {
        Ok(BuildOutcome::Better { payload, .. }) => {
            let input = BlockExecutionInput::new(&payload.block, vec![]);
            match exec.execute_one(input) {
                Err(BlockExecutionError::UnavailableForNoop) => {}
                _ => panic!("noop executor must refuse"),
            }
        }
        _ => panic!("expected Better"),
    }
}
