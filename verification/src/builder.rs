//! The build loop: mempool packing under gas and blob budgets, the
//! inclusion-list fixed-point pass, the revenue gate and finalization.

use vstd::prelude::*;
use crate::tx::SignedTx;
use crate::tx::Receipt;
use crate::tx::Request;
use crate::tx::MAX_DATA_GAS_PER_BLOCK;
use crate::tx::DEPOSIT_REQUEST_TYPE;
use crate::tx::EMPTY_OMMER_ROOT_HASH;
use crate::tx::BEACON_NONCE;
use crate::block::Header;
use crate::block::SealedHeader;
use crate::block::SealedBlock;
use crate::block::BlockBody;
use crate::block::spec_transactions_root;
use crate::block::spec_receipts_root;
use crate::block::spec_logs_bloom;
use crate::block::spec_withdrawals_root;
use crate::block::spec_requests_hash;
use crate::block::spec_state_root;
use crate::block::spec_header_digest;
use crate::block::calculate_transaction_root;
use crate::block::calculate_receipt_root;
use crate::block::calculate_logs_bloom;
use crate::block::calculate_withdrawals_root;
use crate::block::calculate_requests_hash;
use crate::block::calculate_state_root;
use crate::block::seal_header;
use crate::chain::ChainSpec;
use crate::chain::spec_next_base_fee;
use crate::chain::next_base_fee;
use crate::chain::spec_next_excess_blob_gas;
use crate::chain::next_excess_blob_gas;
use crate::chain::spec_blob_gasprice;
use crate::chain::calc_blob_gasprice;
use crate::config::EthereumBuilderConfig;
use crate::payload::AttributesView;
use crate::payload::BuildArguments;
use crate::payload::BuildOutcome;
use crate::payload::BuildOutcomeView;
use crate::payload::BuiltPayloadView;
use crate::payload::CachedReads;
use crate::payload::Client;
use crate::payload::EthBuiltPayload;
use crate::payload::EthPayloadBuilderAttributes;
use crate::payload::PayloadBuilderError;
use crate::payload::PayloadConfig;
use crate::payload::spec_is_better_payload;
use crate::payload::is_better_payload;
use crate::pool::BestTransactionsAttributes;
use crate::pool::TransactionPool;
use crate::pool::spec_blobs_exact;
use crate::state::copy_vec;
use crate::state::spec_beacon_root_call;
use crate::state::spec_blockhashes_call;
use crate::state::spec_credit_withdrawals;
use crate::state::pre_block_beacon_root_call;
use crate::state::pre_block_blockhashes_call;
use crate::state::apply_post_execution_changes;
use crate::state::commit_withdrawals;
use crate::pool::BanEntry;
use crate::pool::BestTransactionsIter;
use crate::pool::InvalidPoolTransactionError;
use crate::pool::InvalidTransactionError;
use crate::pool::spec_skipped;
use crate::pool::spec_first_live;
use crate::state::WorkingState;
use crate::state::StateView;
use crate::state::InvalidTransaction;
use crate::state::SpecTransact;
use crate::state::TransactResult;
use crate::state::spec_transact;
use crate::state::transact;

verus! {

/// Mathematical view of the build accumulator.
pub struct BuildAccView {
    /// The working state.
    pub state: StateView,
    /// Gas the included transactions consumed.
    pub cumulative_gas_used: int,
    /// Blob data gas the included blob transactions consumed.
    pub sum_blob_gas_used: int,
    /// Miner fees collected.
    pub total_fees: int,
    /// One receipt per included transaction, in order.
    pub receipts: Seq<Receipt>,
    /// Included transactions, in order.
    pub executed_txs: Seq<SignedTx>,
}

/// What a build attempt accumulates while it includes transactions.
pub struct BuildAcc {
    /// The working state.
    pub state: WorkingState,
    /// Gas the included transactions consumed.
    pub cumulative_gas_used: u64,
    /// Blob data gas the included blob transactions consumed.
    pub sum_blob_gas_used: u64,
    /// Miner fees collected.
    pub total_fees: u128,
    /// One receipt per included transaction, in order.
    pub receipts: Vec<Receipt>,
    /// Included transactions, in order.
    pub executed_txs: Vec<SignedTx>,
}

impl View for BuildAcc {
    type V = BuildAccView;

    open spec fn view(&self) -> BuildAccView {
        BuildAccView {
            state: self.state@,
            cumulative_gas_used: self.cumulative_gas_used as int,
            sum_blob_gas_used: self.sum_blob_gas_used as int,
            total_fees: self.total_fees as int,
            receipts: self.receipts@,
            executed_txs: self.executed_txs@,
        }
    }
}

/// The arithmetic bounds the packing and inclusion-list loops keep: gas
/// within the block limit, blob gas within the cap, and fees bounded by the
/// largest tip times the gas spent, so that no accumulator overflows.
pub open spec fn spec_acc_bounded(acc: BuildAccView, block_gas_limit: u64) -> bool {
    &&& 0 <= acc.cumulative_gas_used <= block_gas_limit
    &&& 0 <= acc.sum_blob_gas_used <= MAX_DATA_GAS_PER_BLOCK
    &&& 0 <= acc.total_fees <= 0xffffffffffffffff * acc.cumulative_gas_used
}

/// The accumulator after one transaction commits: state advanced, gas and
/// blob gas counted, the receipt appended, fees credited, the transaction
/// recorded.
pub open spec fn spec_acc_step(acc: BuildAccView, tx: SignedTx, post: StateView, gas_used: u64, success: bool, base_fee: u64) -> BuildAccView {
    let tip = tx.spec_effective_tip_per_gas(base_fee)->Some_0;
    BuildAccView {
        state: post,
        cumulative_gas_used: acc.cumulative_gas_used + gas_used,
        sum_blob_gas_used: acc.sum_blob_gas_used + tx.blob_gas,
        total_fees: acc.total_fees + tip * gas_used,
        receipts: acc.receipts.push(Receipt {
            tx_type: tx.tx_type,
            success,
            cumulative_gas_used: (acc.cumulative_gas_used + gas_used) as u64,
            log_word: if success { tx.log_word } else { 0u64 },
            deposit: if success { tx.deposit } else { Option::None },
        }),
        executed_txs: acc.executed_txs.push(tx),
    }
}

/// What the packing loop leaves behind.
pub enum PackOutcomeView {
    /// The iterator was exhausted.
    Done {
        /// The accumulator.
        acc: BuildAccView,
        /// Evictions the loop recorded.
        banned: Seq<BanEntry>,
        /// Whether blob transactions were shut off.
        skip_blob_txs: bool,
    },
    /// Cancellation was observed.
    Cancelled,
    /// The EVM failed below the transaction level.
    Fatal,
}

/// The packing loop from position `i`: each yielded transaction is checked
/// against cancellation, the gas budget and the blob budget, then executed;
/// refusals that never change evict the sender's descendants.
pub open spec fn spec_pack(acc: BuildAccView, txs: Seq<SignedTx>, i: int, banned: Seq<BanEntry>, skip_blob_txs: bool, block_gas_limit: u64, base_fee: u64, cancelled: bool) -> PackOutcomeView
    decreases txs.len() - i,
    when 0 <= i <= txs.len()
{
    if i == txs.len() {
        PackOutcomeView::Done { acc, banned, skip_blob_txs }
    } else {
        let tx = txs[i];
        if spec_skipped(banned, skip_blob_txs, tx) {
            spec_pack(acc, txs, i + 1, banned, skip_blob_txs, block_gas_limit, base_fee, cancelled)
        } else if cancelled {
            PackOutcomeView::Cancelled
        } else if acc.cumulative_gas_used + tx.gas_limit > block_gas_limit {
            let entry = BanEntry {
                sender: tx.sender,
                nonce: tx.nonce,
                hash: tx.hash,
                reason: InvalidPoolTransactionError::ExceedsGasLimit { tx_gas: tx.gas_limit, block_gas: block_gas_limit },
            };
            spec_pack(acc, txs, i + 1, banned.push(entry), skip_blob_txs, block_gas_limit, base_fee, cancelled)
        } else if tx.spec_is_eip4844() && acc.sum_blob_gas_used + tx.blob_gas > MAX_DATA_GAS_PER_BLOCK {
            let entry = BanEntry {
                sender: tx.sender,
                nonce: tx.nonce,
                hash: tx.hash,
                reason: InvalidPoolTransactionError::ExceedsGasLimit { tx_gas: tx.blob_gas, block_gas: MAX_DATA_GAS_PER_BLOCK },
            };
            spec_pack(acc, txs, i + 1, banned.push(entry), skip_blob_txs, block_gas_limit, base_fee, cancelled)
        } else {
            match spec_transact(acc.state, tx, base_fee) {
                SpecTransact::Fatal => PackOutcomeView::Fatal,
                SpecTransact::Invalid(e) => {
                    if e is NonceTooLow {
                        spec_pack(acc, txs, i + 1, banned, skip_blob_txs, block_gas_limit, base_fee, cancelled)
                    } else {
                        let entry = BanEntry {
                            sender: tx.sender,
                            nonce: tx.nonce,
                            hash: tx.hash,
                            reason: InvalidPoolTransactionError::Consensus(InvalidTransactionError::TxTypeNotSupported),
                        };
                        spec_pack(acc, txs, i + 1, banned.push(entry), skip_blob_txs, block_gas_limit, base_fee, cancelled)
                    }
                },
                SpecTransact::Executed { post, gas_used, success } => {
                    let acc2 = spec_acc_step(acc, tx, post, gas_used, success, base_fee);
                    let skip2 = skip_blob_txs
                        || (tx.spec_is_eip4844() && acc2.sum_blob_gas_used == MAX_DATA_GAS_PER_BLOCK);
                    spec_pack(acc2, txs, i + 1, banned, skip2, block_gas_limit, base_fee, cancelled)
                },
            }
        }
    }
}

/// Skipped positions do not change the packing result: the loop's state is
/// the same at a position and at the first live position after it.
proof fn lemma_pack_skip_to_live(acc: BuildAccView, txs: Seq<SignedTx>, i: int, banned: Seq<BanEntry>, skip_blob_txs: bool, block_gas_limit: u64, base_fee: u64, cancelled: bool)
    requires
        0 <= i <= txs.len(),
    ensures
        ({
            let j = spec_first_live(txs, i, banned, skip_blob_txs);
            &&& i <= j <= txs.len()
            &&& (j < txs.len() ==> !spec_skipped(banned, skip_blob_txs, txs[j]))
            &&& spec_pack(acc, txs, i, banned, skip_blob_txs, block_gas_limit, base_fee, cancelled)
                == spec_pack(acc, txs, j, banned, skip_blob_txs, block_gas_limit, base_fee, cancelled)
        }),
    decreases txs.len() - i,
{
    if i < txs.len() && spec_skipped(banned, skip_blob_txs, txs[i]) {
        lemma_pack_skip_to_live(acc, txs, i + 1, banned, skip_blob_txs, block_gas_limit, base_fee, cancelled);
    }
}

/// What the packing loop returns.
pub enum PackOutcome {
    /// The iterator was exhausted; the accumulator carries the block so far.
    Done(BuildAcc),
    /// Cancellation was observed.
    Cancelled,
    /// The EVM failed below the transaction level.
    Fatal,
}

/// Packs mempool transactions into the block: consumes the best-transactions
/// iterator under the gas and blob budgets, committing successes and
/// evicting what can never fit or never execute.
pub fn execute_best_transactions(acc: BuildAcc, best: &mut BestTransactionsIter, block_gas_limit: u64, base_fee: u64, cancelled: bool) -> (r: PackOutcome)
    requires
        old(best)@.pos <= old(best)@.txs.len(),
        forall|k: int| 0 <= k < old(best)@.txs.len() ==> (#[trigger] old(best)@.txs[k]).wf(),
        spec_acc_bounded(acc@, block_gas_limit),
    ensures
        ({
            let result = spec_pack(acc@, old(best)@.txs, old(best)@.pos, old(best)@.banned, old(best)@.skip_blob_txs, block_gas_limit, base_fee, cancelled);
            match result {
                PackOutcomeView::Done { acc: acc2, banned: banned2, skip_blob_txs: skip2 } => {
                    &&& r is Done
                    &&& r->Done_0@ == acc2
                    &&& spec_acc_bounded(acc2, block_gas_limit)
                    &&& final(best)@.txs == old(best)@.txs
                    &&& final(best)@.banned == banned2
                    &&& final(best)@.skip_blob_txs == skip2
                    &&& final(best)@.pos == old(best)@.txs.len()
                },
                PackOutcomeView::Cancelled => r is Cancelled,
                PackOutcomeView::Fatal => r is Fatal,
            }
        }),
{
    let ghost txs = best@.txs;
    let ghost pos0 = best@.pos;
    let ghost banned0 = best@.banned;
    let ghost skip0 = best@.skip_blob_txs;
    let ghost acc0 = acc@;
    let mut acc = acc;
    #[verifier::loop_isolation(false)]
    loop
        invariant
            best@.txs == txs,
            best@.pos <= txs.len(),
            spec_acc_bounded(acc@, block_gas_limit),
            spec_pack(acc@, txs, best@.pos, best@.banned, best@.skip_blob_txs, block_gas_limit, base_fee, cancelled)
                == spec_pack(acc0, txs, pos0, banned0, skip0, block_gas_limit, base_fee, cancelled),
        decreases txs.len() - best@.pos,
    {
        proof {
            lemma_pack_skip_to_live(acc@, txs, best@.pos, best@.banned, best@.skip_blob_txs, block_gas_limit, base_fee, cancelled);
        }
        let next_tx = best.next();
        if next_tx.is_none() {
            return PackOutcome::Done(acc);
        }
        let tx = next_tx.unwrap();
        proof {
            assert(tx.wf());
        }
        if cancelled {
            return PackOutcome::Cancelled;
        }
        if acc.cumulative_gas_used as u128 + tx.gas_limit as u128 > block_gas_limit as u128 {
            best.mark_invalid(&tx, InvalidPoolTransactionError::ExceedsGasLimit { tx_gas: tx.gas_limit, block_gas: block_gas_limit });
            continue;
        }
        if tx.is_eip4844() && acc.sum_blob_gas_used as u128 + tx.blob_gas as u128 > MAX_DATA_GAS_PER_BLOCK as u128 {
            best.mark_invalid(&tx, InvalidPoolTransactionError::ExceedsGasLimit { tx_gas: tx.blob_gas, block_gas: MAX_DATA_GAS_PER_BLOCK });
            continue;
        }
        let ghost acc_pre = acc@;
        let exec_result = transact(&mut acc.state, &tx, base_fee);
        match exec_result {
            TransactResult::Fatal => {
                return PackOutcome::Fatal;
            },
            TransactResult::Invalid(e) => {
                if !matches!(e, InvalidTransaction::NonceTooLow) {
                    best.mark_invalid(&tx, InvalidPoolTransactionError::Consensus(InvalidTransactionError::TxTypeNotSupported));
                }
            },
            TransactResult::Executed { gas_used, success } => {
                acc.sum_blob_gas_used = acc.sum_blob_gas_used + tx.blob_gas;
                if tx.is_eip4844() && acc.sum_blob_gas_used == MAX_DATA_GAS_PER_BLOCK {
                    best.skip_blobs();
                }
                acc.cumulative_gas_used = acc.cumulative_gas_used + gas_used;
                acc.receipts.push(Receipt {
                    tx_type: tx.tx_type,
                    success,
                    cumulative_gas_used: acc.cumulative_gas_used,
                    log_word: if success { tx.log_word } else { 0 },
                    deposit: if success { tx.deposit } else { Option::None },
                });
                let tip = match tx.effective_tip_per_gas(base_fee) {
                    Option::Some(t) => t,
                    Option::None => 0,
                };
                proof {
                    lemma_fee_step_bounded(acc_pre.total_fees, acc_pre.cumulative_gas_used, tip as int, gas_used as int, block_gas_limit as int);
                    crate::chain::lemma_u64_product_fits(tip, gas_used);
                }
                acc.total_fees = acc.total_fees + tip as u128 * gas_used as u128;
                acc.executed_txs.push(tx);
                proof {
                    assert(acc@ == spec_acc_step(acc_pre, tx, acc.state@, gas_used, success, base_fee));
                }
            },
        }
    }
}

/// How many slots of the inclusion list still want work.
pub open spec fn spec_count_true(bf: Seq<bool>) -> nat
    decreases bf.len(),
{
    if bf.len() == 0 {
        0nat
    } else {
        (if bf[0] { 1nat } else { 0nat }) + spec_count_true(bf.skip(1))
    }
}

/// Clearing a set slot strictly lowers the count of set slots.
pub proof fn lemma_count_true_update(bf: Seq<bool>, i: int)
    requires
        0 <= i < bf.len(),
        bf[i],
    ensures
        spec_count_true(bf.update(i, false)) < spec_count_true(bf),
    decreases i,
{
    if i == 0 {
        assert(bf.update(0, false).skip(1) =~= bf.skip(1));
    } else {
        lemma_count_true_update(bf.skip(1), i - 1);
        assert(bf.update(i, false).skip(1) =~= bf.skip(1).update(i - 1, false));
    }
}

/// The bitfield the inclusion-list pass starts from: a slot is set iff it
/// decoded to a transaction.
pub open spec fn spec_init_bitfield(il: Seq<Option<SignedTx>>) -> Seq<bool> {
    Seq::new(il.len(), |j: int| il[j] is Some)
}

/// Whether a refusal is transient: the slot stays set and is retried.
pub open spec fn spec_transient_refusal(s: StateView, tx: SignedTx, base_fee: u64) -> bool {
    match spec_transact(s, tx, base_fee) {
        SpecTransact::Invalid(e) => e.spec_is_transient(),
        _ => false,
    }
}

/// What the inclusion-list pass leaves behind.
pub enum IlOutcomeView {
    /// The pass reached its fixed point.
    Done {
        /// The accumulator.
        acc: BuildAccView,
        /// Which slots still want work: exactly the transient ones.
        il_bitfield: Seq<bool>,
    },
    /// The EVM failed below the transaction level.
    Fatal,
}

/// The inclusion-list pass from slot `i`: a set slot is cleared when its
/// transaction is a blob transaction, cannot fit the remaining gas, fails
/// for an unchanging reason, or commits; a commit restarts the pass at the
/// first slot, since it may have unlocked an earlier transient entry.
pub open spec fn spec_apply_il(acc: BuildAccView, il: Seq<Option<SignedTx>>, bf: Seq<bool>, i: int, block_gas_limit: u64, base_fee: u64) -> IlOutcomeView
    decreases spec_count_true(bf), il.len() - i,
    when 0 <= i <= il.len() && bf.len() == il.len()
{
    if i == il.len() {
        IlOutcomeView::Done { acc, il_bitfield: bf }
    } else if !bf[i] {
        spec_apply_il(acc, il, bf, i + 1, block_gas_limit, base_fee)
    } else if il[i] is None {
        proof {
            lemma_count_true_update(bf, i);
        }
        spec_apply_il(acc, il, bf.update(i, false), i + 1, block_gas_limit, base_fee)
    } else {
        let tx = il[i]->Some_0;
        if tx.spec_is_eip4844() {
            proof {
                lemma_count_true_update(bf, i);
            }
            spec_apply_il(acc, il, bf.update(i, false), i + 1, block_gas_limit, base_fee)
        } else if acc.cumulative_gas_used + tx.gas_limit > block_gas_limit {
            proof {
                lemma_count_true_update(bf, i);
            }
            spec_apply_il(acc, il, bf.update(i, false), i + 1, block_gas_limit, base_fee)
        } else {
            match spec_transact(acc.state, tx, base_fee) {
                SpecTransact::Fatal => IlOutcomeView::Fatal,
                SpecTransact::Invalid(e) => {
                    if e.spec_is_transient() {
                        spec_apply_il(acc, il, bf, i + 1, block_gas_limit, base_fee)
                    } else {
                        proof {
                            lemma_count_true_update(bf, i);
                        }
                        spec_apply_il(acc, il, bf.update(i, false), i + 1, block_gas_limit, base_fee)
                    }
                },
                SpecTransact::Executed { post, gas_used, success } => {
                    let acc2 = spec_acc_step(acc, tx, post, gas_used, success, base_fee);
                    proof {
                        lemma_count_true_update(bf, i);
                    }
                    spec_apply_il(acc2, il, bf.update(i, false), 0, block_gas_limit, base_fee)
                },
            }
        }
    }
}

/// What the inclusion-list pass returns.
pub enum IlOutcome {
    /// The pass reached its fixed point.
    Done {
        /// The accumulator.
        acc: BuildAcc,
        /// Which slots still want work: exactly the transient ones.
        il_bitfield: Vec<bool>,
    },
    /// The EVM failed below the transaction level.
    Fatal,
}

/// Runs the inclusion-list pass to its fixed point. On termination every
/// slot still set holds a transaction the final state refuses transiently:
/// no entry that was set at the start remains both unincluded and
/// executable.
pub fn apply_inclusion_list(acc: BuildAcc, il: &Vec<Option<SignedTx>>, block_gas_limit: u64, base_fee: u64) -> (r: IlOutcome)
    requires
        forall|k: int| 0 <= k < il@.len() && il@[k] is Some ==> ((#[trigger] il@[k])->Some_0).wf(),
        spec_acc_bounded(acc@, block_gas_limit),
    ensures
        ({
            let result = spec_apply_il(acc@, il@, spec_init_bitfield(il@), 0, block_gas_limit, base_fee);
            match result {
                IlOutcomeView::Done { acc: acc2, il_bitfield: bf2 } => {
                    &&& r is Done
                    &&& r->Done_acc@ == acc2
                    &&& r->Done_il_bitfield@ == bf2
                    &&& spec_acc_bounded(acc2, block_gas_limit)
                    &&& forall|j: int| 0 <= j < bf2.len() && bf2[j] ==>
                        (#[trigger] il@[j]) is Some
                            && !(il@[j]->Some_0).spec_is_eip4844()
                            && acc2.cumulative_gas_used + (il@[j]->Some_0).gas_limit <= block_gas_limit
                            && spec_transient_refusal(acc2.state, il@[j]->Some_0, base_fee)
                },
                IlOutcomeView::Fatal => r is Fatal,
            }
        }),
{
    let n = il.len();
    let mut bf: Vec<bool> = Vec::new();
    let mut k: usize = 0;
    #[verifier::loop_isolation(false)]
    while k < n
        invariant
            k <= n,
            bf@.len() == k,
            forall|j: int| 0 <= j < k ==> bf@[j] == (il@[j] is Some),
        decreases n - k,
    {
        bf.push(il[k].is_some());
        k = k + 1;
    }
    proof {
        assert(bf@ =~= spec_init_bitfield(il@));
    }
    let ghost acc0 = acc@;
    let ghost bf0 = bf@;
    let mut acc = acc;
    let mut i: usize = 0;
    #[verifier::loop_isolation(false)]
    while i < n
        invariant
            i <= n,
            bf@.len() == n,
            spec_acc_bounded(acc@, block_gas_limit),
            forall|j: int| 0 <= j < n && bf@[j] ==> (#[trigger] il@[j]) is Some,
            forall|j: int| 0 <= j < i && bf@[j] ==>
                !((#[trigger] il@[j])->Some_0).spec_is_eip4844()
                    && acc@.cumulative_gas_used + (il@[j]->Some_0).gas_limit <= block_gas_limit
                    && spec_transient_refusal(acc@.state, il@[j]->Some_0, base_fee),
            spec_apply_il(acc@, il@, bf@, i as int, block_gas_limit, base_fee)
                == spec_apply_il(acc0, il@, bf0, 0, block_gas_limit, base_fee),
        decreases spec_count_true(bf@), n - i,
    {
        if !bf[i] {
            i = i + 1;
            continue;
        }
        let slot = il[i];
        let tx = match slot {
            Option::Some(t) => t,
            // a set slot always holds a decoded transaction
            Option::None => vstd::pervasive::unreached(),
        };
        if tx.is_eip4844() {
            proof {
                lemma_count_true_update(bf@, i as int);
            }
            bf.set(i, false);
            i = i + 1;
            continue;
        }
        if acc.cumulative_gas_used as u128 + tx.gas_limit as u128 > block_gas_limit as u128 {
            proof {
                lemma_count_true_update(bf@, i as int);
            }
            bf.set(i, false);
            i = i + 1;
            continue;
        }
        let ghost acc_pre = acc@;
        let exec_result = transact(&mut acc.state, &tx, base_fee);
        match exec_result {
            TransactResult::Fatal => {
                return IlOutcome::Fatal;
            },
            TransactResult::Invalid(e) => {
                if e.is_transient() {
                    i = i + 1;
                } else {
                    proof {
                        lemma_count_true_update(bf@, i as int);
                    }
                    bf.set(i, false);
                    i = i + 1;
                }
            },
            TransactResult::Executed { gas_used, success } => {
                acc.sum_blob_gas_used = acc.sum_blob_gas_used + tx.blob_gas;
                acc.cumulative_gas_used = acc.cumulative_gas_used + gas_used;
                acc.receipts.push(Receipt {
                    tx_type: tx.tx_type,
                    success,
                    cumulative_gas_used: acc.cumulative_gas_used,
                    log_word: if success { tx.log_word } else { 0 },
                    deposit: if success { tx.deposit } else { Option::None },
                });
                let tip = match tx.effective_tip_per_gas(base_fee) {
                    Option::Some(t) => t,
                    Option::None => 0,
                };
                proof {
                    lemma_fee_step_bounded(acc_pre.total_fees, acc_pre.cumulative_gas_used, tip as int, gas_used as int, block_gas_limit as int);
                    crate::chain::lemma_u64_product_fits(tip, gas_used);
                }
                acc.total_fees = acc.total_fees + tip as u128 * gas_used as u128;
                acc.executed_txs.push(tx);
                proof {
                    assert(acc@ == spec_acc_step(acc_pre, tx, acc.state@, gas_used, success, base_fee));
                    lemma_count_true_update(bf@, i as int);
                }
                bf.set(i, false);
                i = 0;
            },
        }
    }
    IlOutcome::Done { acc, il_bitfield: bf }
}

/// One fee credit keeps the fee accumulator under the largest tip times the
/// gas spent, so it fits far within 128 bits.
proof fn lemma_fee_step_bounded(fees: int, cum: int, tip: int, gas: int, limit: int)
    requires
        0 <= fees <= 0xffffffffffffffff * cum,
        0 <= cum,
        0 <= tip <= 0xffffffffffffffff,
        0 <= gas,
        cum + gas <= limit <= 0xffffffffffffffff,
    ensures
        fees + tip * gas <= 0xffffffffffffffff * (cum + gas),
        fees + tip * gas <= u128::MAX,
{
    assert(tip * gas <= 0xffffffffffffffff * gas) by (nonlinear_arith)
        requires
            0 <= gas,
            0 <= tip <= 0xffffffffffffffff,
    ;
    assert(0xffffffffffffffff * cum + 0xffffffffffffffff * gas == 0xffffffffffffffff * (cum + gas)) by (nonlinear_arith);
    assert(0xffffffffffffffff * (cum + gas) <= 0xffffffffffffffff * 0xffffffffffffffff) by (nonlinear_arith)
        requires
            0 <= cum + gas <= 0xffffffffffffffff,
    ;
}

/// The EIP-6110 deposit requests parsed from the receipts at position `i`
/// onward, each under the deposit request type.
pub open spec fn spec_deposit_requests_from(receipts: Seq<Receipt>, i: int) -> Seq<Request>
    decreases receipts.len() - i,
    when 0 <= i <= receipts.len()
{
    if i == receipts.len() {
        Seq::empty()
    } else {
        let rest = spec_deposit_requests_from(receipts, i + 1);
        match receipts[i].deposit {
            Option::Some(d) => seq![Request { request_type: DEPOSIT_REQUEST_TYPE, payload: d }] + rest,
            Option::None => rest,
        }
    }
}

/// Parses the EIP-6110 deposit requests out of the receipts' logs.
pub fn parse_deposits_from_receipts(receipts: &Vec<Receipt>) -> (r: Vec<Request>)
    ensures
        r@ == spec_deposit_requests_from(receipts@, 0),
{
    let mut out: Vec<Request> = Vec::new();
    let mut i: usize = 0;
    #[verifier::loop_isolation(false)]
    while i < receipts.len()
        invariant
            i <= receipts.len(),
            out@ + spec_deposit_requests_from(receipts@, i as int) == spec_deposit_requests_from(receipts@, 0),
        decreases receipts.len() - i,
    {
        match receipts[i].deposit {
            Option::Some(d) => {
                let ghost pre = out@;
                out.push(Request { request_type: DEPOSIT_REQUEST_TYPE, payload: d });
                proof {
                    assert(pre + spec_deposit_requests_from(receipts@, i as int)
                        =~= out@ + spec_deposit_requests_from(receipts@, i + 1));
                }
            },
            Option::None => {},
        }
        i = i + 1;
    }
    proof {
        assert(out@ + spec_deposit_requests_from(receipts@, i as int) =~= out@);
    }
    out
}

/// The hashes of the blob transactions among the executed transactions from
/// position `i` onward.
pub open spec fn spec_blob_tx_hashes_from(txs: Seq<SignedTx>, i: int) -> Seq<u64>
    decreases txs.len() - i,
    when 0 <= i <= txs.len()
{
    if i == txs.len() {
        Seq::empty()
    } else {
        let rest = spec_blob_tx_hashes_from(txs, i + 1);
        if txs[i].spec_is_eip4844() {
            seq![txs[i].hash] + rest
        } else {
            rest
        }
    }
}

/// The hashes of the blob transactions among the executed transactions.
pub fn executed_blob_tx_hashes(txs: &Vec<SignedTx>) -> (r: Vec<u64>)
    ensures
        r@ == spec_blob_tx_hashes_from(txs@, 0),
{
    let mut out: Vec<u64> = Vec::new();
    let mut i: usize = 0;
    #[verifier::loop_isolation(false)]
    while i < txs.len()
        invariant
            i <= txs.len(),
            out@ + spec_blob_tx_hashes_from(txs@, i as int) == spec_blob_tx_hashes_from(txs@, 0),
        decreases txs.len() - i,
    {
        if txs[i].is_eip4844() {
            let ghost pre = out@;
            out.push(txs[i].hash);
            proof {
                assert(pre + spec_blob_tx_hashes_from(txs@, i as int)
                    =~= out@ + spec_blob_tx_hashes_from(txs@, i + 1));
            }
        }
        i = i + 1;
    }
    proof {
        assert(out@ + spec_blob_tx_hashes_from(txs@, i as int) =~= out@);
    }
    out
}

/// The block environment the attempt builds under.
#[derive(Clone, Copy, PartialEq, Eq, Structural, Debug)]
pub struct EvmEnv {
    /// Height of the block under construction.
    pub number: u64,
    /// Timestamp from the attributes.
    pub timestamp: u64,
    /// Gas limit decided by the builder policy.
    pub gas_limit: u64,
    /// Base fee derived from the parent under EIP-1559.
    pub base_fee: u64,
    /// Blob gas price; present iff Cancun is active.
    pub blob_gas_price: Option<u128>,
    /// Fee recipient from the attributes.
    pub beneficiary: usize,
    /// Randomness from the attributes.
    pub prev_randao: u64,
}

/// What the finalizer produces from a finished accumulator: the EIP-7685
/// requests where Prague is active, the withdrawal credits and root where
/// Shanghai is active, every consensus root, the Cancun blob fields, the
/// sealed header and the built payload. Fails where a withdrawal credit
/// overflows or a blob sidecar is missing from the pool.
pub open spec fn spec_finalize(acc: BuildAccView, chain_spec: ChainSpec, parent: SealedHeader, attrs: AttributesView, pool_txs: Seq<SignedTx>, extra_data: u64, env: EvmEnv) -> Result<BuiltPayloadView, PayloadBuilderError> {
    let shanghai = chain_spec.spec_is_shanghai_active_at_timestamp(attrs.timestamp);
    let cancun = chain_spec.spec_is_cancun_active_at_timestamp(attrs.timestamp);
    let prague = chain_spec.spec_is_prague_active_at_timestamp(attrs.timestamp);
    let requests = if prague {
        Option::Some(spec_deposit_requests_from(acc.receipts, 0) + acc.state.el_requests)
    } else {
        Option::None
    };
    let state1 = if prague {
        crate::state::StateView { el_requests: Seq::empty(), ..acc.state }
    } else {
        acc.state
    };
    let credited = if shanghai {
        spec_credit_withdrawals(state1, attrs.withdrawals)
    } else {
        Option::Some(state1)
    };
    if credited is None {
        Result::Err(PayloadBuilderError::Internal)
    } else {
        let state2 = credited->Some_0;
        let withdrawals_root = if shanghai {
            Option::Some(spec_withdrawals_root(attrs.withdrawals))
        } else {
            Option::None
        };
        let sidecars = if cancun {
            spec_blobs_exact(pool_txs, spec_blob_tx_hashes_from(acc.executed_txs, 0))
        } else {
            Option::Some(Seq::empty())
        };
        if sidecars is None {
            Result::Err(PayloadBuilderError::Other)
        } else {
            let excess_blob_gas = if cancun {
                if chain_spec.spec_is_cancun_active_at_timestamp(parent.header.timestamp) {
                    let params = chain_spec.spec_blob_params_at_timestamp(attrs.timestamp);
                    Option::Some(spec_next_excess_blob_gas(
                        spec_u64_or_zero(parent.header.excess_blob_gas),
                        spec_u64_or_zero(parent.header.blob_gas_used),
                        params.target_blob_gas,
                    ))
                } else {
                    Option::Some(spec_next_excess_blob_gas(0, 0, chain_spec.spec_blob_params_at_timestamp(attrs.timestamp).target_blob_gas))
                }
            } else {
                Option::None
            };
            let header = Header {
                parent_hash: parent.hash,
                ommers_hash: EMPTY_OMMER_ROOT_HASH,
                beneficiary: env.beneficiary,
                state_root: spec_state_root(state2),
                transactions_root: spec_transactions_root(acc.executed_txs),
                receipts_root: spec_receipts_root(acc.receipts),
                withdrawals_root,
                logs_bloom: spec_logs_bloom(acc.receipts),
                difficulty: 0,
                number: env.number,
                gas_limit: env.gas_limit,
                gas_used: acc.cumulative_gas_used as u64,
                timestamp: attrs.timestamp,
                extra_data,
                mix_hash: attrs.prev_randao,
                nonce: BEACON_NONCE,
                base_fee_per_gas: Option::Some(env.base_fee),
                parent_beacon_block_root: attrs.parent_beacon_block_root,
                blob_gas_used: if cancun { Option::Some(acc.sum_blob_gas_used as u64) } else { Option::None },
                excess_blob_gas,
                requests_hash: match requests {
                    Option::Some(rs) => Option::Some(spec_requests_hash(rs)),
                    Option::None => Option::None,
                },
            };
            Result::Ok(BuiltPayloadView {
                id: attrs.id,
                block: crate::block::SealedBlockView {
                    header,
                    body: crate::block::BlockBodyView {
                        transactions: acc.executed_txs,
                        ommers: Seq::empty(),
                        withdrawals: if shanghai { Option::Some(attrs.withdrawals) } else { Option::None },
                    },
                    hash: spec_header_digest(header),
                },
                fees: acc.total_fees as u128,
                requests,
                sidecars: sidecars->Some_0,
            })
        }
    }
}

/// A missing optional counter counts as zero.
pub open spec fn spec_u64_or_zero(v: Option<u64>) -> u64 {
    match v {
        Option::Some(x) => x,
        Option::None => 0u64,
    }
}

/// Finalizes the block: computes the requests, credits the withdrawals,
/// computes every consensus root and the blob fields, seals the header and
/// assembles the payload.
pub fn finalize_block(acc: BuildAcc, chain_spec: &ChainSpec, parent: &SealedHeader, attributes: &EthPayloadBuilderAttributes, pool: &TransactionPool, extra_data: u64, env: EvmEnv) -> (r: Result<EthBuiltPayload, PayloadBuilderError>)
    ensures
        match r {
            Result::Ok(p) => spec_finalize(acc@, *chain_spec, *parent, attributes@, pool.txs@, extra_data, env) == Result::<BuiltPayloadView, PayloadBuilderError>::Ok(p@),
            Result::Err(e) => spec_finalize(acc@, *chain_spec, *parent, attributes@, pool.txs@, extra_data, env) == Result::<BuiltPayloadView, PayloadBuilderError>::Err(e),
        },
{
    let mut acc = acc;
    let shanghai = chain_spec.is_shanghai_active_at_timestamp(attributes.timestamp);
    let cancun = chain_spec.is_cancun_active_at_timestamp(attributes.timestamp);
    let prague = chain_spec.is_prague_active_at_timestamp(attributes.timestamp);

    // EIP-7685 requests: deposits parsed from the receipts, then what the
    // system contracts queued
    let mut requests: Option<Vec<Request>> = Option::None;
    if prague {
        let mut rs = parse_deposits_from_receipts(&acc.receipts);
        let mut drained = apply_post_execution_changes(&mut acc.state);
        let ghost rs_pre = rs@;
        let ghost drained_view = drained@;
        let mut k: usize = 0;
        #[verifier::loop_isolation(false)]
        while k < drained.len()
            invariant
                k <= drained.len(),
                drained@ == drained_view,
                rs@ == rs_pre + drained_view.take(k as int),
            decreases drained.len() - k,
        {
            rs.push(drained[k]);
            proof {
                assert(rs_pre + drained_view.take(k as int) + seq![drained_view[k as int]]
                    =~= rs_pre + drained_view.take(k + 1));
            }
            k = k + 1;
        }
        proof {
            assert(drained_view.take(drained_view.len() as int) =~= drained_view);
        }
        requests = Option::Some(rs);
    }

    // withdrawals: credit each recipient and commit the root
    let mut withdrawals_root: Option<u64> = Option::None;
    if shanghai {
        if commit_withdrawals(&mut acc.state, &attributes.withdrawals).is_err() {
            return Result::Err(PayloadBuilderError::Internal);
        }
        withdrawals_root = Option::Some(calculate_withdrawals_root(&attributes.withdrawals));
    }

    // blob sidecars for every included blob transaction
    let mut sidecars: Vec<u64> = Vec::new();
    if cancun {
        let hashes = executed_blob_tx_hashes(&acc.executed_txs);
        match pool.get_all_blobs_exact(&hashes) {
            Result::Ok(s) => {
                sidecars = s;
            },
            Result::Err(()) => {
                return Result::Err(PayloadBuilderError::Other);
            },
        }
    }
    let mut excess_blob_gas: Option<u64> = Option::None;
    let mut blob_gas_used: Option<u64> = Option::None;
    if cancun {
        let params = chain_spec.blob_params_at_timestamp(attributes.timestamp);
        let excess = if chain_spec.is_cancun_active_at_timestamp(parent.header.timestamp) {
            next_excess_blob_gas(
                u64_or_zero(parent.header.excess_blob_gas),
                u64_or_zero(parent.header.blob_gas_used),
                params.target_blob_gas,
            )
        } else {
            // the first post-fork block evaluates the parent's blob fields
            // as zero
            next_excess_blob_gas(0, 0, params.target_blob_gas)
        };
        excess_blob_gas = Option::Some(excess);
        blob_gas_used = Option::Some(acc.sum_blob_gas_used);
    }

    let requests_hash = match requests {
        Option::Some(ref rs) => Option::Some(calculate_requests_hash(rs)),
        Option::None => Option::None,
    };
    let state_root = calculate_state_root(&acc.state);
    let transactions_root = calculate_transaction_root(&acc.executed_txs);
    let receipts_root = calculate_receipt_root(&acc.receipts);
    let logs_bloom = calculate_logs_bloom(&acc.receipts);

    let header = Header {
        parent_hash: parent.hash,
        ommers_hash: EMPTY_OMMER_ROOT_HASH,
        beneficiary: env.beneficiary,
        state_root,
        transactions_root,
        receipts_root,
        withdrawals_root,
        logs_bloom,
        difficulty: 0,
        number: env.number,
        gas_limit: env.gas_limit,
        gas_used: acc.cumulative_gas_used,
        timestamp: attributes.timestamp,
        extra_data,
        mix_hash: attributes.prev_randao,
        nonce: BEACON_NONCE,
        base_fee_per_gas: Option::Some(env.base_fee),
        parent_beacon_block_root: attributes.parent_beacon_block_root,
        blob_gas_used,
        excess_blob_gas,
        requests_hash,
    };
    let sealed = seal_header(&header);
    let body_withdrawals = if shanghai {
        Option::Some(copy_vec(&attributes.withdrawals))
    } else {
        Option::None
    };
    let block = SealedBlock {
        header: sealed.header,
        body: BlockBody { transactions: acc.executed_txs, ommers: Vec::new(), withdrawals: body_withdrawals },
        hash: sealed.hash,
    };
    proof {
        assert(Seq::<u64>::empty() =~= block.body.ommers@);
    }
    Result::Ok(EthBuiltPayload {
        id: attributes.id,
        block,
        fees: acc.total_fees,
        requests,
        sidecars,
    })
}

/// A missing optional counter counts as zero.
pub fn u64_or_zero(v: Option<u64>) -> (r: u64)
    ensures
        r == spec_u64_or_zero(v),
{
    match v {
        Option::Some(x) => x,
        Option::None => 0,
    }
}

/// The empty build accumulator over a state.
pub open spec fn spec_initial_acc(s: crate::state::StateView) -> BuildAccView {
    BuildAccView {
        state: s,
        cumulative_gas_used: 0,
        sum_blob_gas_used: 0,
        total_fees: 0,
        receipts: Seq::empty(),
        executed_txs: Seq::empty(),
    }
}

/// The inclusion list of the attributes, or the empty list.
pub open spec fn spec_il_of(attrs: AttributesView) -> Seq<Option<SignedTx>> {
    match attrs.il {
        Option::Some(il) => il,
        Option::None => Seq::empty(),
    }
}

/// One whole build attempt over plain values: fetch the state at the parent
/// hash, run the pre-block system calls, pack the mempool, run the
/// inclusion-list pass, gate on revenue against the best prior payload, and
/// finalize.
pub open spec fn spec_default_payload(chain_spec: ChainSpec, state_hash: u64, state: crate::state::StateView, pool_txs: Seq<SignedTx>, cached_reads: CachedReads, parent: SealedHeader, attrs: AttributesView, cancelled: bool, best_payload: Option<u128>, extra_data: u64, env: EvmEnv) -> Result<BuildOutcomeView, PayloadBuilderError> {
    if state_hash != parent.hash {
        Result::Err(PayloadBuilderError::Provider)
    } else {
        let s1 = spec_beacon_root_call(state, chain_spec, attrs.timestamp, attrs.parent_beacon_block_root);
        let s2 = spec_blockhashes_call(s1, chain_spec, attrs.timestamp, parent.hash);
        let packed = spec_pack(spec_initial_acc(s2), pool_txs, 0, Seq::empty(), false, env.gas_limit, env.base_fee, cancelled);
        match packed {
            PackOutcomeView::Cancelled => Result::Ok(BuildOutcomeView::Cancelled),
            PackOutcomeView::Fatal => Result::Err(PayloadBuilderError::EvmExecutionError),
            PackOutcomeView::Done { acc: acc1, .. } => {
                let il = spec_il_of(attrs);
                match spec_apply_il(acc1, il, spec_init_bitfield(il), 0, env.gas_limit, env.base_fee) {
                    IlOutcomeView::Fatal => Result::Err(PayloadBuilderError::EvmExecutionError),
                    IlOutcomeView::Done { acc: acc2, .. } => {
                        if !spec_is_better_payload(best_payload, acc2.total_fees as u128) {
                            Result::Ok(BuildOutcomeView::Aborted { fees: acc2.total_fees as u128, cached_reads })
                        } else {
                            match spec_finalize(acc2, chain_spec, parent, attrs, pool_txs, extra_data, env) {
                                Result::Err(e) => Result::Err(e),
                                Result::Ok(p) => Result::Ok(BuildOutcomeView::Better { payload: p, cached_reads }),
                            }
                        }
                    },
                }
            },
        }
    }
}

/// Builds an Ethereum payload from the best transactions of the pool: the
/// mempool packing loop, the inclusion-list pass, the revenue gate and the
/// finalizer, exactly as `spec_default_payload` composes them.
pub fn default_ethereum_payload(builder_config: &EthereumBuilderConfig, args: BuildArguments, evm_env: EvmEnv) -> (r: Result<BuildOutcome, PayloadBuilderError>)
    requires
        forall|k: int| 0 <= k < args.pool.txs@.len() ==> (#[trigger] args.pool.txs@[k]).wf(),
        forall|k: int| 0 <= k < spec_il_of(args.config.attributes@).len() && spec_il_of(args.config.attributes@)[k] is Some
            ==> ((#[trigger] spec_il_of(args.config.attributes@)[k])->Some_0).wf(),
    ensures
        ({
            let expected = spec_default_payload(
                args.client.chain_spec,
                args.client.state_hash,
                args.client.state@,
                args.pool.txs@,
                args.cached_reads,
                args.config.parent_header,
                args.config.attributes@,
                args.cancel.cancelled,
                args.best_payload,
                builder_config.extra_data,
                evm_env,
            );
            match r {
                Result::Ok(o) => expected == Result::<BuildOutcomeView, PayloadBuilderError>::Ok(o@),
                Result::Err(e) => expected == Result::<BuildOutcomeView, PayloadBuilderError>::Err(e),
            }
        }),
{
    let BuildArguments { client, pool, cached_reads, config, cancel, best_payload } = args;
    let chain_spec = client.chain_spec();
    let state = match client.state_by_block_hash(config.parent_header.hash) {
        Result::Ok(s) => s,
        Result::Err(e) => {
            return Result::Err(e);
        },
    };
    let PayloadConfig { parent_header, attributes } = config;

    let mut wstate = state;
    pre_block_beacon_root_call(&mut wstate, &chain_spec, attributes.timestamp, attributes.parent_beacon_block_root);
    pre_block_blockhashes_call(&mut wstate, &chain_spec, attributes.timestamp, parent_header.hash);

    let acc = BuildAcc {
        state: wstate,
        cumulative_gas_used: 0,
        sum_blob_gas_used: 0,
        total_fees: 0,
        receipts: Vec::new(),
        executed_txs: Vec::new(),
    };
    let mut best_txs = pool.best_transactions_with_attributes(BestTransactionsAttributes {
        base_fee: evm_env.base_fee,
        blob_gas_price: evm_env.blob_gas_price,
    });
    let acc = match execute_best_transactions(acc, &mut best_txs, evm_env.gas_limit, evm_env.base_fee, cancel.is_cancelled()) {
        PackOutcome::Done(a) => a,
        PackOutcome::Cancelled => {
            return Result::Ok(BuildOutcome::Cancelled);
        },
        PackOutcome::Fatal => {
            return Result::Err(PayloadBuilderError::EvmExecutionError);
        },
    };

    // the inclusion list is applied after all other transactions, so that a
    // single fixed-point pass leaves the payload compliant
    let empty_il: Vec<Option<SignedTx>> = Vec::new();
    let il: &Vec<Option<SignedTx>> = match attributes.il {
        Option::Some(ref l) => l,
        Option::None => &empty_il,
    };
    let acc = match apply_inclusion_list(acc, il, evm_env.gas_limit, evm_env.base_fee) {
        IlOutcome::Done { acc, il_bitfield: _ } => acc,
        IlOutcome::Fatal => {
            return Result::Err(PayloadBuilderError::EvmExecutionError);
        },
    };

    // the revenue gate: only a strictly better block is worth sealing
    if !is_better_payload(best_payload, acc.total_fees) {
        return Result::Ok(BuildOutcome::Aborted { fees: acc.total_fees, cached_reads });
    }

    match finalize_block(acc, &chain_spec, &parent_header, &attributes, &pool, builder_config.extra_data, evm_env) {
        Result::Ok(payload) => Result::Ok(BuildOutcome::Better { payload, cached_reads }),
        Result::Err(e) => Result::Err(e),
    }
}

/// The block environment for the payload that has the parent as its parent:
/// height and timestamp advance, the builder policy picks the gas limit,
/// EIP-1559 sets the base fee from the parent, and the blob gas price is
/// present exactly while Cancun is active. Fails where the parent leaves no
/// room for a successor: a height at the maximum, or no parent base fee.
pub open spec fn spec_evm_env(builder_config: EthereumBuilderConfig, chain_spec: ChainSpec, parent: SealedHeader, attrs: AttributesView) -> Result<EvmEnv, PayloadBuilderError> {
    if parent.header.number == u64::MAX {
        Result::Err(PayloadBuilderError::Other)
    } else if parent.header.base_fee_per_gas is None {
        Result::Err(PayloadBuilderError::Other)
    } else {
        let cancun = chain_spec.spec_is_cancun_active_at_timestamp(attrs.timestamp);
        let params = chain_spec.spec_blob_params_at_timestamp(attrs.timestamp);
        let excess = if chain_spec.spec_is_cancun_active_at_timestamp(parent.header.timestamp) {
            spec_next_excess_blob_gas(
                spec_u64_or_zero(parent.header.excess_blob_gas),
                spec_u64_or_zero(parent.header.blob_gas_used),
                params.target_blob_gas,
            )
        } else {
            spec_next_excess_blob_gas(0, 0, params.target_blob_gas)
        };
        Result::Ok(EvmEnv {
            number: (parent.header.number + 1) as u64,
            timestamp: attrs.timestamp,
            gas_limit: builder_config.spec_gas_limit(parent.header.gas_limit),
            base_fee: spec_next_base_fee(parent.header.gas_limit, parent.header.gas_used, parent.header.base_fee_per_gas->Some_0),
            blob_gas_price: if cancun {
                Option::Some(spec_blob_gasprice(excess, params.update_fraction) as u128)
            } else {
                Option::None
            },
            beneficiary: attrs.suggested_fee_recipient,
            prev_randao: attrs.prev_randao,
        })
    }
}

/// The Ethereum payload builder.
#[derive(Clone, Copy, PartialEq, Eq, Structural, Debug)]
pub struct EthereumPayloadBuilder {
    /// Payload builder configuration.
    pub builder_config: EthereumBuilderConfig,
}

impl EthereumPayloadBuilder {
    /// `EthereumPayloadBuilder` constructor.
    pub fn new(builder_config: EthereumBuilderConfig) -> (r: Self)
        ensures
            r == (EthereumPayloadBuilder { builder_config }),
    {
        EthereumPayloadBuilder { builder_config }
    }

    /// The block environment for the targeted payload.
    pub fn evm_env(&self, chain_spec: &ChainSpec, config: &PayloadConfig) -> (r: Result<EvmEnv, PayloadBuilderError>)
        ensures
            r == spec_evm_env(self.builder_config, *chain_spec, config.parent_header, config.attributes@),
    {
        let parent = &config.parent_header;
        if parent.header.number == u64::MAX {
            return Result::Err(PayloadBuilderError::Other);
        }
        let parent_base_fee = match parent.header.base_fee_per_gas {
            Option::Some(b) => b,
            Option::None => {
                return Result::Err(PayloadBuilderError::Other);
            },
        };
        let cancun = chain_spec.is_cancun_active_at_timestamp(config.attributes.timestamp);
        let params = chain_spec.blob_params_at_timestamp(config.attributes.timestamp);
        let excess = if chain_spec.is_cancun_active_at_timestamp(parent.header.timestamp) {
            next_excess_blob_gas(
                u64_or_zero(parent.header.excess_blob_gas),
                u64_or_zero(parent.header.blob_gas_used),
                params.target_blob_gas,
            )
        } else {
            next_excess_blob_gas(0, 0, params.target_blob_gas)
        };
        Result::Ok(EvmEnv {
            number: parent.header.number + 1,
            timestamp: config.attributes.timestamp,
            gas_limit: self.builder_config.gas_limit(parent.header.gas_limit),
            base_fee: next_base_fee(parent.header.gas_limit, parent.header.gas_used, parent_base_fee),
            blob_gas_price: if cancun {
                Option::Some(calc_blob_gasprice(excess, params.update_fraction))
            } else {
                Option::None
            },
            beneficiary: config.attributes.suggested_fee_recipient,
            prev_randao: config.attributes.prev_randao,
        })
    }

    /// One build attempt: derives the environment and runs the build loop.
    pub fn try_build(&self, args: BuildArguments) -> (r: Result<BuildOutcome, PayloadBuilderError>)
        requires
            forall|k: int| 0 <= k < args.pool.txs@.len() ==> (#[trigger] args.pool.txs@[k]).wf(),
            forall|k: int| 0 <= k < spec_il_of(args.config.attributes@).len() && spec_il_of(args.config.attributes@)[k] is Some
                ==> ((#[trigger] spec_il_of(args.config.attributes@)[k])->Some_0).wf(),
        ensures
            ({
                let expected = match spec_evm_env(self.builder_config, args.client.chain_spec, args.config.parent_header, args.config.attributes@) {
                    Result::Err(e) => Result::<BuildOutcomeView, PayloadBuilderError>::Err(e),
                    Result::Ok(env) => spec_default_payload(
                        args.client.chain_spec,
                        args.client.state_hash,
                        args.client.state@,
                        args.pool.txs@,
                        args.cached_reads,
                        args.config.parent_header,
                        args.config.attributes@,
                        args.cancel.cancelled,
                        args.best_payload,
                        self.builder_config.extra_data,
                        env,
                    ),
                };
                match r {
                    Result::Ok(o) => expected == Result::<BuildOutcomeView, PayloadBuilderError>::Ok(o@),
                    Result::Err(e) => expected == Result::<BuildOutcomeView, PayloadBuilderError>::Err(e),
                }
            }),
    {
        let chain_spec = args.client.chain_spec();
        let evm_env = match self.evm_env(&chain_spec, &args.config) {
            Result::Ok(env) => env,
            Result::Err(e) => {
                return Result::Err(e);
            },
        };
        default_ethereum_payload(&self.builder_config, args, evm_env)
    }

    /// Builds the payload for an empty mempool. The payload may still carry
    /// transactions: the inclusion-list pass runs as in any other attempt.
    pub fn build_empty_payload(&self, client: Client, config: PayloadConfig) -> (r: Result<EthBuiltPayload, PayloadBuilderError>)
        requires
            forall|k: int| 0 <= k < spec_il_of(config.attributes@).len() && spec_il_of(config.attributes@)[k] is Some
                ==> ((#[trigger] spec_il_of(config.attributes@)[k])->Some_0).wf(),
        ensures
            ({
                let expected = match spec_evm_env(self.builder_config, client.chain_spec, config.parent_header, config.attributes@) {
                    Result::Err(e) => Result::<BuildOutcomeView, PayloadBuilderError>::Err(e),
                    Result::Ok(env) => spec_default_payload(
                        client.chain_spec,
                        client.state_hash,
                        client.state@,
                        Seq::empty(),
                        CachedReads { generation: 0 },
                        config.parent_header,
                        config.attributes@,
                        false,
                        Option::None,
                        self.builder_config.extra_data,
                        env,
                    ),
                };
                match r {
                    Result::Ok(p) => expected matches Result::Ok(o) && o matches BuildOutcomeView::Better { payload, .. } && payload == p@,
                    Result::Err(PayloadBuilderError::MissingPayload) =>
                        expected matches Result::Ok(o) && !(o matches BuildOutcomeView::Better { .. }),
                    Result::Err(e) => expected == Result::<BuildOutcomeView, PayloadBuilderError>::Err(e),
                }
            }),
    {
        let args = BuildArguments {
            client,
            pool: TransactionPool::noop(),
            cached_reads: CachedReads { generation: 0 },
            config,
            cancel: crate::payload::CancelSignal { cancelled: false },
            best_payload: Option::None,
        };
        let outcome = match self.try_build(args) {
            Result::Ok(o) => o,
            Result::Err(e) => {
                return Result::Err(e);
            },
        };
        match outcome.into_payload() {
            Option::Some(p) => Result::Ok(p),
            Option::None => Result::Err(PayloadBuilderError::MissingPayload),
        }
    }
}

} // verus!
