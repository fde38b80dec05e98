//! The builder's laws: gas, blob and fee accounting of every built block,
//! uniqueness of inclusion, determinism, and the boundary behaviour of the
//! packing loop, proved over the build loop's defining functions.

use vstd::prelude::*;
use crate::builder::BuildAccView;
use crate::builder::PackOutcomeView;
use crate::builder::IlOutcomeView;
use crate::builder::spec_pack;
use crate::builder::spec_apply_il;
use crate::builder::spec_acc_step;
use crate::builder::spec_initial_acc;
use crate::builder::spec_init_bitfield;
use crate::builder::spec_il_of;
use crate::builder::spec_default_payload;
use crate::builder::spec_finalize;
use crate::builder::EvmEnv;
use crate::block::SealedHeader;
use crate::chain::ChainSpec;
use crate::payload::AttributesView;
use crate::payload::BuildOutcomeView;
use crate::payload::CachedReads;
use crate::pool::BanEntry;
use crate::pool::spec_skipped;
use crate::state::StateView;
use crate::state::SpecTransact;
use crate::state::InvalidTransaction;
use crate::state::spec_transact;
use crate::state::lemma_transact_nonces;
use crate::tx::SignedTx;
use crate::tx::MAX_DATA_GAS_PER_BLOCK;

verus! {

/// The gas the first `n` executed transactions consumed.
pub open spec fn spec_prefix_gas(txs: Seq<SignedTx>, n: int) -> int
    decreases n,
    when 0 <= n <= txs.len()
{
    if n <= 0 {
        0
    } else {
        spec_prefix_gas(txs, n - 1) + txs[n - 1].gas_used
    }
}

/// The blob data gas the first `n` executed transactions carried.
pub open spec fn spec_prefix_blob_gas(txs: Seq<SignedTx>, n: int) -> int
    decreases n,
    when 0 <= n <= txs.len()
{
    if n <= 0 {
        0
    } else {
        spec_prefix_blob_gas(txs, n - 1) + txs[n - 1].blob_gas
    }
}

/// The miner fees the first `n` executed transactions paid.
pub open spec fn spec_prefix_fees(txs: Seq<SignedTx>, n: int, base_fee: u64) -> int
    decreases n,
    when 0 <= n <= txs.len()
{
    if n <= 0 {
        0
    } else {
        spec_prefix_fees(txs, n - 1, base_fee)
            + txs[n - 1].spec_effective_tip_per_gas(base_fee)->Some_0 * txs[n - 1].gas_used
    }
}

/// The accounting every build accumulator obeys: one receipt per executed
/// transaction whose running gas total is the prefix sum of the consumed
/// gas; totals equal to those sums and within the block's budgets; fees
/// equal to the sum of tip times gas; every executed transaction
/// well-formed, its nonce spent in the state; and no sender-nonce pair
/// spent twice.
pub open spec fn spec_accounting_ok(acc: BuildAccView, block_gas_limit: u64, base_fee: u64) -> bool {
    &&& acc.receipts.len() == acc.executed_txs.len()
    &&& forall|k: int| 0 <= k < acc.receipts.len()
        ==> (#[trigger] acc.receipts[k]).cumulative_gas_used == spec_prefix_gas(acc.executed_txs, k + 1)
    &&& acc.cumulative_gas_used == spec_prefix_gas(acc.executed_txs, acc.executed_txs.len() as int)
    &&& 0 <= acc.cumulative_gas_used <= block_gas_limit
    &&& acc.sum_blob_gas_used == spec_prefix_blob_gas(acc.executed_txs, acc.executed_txs.len() as int)
    &&& 0 <= acc.sum_blob_gas_used <= MAX_DATA_GAS_PER_BLOCK
    &&& acc.total_fees == spec_prefix_fees(acc.executed_txs, acc.executed_txs.len() as int, base_fee)
    &&& forall|k: int| 0 <= k < acc.executed_txs.len() ==> (#[trigger] acc.executed_txs[k]).wf()
    &&& forall|k: int| 0 <= k < acc.executed_txs.len()
        ==> (#[trigger] acc.executed_txs[k]).nonce < acc.state.account(acc.executed_txs[k].sender).nonce
    &&& forall|k: int, l: int| 0 <= k < l < acc.executed_txs.len()
        ==> !((#[trigger] acc.executed_txs[k]).sender == (#[trigger] acc.executed_txs[l]).sender
            && acc.executed_txs[k].nonce == acc.executed_txs[l].nonce)
}

/// A prefix sum over a pushed sequence agrees with the original sequence.
proof fn lemma_prefix_sums_push(txs: Seq<SignedTx>, tx: SignedTx, n: int, base_fee: u64)
    requires
        0 <= n <= txs.len(),
    ensures
        spec_prefix_gas(txs.push(tx), n) == spec_prefix_gas(txs, n),
        spec_prefix_blob_gas(txs.push(tx), n) == spec_prefix_blob_gas(txs, n),
        spec_prefix_fees(txs.push(tx), n, base_fee) == spec_prefix_fees(txs, n, base_fee),
    decreases n,
{
    if n > 0 {
        lemma_prefix_sums_push(txs, tx, n - 1, base_fee);
    }
}

/// One committed transaction preserves the accounting.
proof fn lemma_acc_step_accounting(acc: BuildAccView, tx: SignedTx, base_fee: u64, block_gas_limit: u64)
    requires
        spec_accounting_ok(acc, block_gas_limit, base_fee),
        tx.wf(),
        spec_transact(acc.state, tx, base_fee) is Executed,
        acc.cumulative_gas_used + tx.gas_limit <= block_gas_limit,
        acc.sum_blob_gas_used + tx.blob_gas <= MAX_DATA_GAS_PER_BLOCK,
    ensures
        ({
            let post = spec_transact(acc.state, tx, base_fee)->Executed_post;
            let gas_used = spec_transact(acc.state, tx, base_fee)->Executed_gas_used;
            let success = spec_transact(acc.state, tx, base_fee)->Executed_success;
            spec_accounting_ok(spec_acc_step(acc, tx, post, gas_used, success, base_fee), block_gas_limit, base_fee)
        }),
{
    let post = spec_transact(acc.state, tx, base_fee)->Executed_post;
    let gas_used = spec_transact(acc.state, tx, base_fee)->Executed_gas_used;
    let success = spec_transact(acc.state, tx, base_fee)->Executed_success;
    let acc2 = spec_acc_step(acc, tx, post, gas_used, success, base_fee);
    let txs = acc.executed_txs;
    let n = txs.len() as int;
    lemma_transact_nonces(acc.state, tx, base_fee);
    assert(gas_used == tx.gas_used);
    assert forall|k: int| 0 <= k < acc2.receipts.len() implies
        (#[trigger] acc2.receipts[k]).cumulative_gas_used == spec_prefix_gas(acc2.executed_txs, k + 1) by {
        if k < n {
            lemma_prefix_sums_push(txs, tx, k + 1, base_fee);
            assert(acc2.receipts[k] == acc.receipts[k]);
        } else {
            lemma_prefix_sums_push(txs, tx, n, base_fee);
            assert(acc2.executed_txs[n] == tx);
            assert(spec_prefix_gas(acc2.executed_txs, n + 1)
                == spec_prefix_gas(acc2.executed_txs, n) + tx.gas_used);
            assert(acc2.receipts[n].cumulative_gas_used == (acc.cumulative_gas_used + tx.gas_used) as u64);
            assert(0 <= acc.cumulative_gas_used + tx.gas_used <= u64::MAX);
        }
    }
    lemma_prefix_sums_push(txs, tx, n, base_fee);
    assert forall|k: int| 0 <= k < acc2.executed_txs.len() implies
        (#[trigger] acc2.executed_txs[k]).nonce < acc2.state.account(acc2.executed_txs[k].sender).nonce by {
        if k < n {
            let e = txs[k];
            if e.sender == tx.sender {
                assert(e.nonce < acc.state.account(tx.sender).nonce);
            } else {
                assert(post.account(e.sender).nonce == acc.state.account(e.sender).nonce);
            }
        }
    }
    assert forall|k: int, l: int| 0 <= k < l < acc2.executed_txs.len() implies
        !((#[trigger] acc2.executed_txs[k]).sender == (#[trigger] acc2.executed_txs[l]).sender
            && acc2.executed_txs[k].nonce == acc2.executed_txs[l].nonce) by {
        if l == n && txs[k].sender == tx.sender {
            assert(txs[k].nonce < acc.state.account(tx.sender).nonce);
            assert(tx.nonce == acc.state.account(tx.sender).nonce);
        }
    }
}

/// The packing loop preserves the accounting: what it hands on still obeys
/// every budget, prefix-sum and uniqueness rule.
pub proof fn lemma_packing_preserves_accounting(acc: BuildAccView, txs: Seq<SignedTx>, i: int, banned: Seq<BanEntry>, skip_blob_txs: bool, block_gas_limit: u64, base_fee: u64, cancelled: bool)
    requires
        0 <= i <= txs.len(),
        forall|k: int| 0 <= k < txs.len() ==> (#[trigger] txs[k]).wf(),
        spec_accounting_ok(acc, block_gas_limit, base_fee),
    ensures
        ({
            match spec_pack(acc, txs, i, banned, skip_blob_txs, block_gas_limit, base_fee, cancelled) {
                PackOutcomeView::Done { acc: acc2, .. } => spec_accounting_ok(acc2, block_gas_limit, base_fee),
                _ => true,
            }
        }),
    decreases txs.len() - i,
{
    if i < txs.len() {
        let tx = txs[i];
        if spec_skipped(banned, skip_blob_txs, tx) {
            lemma_packing_preserves_accounting(acc, txs, i + 1, banned, skip_blob_txs, block_gas_limit, base_fee, cancelled);
        } else if cancelled {
        } else if acc.cumulative_gas_used + tx.gas_limit > block_gas_limit {
            let entry = BanEntry {
                sender: tx.sender,
                nonce: tx.nonce,
                hash: tx.hash,
                reason: crate::pool::InvalidPoolTransactionError::ExceedsGasLimit { tx_gas: tx.gas_limit, block_gas: block_gas_limit },
            };
            lemma_packing_preserves_accounting(acc, txs, i + 1, banned.push(entry), skip_blob_txs, block_gas_limit, base_fee, cancelled);
        } else if tx.spec_is_eip4844() && acc.sum_blob_gas_used + tx.blob_gas > MAX_DATA_GAS_PER_BLOCK {
            let entry = BanEntry {
                sender: tx.sender,
                nonce: tx.nonce,
                hash: tx.hash,
                reason: crate::pool::InvalidPoolTransactionError::ExceedsGasLimit { tx_gas: tx.blob_gas, block_gas: MAX_DATA_GAS_PER_BLOCK },
            };
            lemma_packing_preserves_accounting(acc, txs, i + 1, banned.push(entry), skip_blob_txs, block_gas_limit, base_fee, cancelled);
        } else {
            match spec_transact(acc.state, tx, base_fee) {
                SpecTransact::Fatal => {},
                SpecTransact::Invalid(e) => {
                    if e is NonceTooLow {
                        lemma_packing_preserves_accounting(acc, txs, i + 1, banned, skip_blob_txs, block_gas_limit, base_fee, cancelled);
                    } else {
                        let entry = BanEntry {
                            sender: tx.sender,
                            nonce: tx.nonce,
                            hash: tx.hash,
                            reason: crate::pool::InvalidPoolTransactionError::Consensus(crate::pool::InvalidTransactionError::TxTypeNotSupported),
                        };
                        lemma_packing_preserves_accounting(acc, txs, i + 1, banned.push(entry), skip_blob_txs, block_gas_limit, base_fee, cancelled);
                    }
                },
                SpecTransact::Executed { post, gas_used, success } => {
                    lemma_acc_step_accounting(acc, tx, base_fee, block_gas_limit);
                    let acc2 = spec_acc_step(acc, tx, post, gas_used, success, base_fee);
                    let skip2 = skip_blob_txs
                        || (tx.spec_is_eip4844() && acc2.sum_blob_gas_used == MAX_DATA_GAS_PER_BLOCK);
                    lemma_packing_preserves_accounting(acc2, txs, i + 1, banned, skip2, block_gas_limit, base_fee, cancelled);
                },
            }
        }
    }
}

/// The inclusion-list pass preserves the accounting.
pub proof fn lemma_inclusion_list_preserves_accounting(acc: BuildAccView, il: Seq<Option<SignedTx>>, bf: Seq<bool>, i: int, block_gas_limit: u64, base_fee: u64)
    requires
        0 <= i <= il.len(),
        bf.len() == il.len(),
        forall|k: int| 0 <= k < il.len() && il[k] is Some ==> ((#[trigger] il[k])->Some_0).wf(),
        spec_accounting_ok(acc, block_gas_limit, base_fee),
    ensures
        ({
            match spec_apply_il(acc, il, bf, i, block_gas_limit, base_fee) {
                IlOutcomeView::Done { acc: acc2, .. } => spec_accounting_ok(acc2, block_gas_limit, base_fee),
                _ => true,
            }
        }),
    decreases crate::builder::spec_count_true(bf), il.len() - i,
{
    if i < il.len() {
        if !bf[i] {
            lemma_inclusion_list_preserves_accounting(acc, il, bf, i + 1, block_gas_limit, base_fee);
        } else if il[i] is None {
            crate::builder::lemma_count_true_update(bf, i);
            lemma_inclusion_list_preserves_accounting(acc, il, bf.update(i, false), i + 1, block_gas_limit, base_fee);
        } else {
            let tx = il[i]->Some_0;
            if tx.spec_is_eip4844() {
                crate::builder::lemma_count_true_update(bf, i);
                lemma_inclusion_list_preserves_accounting(acc, il, bf.update(i, false), i + 1, block_gas_limit, base_fee);
            } else if acc.cumulative_gas_used + tx.gas_limit > block_gas_limit {
                crate::builder::lemma_count_true_update(bf, i);
                lemma_inclusion_list_preserves_accounting(acc, il, bf.update(i, false), i + 1, block_gas_limit, base_fee);
            } else {
                match spec_transact(acc.state, tx, base_fee) {
                    SpecTransact::Fatal => {},
                    SpecTransact::Invalid(e) => {
                        if e.spec_is_transient() {
                            lemma_inclusion_list_preserves_accounting(acc, il, bf, i + 1, block_gas_limit, base_fee);
                        } else {
                            crate::builder::lemma_count_true_update(bf, i);
                            lemma_inclusion_list_preserves_accounting(acc, il, bf.update(i, false), i + 1, block_gas_limit, base_fee);
                        }
                    },
                    SpecTransact::Executed { post, gas_used, success } => {
                        // an inclusion-list transaction is never a blob
                        // transaction here, so the blob budget is untouched
                        lemma_acc_step_accounting(acc, tx, base_fee, block_gas_limit);
                        let acc2 = spec_acc_step(acc, tx, post, gas_used, success, base_fee);
                        crate::builder::lemma_count_true_update(bf, i);
                        lemma_inclusion_list_preserves_accounting(acc2, il, bf.update(i, false), 0, block_gas_limit, base_fee);
                    },
                }
            }
        }
    }
}

/// The receipts' running gas totals are the prefix sums of the consumed
/// gas, and strictly increase from one receipt to the next.
pub proof fn lemma_receipts_cumulative_gas(acc: BuildAccView, block_gas_limit: u64, base_fee: u64)
    requires
        spec_accounting_ok(acc, block_gas_limit, base_fee),
    ensures
        forall|k: int| 0 <= k < acc.receipts.len()
            ==> (#[trigger] acc.receipts[k]).cumulative_gas_used == spec_prefix_gas(acc.executed_txs, k + 1),
        forall|k: int| 1 <= k < acc.receipts.len()
            ==> (#[trigger] acc.receipts[k]).cumulative_gas_used > acc.receipts[k - 1].cumulative_gas_used,
{
    assert forall|k: int| 1 <= k < acc.receipts.len() implies
        (#[trigger] acc.receipts[k]).cumulative_gas_used > acc.receipts[k - 1].cumulative_gas_used by {
        assert(acc.executed_txs[k].wf());
        assert(spec_prefix_gas(acc.executed_txs, k + 1)
            == spec_prefix_gas(acc.executed_txs, k) + acc.executed_txs[k].gas_used);
    }
}

/// Every block a build attempt seals obeys its budgets: its gas total stays
/// within the gas limit; its transactions' blob gas stays within the blob
/// cap and fills the header's blob field exactly while Cancun is active;
/// and no transaction is included twice.
pub proof fn lemma_better_payload_accounting(chain_spec: ChainSpec, state_hash: u64, state: StateView, pool_txs: Seq<SignedTx>, cached_reads: CachedReads, parent: SealedHeader, attrs: AttributesView, cancelled: bool, best_payload: Option<u128>, extra_data: u64, env: EvmEnv)
    requires
        forall|k: int| 0 <= k < pool_txs.len() ==> (#[trigger] pool_txs[k]).wf(),
        forall|k: int| 0 <= k < spec_il_of(attrs).len() && spec_il_of(attrs)[k] is Some
            ==> ((#[trigger] spec_il_of(attrs)[k])->Some_0).wf(),
    ensures
        ({
            match spec_default_payload(chain_spec, state_hash, state, pool_txs, cached_reads, parent, attrs, cancelled, best_payload, extra_data, env) {
                Result::Ok(o) => match o {
                    BuildOutcomeView::Better { payload, .. } => {
                        let txs = payload.block.body.transactions;
                        let blob_total = spec_prefix_blob_gas(txs, txs.len() as int);
                        &&& payload.block.header.gas_used <= payload.block.header.gas_limit
                        &&& payload.block.header.gas_used == spec_prefix_gas(txs, txs.len() as int)
                        &&& 0 <= blob_total <= MAX_DATA_GAS_PER_BLOCK
                        &&& chain_spec.spec_is_cancun_active_at_timestamp(attrs.timestamp)
                            ==> payload.block.header.blob_gas_used == Option::Some(blob_total as u64)
                        &&& !chain_spec.spec_is_cancun_active_at_timestamp(attrs.timestamp)
                            ==> payload.block.header.blob_gas_used is None
                        &&& forall|k: int, l: int| 0 <= k < l < txs.len() ==> txs[k] != txs[l]
                    },
                    _ => true,
                },
                Result::Err(_) => true,
            }
        }),
{
    if state_hash == parent.hash {
        let s1 = crate::state::spec_beacon_root_call(state, chain_spec, attrs.timestamp, attrs.parent_beacon_block_root);
        let s2 = crate::state::spec_blockhashes_call(s1, chain_spec, attrs.timestamp, parent.hash);
        let acc0 = spec_initial_acc(s2);
        assert(spec_accounting_ok(acc0, env.gas_limit, env.base_fee));
        lemma_packing_preserves_accounting(acc0, pool_txs, 0, Seq::empty(), false, env.gas_limit, env.base_fee, cancelled);
        match spec_pack(acc0, pool_txs, 0, Seq::empty(), false, env.gas_limit, env.base_fee, cancelled) {
            PackOutcomeView::Done { acc: acc1, .. } => {
                let il = spec_il_of(attrs);
                lemma_inclusion_list_preserves_accounting(acc1, il, spec_init_bitfield(il), 0, env.gas_limit, env.base_fee);
                match spec_apply_il(acc1, il, spec_init_bitfield(il), 0, env.gas_limit, env.base_fee) {
                    IlOutcomeView::Done { acc: acc2, .. } => {
                        assert forall|k: int, l: int| 0 <= k < l < acc2.executed_txs.len()
                            implies acc2.executed_txs[k] != acc2.executed_txs[l] by {
                            assert(!(acc2.executed_txs[k].sender == acc2.executed_txs[l].sender
                                && acc2.executed_txs[k].nonce == acc2.executed_txs[l].nonce));
                        }
                    },
                    IlOutcomeView::Fatal => {},
                }
            },
            _ => {},
        }
    }
}

/// Building is deterministic: the same inputs give the same outcome, so a
/// re-run with an unchanged mempool yields the same sealed block hash.
pub proof fn lemma_build_deterministic(chain_spec: ChainSpec, state_hash: u64, state: StateView, pool_txs: Seq<SignedTx>, cached_reads: CachedReads, parent: SealedHeader, attrs1: AttributesView, attrs2: AttributesView, cancelled: bool, best_payload: Option<u128>, extra_data: u64, env: EvmEnv)
    requires
        attrs1 == attrs2,
    ensures
        spec_default_payload(chain_spec, state_hash, state, pool_txs, cached_reads, parent, attrs1, cancelled, best_payload, extra_data, env)
            == spec_default_payload(chain_spec, state_hash, state, pool_txs, cached_reads, parent, attrs2, cancelled, best_payload, extra_data, env),
{
}

/// A pass over a bitfield with no set slot changes nothing.
proof fn lemma_il_all_false(acc: BuildAccView, il: Seq<Option<SignedTx>>, bf: Seq<bool>, i: int, block_gas_limit: u64, base_fee: u64)
    requires
        0 <= i <= il.len(),
        bf.len() == il.len(),
        forall|j: int| 0 <= j < bf.len() ==> !(#[trigger] bf[j]),
    ensures
        spec_apply_il(acc, il, bf, i, block_gas_limit, base_fee) == (IlOutcomeView::Done { acc, il_bitfield: bf }),
    decreases il.len() - i,
{
    if i < il.len() {
        lemma_il_all_false(acc, il, bf, i + 1, block_gas_limit, base_fee);
    }
}

/// Building with an empty mempool and no inclusion list produces the same
/// outcome as building with an empty mempool and an inclusion list of
/// slots that all failed to decode.
pub proof fn lemma_empty_mempool_il_of_nones(chain_spec: ChainSpec, state_hash: u64, state: StateView, cached_reads: CachedReads, parent: SealedHeader, attrs: AttributesView, nones: AttributesView, n: nat, cancelled: bool, best_payload: Option<u128>, extra_data: u64, env: EvmEnv)
    requires
        attrs.il is None,
        nones == (AttributesView { il: Option::Some(Seq::new(n, |j: int| Option::<SignedTx>::None)), ..attrs }),
    ensures
        spec_default_payload(chain_spec, state_hash, state, Seq::empty(), cached_reads, parent, attrs, cancelled, best_payload, extra_data, env)
            == spec_default_payload(chain_spec, state_hash, state, Seq::empty(), cached_reads, parent, nones, cancelled, best_payload, extra_data, env),
{
    if state_hash == parent.hash {
        let s1 = crate::state::spec_beacon_root_call(state, chain_spec, attrs.timestamp, attrs.parent_beacon_block_root);
        let s2 = crate::state::spec_blockhashes_call(s1, chain_spec, attrs.timestamp, parent.hash);
        let acc0 = spec_initial_acc(s2);
        let empty_txs = Seq::<SignedTx>::empty();
        assert(spec_pack(acc0, empty_txs, 0, Seq::empty(), false, env.gas_limit, env.base_fee, cancelled)
            == (PackOutcomeView::Done { acc: acc0, banned: Seq::empty(), skip_blob_txs: false }));
        let il1 = spec_il_of(attrs);
        let il2 = spec_il_of(nones);
        assert(spec_init_bitfield(il1) =~= Seq::<bool>::empty());
        lemma_il_all_false(acc0, il1, spec_init_bitfield(il1), 0, env.gas_limit, env.base_fee);
        lemma_il_all_false(acc0, il2, spec_init_bitfield(il2), 0, env.gas_limit, env.base_fee);
        assert(spec_finalize(acc0, chain_spec, parent, attrs, empty_txs, extra_data, env)
            == spec_finalize(acc0, chain_spec, parent, nones, empty_txs, extra_data, env));
    }
}

/// The inclusion-list pass really terminates at a fixed point: over a
/// bitfield whose every set slot holds a transaction the state refuses
/// transiently — exactly what the pass leaves behind — a further pass
/// changes nothing: no inclusion, no cleared slot.
pub proof fn lemma_il_second_pass_no_change(acc: BuildAccView, il: Seq<Option<SignedTx>>, bf: Seq<bool>, i: int, block_gas_limit: u64, base_fee: u64)
    requires
        0 <= i <= il.len(),
        bf.len() == il.len(),
        forall|j: int| 0 <= j < bf.len() && bf[j] ==>
            (#[trigger] il[j]) is Some
                && !(il[j]->Some_0).spec_is_eip4844()
                && acc.cumulative_gas_used + (il[j]->Some_0).gas_limit <= block_gas_limit
                && crate::builder::spec_transient_refusal(acc.state, il[j]->Some_0, base_fee),
    ensures
        spec_apply_il(acc, il, bf, i, block_gas_limit, base_fee) == (IlOutcomeView::Done { acc, il_bitfield: bf }),
    decreases il.len() - i,
{
    if i < il.len() {
        lemma_il_second_pass_no_change(acc, il, bf, i + 1, block_gas_limit, base_fee);
    }
}

/// The gas budget at the margin: a transaction whose gas limit exactly
/// matches the remaining budget is executed; one the budget cannot hold is
/// marked invalid with the exceeded budget, untouched otherwise.
pub proof fn lemma_gas_boundary(acc: BuildAccView, txs: Seq<SignedTx>, i: int, banned: Seq<BanEntry>, skip_blob_txs: bool, block_gas_limit: u64, base_fee: u64)
    requires
        0 <= i < txs.len(),
        !spec_skipped(banned, skip_blob_txs, txs[i]),
    ensures
        acc.cumulative_gas_used + txs[i].gas_limit <= block_gas_limit
            && !(txs[i].spec_is_eip4844() && acc.sum_blob_gas_used + txs[i].blob_gas > MAX_DATA_GAS_PER_BLOCK)
            && spec_transact(acc.state, txs[i], base_fee) is Executed
            ==> ({
                let t = spec_transact(acc.state, txs[i], base_fee);
                let acc2 = spec_acc_step(acc, txs[i], t->Executed_post, t->Executed_gas_used, t->Executed_success, base_fee);
                let skip2 = skip_blob_txs || (txs[i].spec_is_eip4844() && acc2.sum_blob_gas_used == MAX_DATA_GAS_PER_BLOCK);
                &&& acc2.executed_txs == acc.executed_txs.push(txs[i])
                &&& spec_pack(acc, txs, i, banned, skip_blob_txs, block_gas_limit, base_fee, false)
                    == spec_pack(acc2, txs, i + 1, banned, skip2, block_gas_limit, base_fee, false)
            }),
        acc.cumulative_gas_used + txs[i].gas_limit > block_gas_limit
            ==> spec_pack(acc, txs, i, banned, skip_blob_txs, block_gas_limit, base_fee, false)
                == spec_pack(acc, txs, i + 1, banned.push(BanEntry {
                    sender: txs[i].sender,
                    nonce: txs[i].nonce,
                    hash: txs[i].hash,
                    reason: crate::pool::InvalidPoolTransactionError::ExceedsGasLimit { tx_gas: txs[i].gas_limit, block_gas: block_gas_limit },
                }), skip_blob_txs, block_gas_limit, base_fee, false),
{
}

/// The blob budget at the margin: a blob transaction that exactly reaches
/// the cap is executed and shuts further blob transactions off; one beyond
/// the cap is marked invalid with the blob budget.
pub proof fn lemma_blob_boundary(acc: BuildAccView, txs: Seq<SignedTx>, i: int, banned: Seq<BanEntry>, skip_blob_txs: bool, block_gas_limit: u64, base_fee: u64)
    requires
        0 <= i < txs.len(),
        !spec_skipped(banned, skip_blob_txs, txs[i]),
        txs[i].spec_is_eip4844(),
        acc.cumulative_gas_used + txs[i].gas_limit <= block_gas_limit,
    ensures
        acc.sum_blob_gas_used + txs[i].blob_gas == MAX_DATA_GAS_PER_BLOCK
            && spec_transact(acc.state, txs[i], base_fee) is Executed
            ==> ({
                let t = spec_transact(acc.state, txs[i], base_fee);
                let acc2 = spec_acc_step(acc, txs[i], t->Executed_post, t->Executed_gas_used, t->Executed_success, base_fee);
                &&& acc2.sum_blob_gas_used == MAX_DATA_GAS_PER_BLOCK
                &&& spec_pack(acc, txs, i, banned, skip_blob_txs, block_gas_limit, base_fee, false)
                    == spec_pack(acc2, txs, i + 1, banned, true, block_gas_limit, base_fee, false)
            }),
        acc.sum_blob_gas_used + txs[i].blob_gas > MAX_DATA_GAS_PER_BLOCK
            ==> spec_pack(acc, txs, i, banned, skip_blob_txs, block_gas_limit, base_fee, false)
                == spec_pack(acc, txs, i + 1, banned.push(BanEntry {
                    sender: txs[i].sender,
                    nonce: txs[i].nonce,
                    hash: txs[i].hash,
                    reason: crate::pool::InvalidPoolTransactionError::ExceedsGasLimit { tx_gas: txs[i].blob_gas, block_gas: MAX_DATA_GAS_PER_BLOCK },
                }), skip_blob_txs, block_gas_limit, base_fee, false),
{
}

/// A nonce-too-low refusal skips only the transaction itself: the loop goes
/// on with the evictions unchanged, so the sender's later nonces stay in
/// the iterator.
pub proof fn lemma_nonce_too_low_keeps_descendants(acc: BuildAccView, txs: Seq<SignedTx>, i: int, banned: Seq<BanEntry>, skip_blob_txs: bool, block_gas_limit: u64, base_fee: u64)
    requires
        0 <= i < txs.len(),
        !spec_skipped(banned, skip_blob_txs, txs[i]),
        acc.cumulative_gas_used + txs[i].gas_limit <= block_gas_limit,
        !(txs[i].spec_is_eip4844() && acc.sum_blob_gas_used + txs[i].blob_gas > MAX_DATA_GAS_PER_BLOCK),
        spec_transact(acc.state, txs[i], base_fee) == SpecTransact::Invalid(InvalidTransaction::NonceTooLow),
    ensures
        spec_pack(acc, txs, i, banned, skip_blob_txs, block_gas_limit, base_fee, false)
            == spec_pack(acc, txs, i + 1, banned, skip_blob_txs, block_gas_limit, base_fee, false),
{
}

/// Any other transaction-level refusal evicts the sender's descendants:
/// the eviction is recorded, and every later transaction of the same
/// sender with a higher nonce is skipped from then on.
pub proof fn lemma_other_error_drops_descendants(acc: BuildAccView, txs: Seq<SignedTx>, i: int, banned: Seq<BanEntry>, skip_blob_txs: bool, block_gas_limit: u64, base_fee: u64, e: InvalidTransaction)
    requires
        0 <= i < txs.len(),
        !spec_skipped(banned, skip_blob_txs, txs[i]),
        acc.cumulative_gas_used + txs[i].gas_limit <= block_gas_limit,
        !(txs[i].spec_is_eip4844() && acc.sum_blob_gas_used + txs[i].blob_gas > MAX_DATA_GAS_PER_BLOCK),
        spec_transact(acc.state, txs[i], base_fee) == SpecTransact::Invalid(e),
        !(e is NonceTooLow),
    ensures
        ({
            let entry = BanEntry {
                sender: txs[i].sender,
                nonce: txs[i].nonce,
                hash: txs[i].hash,
                reason: crate::pool::InvalidPoolTransactionError::Consensus(crate::pool::InvalidTransactionError::TxTypeNotSupported),
            };
            &&& spec_pack(acc, txs, i, banned, skip_blob_txs, block_gas_limit, base_fee, false)
                == spec_pack(acc, txs, i + 1, banned.push(entry), skip_blob_txs, block_gas_limit, base_fee, false)
            &&& forall|t: SignedTx| t.sender == txs[i].sender && t.nonce > txs[i].nonce
                ==> spec_skipped(banned.push(entry), skip_blob_txs, t)
        }),
{
    let entry = BanEntry {
        sender: txs[i].sender,
        nonce: txs[i].nonce,
        hash: txs[i].hash,
        reason: crate::pool::InvalidPoolTransactionError::Consensus(crate::pool::InvalidTransactionError::TxTypeNotSupported),
    };
    assert forall|t: SignedTx| t.sender == txs[i].sender && t.nonce > txs[i].nonce
        implies spec_skipped(banned.push(entry), skip_blob_txs, t) by {
        assert(banned.push(entry)[banned.len() as int] == entry);
    }
}

} // verus!
