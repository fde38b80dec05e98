//! Headers, blocks and the consensus artifacts the finalizer computes:
//! transaction, receipt, withdrawal and state roots, the logs bloom, the
//! requests hash and the header seal, all over the model digest.

use vstd::prelude::*;
use crate::digest::spec_mix64;
use crate::digest::mix64;
use crate::digest::spec_mix_option;
use crate::digest::mix_option;
use crate::digest::spec_hi64;
use crate::digest::spec_lo64;
use crate::digest::u128_words;
use crate::digest::spec_bool_word;
use crate::digest::bool_word;
use crate::digest::DIGEST_SEED;
use crate::state::WorkingState;
use crate::state::StateView;
use crate::state::AccountInfo;
use crate::tx::SignedTx;
use crate::tx::Receipt;
use crate::tx::Withdrawal;
use crate::tx::Request;

verus! {

/// A block header over plain values.
#[derive(Clone, Copy, PartialEq, Eq, Structural, Debug)]
pub struct Header {
    /// Hash of the parent block.
    pub parent_hash: u64,
    /// Commitment to the (always empty) ommers list.
    pub ommers_hash: u64,
    /// Address collecting the block's fees.
    pub beneficiary: usize,
    /// Root of the post-execution state.
    pub state_root: u64,
    /// Root over the executed transactions.
    pub transactions_root: u64,
    /// Root over the receipts.
    pub receipts_root: u64,
    /// Root over the withdrawals; present iff Shanghai is active.
    pub withdrawals_root: Option<u64>,
    /// Union of the receipts' log data.
    pub logs_bloom: u64,
    /// Always zero after the merge.
    pub difficulty: u64,
    /// Block height.
    pub number: u64,
    /// Gas limit of the block.
    pub gas_limit: u64,
    /// Gas the block's transactions consumed.
    pub gas_used: u64,
    /// Timestamp from the build attributes.
    pub timestamp: u64,
    /// Builder's extra data stamp.
    pub extra_data: u64,
    /// Randomness from the build attributes.
    pub mix_hash: u64,
    /// The fixed post-merge beacon nonce.
    pub nonce: u64,
    /// Base fee of the block, when EIP-1559 applies.
    pub base_fee_per_gas: Option<u64>,
    /// Parent beacon root from the attributes; present iff Cancun is active.
    pub parent_beacon_block_root: Option<u64>,
    /// Blob gas the block used; present iff Cancun is active.
    pub blob_gas_used: Option<u64>,
    /// Rolling blob gas excess; present iff Cancun is active.
    pub excess_blob_gas: Option<u64>,
    /// EIP-7685 requests hash; present iff Prague is active.
    pub requests_hash: Option<u64>,
}

/// A header together with its seal.
#[derive(Clone, Copy, PartialEq, Eq, Structural, Debug)]
pub struct SealedHeader {
    /// The header.
    pub header: Header,
    /// Its hash.
    pub hash: u64,
}

/// Mathematical view of a block body.
pub struct BlockBodyView {
    /// Executed transactions in inclusion order.
    pub transactions: Seq<SignedTx>,
    /// Ommers; always empty after the merge.
    pub ommers: Seq<u64>,
    /// Withdrawals; present iff Shanghai is active.
    pub withdrawals: Option<Seq<Withdrawal>>,
}

/// A block body: the executed transactions, the (empty) ommers list and the
/// withdrawals where Shanghai is active.
pub struct BlockBody {
    /// Executed transactions in inclusion order.
    pub transactions: Vec<SignedTx>,
    /// Ommers; always empty after the merge.
    pub ommers: Vec<u64>,
    /// Withdrawals; present iff Shanghai is active.
    pub withdrawals: Option<Vec<Withdrawal>>,
}

impl View for BlockBody {
    type V = BlockBodyView;

    open spec fn view(&self) -> BlockBodyView {
        BlockBodyView {
            transactions: self.transactions@,
            ommers: self.ommers@,
            withdrawals: match self.withdrawals {
                Option::Some(ref w) => Option::Some(w@),
                Option::None => Option::None,
            },
        }
    }
}

/// Mathematical view of a sealed block.
pub struct SealedBlockView {
    /// The header.
    pub header: Header,
    /// The body.
    pub body: BlockBodyView,
    /// The seal over the header.
    pub hash: u64,
}

/// A header and body sealed under the header's hash.
pub struct SealedBlock {
    /// The header.
    pub header: Header,
    /// The body.
    pub body: BlockBody,
    /// The seal over the header.
    pub hash: u64,
}

impl View for SealedBlock {
    type V = SealedBlockView;

    open spec fn view(&self) -> SealedBlockView {
        SealedBlockView { header: self.header, body: self.body@, hash: self.hash }
    }
}

/// The words one transaction folds into a digest.
pub open spec fn spec_tx_digest(h: u64, tx: SignedTx) -> u64 {
    let h1 = spec_mix64(h, tx.hash);
    let h2 = spec_mix64(h1, tx.sender as u64);
    let h3 = spec_mix64(h2, tx.to as u64);
    let h4 = spec_mix64(h3, tx.nonce);
    let h5 = spec_mix64(h4, tx.tx_type as u64);
    let h6 = spec_mix64(h5, tx.gas_limit);
    let h7 = spec_mix64(h6, tx.max_fee_per_gas);
    let h8 = spec_mix64(h7, tx.max_priority_fee_per_gas);
    let h9 = spec_mix64(h8, tx.blob_gas);
    let h10 = spec_mix64(h9, tx.sidecar);
    let h11 = spec_mix64(h10, spec_hi64(tx.value));
    let h12 = spec_mix64(h11, spec_lo64(tx.value));
    let h13 = spec_mix64(h12, tx.gas_used);
    let h14 = spec_mix64(h13, spec_bool_word(tx.reverted));
    let h15 = spec_mix64(h14, spec_bool_word(tx.unsupported));
    let h16 = spec_mix64(h15, spec_bool_word(tx.db_fault));
    let h17 = spec_mix64(h16, tx.log_word);
    spec_mix_option(h17, tx.deposit)
}

/// The words one transaction folds into a digest.
fn tx_digest(h: u64, tx: &SignedTx) -> (r: u64)
    ensures
        r == spec_tx_digest(h, *tx),
{
    let (vh, vl) = u128_words(tx.value);
    let mut d = mix64(h, tx.hash);
    d = mix64(d, tx.sender as u64);
    d = mix64(d, tx.to as u64);
    d = mix64(d, tx.nonce);
    d = mix64(d, tx.tx_type as u64);
    d = mix64(d, tx.gas_limit);
    d = mix64(d, tx.max_fee_per_gas);
    d = mix64(d, tx.max_priority_fee_per_gas);
    d = mix64(d, tx.blob_gas);
    d = mix64(d, tx.sidecar);
    d = mix64(d, vh);
    d = mix64(d, vl);
    d = mix64(d, tx.gas_used);
    d = mix64(d, bool_word(tx.reverted));
    d = mix64(d, bool_word(tx.unsupported));
    d = mix64(d, bool_word(tx.db_fault));
    d = mix64(d, tx.log_word);
    mix_option(d, tx.deposit)
}

/// The digest of a transaction list from position `i` onward.
pub open spec fn spec_txs_root_from(txs: Seq<SignedTx>, i: int, h: u64) -> u64
    decreases txs.len() - i,
    when 0 <= i <= txs.len()
{
    if i == txs.len() {
        h
    } else {
        spec_txs_root_from(txs, i + 1, spec_tx_digest(h, txs[i]))
    }
}

/// The root committing to the executed transactions.
pub open spec fn spec_transactions_root(txs: Seq<SignedTx>) -> u64 {
    spec_txs_root_from(txs, 0, DIGEST_SEED)
}

/// The root committing to the executed transactions.
pub fn calculate_transaction_root(txs: &Vec<SignedTx>) -> (r: u64)
    ensures
        r == spec_transactions_root(txs@),
{
    let mut h = DIGEST_SEED;
    let mut i: usize = 0;
    #[verifier::loop_isolation(false)]
    while i < txs.len()
        invariant
            i <= txs.len(),
            spec_txs_root_from(txs@, 0, DIGEST_SEED) == spec_txs_root_from(txs@, i as int, h),
        decreases txs.len() - i,
    {
        h = tx_digest(h, &txs[i]);
        i = i + 1;
    }
    h
}

/// The words one receipt folds into a digest.
pub open spec fn spec_receipt_digest(h: u64, r: Receipt) -> u64 {
    let h1 = spec_mix64(h, r.tx_type as u64);
    let h2 = spec_mix64(h1, spec_bool_word(r.success));
    let h3 = spec_mix64(h2, r.cumulative_gas_used);
    let h4 = spec_mix64(h3, r.log_word);
    spec_mix_option(h4, r.deposit)
}

/// The digest of a receipt list from position `i` onward.
pub open spec fn spec_receipts_root_from(receipts: Seq<Receipt>, i: int, h: u64) -> u64
    decreases receipts.len() - i,
    when 0 <= i <= receipts.len()
{
    if i == receipts.len() {
        h
    } else {
        spec_receipts_root_from(receipts, i + 1, spec_receipt_digest(h, receipts[i]))
    }
}

/// The root committing to the receipts.
pub open spec fn spec_receipts_root(receipts: Seq<Receipt>) -> u64 {
    spec_receipts_root_from(receipts, 0, DIGEST_SEED)
}

/// The root committing to the receipts.
pub fn calculate_receipt_root(receipts: &Vec<Receipt>) -> (r: u64)
    ensures
        r == spec_receipts_root(receipts@),
{
    let mut h = DIGEST_SEED;
    let mut i: usize = 0;
    #[verifier::loop_isolation(false)]
    while i < receipts.len()
        invariant
            i <= receipts.len(),
            spec_receipts_root_from(receipts@, 0, DIGEST_SEED) == spec_receipts_root_from(receipts@, i as int, h),
        decreases receipts.len() - i,
    {
        let rc = receipts[i];
        let mut d = mix64(h, rc.tx_type as u64);
        d = mix64(d, bool_word(rc.success));
        d = mix64(d, rc.cumulative_gas_used);
        d = mix64(d, rc.log_word);
        h = mix_option(d, rc.deposit);
        i = i + 1;
    }
    h
}

/// The union of the receipts' log data up to position `i`.
pub open spec fn spec_bloom_from(receipts: Seq<Receipt>, i: int) -> u64
    decreases i,
    when 0 <= i <= receipts.len()
{
    if i <= 0 {
        0u64
    } else {
        spec_bloom_from(receipts, i - 1) | receipts[i - 1].log_word
    }
}

/// The logs bloom: the union of every receipt's log data.
pub open spec fn spec_logs_bloom(receipts: Seq<Receipt>) -> u64 {
    spec_bloom_from(receipts, receipts.len() as int)
}

/// The logs bloom: the union of every receipt's log data.
pub fn calculate_logs_bloom(receipts: &Vec<Receipt>) -> (r: u64)
    ensures
        r == spec_logs_bloom(receipts@),
{
    let mut b: u64 = 0;
    let mut i: usize = 0;
    #[verifier::loop_isolation(false)]
    while i < receipts.len()
        invariant
            i <= receipts.len(),
            b == spec_bloom_from(receipts@, i as int),
        decreases receipts.len() - i,
    {
        b = b | receipts[i].log_word;
        i = i + 1;
    }
    b
}

/// The words one withdrawal folds into a digest.
pub open spec fn spec_withdrawal_digest(h: u64, w: Withdrawal) -> u64 {
    let h1 = spec_mix64(h, w.index);
    let h2 = spec_mix64(h1, w.validator_index);
    let h3 = spec_mix64(h2, w.address as u64);
    spec_mix64(h3, w.amount_gwei)
}

/// The digest of a withdrawal list from position `i` onward.
pub open spec fn spec_withdrawals_root_from(ws: Seq<Withdrawal>, i: int, h: u64) -> u64
    decreases ws.len() - i,
    when 0 <= i <= ws.len()
{
    if i == ws.len() {
        h
    } else {
        spec_withdrawals_root_from(ws, i + 1, spec_withdrawal_digest(h, ws[i]))
    }
}

/// The root committing to the withdrawals.
pub open spec fn spec_withdrawals_root(ws: Seq<Withdrawal>) -> u64 {
    spec_withdrawals_root_from(ws, 0, DIGEST_SEED)
}

/// The root committing to the withdrawals.
pub fn calculate_withdrawals_root(ws: &Vec<Withdrawal>) -> (r: u64)
    ensures
        r == spec_withdrawals_root(ws@),
{
    let mut h = DIGEST_SEED;
    let mut i: usize = 0;
    #[verifier::loop_isolation(false)]
    while i < ws.len()
        invariant
            i <= ws.len(),
            spec_withdrawals_root_from(ws@, 0, DIGEST_SEED) == spec_withdrawals_root_from(ws@, i as int, h),
        decreases ws.len() - i,
    {
        let w = ws[i];
        let mut d = mix64(h, w.index);
        d = mix64(d, w.validator_index);
        d = mix64(d, w.address as u64);
        h = mix64(d, w.amount_gwei);
        i = i + 1;
    }
    h
}

/// The digest of a request list from position `i` onward.
pub open spec fn spec_requests_hash_from(rs: Seq<Request>, i: int, h: u64) -> u64
    decreases rs.len() - i,
    when 0 <= i <= rs.len()
{
    if i == rs.len() {
        h
    } else {
        spec_requests_hash_from(rs, i + 1, spec_mix64(spec_mix64(h, rs[i].request_type as u64), rs[i].payload))
    }
}

/// The EIP-7685 hash over the typed requests.
pub open spec fn spec_requests_hash(rs: Seq<Request>) -> u64 {
    spec_requests_hash_from(rs, 0, DIGEST_SEED)
}

/// The EIP-7685 hash over the typed requests.
pub fn calculate_requests_hash(rs: &Vec<Request>) -> (r: u64)
    ensures
        r == spec_requests_hash(rs@),
{
    let mut h = DIGEST_SEED;
    let mut i: usize = 0;
    #[verifier::loop_isolation(false)]
    while i < rs.len()
        invariant
            i <= rs.len(),
            spec_requests_hash_from(rs@, 0, DIGEST_SEED) == spec_requests_hash_from(rs@, i as int, h),
        decreases rs.len() - i,
    {
        h = mix64(mix64(h, rs[i].request_type as u64), rs[i].payload);
        i = i + 1;
    }
    h
}

/// The words one account folds into a digest.
pub open spec fn spec_account_digest(h: u64, a: AccountInfo) -> u64 {
    let h1 = spec_mix64(h, a.nonce);
    let h2 = spec_mix64(h1, spec_hi64(a.balance));
    spec_mix64(h2, spec_lo64(a.balance))
}

/// The digest of the account table from position `i` onward.
pub open spec fn spec_accounts_digest_from(accounts: Seq<AccountInfo>, i: int, h: u64) -> u64
    decreases accounts.len() - i,
    when 0 <= i <= accounts.len()
{
    if i == accounts.len() {
        h
    } else {
        spec_accounts_digest_from(accounts, i + 1, spec_account_digest(h, accounts[i]))
    }
}

/// The digest of queued requests from position `i` onward.
pub open spec fn spec_el_requests_digest_from(rs: Seq<Request>, i: int, h: u64) -> u64
    decreases rs.len() - i,
    when 0 <= i <= rs.len()
{
    if i == rs.len() {
        h
    } else {
        spec_el_requests_digest_from(rs, i + 1, spec_mix64(spec_mix64(h, rs[i].request_type as u64), rs[i].payload))
    }
}

/// The root committing to the working state: every account, the system-call
/// markers and the queued consensus-layer requests.
pub open spec fn spec_state_root(s: StateView) -> u64 {
    let h1 = spec_accounts_digest_from(s.accounts, 0, DIGEST_SEED);
    let h2 = spec_mix_option(h1, s.beacon_root);
    let h3 = spec_mix_option(h2, s.history_parent_hash);
    spec_el_requests_digest_from(s.el_requests, 0, h3)
}

/// The root committing to the working state.
pub fn calculate_state_root(state: &WorkingState) -> (r: u64)
    ensures
        r == spec_state_root(state@),
{
    let mut h = DIGEST_SEED;
    let mut i: usize = 0;
    #[verifier::loop_isolation(false)]
    while i < state.accounts.len()
        invariant
            i <= state.accounts.len(),
            spec_accounts_digest_from(state.accounts@, 0, DIGEST_SEED) == spec_accounts_digest_from(state.accounts@, i as int, h),
        decreases state.accounts.len() - i,
    {
        let a = state.accounts[i];
        let (bh, bl) = u128_words(a.balance);
        h = mix64(mix64(mix64(h, a.nonce), bh), bl);
        i = i + 1;
    }
    h = mix_option(h, state.beacon_root);
    h = mix_option(h, state.history_parent_hash);
    let mut j: usize = 0;
    #[verifier::loop_isolation(false)]
    while j < state.el_requests.len()
        invariant
            j <= state.el_requests.len(),
            spec_state_root(state@) == spec_el_requests_digest_from(state.el_requests@, j as int, h),
        decreases state.el_requests.len() - j,
    {
        let rq = state.el_requests[j];
        h = mix64(mix64(h, rq.request_type as u64), rq.payload);
        j = j + 1;
    }
    h
}

/// The words a header folds into its seal.
pub open spec fn spec_header_digest(h: Header) -> u64 {
    let d1 = spec_mix64(DIGEST_SEED, h.parent_hash);
    let d2 = spec_mix64(d1, h.ommers_hash);
    let d3 = spec_mix64(d2, h.beneficiary as u64);
    let d4 = spec_mix64(d3, h.state_root);
    let d5 = spec_mix64(d4, h.transactions_root);
    let d6 = spec_mix64(d5, h.receipts_root);
    let d7 = spec_mix_option(d6, h.withdrawals_root);
    let d8 = spec_mix64(d7, h.logs_bloom);
    let d9 = spec_mix64(d8, h.difficulty);
    let d10 = spec_mix64(d9, h.number);
    let d11 = spec_mix64(d10, h.gas_limit);
    let d12 = spec_mix64(d11, h.gas_used);
    let d13 = spec_mix64(d12, h.timestamp);
    let d14 = spec_mix64(d13, h.extra_data);
    let d15 = spec_mix64(d14, h.mix_hash);
    let d16 = spec_mix64(d15, h.nonce);
    let d17 = spec_mix_option(d16, h.base_fee_per_gas);
    let d18 = spec_mix_option(d17, h.parent_beacon_block_root);
    let d19 = spec_mix_option(d18, h.blob_gas_used);
    let d20 = spec_mix_option(d19, h.excess_blob_gas);
    spec_mix_option(d20, h.requests_hash)
}

/// Seals a header: computes its hash.
pub fn seal_header(h: &Header) -> (r: SealedHeader)
    ensures
        r.header == *h,
        r.hash == spec_header_digest(*h),
{
    let mut d = mix64(DIGEST_SEED, h.parent_hash);
    d = mix64(d, h.ommers_hash);
    d = mix64(d, h.beneficiary as u64);
    d = mix64(d, h.state_root);
    d = mix64(d, h.transactions_root);
    d = mix64(d, h.receipts_root);
    d = mix_option(d, h.withdrawals_root);
    d = mix64(d, h.logs_bloom);
    d = mix64(d, h.difficulty);
    d = mix64(d, h.number);
    d = mix64(d, h.gas_limit);
    d = mix64(d, h.gas_used);
    d = mix64(d, h.timestamp);
    d = mix64(d, h.extra_data);
    d = mix64(d, h.mix_hash);
    d = mix64(d, h.nonce);
    d = mix_option(d, h.base_fee_per_gas);
    d = mix_option(d, h.parent_beacon_block_root);
    d = mix_option(d, h.blob_gas_used);
    d = mix_option(d, h.excess_blob_gas);
    d = mix_option(d, h.requests_hash);
    SealedHeader { header: *h, hash: d }
}

} // verus!
