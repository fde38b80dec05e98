//! The transaction pool model: an ordered list of candidate transactions
//! and the best-transactions iterator the packing loop consumes, with its
//! two side channels `mark_invalid` and `skip_blobs`.

use vstd::prelude::*;
use crate::tx::SignedTx;
use crate::state::copy_vec;

verus! {

/// Why the packing loop evicts a transaction from the iterator.
#[derive(Clone, Copy, PartialEq, Eq, Structural, Debug)]
pub enum InvalidPoolTransactionError {
    /// The transaction cannot fit the remaining gas or blob-gas budget.
    ExceedsGasLimit {
        /// Gas the transaction would need.
        tx_gas: u64,
        /// Budget it ran into.
        block_gas: u64,
    },
    /// The transaction breaks a consensus rule that never changes.
    Consensus(InvalidTransactionError),
}

/// Consensus-level refusal recorded on eviction.
#[derive(Clone, Copy, PartialEq, Eq, Structural, Debug)]
pub enum InvalidTransactionError {
    /// The transaction kind is not supported.
    TxTypeNotSupported,
}

/// One eviction recorded by `mark_invalid`: the transaction's sender and
/// nonce ban its descendants, and the reason is kept for inspection.
#[derive(Clone, Copy, PartialEq, Eq, Structural, Debug)]
pub struct BanEntry {
    /// Sender of the evicted transaction.
    pub sender: usize,
    /// Nonce of the evicted transaction; higher nonces of the sender are banned.
    pub nonce: u64,
    /// Hash of the evicted transaction.
    pub hash: u64,
    /// Why it was evicted.
    pub reason: InvalidPoolTransactionError,
}

/// What the packing loop asks of the pool when it opens the iterator.
#[derive(Clone, Copy, PartialEq, Eq, Structural, Debug)]
pub struct BestTransactionsAttributes {
    /// Base fee of the block under construction.
    pub base_fee: u64,
    /// Blob gas price of the block, when Cancun is active.
    pub blob_gas_price: Option<u128>,
}

/// Mathematical view of the best-transactions iterator.
pub struct BestTxsView {
    /// The candidate transactions, best first.
    pub txs: Seq<SignedTx>,
    /// Next position to consider.
    pub pos: int,
    /// Evictions recorded so far.
    pub banned: Seq<BanEntry>,
    /// Whether blob transactions are no longer yielded.
    pub skip_blob_txs: bool,
}

/// Whether an eviction bans a transaction: the same sender at a strictly
/// higher nonce depends on the evicted transaction and leaves with it.
pub open spec fn spec_banned(banned: Seq<BanEntry>, tx: SignedTx) -> bool {
    exists|j: int| 0 <= j < banned.len()
        && (#[trigger] banned[j]).sender == tx.sender
        && tx.nonce > banned[j].nonce
}

/// Whether the iterator passes over a transaction without yielding it.
pub open spec fn spec_skipped(banned: Seq<BanEntry>, skip_blob_txs: bool, tx: SignedTx) -> bool {
    spec_banned(banned, tx) || (skip_blob_txs && tx.spec_is_eip4844())
}

/// The first position at or after `i` the iterator would yield, or the
/// length when it is exhausted.
pub open spec fn spec_first_live(txs: Seq<SignedTx>, i: int, banned: Seq<BanEntry>, skip_blob_txs: bool) -> int
    decreases txs.len() - i,
    when 0 <= i <= txs.len()
{
    if i == txs.len() {
        i
    } else if spec_skipped(banned, skip_blob_txs, txs[i]) {
        spec_first_live(txs, i + 1, banned, skip_blob_txs)
    } else {
        i
    }
}

/// The best-transactions iterator: candidates in pool order, a cursor, the
/// evictions recorded by `mark_invalid` and the blob shut-off.
pub struct BestTransactionsIter {
    /// The candidate transactions, best first.
    pub txs: Vec<SignedTx>,
    /// Next position to consider.
    pub pos: usize,
    /// Evictions recorded so far.
    pub banned: Vec<BanEntry>,
    /// Whether blob transactions are no longer yielded.
    pub skip_blob_txs: bool,
}

impl View for BestTransactionsIter {
    type V = BestTxsView;

    open spec fn view(&self) -> BestTxsView {
        BestTxsView {
            txs: self.txs@,
            pos: self.pos as int,
            banned: self.banned@,
            skip_blob_txs: self.skip_blob_txs,
        }
    }
}

impl BestTransactionsIter {
    /// Whether the iterator currently skips this transaction.
    fn is_skipped(&self, tx: &SignedTx) -> (r: bool)
        ensures
            r == spec_skipped(self@.banned, self@.skip_blob_txs, *tx),
    {
        if self.skip_blob_txs && tx.is_eip4844() {
            return true;
        }
        let mut j: usize = 0;
        while j < self.banned.len()
            invariant
                j <= self.banned.len(),
                forall|k: int| 0 <= k < j ==> !((#[trigger] self.banned@[k]).sender == tx.sender && tx.nonce > self.banned@[k].nonce),
                self@.banned == self.banned@,
            decreases self.banned.len() - j,
        {
            let b = self.banned[j];
            if b.sender == tx.sender && tx.nonce > b.nonce {
                return true;
            }
            j = j + 1;
        }
        false
    }

    /// Yields the next live candidate, advancing past skipped entries.
    pub fn next(&mut self) -> (r: Option<SignedTx>)
        requires
            old(self)@.pos <= old(self)@.txs.len(),
        ensures
            final(self)@.txs == old(self)@.txs,
            final(self)@.banned == old(self)@.banned,
            final(self)@.skip_blob_txs == old(self)@.skip_blob_txs,
            final(self)@.pos <= final(self)@.txs.len(),
            ({
                let j = spec_first_live(old(self)@.txs, old(self)@.pos, old(self)@.banned, old(self)@.skip_blob_txs);
                if j < old(self)@.txs.len() {
                    r == Option::Some(old(self)@.txs[j]) && final(self)@.pos == j + 1
                } else {
                    r is None && final(self)@.pos == j
                }
            }),
    {
        let ghost pre = self@;
        #[verifier::loop_isolation(false)]
        while self.pos < self.txs.len()
            invariant
                pre.pos <= self.pos as int <= self.txs.len(),
                self.txs@ == pre.txs,
                self.banned@ == pre.banned,
                self.skip_blob_txs == pre.skip_blob_txs,
                spec_first_live(pre.txs, pre.pos, pre.banned, pre.skip_blob_txs)
                    == spec_first_live(pre.txs, self.pos as int, pre.banned, pre.skip_blob_txs),
            decreases self.txs.len() - self.pos,
        {
            let tx = self.txs[self.pos];
            if !self.is_skipped(&tx) {
                self.pos = self.pos + 1;
                return Option::Some(tx);
            }
            self.pos = self.pos + 1;
        }
        Option::None
    }

    /// Records an eviction: the transaction's sender at strictly higher
    /// nonces is no longer yielded.
    pub fn mark_invalid(&mut self, tx: &SignedTx, reason: InvalidPoolTransactionError)
        ensures
            final(self)@ == (BestTxsView {
                banned: old(self)@.banned.push(BanEntry { sender: tx.sender, nonce: tx.nonce, hash: tx.hash, reason }),
                ..old(self)@
            }),
    {
        self.banned.push(BanEntry { sender: tx.sender, nonce: tx.nonce, hash: tx.hash, reason });
    }

    /// Announces that no further blob transaction will be accepted.
    pub fn skip_blobs(&mut self)
        ensures
            final(self)@ == (BestTxsView { skip_blob_txs: true, ..old(self)@ }),
    {
        self.skip_blob_txs = true;
    }
}

/// The mempool handle: candidate transactions in priority order, with the
/// blob sidecars carried by the blob transactions among them.
pub struct TransactionPool {
    /// Candidate transactions, best first.
    pub txs: Vec<SignedTx>,
}

/// The sidecar the pool holds for a blob transaction hash: the first blob
/// transaction with that hash, if any.
pub open spec fn spec_find_sidecar(txs: Seq<SignedTx>, hash: u64) -> Option<u64>
    decreases txs.len(),
{
    if txs.len() == 0 {
        Option::None
    } else if txs[0].hash == hash && txs[0].spec_is_eip4844() {
        Option::Some(txs[0].sidecar)
    } else {
        spec_find_sidecar(txs.skip(1), hash)
    }
}

/// The sidecars the pool returns for a list of blob transaction hashes, or
/// `None` when any hash is unknown.
pub open spec fn spec_blobs_exact(txs: Seq<SignedTx>, hashes: Seq<u64>) -> Option<Seq<u64>> {
    if forall|j: int| 0 <= j < hashes.len() ==> #[trigger] spec_find_sidecar(txs, hashes[j]) is Some {
        Option::Some(Seq::new(hashes.len(), |j: int| spec_find_sidecar(txs, hashes[j])->Some_0))
    } else {
        Option::None
    }
}

impl TransactionPool {
    /// A pool over the given candidates, best first.
    pub fn new(txs: Vec<SignedTx>) -> (r: TransactionPool)
        ensures
            r.txs@ == txs@,
    {
        TransactionPool { txs }
    }

    /// The pool that yields nothing.
    pub fn noop() -> (r: TransactionPool)
        ensures
            r.txs@ == Seq::<SignedTx>::empty(),
    {
        TransactionPool { txs: Vec::new() }
    }

    /// Opens the best-transactions iterator. The model pool is already
    /// ordered and filtered for the block's fees, so the attributes only
    /// record what the builder asked for.
    pub fn best_transactions_with_attributes(&self, _attributes: BestTransactionsAttributes) -> (r: BestTransactionsIter)
        ensures
            r@ == (BestTxsView { txs: self.txs@, pos: 0, banned: Seq::empty(), skip_blob_txs: false }),
    {
        BestTransactionsIter { txs: copy_vec(&self.txs), pos: 0, banned: Vec::new(), skip_blob_txs: false }
    }

    /// The sidecar stored for one blob transaction hash.
    fn find_sidecar(&self, hash: u64) -> (r: Option<u64>)
        ensures
            r == spec_find_sidecar(self.txs@, hash),
    {
        let mut j: usize = 0;
        proof {
            assert(self.txs@.skip(0) =~= self.txs@);
        }
        #[verifier::loop_isolation(false)]
        while j < self.txs.len()
            invariant
                j <= self.txs.len(),
                spec_find_sidecar(self.txs@, hash) == spec_find_sidecar(self.txs@.skip(j as int), hash),
            decreases self.txs.len() - j,
        {
            let tx = self.txs[j];
            proof {
                assert(self.txs@.skip(j as int)[0] == self.txs@[j as int]);
                assert(self.txs@.skip(j as int).skip(1) =~= self.txs@.skip(j + 1));
            }
            if tx.hash == hash && tx.is_eip4844() {
                return Option::Some(tx.sidecar);
            }
            j = j + 1;
        }
        proof {
            assert(self.txs@.skip(j as int).len() == 0);
        }
        Option::None
    }

    /// The sidecars for the given blob transaction hashes; fails as soon as
    /// one hash is unknown to the pool.
    pub fn get_all_blobs_exact(&self, hashes: &Vec<u64>) -> (r: Result<Vec<u64>, ()>)
        ensures
            match r {
                Result::Ok(sidecars) => spec_blobs_exact(self.txs@, hashes@) == Option::Some(sidecars@),
                Result::Err(()) => spec_blobs_exact(self.txs@, hashes@) is None,
            },
    {
        let mut out: Vec<u64> = Vec::new();
        let mut i: usize = 0;
        #[verifier::loop_isolation(false)]
        while i < hashes.len()
            invariant
                i <= hashes.len(),
                out@.len() == i,
                forall|j: int| 0 <= j < i ==> #[trigger] spec_find_sidecar(self.txs@, hashes@[j]) is Some,
                forall|j: int| 0 <= j < i ==> out@[j] == spec_find_sidecar(self.txs@, hashes@[j])->Some_0,
            decreases hashes.len() - i,
        {
            let h = hashes[i];
            let found = self.find_sidecar(h);
            if found.is_none() {
                return Result::Err(());
            }
            let s = found.unwrap();
            out.push(s);
            i = i + 1;
        }
        proof {
            let all = Seq::new(hashes@.len(), |j: int| spec_find_sidecar(self.txs@, hashes@[j])->Some_0);
            assert(out@ =~= all);
        }
        Result::Ok(out)
    }
}

} // verus!
