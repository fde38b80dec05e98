//! The working state a build attempt executes against, and the model EVM:
//! a deterministic account machine with nonce, balance and fee accounting.

use vstd::prelude::*;
use crate::tx::SignedTx;
use crate::tx::Request;
use crate::tx::Withdrawal;
use crate::tx::GWEI_TO_WEI;
use crate::chain::ChainSpec;

verus! {

/// Nonce and balance of one account.
#[derive(Clone, Copy, PartialEq, Eq, Structural, Debug)]
pub struct AccountInfo {
    /// Next nonce the account may spend.
    pub nonce: u64,
    /// Balance in wei.
    pub balance: u128,
}

/// The account an address holds before anything touched it.
pub open spec fn spec_default_account() -> AccountInfo {
    AccountInfo { nonce: 0, balance: 0 }
}

/// Mathematical view of the working state.
pub struct StateView {
    /// The account table; addresses beyond it hold the default account.
    pub accounts: Seq<AccountInfo>,
    /// Beacon root stored by the pre-block system call, if it ran.
    pub beacon_root: Option<u64>,
    /// Parent hash stored by the pre-block history call, if it ran.
    pub history_parent_hash: Option<u64>,
    /// Withdrawal and consolidation requests queued by system contracts.
    pub el_requests: Seq<Request>,
}

impl StateView {
    /// The account at an address.
    pub open spec fn account(self, a: usize) -> AccountInfo {
        if a < self.accounts.len() {
            self.accounts[a as int]
        } else {
            spec_default_account()
        }
    }

    /// The state with one account replaced, the table grown as needed.
    pub open spec fn with_account(self, a: usize, info: AccountInfo) -> StateView {
        let grown = if a < self.accounts.len() {
            self.accounts
        } else {
            self.accounts + Seq::new((a + 1 - self.accounts.len()) as nat, |i: int| spec_default_account())
        };
        StateView { accounts: grown.update(a as int, info), ..self }
    }
}

/// The layered state a build attempt writes to.
pub struct WorkingState {
    /// The account table; addresses index it.
    pub accounts: Vec<AccountInfo>,
    /// Beacon root stored by the pre-block system call, if it ran.
    pub beacon_root: Option<u64>,
    /// Parent hash stored by the pre-block history call, if it ran.
    pub history_parent_hash: Option<u64>,
    /// Withdrawal and consolidation requests queued by system contracts.
    pub el_requests: Vec<Request>,
}

impl View for WorkingState {
    type V = StateView;

    open spec fn view(&self) -> StateView {
        StateView {
            accounts: self.accounts@,
            beacon_root: self.beacon_root,
            history_parent_hash: self.history_parent_hash,
            el_requests: self.el_requests@,
        }
    }
}

/// Copies a vector of plain values element by element.
pub fn copy_vec<T: Copy>(src: &Vec<T>) -> (r: Vec<T>)
    ensures
        r@ == src@,
{
    let mut r: Vec<T> = Vec::new();
    let mut i: usize = 0;
    while i < src.len()
        invariant
            i <= src.len(),
            r@ == src@.take(i as int),
        decreases src.len() - i,
    {
        r.push(src[i]);
        proof {
            assert(r@ =~= src@.take(i + 1));
        }
        i = i + 1;
    }
    proof {
        assert(src@.take(src@.len() as int) =~= src@);
    }
    r
}

impl Clone for WorkingState {
    fn clone(&self) -> (r: Self)
        ensures
            r@ == self@,
    {
        WorkingState {
            accounts: copy_vec(&self.accounts),
            beacon_root: self.beacon_root,
            history_parent_hash: self.history_parent_hash,
            el_requests: copy_vec(&self.el_requests),
        }
    }
}

impl WorkingState {
    /// The account at an address.
    pub fn account(&self, a: usize) -> (r: AccountInfo)
        ensures
            r == self@.account(a),
    {
        if a < self.accounts.len() {
            self.accounts[a]
        } else {
            AccountInfo { nonce: 0, balance: 0 }
        }
    }

    /// Replaces one account, growing the table as needed.
    pub fn set_account(&mut self, a: usize, info: AccountInfo)
        ensures
            final(self)@ == old(self)@.with_account(a, info),
    {
        let ghost pre = self@;
        if a >= self.accounts.len() {
            while self.accounts.len() <= a
                invariant
                    self.beacon_root == pre.beacon_root,
                    self.history_parent_hash == pre.history_parent_hash,
                    self.el_requests@ == pre.el_requests,
                    pre.accounts.len() <= self.accounts@.len() <= a + 1,
                    self.accounts@ =~= pre.accounts + Seq::new((self.accounts@.len() - pre.accounts.len()) as nat, |i: int| spec_default_account()),
                decreases a + 1 - self.accounts.len(),
            {
                self.accounts.push(AccountInfo { nonce: 0, balance: 0 });
            }
        }
        self.accounts.set(a, info);
        proof {
            assert(self@.accounts =~= pre.with_account(a, info).accounts);
        }
    }
}

/// Replacing one account changes that account and no other.
pub proof fn lemma_account_after_update(s: StateView, a: usize, info: AccountInfo, b: usize)
    ensures
        s.with_account(a, info).account(b) == (if a == b { info } else { s.account(b) }),
{
    let grown = if a < s.accounts.len() {
        s.accounts
    } else {
        s.accounts + Seq::new((a + 1 - s.accounts.len()) as nat, |i: int| spec_default_account())
    };
    if a != b && b < grown.len() && b >= s.accounts.len() {
        assert(grown[b as int] == spec_default_account());
    }
}

/// Why the model EVM refuses a transaction without executing it.
#[derive(Clone, Copy, PartialEq, Eq, Structural, Debug)]
pub enum InvalidTransaction {
    /// The signed nonce lies below the sender's account nonce.
    NonceTooLow,
    /// The signed nonce lies above the sender's account nonce.
    NonceTooHigh,
    /// The balance cannot cover the fee cap times the gas limit plus value.
    LackOfFundForMaxFee,
    /// The fee cap lies below the block base fee.
    GasPriceLessThanBasefee,
    /// The sender's nonce cannot be incremented further.
    NonceOverflow,
    /// Crediting the recipient would overflow its balance.
    OverflowPayment,
    /// The transaction kind is not supported; this never changes.
    TxTypeNotSupported,
}

impl InvalidTransaction {
    /// Whether the refusal may lift once other transactions commit: a nonce
    /// above the account's can be reached, and funds can arrive.
    pub open spec fn spec_is_transient(self) -> bool {
        self is NonceTooHigh || self is LackOfFundForMaxFee
    }

    /// Whether the refusal may lift once other transactions commit.
    pub fn is_transient(&self) -> (r: bool)
        ensures
            r == self.spec_is_transient(),
    {
        match self {
            InvalidTransaction::NonceTooHigh => true,
            InvalidTransaction::LackOfFundForMaxFee => true,
            _ => false,
        }
    }
}

/// What submitting a transaction to the model EVM produced.
#[derive(Clone, Copy, PartialEq, Eq, Structural, Debug)]
pub enum TransactResult {
    /// A fault below the transaction level; fatal to the build attempt.
    Fatal,
    /// The transaction was refused; the state is unchanged.
    Invalid(InvalidTransaction),
    /// The transaction executed and its effects were committed.
    Executed {
        /// Gas the execution consumed.
        gas_used: u64,
        /// Whether it succeeded (false: it reverted, but is still included).
        success: bool,
    },
}

/// Submitting a transaction to the model EVM, with the committed post-state.
pub enum SpecTransact {
    /// A fault below the transaction level.
    Fatal,
    /// The transaction was refused; the state is unchanged.
    Invalid(InvalidTransaction),
    /// The transaction executed against the state.
    Executed {
        /// State after the effects committed.
        post: StateView,
        /// Gas the execution consumed.
        gas_used: u64,
        /// Whether it succeeded.
        success: bool,
    },
}

/// What the model EVM does with a transaction against a state: it faults if
/// the transaction is marked as faulting the database; refuses unsupported
/// kinds, fee caps below the base fee, wrong nonces and short balances; and
/// otherwise charges the fee, moves the value on success and bumps the
/// sender's nonce.
pub open spec fn spec_transact(s: StateView, tx: SignedTx, base_fee: u64) -> SpecTransact {
    if tx.db_fault {
        SpecTransact::Fatal
    } else if tx.unsupported {
        SpecTransact::Invalid(InvalidTransaction::TxTypeNotSupported)
    } else if tx.max_fee_per_gas < base_fee {
        SpecTransact::Invalid(InvalidTransaction::GasPriceLessThanBasefee)
    } else {
        let sender = s.account(tx.sender);
        if tx.nonce < sender.nonce {
            SpecTransact::Invalid(InvalidTransaction::NonceTooLow)
        } else if tx.nonce > sender.nonce {
            SpecTransact::Invalid(InvalidTransaction::NonceTooHigh)
        } else if sender.nonce == u64::MAX {
            SpecTransact::Invalid(InvalidTransaction::NonceOverflow)
        } else if sender.balance < tx.gas_limit * tx.max_fee_per_gas
            || sender.balance - tx.gas_limit * tx.max_fee_per_gas < tx.value {
            SpecTransact::Invalid(InvalidTransaction::LackOfFundForMaxFee)
        } else {
            let success = !tx.reverted;
            let tip = tx.spec_effective_tip_per_gas(base_fee)->Some_0;
            let price = (base_fee + tip) as u64;
            let charge = price * tx.gas_used + if success { tx.value } else { 0 };
            let debited = AccountInfo {
                nonce: (sender.nonce + 1) as u64,
                balance: (sender.balance - charge) as u128,
            };
            let s1 = s.with_account(tx.sender, debited);
            if success {
                let recipient = s1.account(tx.to);
                if recipient.balance + tx.value > u128::MAX {
                    SpecTransact::Invalid(InvalidTransaction::OverflowPayment)
                } else {
                    let credited = AccountInfo {
                        nonce: recipient.nonce,
                        balance: (recipient.balance + tx.value) as u128,
                    };
                    SpecTransact::Executed {
                        post: s1.with_account(tx.to, credited),
                        gas_used: tx.gas_used,
                        success: true,
                    }
                }
            } else {
                SpecTransact::Executed { post: s1, gas_used: tx.gas_used, success: false }
            }
        }
    }
}

/// What an execution does to nonces: the sender spent exactly its account
/// nonce and moved one past it; every other account's nonce is untouched.
pub proof fn lemma_transact_nonces(s: StateView, tx: SignedTx, base_fee: u64)
    requires
        spec_transact(s, tx, base_fee) is Executed,
    ensures
        ({
            let post = spec_transact(s, tx, base_fee)->Executed_post;
            &&& tx.nonce == s.account(tx.sender).nonce
            &&& tx.nonce < u64::MAX
            &&& post.account(tx.sender).nonce == tx.nonce + 1
            &&& forall|a: usize| a != tx.sender ==> (#[trigger] post.account(a)).nonce == s.account(a).nonce
        }),
{
    let post = spec_transact(s, tx, base_fee)->Executed_post;
    let sender = s.account(tx.sender);
    let tip = tx.spec_effective_tip_per_gas(base_fee)->Some_0;
    let price = (base_fee + tip) as u64;
    let charge = price * tx.gas_used + if !tx.reverted { tx.value } else { 0 };
    let debited = AccountInfo {
        nonce: (sender.nonce + 1) as u64,
        balance: (sender.balance - charge) as u128,
    };
    let s1 = s.with_account(tx.sender, debited);
    lemma_account_after_update(s, tx.sender, debited, tx.sender);
    assert forall|a: usize| a != tx.sender implies (#[trigger] post.account(a)).nonce == s.account(a).nonce by {
        lemma_account_after_update(s, tx.sender, debited, a);
        if !tx.reverted {
            let recipient = s1.account(tx.to);
            let credited = AccountInfo { nonce: recipient.nonce, balance: (recipient.balance + tx.value) as u128 };
            lemma_account_after_update(s1, tx.to, credited, a);
            if a == tx.to {
                lemma_account_after_update(s, tx.sender, debited, tx.to);
            }
        }
    }
    if !tx.reverted {
        let recipient = s1.account(tx.to);
        let credited = AccountInfo { nonce: recipient.nonce, balance: (recipient.balance + tx.value) as u128 };
        lemma_account_after_update(s1, tx.to, credited, tx.sender);
        if tx.to == tx.sender {
            lemma_account_after_update(s, tx.sender, debited, tx.to);
        }
    }
}

/// The fee actually charged never exceeds the reserved maximum cost.
proof fn lemma_charge_within_reserve(tx: SignedTx, base_fee: u64, tip: u64)
    requires
        tx.wf(),
        base_fee <= tx.max_fee_per_gas,
        base_fee + tip <= tx.max_fee_per_gas,
    ensures
        (base_fee + tip) * tx.gas_used <= tx.gas_limit * tx.max_fee_per_gas,
{
    assert((base_fee + tip) * tx.gas_used <= tx.gas_limit * tx.max_fee_per_gas) by (nonlinear_arith)
        requires
            base_fee + tip <= tx.max_fee_per_gas,
            tx.gas_used <= tx.gas_limit,
            0 <= base_fee + tip,
            0 <= tx.gas_used,
    ;
}

/// Submits a transaction to the model EVM; on execution the effects are
/// committed to the state, on refusal or fault the state is unchanged.
pub fn transact(state: &mut WorkingState, tx: &SignedTx, base_fee: u64) -> (r: TransactResult)
    requires
        tx.wf(),
    ensures
        match spec_transact(old(state)@, *tx, base_fee) {
            SpecTransact::Fatal => r is Fatal && final(state)@ == old(state)@,
            SpecTransact::Invalid(e) => r == TransactResult::Invalid(e) && final(state)@ == old(state)@,
            SpecTransact::Executed { post, gas_used, success } => {
                &&& r == (TransactResult::Executed { gas_used, success })
                &&& final(state)@ == post
            },
        },
{
    if tx.db_fault {
        return TransactResult::Fatal;
    }
    if tx.unsupported {
        return TransactResult::Invalid(InvalidTransaction::TxTypeNotSupported);
    }
    if tx.max_fee_per_gas < base_fee {
        return TransactResult::Invalid(InvalidTransaction::GasPriceLessThanBasefee);
    }
    let sender = state.account(tx.sender);
    if tx.nonce < sender.nonce {
        return TransactResult::Invalid(InvalidTransaction::NonceTooLow);
    }
    if tx.nonce > sender.nonce {
        return TransactResult::Invalid(InvalidTransaction::NonceTooHigh);
    }
    if sender.nonce == u64::MAX {
        return TransactResult::Invalid(InvalidTransaction::NonceOverflow);
    }
    proof {
        crate::chain::lemma_u64_product_fits(tx.gas_limit, tx.max_fee_per_gas);
    }
    let max_cost: u128 = tx.gas_limit as u128 * tx.max_fee_per_gas as u128;
    if sender.balance < max_cost || sender.balance - max_cost < tx.value {
        return TransactResult::Invalid(InvalidTransaction::LackOfFundForMaxFee);
    }
    let success = !tx.reverted;
    let tip = match tx.effective_tip_per_gas(base_fee) {
        Option::Some(t) => t,
        Option::None => 0,
    };
    let price = base_fee + tip;
    proof {
        lemma_charge_within_reserve(*tx, base_fee, tip);
    }
    let charge: u128 = price as u128 * tx.gas_used as u128
        + if success { tx.value } else { 0 };
    let debited = AccountInfo { nonce: sender.nonce + 1, balance: sender.balance - charge };
    if success {
        // the recipient is read as it stands after the debit, so that a
        // self-payment sees its own fee deduction
        let recipient = if tx.to == tx.sender { debited } else { state.account(tx.to) };
        if tx.value > u128::MAX - recipient.balance {
            // the model refuses payments it cannot represent, before it
            // touches the state
            return TransactResult::Invalid(InvalidTransaction::OverflowPayment);
        }
        let credited = AccountInfo { nonce: recipient.nonce, balance: recipient.balance + tx.value };
        state.set_account(tx.sender, debited);
        state.set_account(tx.to, credited);
        TransactResult::Executed { gas_used: tx.gas_used, success: true }
    } else {
        state.set_account(tx.sender, debited);
        TransactResult::Executed { gas_used: tx.gas_used, success: false }
    }
}

/// Pre-block EIP-4788 system call: while Cancun is active, store the
/// attributes' parent beacon root; it produces no receipt and burns no
/// block gas.
pub fn pre_block_beacon_root_call(state: &mut WorkingState, chain_spec: &ChainSpec, timestamp: u64, parent_beacon_block_root: Option<u64>)
    ensures
        final(state)@ == spec_beacon_root_call(old(state)@, *chain_spec, timestamp, parent_beacon_block_root),
{
    if chain_spec.is_cancun_active_at_timestamp(timestamp) {
        state.beacon_root = parent_beacon_block_root;
    }
}

/// The state after the pre-block EIP-4788 system call.
pub open spec fn spec_beacon_root_call(s: StateView, chain_spec: ChainSpec, timestamp: u64, parent_beacon_block_root: Option<u64>) -> StateView {
    if chain_spec.spec_is_cancun_active_at_timestamp(timestamp) {
        StateView { beacon_root: parent_beacon_block_root, ..s }
    } else {
        s
    }
}

/// Pre-block EIP-2935 system call: while Prague is active, store the parent
/// block hash in the history contract; no receipt, no block gas.
pub fn pre_block_blockhashes_call(state: &mut WorkingState, chain_spec: &ChainSpec, timestamp: u64, parent_hash: u64)
    ensures
        final(state)@ == spec_blockhashes_call(old(state)@, *chain_spec, timestamp, parent_hash),
{
    if chain_spec.is_prague_active_at_timestamp(timestamp) {
        state.history_parent_hash = Option::Some(parent_hash);
    }
}

/// The state after the pre-block EIP-2935 system call.
pub open spec fn spec_blockhashes_call(s: StateView, chain_spec: ChainSpec, timestamp: u64, parent_hash: u64) -> StateView {
    if chain_spec.spec_is_prague_active_at_timestamp(timestamp) {
        StateView { history_parent_hash: Option::Some(parent_hash), ..s }
    } else {
        s
    }
}

/// Post-block system call: drains the withdrawal and consolidation requests
/// the system contracts queued.
pub fn apply_post_execution_changes(state: &mut WorkingState) -> (r: Vec<Request>)
    ensures
        r@ == old(state)@.el_requests,
        final(state)@ == (StateView { el_requests: Seq::empty(), ..old(state)@ }),
{
    let drained = copy_vec(&state.el_requests);
    state.el_requests = Vec::new();
    drained
}

/// The state after crediting every withdrawal, or `None` where a credit
/// would overflow a balance.
pub open spec fn spec_credit_withdrawals(s: StateView, withdrawals: Seq<Withdrawal>) -> Option<StateView>
    decreases withdrawals.len(),
{
    if withdrawals.len() == 0 {
        Option::Some(s)
    } else {
        let w = withdrawals[0];
        let a = s.account(w.address);
        if a.balance + w.amount_gwei * GWEI_TO_WEI > u128::MAX {
            Option::None
        } else {
            let credited = AccountInfo { nonce: a.nonce, balance: (a.balance + w.amount_gwei * GWEI_TO_WEI) as u128 };
            spec_credit_withdrawals(s.with_account(w.address, credited), withdrawals.skip(1))
        }
    }
}

/// Credits every withdrawal to its recipient, in gwei times `GWEI_TO_WEI`.
/// Fails without a state change promise where a balance would overflow.
pub fn commit_withdrawals(state: &mut WorkingState, withdrawals: &Vec<Withdrawal>) -> (r: Result<(), ()>)
    ensures
        match r {
            Result::Ok(()) => {
                &&& spec_credit_withdrawals(old(state)@, withdrawals@) == Option::Some(final(state)@)
            },
            Result::Err(()) => spec_credit_withdrawals(old(state)@, withdrawals@) is None,
        },
{
    let ghost pre = old(state)@;
    proof {
        assert(withdrawals@.skip(0) =~= withdrawals@);
    }
    let mut i: usize = 0;
    #[verifier::loop_isolation(false)]
    while i < withdrawals.len()
        invariant
            i <= withdrawals.len(),
            spec_credit_withdrawals(pre, withdrawals@) == spec_credit_withdrawals(state@, withdrawals@.skip(i as int)),
        decreases withdrawals.len() - i,
    {
        let w = withdrawals[i];
        let a = state.account(w.address);
        proof {
            crate::chain::lemma_u64_product_fits(w.amount_gwei, GWEI_TO_WEI as u64);
        }
        let amount: u128 = w.amount_gwei as u128 * (GWEI_TO_WEI as u64) as u128;
        if amount > u128::MAX - a.balance {
            proof {
                assert(withdrawals@.skip(i as int)[0] == withdrawals@[i as int]);
            }
            return Result::Err(());
        }
        state.set_account(w.address, AccountInfo { nonce: a.nonce, balance: a.balance + amount });
        proof {
            assert(withdrawals@.skip(i as int)[0] == withdrawals@[i as int]);
            assert(withdrawals@.skip(i as int).skip(1) =~= withdrawals@.skip(i + 1));
        }
        i = i + 1;
    }
    proof {
        assert(withdrawals@.skip(i as int).len() == 0);
    }
    Result::Ok(())
}

} // verus!
