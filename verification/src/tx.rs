//! Transactions, receipts, withdrawals and consensus-layer requests,
//! modelled over plain values.

use vstd::prelude::*;

verus! {

/// Per-block cap on EIP-4844 blob data gas.
pub const MAX_DATA_GAS_PER_BLOCK: u64 = 786432;

/// Gas consumed by one blob.
pub const DATA_GAS_PER_BLOB: u64 = 131072;

/// The nonce every post-merge block header carries.
pub const BEACON_NONCE: u64 = 0;

/// Header hash standing for the empty ommers list.
pub const EMPTY_OMMER_ROOT_HASH: u64 = 0x1dcc4de8dec75d7a;

/// Wei per gwei; withdrawal amounts arrive in gwei.
pub const GWEI_TO_WEI: u128 = 1000000000;

/// Type byte of an EIP-4844 blob transaction.
pub const EIP4844_TX_TYPE: u8 = 3;

/// Type byte of an EIP-6110 deposit request.
pub const DEPOSIT_REQUEST_TYPE: u8 = 0;

/// A signed, sender-recovered transaction.
///
/// Addresses index the model account table. The fields `gas_used`,
/// `reverted`, `unsupported`, `db_fault`, `log_word` and `deposit` describe
/// how the model EVM behaves on this transaction: the gas it charges when it
/// executes, whether execution reverts, whether the transaction is refused
/// for a reason that never changes, whether touching it faults the state
/// database, the log data it emits and the deposit request its logs carry.
#[derive(Clone, Copy, PartialEq, Eq, Structural, Debug)]
pub struct SignedTx {
    /// Transaction hash.
    pub hash: u64,
    /// Recovered sender address.
    pub sender: usize,
    /// Recipient address.
    pub to: usize,
    /// Sender nonce the transaction was signed with.
    pub nonce: u64,
    /// Transaction type byte.
    pub tx_type: u8,
    /// Gas limit of the transaction.
    pub gas_limit: u64,
    /// Maximum total fee per gas the sender pays.
    pub max_fee_per_gas: u64,
    /// Maximum priority fee per gas offered to the builder.
    pub max_priority_fee_per_gas: u64,
    /// Blob data gas; zero unless this is an EIP-4844 transaction.
    pub blob_gas: u64,
    /// Blob sidecar carried alongside an EIP-4844 transaction.
    pub sidecar: u64,
    /// Wei moved to the recipient on successful execution.
    pub value: u128,
    /// Gas the model EVM charges when the transaction executes.
    pub gas_used: u64,
    /// Whether execution reverts (a reverted transaction is still included).
    pub reverted: bool,
    /// Whether the EVM refuses the transaction for an unchanging reason.
    pub unsupported: bool,
    /// Whether executing the transaction faults the state database.
    pub db_fault: bool,
    /// Log data emitted on successful execution.
    pub log_word: u64,
    /// Deposit request the successful execution's logs carry, if any.
    pub deposit: Option<u64>,
}

impl SignedTx {
    /// Whether this is an EIP-4844 blob transaction.
    pub fn is_eip4844(&self) -> (r: bool)
        ensures
            r == self.spec_is_eip4844(),
    {
        self.tx_type == EIP4844_TX_TYPE
    }

    /// Whether this is an EIP-4844 blob transaction.
    pub open spec fn spec_is_eip4844(self) -> bool {
        self.tx_type == EIP4844_TX_TYPE
    }

    /// Miner tip per gas at the given base fee: the priority fee, capped by
    /// what remains of the fee cap above the base fee. `None` when the fee
    /// cap lies below the base fee.
    pub open spec fn spec_effective_tip_per_gas(self, base_fee: u64) -> Option<u64> {
        if self.max_fee_per_gas < base_fee {
            None
        } else if self.max_priority_fee_per_gas <= self.max_fee_per_gas - base_fee {
            Some(self.max_priority_fee_per_gas)
        } else {
            Some((self.max_fee_per_gas - base_fee) as u64)
        }
    }

    /// Miner tip per gas at the given base fee.
    pub fn effective_tip_per_gas(&self, base_fee: u64) -> (r: Option<u64>)
        ensures
            r == self.spec_effective_tip_per_gas(base_fee),
    {
        if self.max_fee_per_gas < base_fee {
            None
        } else {
            let headroom = self.max_fee_per_gas - base_fee;
            if self.max_priority_fee_per_gas <= headroom {
                Some(self.max_priority_fee_per_gas)
            } else {
                Some(headroom)
            }
        }
    }

    /// A transaction the model admits: it charges at least one unit of gas
    /// and no more than its gas limit, and it carries blob gas exactly when
    /// it is a blob transaction.
    pub open spec fn wf(self) -> bool {
        &&& 1 <= self.gas_used <= self.gas_limit
        &&& self.spec_is_eip4844() ==> self.blob_gas >= 1
        &&& !self.spec_is_eip4844() ==> self.blob_gas == 0
    }
}

/// The record kept for each executed transaction.
#[derive(Clone, Copy, PartialEq, Eq, Structural, Debug)]
pub struct Receipt {
    /// Transaction type byte.
    pub tx_type: u8,
    /// Whether execution succeeded (false: it reverted).
    pub success: bool,
    /// Running block gas total after this transaction.
    pub cumulative_gas_used: u64,
    /// Log data; zero when execution reverted.
    pub log_word: u64,
    /// Deposit request parsed from the logs, if any.
    pub deposit: Option<u64>,
}

/// A consensus-layer withdrawal credited during finalization.
#[derive(Clone, Copy, PartialEq, Eq, Structural, Debug)]
pub struct Withdrawal {
    /// Position of the withdrawal in the consensus queue.
    pub index: u64,
    /// Validator the withdrawal comes from.
    pub validator_index: u64,
    /// Address credited.
    pub address: usize,
    /// Amount in gwei.
    pub amount_gwei: u64,
}

/// One EIP-7685 consensus-layer request, prefixed by its type byte.
#[derive(Clone, Copy, PartialEq, Eq, Structural, Debug)]
pub struct Request {
    /// Request type byte.
    pub request_type: u8,
    /// Request payload.
    pub payload: u64,
}

} // verus!
