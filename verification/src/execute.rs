//! Block execution inputs and outputs: a block paired with the inclusion
//! list it must satisfy, and what executing it produces.

use vstd::prelude::*;
use crate::state::AccountInfo;
use crate::tx::SignedTx;
use crate::tx::Request;

verus! {

/// A block input for execution: the block and the inclusion list (IL) the
/// block must satisfy.
pub struct BlockExecutionInput<'a, Block> {
    /// The block to execute.
    pub block: &'a Block,
    /// The inclusion list (IL) that the block must satisfy.
    pub il: Vec<SignedTx>,
}

impl<'a, Block> BlockExecutionInput<'a, Block> {
    /// Creates a new input.
    pub fn new(block: &'a Block, il: Vec<SignedTx>) -> (r: Self)
        ensures
            r.block == block,
            r.il@ == il@,
    {
        BlockExecutionInput { block, il }
    }
}

/// The result of executing a block.
pub struct BlockExecutionResult<T> {
    /// All the receipts of the transactions in the block.
    pub receipts: Vec<T>,
    /// All the EIP-7685 requests in the block.
    pub requests: Vec<Request>,
    /// The total gas used by the block.
    pub gas_used: u64,
}

/// The changed accounts a block execution leaves behind.
pub struct BundleState {
    /// The post-execution account table.
    pub accounts: Vec<AccountInfo>,
}

/// A block execution result combined with its state changes.
pub struct BlockExecutionOutput<T> {
    /// All the receipts of the transactions in the block.
    pub result: BlockExecutionResult<T>,
    /// The changed state of the block after execution.
    pub state: BundleState,
}

} // verus!
