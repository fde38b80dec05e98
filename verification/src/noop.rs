//! A no-operation block executor: every execution request is refused.

use vstd::prelude::*;
use crate::block::SealedBlock;
use crate::execute::BlockExecutionInput;
use crate::execute::BlockExecutionResult;
use crate::state::WorkingState;
use crate::tx::Receipt;

verus! {

/// Why the no-op executor refused.
#[derive(Clone, Copy, PartialEq, Eq, Structural, Debug)]
pub enum BlockExecutionError {
    /// Execution is unavailable for the no-op executor.
    UnavailableForNoop,
}

/// A block executor that does nothing: it refuses every block.
#[derive(Clone, Copy, PartialEq, Eq, Structural, Debug, Default)]
pub struct NoopBlockExecutorProvider {
}

impl NoopBlockExecutorProvider {
    /// Hands out an executor; the no-op provider is its own executor.
    pub fn executor(&self) -> (r: Self)
        ensures
            r == (NoopBlockExecutorProvider {}),
    {
        NoopBlockExecutorProvider {}
    }

    /// Refuses to execute the block.
    pub fn execute_one(&mut self, _block: BlockExecutionInput<'_, SealedBlock>) -> (r: Result<BlockExecutionResult<Receipt>, BlockExecutionError>)
        ensures
            r == Result::<BlockExecutionResult<Receipt>, BlockExecutionError>::Err(BlockExecutionError::UnavailableForNoop),
    {
        Result::Err(BlockExecutionError::UnavailableForNoop)
    }

    /// The no-op executor holds no state: taking its state yields the
    /// empty working state.
    pub fn into_state(self) -> (r: WorkingState)
        ensures
            r@.accounts.len() == 0,
            r@.beacon_root is None,
            r@.history_parent_hash is None,
            r@.el_requests.len() == 0,
    {
        WorkingState {
            accounts: Vec::new(),
            beacon_root: Option::None,
            history_parent_hash: Option::None,
            el_requests: Vec::new(),
        }
    }

    /// The no-op executor retains nothing.
    pub fn size_hint(&self) -> (r: usize)
        ensures
            r == 0,
    {
        0
    }
}

} // verus!
