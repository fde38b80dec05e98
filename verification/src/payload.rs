//! Build attributes, build arguments, outcomes and the built payload.

use vstd::prelude::*;
use crate::block::SealedHeader;
use crate::block::SealedBlock;
use crate::block::SealedBlockView;
use crate::chain::ChainSpec;
use crate::pool::TransactionPool;
use crate::state::WorkingState;
use crate::state::StateView;
use crate::tx::SignedTx;
use crate::tx::Withdrawal;
use crate::tx::Request;

verus! {

/// Errors fatal to a build attempt.
#[derive(Clone, Copy, PartialEq, Eq, Structural, Debug)]
pub enum PayloadBuilderError {
    /// The state snapshot at the parent hash could not be fetched.
    Provider,
    /// A system call, requests parsing or the withdrawals commit failed.
    Internal,
    /// The EVM failed below the transaction level.
    EvmExecutionError,
    /// Environment construction or a blob sidecar fetch failed.
    Other,
    /// The empty-payload path produced no payload.
    MissingPayload,
}

/// The cached-reads accumulator threaded across build attempts.
#[derive(Clone, Copy, PartialEq, Eq, Structural, Debug, Default)]
pub struct CachedReads {
    /// Marker of the snapshot generation the cache belongs to.
    pub generation: u64,
}

/// The cancellation token a build attempt polls.
#[derive(Clone, Copy, PartialEq, Eq, Structural, Debug, Default)]
pub struct CancelSignal {
    /// Whether the job was cancelled.
    pub cancelled: bool,
}

impl CancelSignal {
    /// Whether the job was cancelled.
    pub fn is_cancelled(&self) -> (r: bool)
        ensures
            r == self.cancelled,
    {
        self.cancelled
    }
}

/// Mathematical view of the build attributes.
pub struct AttributesView {
    /// Payload id.
    pub id: u64,
    /// Timestamp of the block under construction.
    pub timestamp: u64,
    /// Address the block's fees go to.
    pub suggested_fee_recipient: usize,
    /// Randomness for the block.
    pub prev_randao: u64,
    /// Parent beacon root; present post-Cancun.
    pub parent_beacon_block_root: Option<u64>,
    /// Withdrawals to credit; meaningful post-Shanghai.
    pub withdrawals: Seq<Withdrawal>,
    /// The inclusion list: slots that failed to decode upstream are `None`.
    pub il: Option<Seq<Option<SignedTx>>>,
}

/// Consensus-provided build attributes.
pub struct EthPayloadBuilderAttributes {
    /// Payload id.
    pub id: u64,
    /// Timestamp of the block under construction.
    pub timestamp: u64,
    /// Address the block's fees go to.
    pub suggested_fee_recipient: usize,
    /// Randomness for the block.
    pub prev_randao: u64,
    /// Parent beacon root; present post-Cancun.
    pub parent_beacon_block_root: Option<u64>,
    /// Withdrawals to credit; meaningful post-Shanghai.
    pub withdrawals: Vec<Withdrawal>,
    /// The inclusion list: slots that failed to decode upstream are `None`.
    pub il: Option<Vec<Option<SignedTx>>>,
}

impl View for EthPayloadBuilderAttributes {
    type V = AttributesView;

    open spec fn view(&self) -> AttributesView {
        AttributesView {
            id: self.id,
            timestamp: self.timestamp,
            suggested_fee_recipient: self.suggested_fee_recipient,
            prev_randao: self.prev_randao,
            parent_beacon_block_root: self.parent_beacon_block_root,
            withdrawals: self.withdrawals@,
            il: match self.il {
                Option::Some(ref il) => Option::Some(il@),
                Option::None => Option::None,
            },
        }
    }
}

/// The frozen parent header and attributes of one build attempt.
pub struct PayloadConfig {
    /// Sealed header the new block builds on.
    pub parent_header: SealedHeader,
    /// Consensus-provided attributes.
    pub attributes: EthPayloadBuilderAttributes,
}

/// The client handle: chain spec and state lookup at the parent hash.
pub struct Client {
    /// Fork schedule of the chain.
    pub chain_spec: ChainSpec,
    /// Hash the held state snapshot is anchored at.
    pub state_hash: u64,
    /// The state snapshot.
    pub state: WorkingState,
}

impl Client {
    /// The chain's fork schedule.
    pub fn chain_spec(&self) -> (r: ChainSpec)
        ensures
            r == self.chain_spec,
    {
        self.chain_spec
    }

    /// The state anchored at a block hash; fails for any other hash.
    pub fn state_by_block_hash(&self, hash: u64) -> (r: Result<WorkingState, PayloadBuilderError>)
        ensures
            match r {
                Result::Ok(s) => self.state_hash == hash && s@ == self.state@,
                Result::Err(e) => self.state_hash != hash && e == PayloadBuilderError::Provider,
            },
    {
        if self.state_hash == hash {
            Result::Ok(self.state.clone())
        } else {
            Result::Err(PayloadBuilderError::Provider)
        }
    }
}

/// Everything one build attempt consumes.
pub struct BuildArguments {
    /// Chain spec and state access.
    pub client: Client,
    /// The mempool handle.
    pub pool: TransactionPool,
    /// Cached reads threaded across attempts.
    pub cached_reads: CachedReads,
    /// Parent header and attributes.
    pub config: PayloadConfig,
    /// Cancellation token.
    pub cancel: CancelSignal,
    /// Total fees of the best payload built so far, if any.
    pub best_payload: Option<u128>,
}

/// Mathematical view of a built payload.
pub struct BuiltPayloadView {
    /// Payload id from the attributes.
    pub id: u64,
    /// The sealed block.
    pub block: SealedBlockView,
    /// Total miner fees collected.
    pub fees: u128,
    /// EIP-7685 requests; present iff Prague is active.
    pub requests: Option<Seq<Request>>,
    /// Blob sidecars of the included blob transactions.
    pub sidecars: Seq<u64>,
}

/// The immutable output of a successful build attempt.
pub struct EthBuiltPayload {
    /// Payload id from the attributes.
    pub id: u64,
    /// The sealed block.
    pub block: SealedBlock,
    /// Total miner fees collected.
    pub fees: u128,
    /// EIP-7685 requests; present iff Prague is active.
    pub requests: Option<Vec<Request>>,
    /// Blob sidecars of the included blob transactions.
    pub sidecars: Vec<u64>,
}

impl View for EthBuiltPayload {
    type V = BuiltPayloadView;

    open spec fn view(&self) -> BuiltPayloadView {
        BuiltPayloadView {
            id: self.id,
            block: self.block@,
            fees: self.fees,
            requests: match self.requests {
                Option::Some(ref r) => Option::Some(r@),
                Option::None => Option::None,
            },
            sidecars: self.sidecars@,
        }
    }
}

/// Mathematical view of a build outcome.
pub enum BuildOutcomeView {
    /// A block better than the prior best was built.
    Better {
        /// The built payload.
        payload: BuiltPayloadView,
        /// The cached reads handed back for the next attempt.
        cached_reads: CachedReads,
    },
    /// The attempt finished but did not beat the prior best.
    Aborted {
        /// Fees the attempt reached.
        fees: u128,
        /// The cached reads handed back for the next attempt.
        cached_reads: CachedReads,
    },
    /// Cancellation was observed; nothing is surfaced.
    Cancelled,
}

/// What a finished build attempt reports.
pub enum BuildOutcome {
    /// A block better than the prior best was built.
    Better {
        /// The built payload.
        payload: EthBuiltPayload,
        /// The cached reads handed back for the next attempt.
        cached_reads: CachedReads,
    },
    /// The attempt finished but did not beat the prior best.
    Aborted {
        /// Fees the attempt reached.
        fees: u128,
        /// The cached reads handed back for the next attempt.
        cached_reads: CachedReads,
    },
    /// Cancellation was observed; nothing is surfaced.
    Cancelled,
}

impl View for BuildOutcome {
    type V = BuildOutcomeView;

    open spec fn view(&self) -> BuildOutcomeView {
        match self {
            BuildOutcome::Better { payload, cached_reads } =>
                BuildOutcomeView::Better { payload: payload@, cached_reads: *cached_reads },
            BuildOutcome::Aborted { fees, cached_reads } =>
                BuildOutcomeView::Aborted { fees: *fees, cached_reads: *cached_reads },
            BuildOutcome::Cancelled => BuildOutcomeView::Cancelled,
        }
    }
}

impl BuildOutcome {
    /// The payload, where the outcome carries one.
    pub fn into_payload(self) -> (r: Option<EthBuiltPayload>)
        ensures
            match self@ {
                BuildOutcomeView::Better { payload, .. } => r is Some && r->Some_0@ == payload,
                _ => r is None,
            },
    {
        match self {
            BuildOutcome::Better { payload, .. } => Option::Some(payload),
            _ => Option::None,
        }
    }
}

/// Whether new fees beat the best prior payload: strictly more, or no prior.
pub open spec fn spec_is_better_payload(best: Option<u128>, new_fees: u128) -> bool {
    match best {
        Option::Some(f) => new_fees > f,
        Option::None => true,
    }
}

/// Whether new fees beat the best prior payload: strictly more, or no prior.
pub fn is_better_payload(best: Option<u128>, new_fees: u128) -> (r: bool)
    ensures
        r == spec_is_better_payload(best, new_fees),
{
    match best {
        Option::Some(f) => new_fees > f,
        Option::None => true,
    }
}

} // verus!
