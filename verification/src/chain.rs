//! The chain specification: fork activation by timestamp, the EIP-1559 base
//! fee schedule and the EIP-4844 blob gas schedule.

use vstd::prelude::*;

verus! {

/// Blob data gas targeted per block while Cancun rules are active.
pub const CANCUN_TARGET_BLOB_GAS: u64 = 393216;

/// Blob data gas targeted per block while Prague rules are active.
pub const PRAGUE_TARGET_BLOB_GAS: u64 = 786432;

/// Blob base-fee update fraction while Cancun rules are active.
pub const CANCUN_BLOB_FEE_FRACTION: u64 = 3338477;

/// Blob base-fee update fraction while Prague rules are active.
pub const PRAGUE_BLOB_FEE_FRACTION: u64 = 5007716;

/// EIP-1559 elasticity multiplier.
pub const ELASTICITY_MULTIPLIER: u64 = 2;

/// EIP-1559 base-fee change denominator.
pub const BASE_FEE_CHANGE_DENOMINATOR: u64 = 8;

/// The blob parameters of a fork: the per-block target and the base-fee
/// update fraction.
#[derive(Clone, Copy, PartialEq, Eq, Structural, Debug)]
pub struct BlobParams {
    /// Blob data gas targeted per block.
    pub target_blob_gas: u64,
    /// Blob base-fee update fraction.
    pub update_fraction: u64,
}

impl BlobParams {
    /// Blob parameters of the Cancun fork.
    pub fn cancun() -> (r: BlobParams)
        ensures
            r == Self::spec_cancun(),
    {
        BlobParams { target_blob_gas: CANCUN_TARGET_BLOB_GAS, update_fraction: CANCUN_BLOB_FEE_FRACTION }
    }

    /// Blob parameters of the Cancun fork.
    pub open spec fn spec_cancun() -> BlobParams {
        BlobParams { target_blob_gas: CANCUN_TARGET_BLOB_GAS, update_fraction: CANCUN_BLOB_FEE_FRACTION }
    }

    /// Blob parameters of the Prague fork.
    pub fn prague() -> (r: BlobParams)
        ensures
            r == Self::spec_prague(),
    {
        BlobParams { target_blob_gas: PRAGUE_TARGET_BLOB_GAS, update_fraction: PRAGUE_BLOB_FEE_FRACTION }
    }

    /// Blob parameters of the Prague fork.
    pub open spec fn spec_prague() -> BlobParams {
        BlobParams { target_blob_gas: PRAGUE_TARGET_BLOB_GAS, update_fraction: PRAGUE_BLOB_FEE_FRACTION }
    }
}

/// Fork schedule of the chain: each post-merge fork activates at a timestamp.
#[derive(Clone, Copy, PartialEq, Eq, Structural, Debug)]
pub struct ChainSpec {
    /// Activation time of the Shanghai fork, if scheduled.
    pub shanghai_time: Option<u64>,
    /// Activation time of the Cancun fork, if scheduled.
    pub cancun_time: Option<u64>,
    /// Activation time of the Prague fork, if scheduled.
    pub prague_time: Option<u64>,
}

impl ChainSpec {
    /// Whether Shanghai rules are active at the timestamp.
    pub open spec fn spec_is_shanghai_active_at_timestamp(self, timestamp: u64) -> bool {
        match self.shanghai_time {
            Option::Some(t) => t <= timestamp,
            Option::None => false,
        }
    }

    /// Whether Shanghai rules are active at the timestamp.
    pub fn is_shanghai_active_at_timestamp(&self, timestamp: u64) -> (r: bool)
        ensures
            r == self.spec_is_shanghai_active_at_timestamp(timestamp),
    {
        match self.shanghai_time {
            Option::Some(t) => t <= timestamp,
            Option::None => false,
        }
    }

    /// Whether Cancun rules are active at the timestamp.
    pub open spec fn spec_is_cancun_active_at_timestamp(self, timestamp: u64) -> bool {
        match self.cancun_time {
            Option::Some(t) => t <= timestamp,
            Option::None => false,
        }
    }

    /// Whether Cancun rules are active at the timestamp.
    pub fn is_cancun_active_at_timestamp(&self, timestamp: u64) -> (r: bool)
        ensures
            r == self.spec_is_cancun_active_at_timestamp(timestamp),
    {
        match self.cancun_time {
            Option::Some(t) => t <= timestamp,
            Option::None => false,
        }
    }

    /// Whether Prague rules are active at the timestamp.
    pub open spec fn spec_is_prague_active_at_timestamp(self, timestamp: u64) -> bool {
        match self.prague_time {
            Option::Some(t) => t <= timestamp,
            Option::None => false,
        }
    }

    /// Whether Prague rules are active at the timestamp.
    pub fn is_prague_active_at_timestamp(&self, timestamp: u64) -> (r: bool)
        ensures
            r == self.spec_is_prague_active_at_timestamp(timestamp),
    {
        match self.prague_time {
            Option::Some(t) => t <= timestamp,
            Option::None => false,
        }
    }

    /// The blob parameters of the fork active at the timestamp: Prague's
    /// where Prague is active, else Cancun's.
    pub open spec fn spec_blob_params_at_timestamp(self, timestamp: u64) -> BlobParams {
        if self.spec_is_prague_active_at_timestamp(timestamp) {
            BlobParams::spec_prague()
        } else {
            BlobParams::spec_cancun()
        }
    }

    /// The blob parameters of the fork active at the timestamp.
    pub fn blob_params_at_timestamp(&self, timestamp: u64) -> (r: BlobParams)
        ensures
            r == self.spec_blob_params_at_timestamp(timestamp),
    {
        if self.is_prague_active_at_timestamp(timestamp) {
            BlobParams::prague()
        } else {
            BlobParams::cancun()
        }
    }
}

/// The EIP-1559 base fee of the next block, from the parent's gas limit, gas
/// used and base fee. The fee moves toward usage of half the limit by at
/// most one eighth of itself per block, by at least one unit upward when the
/// parent block was over target; the result saturates at `u64::MAX` and a
/// degenerate parent gas limit below the elasticity leaves the fee unchanged.
pub open spec fn spec_next_base_fee(parent_gas_limit: u64, parent_gas_used: u64, parent_base_fee: u64) -> u64 {
    let target = parent_gas_limit / ELASTICITY_MULTIPLIER;
    if target == 0 || parent_gas_used == target {
        parent_base_fee
    } else if parent_gas_used > target {
        let delta = parent_base_fee * (parent_gas_used - target) / (target as int) / (BASE_FEE_CHANGE_DENOMINATOR as int);
        let raise: int = if delta >= 1 { delta } else { 1 };
        if parent_base_fee + raise <= u64::MAX { (parent_base_fee + raise) as u64 } else { u64::MAX }
    } else {
        let delta = parent_base_fee * (target - parent_gas_used) / (target as int) / (BASE_FEE_CHANGE_DENOMINATOR as int);
        (parent_base_fee - delta) as u64
    }
}

/// The product of two 64-bit values fits in 128 bits.
pub proof fn lemma_u64_product_fits(a: u64, b: u64)
    ensures
        a * b <= u128::MAX,
{
    assert(a * b <= u64::MAX * u64::MAX) by (nonlinear_arith)
        requires
            a <= u64::MAX,
            b <= u64::MAX,
    ;
}

/// A fee scaled down by a fraction of at most one is no more than the fee.
proof fn lemma_scaled_fee_bounded(base: int, under: int, target: int)
    requires
        0 <= base,
        0 <= under <= target,
        1 <= target,
    ensures
        base * under / target / (BASE_FEE_CHANGE_DENOMINATOR as int) <= base,
{
    assert(0 <= base * under <= base * target) by (nonlinear_arith)
        requires
            0 <= base,
            0 <= under <= target,
    ;
    vstd::arithmetic::div_mod::lemma_div_is_ordered(base * under, base * target, target);
    vstd::arithmetic::div_mod::lemma_div_by_multiple(base, target);
    vstd::arithmetic::div_mod::lemma_div_pos_is_pos(base * under, target);
    vstd::arithmetic::div_mod::lemma_div_nonincreasing(base * under / target, BASE_FEE_CHANGE_DENOMINATOR as int);
}

/// The EIP-1559 base fee of the next block.
pub fn next_base_fee(parent_gas_limit: u64, parent_gas_used: u64, parent_base_fee: u64) -> (r: u64)
    ensures
        r == spec_next_base_fee(parent_gas_limit, parent_gas_used, parent_base_fee),
{
    let target = parent_gas_limit / ELASTICITY_MULTIPLIER;
    if target == 0 || parent_gas_used == target {
        parent_base_fee
    } else if parent_gas_used > target {
        let over = parent_gas_used - target;
        proof {
            lemma_u64_product_fits(parent_base_fee, over);
        }
        let prod: u128 = parent_base_fee as u128 * over as u128;
        let quot: u128 = prod / (target as u128);
        let scaled: u128 = quot / (BASE_FEE_CHANGE_DENOMINATOR as u128);
        proof {
            vstd::arithmetic::div_mod::lemma_div_nonincreasing(prod as int, target as int);
            vstd::arithmetic::div_mod::lemma_div_nonincreasing(quot as int, BASE_FEE_CHANGE_DENOMINATOR as int);
        }
        let raise: u128 = if scaled >= 1 { scaled } else { 1 };
        if parent_base_fee as u128 + raise <= u64::MAX as u128 {
            parent_base_fee + (raise as u64)
        } else {
            u64::MAX
        }
    } else {
        let under = target - parent_gas_used;
        proof {
            lemma_u64_product_fits(parent_base_fee, under);
        }
        let prod: u128 = parent_base_fee as u128 * under as u128;
        let scaled: u128 = (prod / (target as u128)) / (BASE_FEE_CHANGE_DENOMINATOR as u128);
        proof {
            lemma_scaled_fee_bounded(parent_base_fee as int, under as int, target as int);
        }
        parent_base_fee - (scaled as u64)
    }
}

/// Floor of the blob gas price.
pub const MIN_BLOB_GASPRICE: u64 = 1;

/// The model's blob gas price for an excess blob gas under the given update
/// fraction: the price floor plus one unit per whole fraction of excess.
/// (The consensus fee curve runs this through an integer exponential; the
/// model keeps the same floor, the same monotonicity in the excess and the
/// same update fraction, linearly.)
pub open spec fn spec_blob_gasprice(excess_blob_gas: u64, update_fraction: u64) -> int {
    MIN_BLOB_GASPRICE + excess_blob_gas as int / update_fraction as int
}

/// The model's blob gas price for an excess blob gas.
pub fn calc_blob_gasprice(excess_blob_gas: u64, update_fraction: u64) -> (r: u128)
    requires
        1 <= update_fraction,
    ensures
        r as int == spec_blob_gasprice(excess_blob_gas, update_fraction),
{
    MIN_BLOB_GASPRICE as u128 + (excess_blob_gas / update_fraction) as u128
}

/// The EIP-4844 excess blob gas of the next block: what the parent block's
/// blob usage leaves above the target, never below zero.
pub open spec fn spec_next_excess_blob_gas(parent_excess: u64, parent_blob_gas_used: u64, target_blob_gas: u64) -> u64 {
    if parent_excess + parent_blob_gas_used < target_blob_gas {
        0
    } else if parent_excess + parent_blob_gas_used - target_blob_gas <= u64::MAX {
        (parent_excess + parent_blob_gas_used - target_blob_gas) as u64
    } else {
        u64::MAX
    }
}

/// The EIP-4844 excess blob gas of the next block.
pub fn next_excess_blob_gas(parent_excess: u64, parent_blob_gas_used: u64, target_blob_gas: u64) -> (r: u64)
    ensures
        r == spec_next_excess_blob_gas(parent_excess, parent_blob_gas_used, target_blob_gas),
{
    let total = parent_excess as u128 + parent_blob_gas_used as u128;
    if total < target_blob_gas as u128 {
        0
    } else if total - target_blob_gas as u128 <= u64::MAX as u128 {
        (total - target_blob_gas as u128) as u64
    } else {
        u64::MAX
    }
}

} // verus!
