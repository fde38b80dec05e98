//! Builder configuration: the extra-data stamp and the gas-limit policy.

use vstd::prelude::*;

verus! {

/// Largest divisor of the parent gas limit by which the next block's limit
/// may drift under consensus rules.
pub const GAS_LIMIT_BOUND_DIVISOR: u64 = 1024;

/// Static configuration of the payload builder.
#[derive(Clone, Copy, PartialEq, Eq, Structural, Debug)]
pub struct EthereumBuilderConfig {
    /// Extra data stamped into the sealed header.
    pub extra_data: u64,
    /// Gas limit the builder steers blocks toward.
    pub desired_gas_limit: u64,
}

impl EthereumBuilderConfig {
    /// A configuration with the given extra data and desired gas limit.
    pub fn new(extra_data: u64, desired_gas_limit: u64) -> (r: EthereumBuilderConfig)
        ensures
            r == (EthereumBuilderConfig { extra_data, desired_gas_limit }),
    {
        EthereumBuilderConfig { extra_data, desired_gas_limit }
    }

    /// The next block's gas limit: the parent limit moved toward the desired
    /// limit, drifting by strictly less than a 1024th of the parent limit.
    pub open spec fn spec_gas_limit(self, parent_gas_limit: u64) -> u64 {
        let bound = parent_gas_limit / GAS_LIMIT_BOUND_DIVISOR;
        let drift: u64 = if bound == 0 { 0 } else { (bound - 1) as u64 };
        if self.desired_gas_limit >= parent_gas_limit {
            if self.desired_gas_limit - parent_gas_limit <= drift {
                self.desired_gas_limit
            } else {
                (parent_gas_limit + drift) as u64
            }
        } else {
            if parent_gas_limit - self.desired_gas_limit <= drift {
                self.desired_gas_limit
            } else {
                (parent_gas_limit - drift) as u64
            }
        }
    }

    /// The next block's gas limit.
    pub fn gas_limit(&self, parent_gas_limit: u64) -> (r: u64)
        ensures
            r == self.spec_gas_limit(parent_gas_limit),
    {
        let bound = parent_gas_limit / GAS_LIMIT_BOUND_DIVISOR;
        let drift: u64 = if bound == 0 { 0 } else { bound - 1 };
        proof {
            vstd::arithmetic::div_mod::lemma_div_nonincreasing(parent_gas_limit as int, GAS_LIMIT_BOUND_DIVISOR as int);
        }
        if self.desired_gas_limit >= parent_gas_limit {
            if self.desired_gas_limit - parent_gas_limit <= drift {
                self.desired_gas_limit
            } else {
                parent_gas_limit + drift
            }
        } else {
            if parent_gas_limit - self.desired_gas_limit <= drift {
                self.desired_gas_limit
            } else {
                parent_gas_limit - drift
            }
        }
    }
}

} // verus!
