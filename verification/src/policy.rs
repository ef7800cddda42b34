//! Pre-flight policy: the balance guard, the compute-unit limit and the
//! priority fee.

use vstd::prelude::*;

verus! {

/// The ceiling that [`ComputeBudget::Dynamic`] stands for: the most compute
/// units that the network lets one transaction consume.
pub const MAX_COMPUTE_UNITS: u32 = 1_400_000;

/// The smallest balance, in lamports, that the fee payer must exceed: 0.005 SOL.
pub const MIN_BALANCE_LAMPORTS: u64 = 5_000_000;

/// How many compute units a transaction may consume.
#[derive(Debug, Clone, Copy, PartialEq, Eq)]
pub enum ComputeBudget {
    /// No measurement is made: the fixed ceiling applies.
    Dynamic,
    /// A limit chosen by the caller.
    Fixed(u32),
}

impl ComputeBudget {
    /// The compute-unit limit that the budget resolves to.
    pub open spec fn limit(self) -> u32 {
        match self {
            ComputeBudget::Dynamic => MAX_COMPUTE_UNITS,
            ComputeBudget::Fixed(units) => units,
        }
    }

    /// Resolves the budget to the limit that is written into the transaction.
    /// `Dynamic` gives the fixed ceiling, whatever the transaction holds.
    pub fn resolve(&self) -> (units: u32)
        ensures
            units == self.limit(),
            *self is Dynamic ==> units == MAX_COMPUTE_UNITS,
            *self matches ComputeBudget::Fixed(n) ==> units == n,
    {
        match self {
            ComputeBudget::Dynamic => MAX_COMPUTE_UNITS,
            ComputeBudget::Fixed(units) => *units,
        }
    }
}

/// Where the priority fee of a request comes from.
#[derive(Debug, Clone, Copy, PartialEq, Eq)]
pub enum FeeSource {
    /// A dynamic-fee endpoint is configured: the oracle is asked.
    Oracle,
    /// The configured static fee, or zero where none is configured.
    Static(u64),
}

/// The source of the priority fee for a configuration.
pub open spec fn fee_source_of(dynamic_fee: bool, priority_fee: Option<u64>) -> FeeSource {
    if dynamic_fee {
        FeeSource::Oracle
    } else {
        match priority_fee {
            Some(fee) => FeeSource::Static(fee),
            None => FeeSource::Static(0),
        }
    }
}

/// The priority fee, in micro-lamports per compute unit, given what the oracle
/// returned: the oracle's price when a dynamic endpoint is configured, else the
/// static fee, else zero.
pub open spec fn priority_fee_of(dynamic_fee: bool, priority_fee: Option<u64>, oracle: u64) -> u64 {
    match fee_source_of(dynamic_fee, priority_fee) {
        FeeSource::Oracle => oracle,
        FeeSource::Static(fee) => fee,
    }
}

/// Decides whether the oracle has to be asked for the priority fee.
pub fn fee_source(dynamic_fee: bool, priority_fee: Option<u64>) -> (source: FeeSource)
    ensures
        source == fee_source_of(dynamic_fee, priority_fee),
{
    if dynamic_fee {
        FeeSource::Oracle
    } else {
        match priority_fee {
            Some(fee) => FeeSource::Static(fee),
            None => FeeSource::Static(0),
        }
    }
}

/// Resolves the priority fee once the oracle's answer is known. `oracle` is
/// ignored where no dynamic endpoint is configured.
pub fn resolve_priority_fee(dynamic_fee: bool, priority_fee: Option<u64>, oracle: u64) -> (fee: u64)
    ensures
        fee == priority_fee_of(dynamic_fee, priority_fee, oracle),
        dynamic_fee ==> fee == oracle,
        !dynamic_fee && priority_fee is Some ==> fee == priority_fee->0,
        !dynamic_fee && priority_fee is None ==> fee == 0,
{
    match fee_source(dynamic_fee, priority_fee) {
        FeeSource::Oracle => oracle,
        FeeSource::Static(fee) => fee,
    }
}

/// Whether a balance reading lets the request proceed. A reading at or below
/// the minimum does not; a failed reading (`None`) is taken as sufficient.
pub open spec fn balance_suffices(balance: Option<u64>, min_balance: u64) -> bool {
    match balance {
        Some(lamports) => lamports > min_balance,
        None => true,
    }
}

/// The balance guard: `true` where the request may proceed.
pub fn check_balance(balance: Option<u64>, min_balance: u64) -> (ok: bool)
    ensures
        ok == balance_suffices(balance, min_balance),
{
    match balance {
        Some(lamports) => lamports > min_balance,
        None => true,
    }
}

} // verus!
