//! The capabilities the validator consumes: a median-time oracle and a
//! script engine. Both are traits the surrounding node implements; each
//! comes with a table-backed implementation so the contracts can be
//! exercised end to end.

use crate::error::ScriptError;
use crate::types::{BlockNumber, Cycle, ResolvedTransaction};
use vstd::prelude::*;

verus! {

/// The median-time oracle: for a block at height `n`, the median of the
/// timestamps of a recent window of its ancestors, in milliseconds.
pub trait BlockMedianTimeContext {
    /// The oracle's answer as a mathematical function of the height.
    spec fn spec_median_time(&self, block_number: BlockNumber) -> Option<u64>;

    /// Must be pure: the same height yields the same answer for the
    /// lifetime of one validator instance. `None` means the oracle has no
    /// answer for this height.
    fn block_median_time(&self, block_number: BlockNumber) -> (r: Option<u64>)
        ensures
            r == self.spec_median_time(block_number),
    ;
}

/// An oracle backed by a table: the median time of block `n` is the `n`-th
/// entry, and heights beyond the table have no answer.
#[derive(Clone, Debug, PartialEq, Eq)]
pub struct MemoryMedianTimeContext {
    pub times: Vec<Option<u64>>,
}

impl BlockMedianTimeContext for MemoryMedianTimeContext {
    open spec fn spec_median_time(&self, block_number: BlockNumber) -> Option<u64> {
        if block_number < self.times@.len() {
            self.times@[block_number as int]
        } else {
            None
        }
    }

    fn block_median_time(&self, block_number: BlockNumber) -> (r: Option<u64>) {
        if block_number < self.times.len() as u64 {
            self.times[block_number as usize]
        } else {
            None
        }
    }
}

/// The script engine: runs every script of a resolved transaction under a
/// cycle budget.
pub trait ScriptEngine {
    /// The engine's answer as a mathematical function of the transaction
    /// and the budget.
    spec fn spec_verify(&self, rtx: &ResolvedTransaction, max_cycles: Cycle) -> Result<
        Cycle,
        ScriptError,
    >;

    /// Success returns the consumed cycle count, never more than
    /// `max_cycles`; any script-level failure is returned as the engine's
    /// own error.
    fn verify_scripts(&self, rtx: &ResolvedTransaction, max_cycles: Cycle) -> (r: Result<
        Cycle,
        ScriptError,
    >)
        ensures
            r == self.spec_verify(rtx, max_cycles),
            r matches Ok(c) ==> c <= max_cycles,
    ;
}

/// An engine with a fixed outcome: it consumes its fixed cycle count when
/// that fits the budget, exceeds the budget otherwise, or fails verbatim.
#[derive(Clone, Copy, Debug, PartialEq, Eq)]
pub struct FixedScriptEngine {
    pub outcome: Result<Cycle, ScriptError>,
}

impl ScriptEngine for FixedScriptEngine {
    open spec fn spec_verify(&self, rtx: &ResolvedTransaction, max_cycles: Cycle) -> Result<
        Cycle,
        ScriptError,
    > {
        match self.outcome {
            Ok(c) => if c <= max_cycles {
                Ok(c)
            } else {
                Err(ScriptError::ExceededMaximumCycles)
            },
            Err(e) => Err(e),
        }
    }

    fn verify_scripts(&self, rtx: &ResolvedTransaction, max_cycles: Cycle) -> (r: Result<
        Cycle,
        ScriptError,
    >) {
        match self.outcome {
            Ok(c) => if c <= max_cycles {
                Ok(c)
            } else {
                Err(ScriptError::ExceededMaximumCycles)
            },
            Err(e) => Err(e),
        }
    }
}

} // verus!
