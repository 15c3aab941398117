//! The data model of the validator: transactions, cells, and capacities.
//!
//! Every field the checkers read is held here as a plain value; what only
//! the surrounding node can compute (the canonical cellbase form, an
//! output's occupied-capacity overflow, a cell's producing block) arrives
//! already evaluated in these fields.

use crate::error::OverflowError;
use vstd::prelude::*;

verus! {

/// The height of a block in the chain.
pub type BlockNumber = u64;

/// The consensus epoch a block belongs to.
pub type EpochNumber = u64;

/// The abstract cost unit consumed by the script engine.
pub type Cycle = u64;

/// The fixed protocol version every transaction must carry.
pub const TX_VERSION: u32 = 0;

/// An unsigned monetary scalar. The validator never uses unchecked
/// arithmetic on it.
#[derive(Clone, Copy, Debug, PartialEq, Eq)]
pub struct Capacity(pub u64);

impl Capacity {
    pub fn zero() -> (r: Capacity)
        ensures
            r.0 == 0,
    {
        Capacity(0)
    }

    /// Checked addition: fails with [`OverflowError`] iff the mathematical
    /// sum does not fit in 64 bits.
    pub fn safe_add(self, rhs: Capacity) -> (r: Result<Capacity, OverflowError>)
        ensures
            self.0 + rhs.0 <= u64::MAX ==> r == Ok::<Capacity, OverflowError>(
                Capacity((self.0 + rhs.0) as u64),
            ),
            self.0 + rhs.0 > u64::MAX ==> r == Err::<Capacity, OverflowError>(OverflowError),
    {
        if self.0 <= u64::MAX - rhs.0 {
            Ok(Capacity(self.0 + rhs.0))
        } else {
            Err(OverflowError)
        }
    }
}

/// A transaction input: the `since` lock over the out-point it spends.
#[derive(Clone, Copy, Debug, PartialEq, Eq)]
pub struct CellInput {
    pub since: u64,
}

/// A transaction output viewed as a cell.
#[derive(Clone, Copy, Debug, PartialEq, Eq)]
pub struct CellOutput {
    pub capacity: Capacity,
    /// True iff the declared capacity cannot accommodate the space the
    /// output's own serialized form requires; evaluated by the node that
    /// serializes the output.
    pub occupied_capacity_overflow: bool,
}

impl CellOutput {
    pub fn is_occupied_capacity_overflow(&self) -> (r: bool)
        ensures
            r == self.occupied_capacity_overflow,
    {
        self.occupied_capacity_overflow
    }
}

/// Where a committed cell was produced.
#[derive(Clone, Copy, Debug, PartialEq, Eq)]
pub struct BlockInfo {
    pub number: BlockNumber,
    pub epoch: EpochNumber,
}

/// The metadata of a committed cell.
#[derive(Clone, Copy, Debug, PartialEq, Eq)]
pub struct CellMeta {
    pub capacity: Capacity,
    /// True iff the producing transaction is a cellbase.
    pub cellbase: bool,
    /// Absent iff the producing transaction is itself still in the mempool.
    pub block_info: Option<BlockInfo>,
}

impl CellMeta {
    pub fn is_cellbase(&self) -> (r: bool)
        ensures
            r == self.cellbase,
    {
        self.cellbase
    }
}

/// A resolved out-point: either the metadata of a committed cell, or the
/// sentinel meaning the cell is still in the mempool.
#[derive(Clone, Copy, Debug, PartialEq, Eq)]
pub struct ResolvedOutPoint {
    pub cell_meta: Option<CellMeta>,
}

impl ResolvedOutPoint {
    pub open spec fn spec_cell(self) -> Option<CellMeta> {
        self.cell_meta
    }

    /// The committed cell, or `None` for the mempool sentinel.
    pub fn cell(&self) -> (r: Option<&CellMeta>)
        ensures
            r matches Some(c) ==> self.cell_meta == Some(*c),
            r is None ==> self.cell_meta is None,
    {
        self.cell_meta.as_ref()
    }
}

/// An immutable transaction record.
#[derive(Clone, Debug, PartialEq, Eq)]
pub struct Transaction {
    pub version: u32,
    /// Dependency references; opaque identifiers used only for duplicate
    /// detection.
    pub deps: Vec<u64>,
    pub inputs: Vec<CellInput>,
    pub outputs: Vec<CellOutput>,
    /// True iff the input set is the canonical coinbase form.
    pub cellbase: bool,
    /// Domain-specific exemption flag, validated elsewhere.
    pub withdrawing_from_dao: bool,
}

impl Transaction {
    pub open spec fn spec_is_empty(self) -> bool {
        self.inputs@.len() == 0 || self.outputs@.len() == 0
    }

    /// True iff the transaction has no inputs or no outputs.
    pub fn is_empty(&self) -> (r: bool)
        ensures
            r == self.spec_is_empty(),
    {
        self.inputs.len() == 0 || self.outputs.len() == 0
    }

    pub fn is_withdrawing_from_dao(&self) -> (r: bool)
        ensures
            r == self.withdrawing_from_dao,
    {
        self.withdrawing_from_dao
    }

    pub fn version(&self) -> (r: u32)
        ensures
            r == self.version,
    {
        self.version
    }

    pub fn inputs(&self) -> (r: &Vec<CellInput>)
        ensures
            r@ == self.inputs@,
    {
        &self.inputs
    }

    pub fn outputs(&self) -> (r: &Vec<CellOutput>)
        ensures
            r@ == self.outputs@,
    {
        &self.outputs
    }

    pub fn deps(&self) -> (r: &Vec<u64>)
        ensures
            r@ == self.deps@,
    {
        &self.deps
    }
}

/// A transaction paired with the metadata of every cell it spends or
/// depends on.
#[derive(Clone, Debug, PartialEq, Eq)]
pub struct ResolvedTransaction {
    pub transaction: Transaction,
    pub resolved_inputs: Vec<ResolvedOutPoint>,
    pub resolved_deps: Vec<ResolvedOutPoint>,
}

impl ResolvedTransaction {
    pub open spec fn spec_is_cellbase(self) -> bool {
        self.transaction.cellbase
    }

    pub fn is_cellbase(&self) -> (r: bool)
        ensures
            r == self.spec_is_cellbase(),
    {
        self.transaction.cellbase
    }

    /// A committed cellbase cell carries its producing block. A committed
    /// cell without block info would be a programmer invariant violation,
    /// not a rejectable transaction.
    pub open spec fn cell_maturity_info_ok(rop: ResolvedOutPoint) -> bool {
        match rop.cell_meta {
            Some(c) => c.cellbase ==> c.block_info is Some,
            None => true,
        }
    }

    pub open spec fn cells_have_maturity_info(cells: Seq<ResolvedOutPoint>) -> bool {
        forall|i: int| 0 <= i < cells.len() ==> Self::cell_maturity_info_ok(#[trigger] cells[i])
    }

    /// The structural invariant the verifiers require: the resolved inputs
    /// are parallel to the inputs, and committed cellbase cells carry their
    /// producing block.
    pub open spec fn wf(self) -> bool {
        &&& self.resolved_inputs@.len() == self.transaction.inputs@.len()
        &&& Self::cells_have_maturity_info(self.resolved_inputs@)
        &&& Self::cells_have_maturity_info(self.resolved_deps@)
    }
}

} // verus!
