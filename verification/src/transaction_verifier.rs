//! The checkers and the two orchestrators.
//!
//! Each checker is constructed per transaction, borrows the resolved
//! transaction and the context, and returns on its first failure. The
//! orchestrators run the checkers in a fixed, observable order: when
//! several rules would fail, the reported error is the one of the earliest
//! check.

use crate::cache::{cache_bound, cache_contents, cache_get, cache_insert, cache_new};
use crate::context::{BlockMedianTimeContext, ScriptEngine};
use crate::error::TransactionError;
use crate::since::{Since, SinceMetric, METRIC_TYPE_FLAG_MASK, REMAIN_FLAGS_BITS};
use crate::types::{
    BlockNumber, Capacity, CellMeta, CellOutput, Cycle, EpochNumber, ResolvedOutPoint,
    ResolvedTransaction, Transaction, TX_VERSION,
};
use lru_cache::LruCache;
use vstd::prelude::*;

verus! {

// ---------------------------------------------------------------------------
// Version

pub open spec fn spec_version_verify(tx: Transaction) -> Result<(), TransactionError> {
    if tx.version != TX_VERSION {
        Err(TransactionError::Version)
    } else {
        Ok(())
    }
}

/// Fails with `Version` iff the transaction's version differs from
/// [`TX_VERSION`].
pub struct VersionVerifier<'a> {
    pub transaction: &'a Transaction,
}

impl<'a> VersionVerifier<'a> {
    pub fn new(transaction: &'a Transaction) -> (v: Self)
        ensures
            *v.transaction == *transaction,
    {
        VersionVerifier { transaction }
    }

    pub fn verify(&self) -> (r: Result<(), TransactionError>)
        ensures
            r == spec_version_verify(*self.transaction),
    {
        if self.transaction.version != TX_VERSION {
            return Err(TransactionError::Version);
        }
        Ok(())
    }
}

// ---------------------------------------------------------------------------
// Empty

pub open spec fn spec_empty_verify(tx: Transaction) -> Result<(), TransactionError> {
    if tx.spec_is_empty() {
        Err(TransactionError::Empty)
    } else {
        Ok(())
    }
}

/// Fails with `Empty` iff the transaction has no inputs or no outputs.
pub struct EmptyVerifier<'a> {
    pub transaction: &'a Transaction,
}

impl<'a> EmptyVerifier<'a> {
    pub fn new(transaction: &'a Transaction) -> (v: Self)
        ensures
            *v.transaction == *transaction,
    {
        EmptyVerifier { transaction }
    }

    pub fn verify(&self) -> (r: Result<(), TransactionError>)
        ensures
            r == spec_empty_verify(*self.transaction),
    {
        if self.transaction.is_empty() {
            Err(TransactionError::Empty)
        } else {
            Ok(())
        }
    }
}

// ---------------------------------------------------------------------------
// Maturity

/// A committed cellbase cell is immature while the tip has not yet reached
/// its producing block plus the maturity window.
pub open spec fn spec_cellbase_immature(
    c: CellMeta,
    tip_number: BlockNumber,
    cellbase_maturity: BlockNumber,
) -> bool {
    match c.block_info {
        Some(bi) => c.cellbase && tip_number < bi.number + cellbase_maturity,
        None => false,
    }
}

pub open spec fn spec_rop_immature(
    rop: ResolvedOutPoint,
    tip_number: BlockNumber,
    cellbase_maturity: BlockNumber,
) -> bool {
    match rop.cell_meta {
        Some(c) => spec_cellbase_immature(c, tip_number, cellbase_maturity),
        None => false,
    }
}

pub open spec fn spec_any_immature(
    cells: Seq<ResolvedOutPoint>,
    tip_number: BlockNumber,
    cellbase_maturity: BlockNumber,
) -> bool {
    exists|i: int|
        0 <= i < cells.len() && spec_rop_immature(#[trigger] cells[i], tip_number, cellbase_maturity)
}

pub open spec fn spec_maturity_verify(
    rtx: ResolvedTransaction,
    tip_number: BlockNumber,
    cellbase_maturity: BlockNumber,
) -> Result<(), TransactionError> {
    if spec_any_immature(rtx.resolved_inputs@, tip_number, cellbase_maturity) || spec_any_immature(
        rtx.resolved_deps@,
        tip_number,
        cellbase_maturity,
    ) {
        Err(TransactionError::CellbaseImmaturity)
    } else {
        Ok(())
    }
}

/// Fails with `CellbaseImmaturity` iff any committed cell among the
/// resolved inputs and deps is an immature cellbase output. Unresolved
/// entries are skipped.
pub struct MaturityVerifier<'a> {
    pub transaction: &'a ResolvedTransaction,
    pub tip_number: BlockNumber,
    pub cellbase_maturity: BlockNumber,
}

impl<'a> MaturityVerifier<'a> {
    pub fn new(
        transaction: &'a ResolvedTransaction,
        tip_number: BlockNumber,
        cellbase_maturity: BlockNumber,
    ) -> (v: Self)
        ensures
            *v.transaction == *transaction,
            v.tip_number == tip_number,
            v.cellbase_maturity == cellbase_maturity,
    {
        MaturityVerifier { transaction, tip_number, cellbase_maturity }
    }

    pub fn verify(&self) -> (r: Result<(), TransactionError>)
        requires
            ResolvedTransaction::cells_have_maturity_info(self.transaction.resolved_inputs@),
            ResolvedTransaction::cells_have_maturity_info(self.transaction.resolved_deps@),
        ensures
            r == spec_maturity_verify(*self.transaction, self.tip_number, self.cellbase_maturity),
    {
        let input_immature = Self::any_immature(
            &self.transaction.resolved_inputs,
            self.tip_number,
            self.cellbase_maturity,
        );
        let dep_immature = Self::any_immature(
            &self.transaction.resolved_deps,
            self.tip_number,
            self.cellbase_maturity,
        );
        if input_immature || dep_immature {
            Err(TransactionError::CellbaseImmaturity)
        } else {
            Ok(())
        }
    }

    fn any_immature(
        cells: &Vec<ResolvedOutPoint>,
        tip_number: BlockNumber,
        cellbase_maturity: BlockNumber,
    ) -> (r: bool)
        requires
            ResolvedTransaction::cells_have_maturity_info(cells@),
        ensures
            r == spec_any_immature(cells@, tip_number, cellbase_maturity),
    {
        let n = cells.len();
        let mut i: usize = 0;
        while i < n
            invariant
                n == cells@.len(),
                i <= n,
                ResolvedTransaction::cells_have_maturity_info(cells@),
                forall|k: int|
                    0 <= k < i ==> !spec_rop_immature(
                        #[trigger] cells@[k],
                        tip_number,
                        cellbase_maturity,
                    ),
            decreases n - i,
        {
            match cells[i].cell() {
                Some(c) => {
                    if c.is_cellbase() {
                        assert(ResolvedTransaction::cell_maturity_info_ok(cells@[i as int]));
                        let bi = c.block_info.unwrap();
                        if (tip_number as u128) < (bi.number as u128) + (cellbase_maturity
                            as u128) {
                            assert(spec_rop_immature(cells@[i as int], tip_number,
                                cellbase_maturity));
                            return true;
                        }
                    }
                },
                None => {},
            }
            i += 1;
        }
        false
    }
}

// ---------------------------------------------------------------------------
// Duplicate deps

pub open spec fn spec_has_duplicate_deps(deps: Seq<u64>) -> bool {
    exists|i: int, j: int| 0 <= i < j < deps.len() && deps[i] == deps[j]
}

pub open spec fn spec_duplicate_deps_verify(tx: Transaction) -> Result<(), TransactionError> {
    if spec_has_duplicate_deps(tx.deps@) {
        Err(TransactionError::DuplicateDeps)
    } else {
        Ok(())
    }
}

/// Fails with `DuplicateDeps` iff two dep references of the transaction
/// are equal; the outcome is independent of their order.
pub struct DuplicateDepsVerifier<'a> {
    pub transaction: &'a Transaction,
}

impl<'a> DuplicateDepsVerifier<'a> {
    pub fn new(transaction: &'a Transaction) -> (v: Self)
        ensures
            *v.transaction == *transaction,
    {
        DuplicateDepsVerifier { transaction }
    }

    pub fn verify(&self) -> (r: Result<(), TransactionError>)
        ensures
            r == spec_duplicate_deps_verify(*self.transaction),
    {
        let deps = &self.transaction.deps;
        let n = deps.len();
        let mut j: usize = 1;
        while j < n
            invariant
                deps@ == self.transaction.deps@,
                n == deps@.len(),
                1 <= j || n == 0,
                forall|a: int, b: int| 0 <= a < b < j ==> deps@[a] != deps@[b],
            decreases n - j,
        {
            let mut i: usize = 0;
            while i < j
                invariant
                    deps@ == self.transaction.deps@,
                    n == deps@.len(),
                    j < n,
                    i <= j,
                    forall|a: int| 0 <= a < i ==> deps@[a] != deps@[j as int],
                decreases j - i,
            {
                if deps[i] == deps[j] {
                    assert(spec_has_duplicate_deps(deps@));
                    return Err(TransactionError::DuplicateDeps);
                }
                i += 1;
            }
            j += 1;
        }
        Ok(())
    }
}

// ---------------------------------------------------------------------------
// Capacity

/// What a resolved input contributes to the inputs sum: a committed cell
/// contributes its capacity, an unresolved entry contributes zero.
pub open spec fn spec_input_capacity(rop: ResolvedOutPoint) -> u64 {
    match rop.cell_meta {
        Some(c) => c.capacity.0,
        None => 0,
    }
}

pub open spec fn spec_inputs_sum(cells: Seq<ResolvedOutPoint>) -> int
    decreases cells.len(),
{
    if cells.len() == 0 {
        0
    } else {
        spec_inputs_sum(cells.drop_last()) + spec_input_capacity(cells.last())
    }
}

pub open spec fn spec_outputs_sum(outputs: Seq<CellOutput>) -> int
    decreases outputs.len(),
{
    if outputs.len() == 0 {
        0
    } else {
        spec_outputs_sum(outputs.drop_last()) + outputs.last().capacity.0
    }
}

pub open spec fn spec_any_occupied_overflow(outputs: Seq<CellOutput>) -> bool {
    exists|i: int| 0 <= i < outputs.len() && (#[trigger] outputs[i]).occupied_capacity_overflow
}

pub open spec fn spec_capacity_exempt(rtx: ResolvedTransaction) -> bool {
    rtx.spec_is_cellbase() || rtx.transaction.withdrawing_from_dao
}

/// The outcome of the capacity checker: an overflowing sum is
/// `CapacityOverflow`, outputs exceeding the committed inputs is
/// `OutputsSumOverflow` (unless the transaction is exempt), and an output
/// whose declared capacity cannot hold its own serialized form is
/// `CapacityOverflow`.
pub open spec fn spec_capacity_verify(rtx: ResolvedTransaction) -> Result<(), TransactionError> {
    let in_sum = spec_inputs_sum(rtx.resolved_inputs@);
    let out_sum = spec_outputs_sum(rtx.transaction.outputs@);
    if !spec_capacity_exempt(rtx) && in_sum > u64::MAX {
        Err(TransactionError::CapacityOverflow)
    } else if !spec_capacity_exempt(rtx) && out_sum > u64::MAX {
        Err(TransactionError::CapacityOverflow)
    } else if !spec_capacity_exempt(rtx) && in_sum < out_sum {
        Err(TransactionError::OutputsSumOverflow)
    } else if spec_any_occupied_overflow(rtx.transaction.outputs@) {
        Err(TransactionError::CapacityOverflow)
    } else {
        Ok(())
    }
}

proof fn lemma_inputs_sum_take_step(cells: Seq<ResolvedOutPoint>, i: int)
    requires
        0 <= i < cells.len(),
    ensures
        spec_inputs_sum(cells.take(i + 1)) == spec_inputs_sum(cells.take(i))
            + spec_input_capacity(cells[i]),
{
    assert(cells.take(i + 1).drop_last() =~= cells.take(i));
    assert(cells.take(i + 1).last() == cells[i]);
}

proof fn lemma_inputs_sum_take_le(cells: Seq<ResolvedOutPoint>, i: int)
    requires
        0 <= i <= cells.len(),
    ensures
        spec_inputs_sum(cells.take(i)) <= spec_inputs_sum(cells),
    decreases cells.len() - i,
{
    if i == cells.len() {
        assert(cells.take(i) =~= cells);
    } else {
        lemma_inputs_sum_take_step(cells, i);
        lemma_inputs_sum_take_le(cells, i + 1);
    }
}

proof fn lemma_outputs_sum_take_step(outputs: Seq<CellOutput>, i: int)
    requires
        0 <= i < outputs.len(),
    ensures
        spec_outputs_sum(outputs.take(i + 1)) == spec_outputs_sum(outputs.take(i))
            + outputs[i].capacity.0,
{
    assert(outputs.take(i + 1).drop_last() =~= outputs.take(i));
    assert(outputs.take(i + 1).last() == outputs[i]);
}

proof fn lemma_outputs_sum_take_le(outputs: Seq<CellOutput>, i: int)
    requires
        0 <= i <= outputs.len(),
    ensures
        spec_outputs_sum(outputs.take(i)) <= spec_outputs_sum(outputs),
    decreases outputs.len() - i,
{
    if i == outputs.len() {
        assert(outputs.take(i) =~= outputs);
    } else {
        lemma_outputs_sum_take_step(outputs, i);
        lemma_outputs_sum_take_le(outputs, i + 1);
    }
}

/// Fails with `CapacityOverflow` on any overflowing capacity sum or
/// occupied-capacity overflow, and with `OutputsSumOverflow` iff the
/// outputs hold more capacity than the committed inputs provide, unless
/// the transaction is a cellbase or withdraws from the DAO.
pub struct CapacityVerifier<'a> {
    pub resolved_transaction: &'a ResolvedTransaction,
}

impl<'a> CapacityVerifier<'a> {
    pub fn new(resolved_transaction: &'a ResolvedTransaction) -> (v: Self)
        ensures
            *v.resolved_transaction == *resolved_transaction,
    {
        CapacityVerifier { resolved_transaction }
    }

    pub fn verify(&self) -> (r: Result<(), TransactionError>)
        ensures
            r == spec_capacity_verify(*self.resolved_transaction),
    {
        let rtx = self.resolved_transaction;
        if !(rtx.is_cellbase() || rtx.transaction.is_withdrawing_from_dao()) {
            let cells = &rtx.resolved_inputs;
            let n = cells.len();
            let mut inputs_total = Capacity::zero();
            let mut i: usize = 0;
            while i < n
                invariant
                    rtx == self.resolved_transaction,
                    cells@ == rtx.resolved_inputs@,
                    n == cells@.len(),
                    i <= n,
                    inputs_total.0 == spec_inputs_sum(cells@.take(i as int)),
                    !spec_capacity_exempt(*rtx),
                decreases n - i,
            {
                let capacity = match cells[i].cell() {
                    Some(cell_meta) => cell_meta.capacity,
                    None => Capacity::zero(),
                };
                proof {
                    lemma_inputs_sum_take_step(cells@, i as int);
                }
                match inputs_total.safe_add(capacity) {
                    Ok(total) => inputs_total = total,
                    Err(_) => {
                        proof {
                            lemma_inputs_sum_take_le(cells@, i as int + 1);
                        }
                        return Err(TransactionError::CapacityOverflow);
                    },
                }
                i += 1;
            }
            proof {
                assert(cells@.take(n as int) =~= cells@);
            }
            let outputs = &rtx.transaction.outputs;
            let m = outputs.len();
            let mut outputs_total = Capacity::zero();
            let mut k: usize = 0;
            while k < m
                invariant
                    rtx == self.resolved_transaction,
                    outputs@ == rtx.transaction.outputs@,
                    m == outputs@.len(),
                    k <= m,
                    outputs_total.0 == spec_outputs_sum(outputs@.take(k as int)),
                    !spec_capacity_exempt(*rtx),
                    inputs_total.0 == spec_inputs_sum(rtx.resolved_inputs@),
                decreases m - k,
            {
                proof {
                    lemma_outputs_sum_take_step(outputs@, k as int);
                }
                match outputs_total.safe_add(outputs[k].capacity) {
                    Ok(total) => outputs_total = total,
                    Err(_) => {
                        proof {
                            lemma_outputs_sum_take_le(outputs@, k as int + 1);
                        }
                        return Err(TransactionError::CapacityOverflow);
                    },
                }
                k += 1;
            }
            proof {
                assert(outputs@.take(m as int) =~= outputs@);
            }
            if inputs_total.0 < outputs_total.0 {
                return Err(TransactionError::OutputsSumOverflow);
            }
        }
        let outputs = &rtx.transaction.outputs;
        let m = outputs.len();
        let mut k: usize = 0;
        while k < m
            invariant
                rtx == self.resolved_transaction,
                outputs@ == rtx.transaction.outputs@,
                m == outputs@.len(),
                k <= m,
                spec_capacity_verify(*rtx) == spec_occupied_tail(*rtx),
                forall|a: int| 0 <= a < k ==> !(#[trigger] outputs@[a]).occupied_capacity_overflow,
            decreases m - k,
        {
            if outputs[k].is_occupied_capacity_overflow() {
                assert(spec_any_occupied_overflow(outputs@));
                return Err(TransactionError::CapacityOverflow);
            }
            k += 1;
        }
        Ok(())
    }
}

/// The part of the capacity outcome that remains once the sum comparison
/// has passed or is exempt.
pub open spec fn spec_occupied_tail(rtx: ResolvedTransaction) -> Result<(), TransactionError> {
    if spec_any_occupied_overflow(rtx.transaction.outputs@) {
        Err(TransactionError::CapacityOverflow)
    } else {
        Ok(())
    }
}

// ---------------------------------------------------------------------------
// Laws of the capacity checker

/// Conservation: when neither exemption applies and neither capacity sum
/// overflows, the capacity checker rejects with `OutputsSumOverflow`
/// exactly when the outputs hold more capacity than the committed inputs
/// provide.
pub proof fn lemma_capacity_conservation(rtx: ResolvedTransaction)
    requires
        !spec_capacity_exempt(rtx),
        spec_inputs_sum(rtx.resolved_inputs@) <= u64::MAX,
        spec_outputs_sum(rtx.transaction.outputs@) <= u64::MAX,
    ensures
        spec_capacity_verify(rtx) == Err::<(), TransactionError>(
            TransactionError::OutputsSumOverflow,
        ) <==> spec_inputs_sum(rtx.resolved_inputs@) < spec_outputs_sum(rtx.transaction.outputs@),
{
}

/// Cellbase exemption: for a cellbase transaction the sum comparison is
/// never the cause of rejection.
pub proof fn lemma_cellbase_exemption(rtx: ResolvedTransaction)
    requires
        rtx.spec_is_cellbase(),
    ensures
        spec_capacity_verify(rtx) != Err::<(), TransactionError>(
            TransactionError::OutputsSumOverflow,
        ),
{
}

// ---------------------------------------------------------------------------
// Script

pub open spec fn spec_script_verify<E: ScriptEngine>(
    engine: &E,
    rtx: ResolvedTransaction,
    max_cycles: Cycle,
) -> Result<Cycle, TransactionError> {
    match engine.spec_verify(&rtx, max_cycles) {
        Ok(c) => Ok(c),
        Err(e) => Err(TransactionError::ScriptFailure(e)),
    }
}

/// Delegates to the script engine; success returns the consumed cycle
/// count, and any script-level failure is wrapped verbatim as
/// `ScriptFailure`.
pub struct ScriptVerifier<'a, E: ScriptEngine> {
    pub resolved_transaction: &'a ResolvedTransaction,
    pub engine: &'a E,
}

impl<'a, E: ScriptEngine> ScriptVerifier<'a, E> {
    pub fn new(resolved_transaction: &'a ResolvedTransaction, engine: &'a E) -> (v: Self)
        ensures
            *v.resolved_transaction == *resolved_transaction,
            v.engine == engine,
    {
        ScriptVerifier { resolved_transaction, engine }
    }

    pub fn verify(&self, max_cycles: Cycle) -> (r: Result<Cycle, TransactionError>)
        ensures
            r == spec_script_verify(self.engine, *self.resolved_transaction, max_cycles),
    {
        match self.engine.verify_scripts(self.resolved_transaction, max_cycles) {
            Ok(cycles) => Ok(cycles),
            Err(e) => Err(TransactionError::ScriptFailure(e)),
        }
    }
}

// ---------------------------------------------------------------------------
// Since

pub open spec fn spec_median_or_zero<M: BlockMedianTimeContext>(m: &M, block_number: u64) -> u64 {
    match m.spec_median_time(block_number) {
        Some(t) => t,
        None => 0,
    }
}

/// The saturating predecessor of a block number.
pub open spec fn spec_prev(block_number: u64) -> u64 {
    if block_number == 0 {
        0
    } else {
        (block_number - 1) as u64
    }
}

/// The outcome of an absolute lock: the tip itself must have reached the
/// threshold. A relative `since` passes this check vacuously.
pub open spec fn spec_absolute_lock<M: BlockMedianTimeContext>(
    s: Since,
    m: &M,
    tip_number: BlockNumber,
    tip_epoch_number: EpochNumber,
) -> Result<(), TransactionError> {
    if s.spec_is_absolute() {
        match s.spec_extract_metric() {
            Some(SinceMetric::BlockNumber(v)) => if tip_number < v {
                Err(TransactionError::Immature)
            } else {
                Ok(())
            },
            Some(SinceMetric::EpochNumber(v)) => if tip_epoch_number < v {
                Err(TransactionError::Immature)
            } else {
                Ok(())
            },
            Some(SinceMetric::Timestamp(v)) => if spec_median_or_zero(m, spec_prev(tip_number)) < v
                * 1000 {
                Err(TransactionError::Immature)
            } else {
                Ok(())
            },
            None => Err(TransactionError::InvalidSince),
        }
    } else {
        Ok(())
    }
}

/// The outcome of a relative lock: the tip must have advanced past the
/// producing block of the spent cell by the threshold. A cell whose
/// producing transaction is still in the mempool cannot have matured.
pub open spec fn spec_relative_lock<M: BlockMedianTimeContext>(
    s: Since,
    c: CellMeta,
    m: &M,
    tip_number: BlockNumber,
    tip_epoch_number: EpochNumber,
) -> Result<(), TransactionError> {
    if s.spec_is_relative() {
        match c.block_info {
            None => Err(TransactionError::Immature),
            Some(bi) => match s.spec_extract_metric() {
                Some(SinceMetric::BlockNumber(v)) => if tip_number < bi.number + v {
                    Err(TransactionError::Immature)
                } else {
                    Ok(())
                },
                Some(SinceMetric::EpochNumber(v)) => if tip_epoch_number < bi.epoch + v {
                    Err(TransactionError::Immature)
                } else {
                    Ok(())
                },
                Some(SinceMetric::Timestamp(v)) => if spec_median_or_zero(
                    m,
                    spec_prev(tip_number),
                ) < spec_median_or_zero(m, spec_prev(bi.number)) + v * 1000 {
                    Err(TransactionError::Immature)
                } else {
                    Ok(())
                },
                None => Err(TransactionError::InvalidSince),
            },
        }
    } else {
        Ok(())
    }
}

/// The outcome on one nonzero `since` over a committed cell: invalid flags
/// are rejected first, then the absolute branch, then the relative branch.
pub open spec fn spec_since_check<M: BlockMedianTimeContext>(
    s: Since,
    c: CellMeta,
    m: &M,
    tip_number: BlockNumber,
    tip_epoch_number: EpochNumber,
) -> Result<(), TransactionError> {
    if !s.spec_flags_is_valid() {
        Err(TransactionError::InvalidSince)
    } else {
        match spec_absolute_lock(s, m, tip_number, tip_epoch_number) {
            Err(e) => Err(e),
            Ok(_) => spec_relative_lock(s, c, m, tip_number, tip_epoch_number),
        }
    }
}

/// The outcome on input `i`: an unresolved input and a zero `since` are
/// skipped.
pub open spec fn spec_input_since_check<M: BlockMedianTimeContext>(
    rtx: ResolvedTransaction,
    m: &M,
    tip_number: BlockNumber,
    tip_epoch_number: EpochNumber,
    i: int,
) -> Result<(), TransactionError> {
    match rtx.resolved_inputs@[i].cell_meta {
        None => Ok(()),
        Some(c) => {
            let s = rtx.transaction.inputs@[i].since;
            if s == 0 {
                Ok(())
            } else {
                spec_since_check(Since(s), c, m, tip_number, tip_epoch_number)
            }
        },
    }
}

/// The outcome of the since checker from input `i` on: the error of the
/// first failing input, in order.
pub open spec fn spec_since_verify_from<M: BlockMedianTimeContext>(
    rtx: ResolvedTransaction,
    m: &M,
    tip_number: BlockNumber,
    tip_epoch_number: EpochNumber,
    i: int,
) -> Result<(), TransactionError>
    decreases rtx.transaction.inputs@.len() - i,
{
    if i < 0 || i >= rtx.transaction.inputs@.len() {
        Ok(())
    } else {
        match spec_input_since_check(rtx, m, tip_number, tip_epoch_number, i) {
            Err(e) => Err(e),
            Ok(_) => spec_since_verify_from(rtx, m, tip_number, tip_epoch_number, i + 1),
        }
    }
}

pub open spec fn spec_since_verify<M: BlockMedianTimeContext>(
    rtx: ResolvedTransaction,
    m: &M,
    tip_number: BlockNumber,
    tip_epoch_number: EpochNumber,
) -> Result<(), TransactionError> {
    spec_since_verify_from(rtx, m, tip_number, tip_epoch_number, 0)
}

/// Checks the `since` lock of every committed input against the chain
/// context, memoizing median-time lookups in a bounded LRU cache whose
/// capacity is the number of resolved inputs.
pub struct SinceVerifier<'a, M: BlockMedianTimeContext> {
    pub rtx: &'a ResolvedTransaction,
    pub block_median_time_context: &'a M,
    pub tip_number: BlockNumber,
    pub tip_epoch_number: EpochNumber,
    pub median_timestamps_cache: LruCache<u64, Option<u64>>,
}

impl<'a, M: BlockMedianTimeContext> SinceVerifier<'a, M> {
    /// Every cached answer agrees with the oracle.
    pub open spec fn cache_wf(self) -> bool {
        forall|n: u64|
            #[trigger] cache_contents(self.median_timestamps_cache).dom().contains(n)
                ==> cache_contents(self.median_timestamps_cache)[n]
                == self.block_median_time_context.spec_median_time(n)
    }

    /// The other verifier agrees on everything but the cache.
    pub open spec fn same_context(self, other: Self) -> bool {
        &&& *self.rtx == *other.rtx
        &&& self.block_median_time_context == other.block_median_time_context
        &&& self.tip_number == other.tip_number
        &&& self.tip_epoch_number == other.tip_epoch_number
    }

    pub fn new(
        rtx: &'a ResolvedTransaction,
        block_median_time_context: &'a M,
        tip_number: BlockNumber,
        tip_epoch_number: EpochNumber,
    ) -> (v: Self)
        ensures
            *v.rtx == *rtx,
            v.block_median_time_context == block_median_time_context,
            v.tip_number == tip_number,
            v.tip_epoch_number == tip_epoch_number,
            v.cache_wf(),
            cache_contents(v.median_timestamps_cache).dom() =~= Set::<u64>::empty(),
            cache_bound(v.median_timestamps_cache) as nat == rtx.resolved_inputs@.len(),
    {
        let median_timestamps_cache = cache_new(rtx.resolved_inputs.len());
        SinceVerifier { rtx, block_median_time_context, tip_number, tip_epoch_number, median_timestamps_cache }
    }

    /// The memoized median-time lookup: consults the cache before the
    /// oracle and caches what the oracle answered.
    fn block_median_time(&mut self, n: BlockNumber) -> (r: Option<u64>)
        requires
            old(self).cache_wf(),
        ensures
            final(self).cache_wf(),
            old(self).same_context(*final(self)),
            r == old(self).block_median_time_context.spec_median_time(n),
            cache_bound(final(self).median_timestamps_cache) == cache_bound(
                old(self).median_timestamps_cache,
            ),
            cache_contents(final(self).median_timestamps_cache).submap_of(cache_contents(
                old(self).median_timestamps_cache,
            ).insert(n, r)),
            cache_contents(old(self).median_timestamps_cache).dom().contains(n)
                || cache_contents(old(self).median_timestamps_cache).dom().len() < cache_bound(
                old(self).median_timestamps_cache,
            ) ==> cache_contents(final(self).median_timestamps_cache).dom().contains(n)
                && cache_contents(final(self).median_timestamps_cache)[n] == r,
    {
        match cache_get(&mut self.median_timestamps_cache, n) {
            Some(result) => {
                proof {
                    let m0 = cache_contents(old(self).median_timestamps_cache);
                    assert(m0.submap_of(m0.insert(n, result)));
                }
                result
            },
            None => {
                let timestamp = self.block_median_time_context.block_median_time(n);
                let ghost pre: Map<u64, Option<u64>> = cache_contents(
                    self.median_timestamps_cache,
                );
                cache_insert(&mut self.median_timestamps_cache, n, timestamp);
                proof {
                    let m_new = cache_contents(self.median_timestamps_cache);
                    assert(m_new.submap_of(pre.insert(n, timestamp)));
                    assert(pre == cache_contents(old(self).median_timestamps_cache));
                    assert forall|k: u64| #[trigger] m_new.dom().contains(k)
                        implies m_new[k] == self.block_median_time_context.spec_median_time(k) by {
                        assert(pre.insert(n, timestamp).dom().contains(k));
                        assert(m_new[k] == pre.insert(n, timestamp)[k]);
                        if k == n {
                            assert(m_new[k] == timestamp);
                        } else {
                            assert(pre.dom().contains(k));
                            assert(m_new[k] == pre[k]);
                        }
                    }
                }
                timestamp
            },
        }
    }

    fn verify_absolute_lock(&mut self, since: Since) -> (r: Result<(), TransactionError>)
        requires
            old(self).cache_wf(),
        ensures
            final(self).cache_wf(),
            old(self).same_context(*final(self)),
            r == spec_absolute_lock(
                since,
                old(self).block_median_time_context,
                old(self).tip_number,
                old(self).tip_epoch_number,
            ),
    {
        if since.is_absolute() {
            match since.extract_metric() {
                Some(SinceMetric::BlockNumber(block_number)) => {
                    if self.tip_number < block_number {
                        return Err(TransactionError::Immature);
                    }
                },
                Some(SinceMetric::EpochNumber(epoch_number)) => {
                    if self.tip_epoch_number < epoch_number {
                        return Err(TransactionError::Immature);
                    }
                },
                Some(SinceMetric::Timestamp(timestamp)) => {
                    let prev = if self.tip_number == 0 {
                        0
                    } else {
                        self.tip_number - 1
                    };
                    let tip_timestamp = match self.block_median_time(prev) {
                        Some(t) => t,
                        None => 0,
                    };
                    if (tip_timestamp as u128) < (timestamp as u128) * 1000 {
                        return Err(TransactionError::Immature);
                    }
                },
                None => {
                    return Err(TransactionError::InvalidSince);
                },
            }
        }
        Ok(())
    }

    fn verify_relative_lock(&mut self, since: Since, cell_meta: &CellMeta) -> (r: Result<
        (),
        TransactionError,
    >)
        requires
            old(self).cache_wf(),
        ensures
            final(self).cache_wf(),
            old(self).same_context(*final(self)),
            r == spec_relative_lock(
                since,
                *cell_meta,
                old(self).block_median_time_context,
                old(self).tip_number,
                old(self).tip_epoch_number,
            ),
    {
        if since.is_relative() {
            let (cell_block_number, cell_epoch_number): (u64, u64) = match cell_meta.block_info {
                Some(block_info) => (block_info.number, block_info.epoch),
                None => {
                    return Err(TransactionError::Immature);
                },
            };
            match since.extract_metric() {
                Some(SinceMetric::BlockNumber(block_number)) => {
                    if (self.tip_number as u128) < (cell_block_number as u128) + (block_number
                        as u128) {
                        return Err(TransactionError::Immature);
                    }
                },
                Some(SinceMetric::EpochNumber(epoch_number)) => {
                    if (self.tip_epoch_number as u128) < (cell_epoch_number as u128) + (epoch_number
                        as u128) {
                        return Err(TransactionError::Immature);
                    }
                },
                Some(SinceMetric::Timestamp(timestamp)) => {
                    let prev_tip = if self.tip_number == 0 {
                        0
                    } else {
                        self.tip_number - 1
                    };
                    let tip_timestamp = match self.block_median_time(prev_tip) {
                        Some(t) => t,
                        None => 0,
                    };
                    let prev_cell = if cell_block_number == 0 {
                        0
                    } else {
                        cell_block_number - 1
                    };
                    let median_timestamp = match self.block_median_time(prev_cell) {
                        Some(t) => t,
                        None => 0,
                    };
                    if (tip_timestamp as u128) < (median_timestamp as u128) + (timestamp as u128)
                        * 1000 {
                        return Err(TransactionError::Immature);
                    }
                },
                None => {
                    return Err(TransactionError::InvalidSince);
                },
            }
        }
        Ok(())
    }

    pub fn verify(&mut self) -> (r: Result<(), TransactionError>)
        requires
            old(self).cache_wf(),
            old(self).rtx.wf(),
        ensures
            final(self).cache_wf(),
            old(self).same_context(*final(self)),
            r == spec_since_verify(
                *old(self).rtx,
                old(self).block_median_time_context,
                old(self).tip_number,
                old(self).tip_epoch_number,
            ),
    {
        let rtx = self.rtx;
        let ctx = self.block_median_time_context;
        let tip = self.tip_number;
        let epoch = self.tip_epoch_number;
        let n = rtx.transaction.inputs.len();
        let mut i: usize = 0;
        while i < n
            invariant
                rtx == old(self).rtx,
                ctx == old(self).block_median_time_context,
                tip == old(self).tip_number,
                epoch == old(self).tip_epoch_number,
                self.rtx == rtx,
                self.block_median_time_context == ctx,
                self.tip_number == tip,
                self.tip_epoch_number == epoch,
                self.cache_wf(),
                rtx.wf(),
                n == rtx.transaction.inputs@.len(),
                i <= n,
                spec_since_verify_from(*rtx, ctx, tip, epoch, 0) == spec_since_verify_from(
                    *rtx,
                    ctx,
                    tip,
                    epoch,
                    i as int,
                ),
            decreases n - i,
        {
            let rop = &rtx.resolved_inputs[i];
            match rop.cell() {
                None => {},
                Some(cell_meta) => {
                    let since_raw = rtx.transaction.inputs[i].since;
                    if since_raw != 0 {
                        let since = Since(since_raw);
                        if !since.flags_is_valid() {
                            assert(spec_input_since_check(*rtx, ctx, tip, epoch, i as int)
                                == Err::<(), TransactionError>(TransactionError::InvalidSince));
                            return Err(TransactionError::InvalidSince);
                        }
                        match self.verify_absolute_lock(since) {
                            Err(e) => {
                                assert(spec_input_since_check(*rtx, ctx, tip, epoch, i as int)
                                    == Err::<(), TransactionError>(e));
                                return Err(e);
                            },
                            Ok(_) => {},
                        }
                        match self.verify_relative_lock(since, cell_meta) {
                            Err(e) => {
                                assert(spec_input_since_check(*rtx, ctx, tip, epoch, i as int)
                                    == Err::<(), TransactionError>(e));
                                return Err(e);
                            },
                            Ok(_) => {},
                        }
                    }
                },
            }
            proof {
                assert(spec_input_since_check(*rtx, ctx, tip, epoch, i as int) == Ok::<
                    (),
                    TransactionError,
                >(()));
            }
            i += 1;
        }
        Ok(())
    }
}

// ---------------------------------------------------------------------------
// Orchestrators

/// The outcome of the contextual checks: maturity, then since; the first failure wins.
pub open spec fn spec_contextual_verify<M: BlockMedianTimeContext>(
    rtx: ResolvedTransaction,
    m: &M,
    tip_number: BlockNumber,
    tip_epoch_number: EpochNumber,
    cellbase_maturity: BlockNumber,
) -> Result<(), TransactionError> {
    match spec_maturity_verify(rtx, tip_number, cellbase_maturity) {
        Err(e) => Err(e),
        Ok(_) => spec_since_verify(rtx, m, tip_number, tip_epoch_number),
    }
}

/// The outcome of the full check sequence: version, empty, maturity, capacity, duplicate deps,
/// since, script, in that order; the first failure wins, and success is
/// the script engine's cycle count.
pub open spec fn spec_full_verify<M: BlockMedianTimeContext, E: ScriptEngine>(
    rtx: ResolvedTransaction,
    m: &M,
    engine: &E,
    tip_number: BlockNumber,
    tip_epoch_number: EpochNumber,
    cellbase_maturity: BlockNumber,
    max_cycles: Cycle,
) -> Result<Cycle, TransactionError> {
    match spec_version_verify(rtx.transaction) {
        Err(e) => Err(e),
        Ok(_) => match spec_empty_verify(rtx.transaction) {
            Err(e) => Err(e),
            Ok(_) => match spec_maturity_verify(rtx, tip_number, cellbase_maturity) {
                Err(e) => Err(e),
                Ok(_) => match spec_capacity_verify(rtx) {
                    Err(e) => Err(e),
                    Ok(_) => match spec_duplicate_deps_verify(rtx.transaction) {
                        Err(e) => Err(e),
                        Ok(_) => match spec_since_verify(rtx, m, tip_number, tip_epoch_number) {
                            Err(e) => Err(e),
                            Ok(_) => spec_script_verify(engine, rtx, max_cycles),
                        },
                    },
                },
            },
        },
    }
}

/// The cheap, re-runnable checks: maturity and since. Used whenever the
/// tip moves and previously accepted transactions must be re-checked.
pub struct ContextualTransactionVerifier<'a, M: BlockMedianTimeContext> {
    pub maturity: MaturityVerifier<'a>,
    pub since: SinceVerifier<'a, M>,
}

impl<'a, M: BlockMedianTimeContext> ContextualTransactionVerifier<'a, M> {
    /// All checkers look at the same resolved transaction and tip, and the
    /// cache agrees with the oracle.
    pub open spec fn wf(self) -> bool {
        &&& *self.maturity.transaction == *self.since.rtx
        &&& self.maturity.tip_number == self.since.tip_number
        &&& self.since.rtx.wf()
        &&& self.since.cache_wf()
    }

    pub open spec fn same_setup(self, other: Self) -> bool {
        &&& *self.maturity.transaction == *other.maturity.transaction
        &&& self.maturity.tip_number == other.maturity.tip_number
        &&& self.maturity.cellbase_maturity == other.maturity.cellbase_maturity
        &&& self.since.same_context(other.since)
    }

    pub fn new(
        rtx: &'a ResolvedTransaction,
        median_time_context: &'a M,
        tip_number: BlockNumber,
        tip_epoch_number: EpochNumber,
        cellbase_maturity: BlockNumber,
    ) -> (v: Self)
        requires
            rtx.wf(),
        ensures
            v.wf(),
            *v.since.rtx == *rtx,
            v.since.block_median_time_context == median_time_context,
            v.since.tip_number == tip_number,
            v.since.tip_epoch_number == tip_epoch_number,
            v.maturity.cellbase_maturity == cellbase_maturity,
            cache_contents(v.since.median_timestamps_cache).dom() =~= Set::<u64>::empty(),
            cache_bound(v.since.median_timestamps_cache) as nat == rtx.resolved_inputs@.len(),
    {
        ContextualTransactionVerifier {
            maturity: MaturityVerifier::new(rtx, tip_number, cellbase_maturity),
            since: SinceVerifier::new(rtx, median_time_context, tip_number, tip_epoch_number),
        }
    }

    pub fn verify(&mut self) -> (r: Result<(), TransactionError>)
        requires
            old(self).wf(),
        ensures
            final(self).wf(),
            old(self).same_setup(*final(self)),
            r == spec_contextual_verify(
                *old(self).since.rtx,
                old(self).since.block_median_time_context,
                old(self).since.tip_number,
                old(self).since.tip_epoch_number,
                old(self).maturity.cellbase_maturity,
            ),
    {
        match self.maturity.verify() {
            Err(e) => return Err(e),
            Ok(_) => {},
        }
        self.since.verify()
    }
}

/// The full verifier: every rule of the protocol, in its fixed order, with the script engine last because it is the most expensive.
pub struct TransactionVerifier<'a, M: BlockMedianTimeContext, E: ScriptEngine> {
    pub version: VersionVerifier<'a>,
    pub empty: EmptyVerifier<'a>,
    pub maturity: MaturityVerifier<'a>,
    pub capacity: CapacityVerifier<'a>,
    pub duplicate_deps: DuplicateDepsVerifier<'a>,
    pub script: ScriptVerifier<'a, E>,
    pub since: SinceVerifier<'a, M>,
}

impl<'a, M: BlockMedianTimeContext, E: ScriptEngine> TransactionVerifier<'a, M, E> {
    /// All checkers look at the same resolved transaction and tip, and the
    /// cache agrees with the oracle.
    pub open spec fn wf(self) -> bool {
        &&& *self.version.transaction == (*self.since.rtx).transaction
        &&& *self.empty.transaction == (*self.since.rtx).transaction
        &&& *self.maturity.transaction == *self.since.rtx
        &&& self.maturity.tip_number == self.since.tip_number
        &&& *self.duplicate_deps.transaction == (*self.since.rtx).transaction
        &&& *self.capacity.resolved_transaction == *self.since.rtx
        &&& *self.script.resolved_transaction == *self.since.rtx
        &&& self.since.rtx.wf()
        &&& self.since.cache_wf()
    }

    pub open spec fn same_setup(self, other: Self) -> bool {
        &&& *self.version.transaction == *other.version.transaction
        &&& *self.empty.transaction == *other.empty.transaction
        &&& *self.maturity.transaction == *other.maturity.transaction
        &&& self.maturity.tip_number == other.maturity.tip_number
        &&& self.maturity.cellbase_maturity == other.maturity.cellbase_maturity
        &&& *self.duplicate_deps.transaction == *other.duplicate_deps.transaction
        &&& *self.capacity.resolved_transaction == *other.capacity.resolved_transaction
        &&& *self.script.resolved_transaction == *other.script.resolved_transaction
        &&& self.script.engine == other.script.engine
        &&& self.since.same_context(other.since)
    }

    pub fn new(
        rtx: &'a ResolvedTransaction,
        script_engine: &'a E,
        median_time_context: &'a M,
        tip_number: BlockNumber,
        tip_epoch_number: EpochNumber,
        cellbase_maturity: BlockNumber,
    ) -> (v: Self)
        requires
            rtx.wf(),
        ensures
            v.wf(),
            *v.since.rtx == *rtx,
            v.since.block_median_time_context == median_time_context,
            v.since.tip_number == tip_number,
            v.since.tip_epoch_number == tip_epoch_number,
            v.maturity.cellbase_maturity == cellbase_maturity,
            v.script.engine == script_engine,
            cache_contents(v.since.median_timestamps_cache).dom() =~= Set::<u64>::empty(),
            cache_bound(v.since.median_timestamps_cache) as nat == rtx.resolved_inputs@.len(),
    {
        TransactionVerifier {
            version: VersionVerifier::new(&rtx.transaction),
            empty: EmptyVerifier::new(&rtx.transaction),
            maturity: MaturityVerifier::new(rtx, tip_number, cellbase_maturity),
            duplicate_deps: DuplicateDepsVerifier::new(&rtx.transaction),
            script: ScriptVerifier::new(rtx, script_engine),
            capacity: CapacityVerifier::new(rtx),
            since: SinceVerifier::new(rtx, median_time_context, tip_number, tip_epoch_number),
        }
    }

    /// The ordering law: when several rules would fail, the reported error
    /// is the one of the earliest check of the fixed order.
    pub fn verify(&mut self, max_cycles: Cycle) -> (r: Result<Cycle, TransactionError>)
        requires
            old(self).wf(),
        ensures
            final(self).wf(),
            old(self).same_setup(*final(self)),
            r == spec_full_verify(
                *old(self).since.rtx,
                old(self).since.block_median_time_context,
                old(self).script.engine,
                old(self).since.tip_number,
                old(self).since.tip_epoch_number,
                old(self).maturity.cellbase_maturity,
                max_cycles,
            ),
    {
        match self.version.verify() {
            Err(e) => return Err(e),
            Ok(_) => {},
        }
        match self.empty.verify() {
            Err(e) => return Err(e),
            Ok(_) => {},
        }
        match self.maturity.verify() {
            Err(e) => return Err(e),
            Ok(_) => {},
        }
        match self.capacity.verify() {
            Err(e) => return Err(e),
            Ok(_) => {},
        }
        match self.duplicate_deps.verify() {
            Err(e) => return Err(e),
            Ok(_) => {},
        }
        match self.since.verify() {
            Err(e) => return Err(e),
            Ok(_) => {},
        }
        let cycles = match self.script.verify(max_cycles) {
            Err(e) => return Err(e),
            Ok(c) => c,
        };
        Ok(cycles)
    }
}

// ---------------------------------------------------------------------------
// Laws of the since checker and the orchestrators

/// A `since` with a nonzero reserved bit or the invalid metric code is
/// rejected as `InvalidSince`, whatever the cell and the context.
pub proof fn lemma_invalid_since_rejected<M: BlockMedianTimeContext>(
    raw: u64,
    c: CellMeta,
    m: &M,
    tip_number: BlockNumber,
    tip_epoch_number: EpochNumber,
)
    requires
        raw & REMAIN_FLAGS_BITS != 0 || raw & METRIC_TYPE_FLAG_MASK == METRIC_TYPE_FLAG_MASK,
    ensures
        spec_since_check(Since(raw), c, m, tip_number, tip_epoch_number) == Err::<
            (),
            TransactionError,
        >(TransactionError::InvalidSince),
{
}

proof fn lemma_since_zero_from<M: BlockMedianTimeContext>(
    rtx: ResolvedTransaction,
    m: &M,
    tip_number: BlockNumber,
    tip_epoch_number: EpochNumber,
    i: int,
)
    requires
        forall|k: int|
            0 <= k < rtx.transaction.inputs@.len() ==> (#[trigger] rtx.transaction.inputs@[k]).since
                == 0,
    ensures
        spec_since_verify_from(rtx, m, tip_number, tip_epoch_number, i) == Ok::<
            (),
            TransactionError,
        >(()),
    decreases rtx.transaction.inputs@.len() - i,
{
    if 0 <= i < rtx.transaction.inputs@.len() {
        lemma_since_zero_from(rtx, m, tip_number, tip_epoch_number, i + 1);
    }
}

/// A zero `since` is a no-op: a transaction whose inputs all carry a zero
/// `since` is never rejected by the since checker, whatever the context.
pub proof fn lemma_since_zero_is_noop<M: BlockMedianTimeContext>(
    rtx: ResolvedTransaction,
    m: &M,
    tip_number: BlockNumber,
    tip_epoch_number: EpochNumber,
)
    requires
        forall|k: int|
            0 <= k < rtx.transaction.inputs@.len() ==> (#[trigger] rtx.transaction.inputs@[k]).since
                == 0,
    ensures
        spec_since_verify(rtx, m, tip_number, tip_epoch_number) == Ok::<(), TransactionError>(()),
{
    lemma_since_zero_from(rtx, m, tip_number, tip_epoch_number, 0);
}

/// Re-running the since checker is harmless: each `verify` call returns
/// `spec_since_verify` of the transaction, the oracle, and the tip, all of
/// which the call leaves unchanged — the cache it fills along the way never
/// enters the result. How often the oracle is consulted is not observable
/// in contracts; the memoized lookup's own contract bounds what the cache
/// may hold instead.
pub proof fn lemma_since_verify_repeatable<M: BlockMedianTimeContext>(
    rtx: ResolvedTransaction,
    m: &M,
    tip_number: BlockNumber,
    tip_epoch_number: EpochNumber,
    r1: Result<(), TransactionError>,
    r2: Result<(), TransactionError>,
)
    requires
        r1 == spec_since_verify(rtx, m, tip_number, tip_epoch_number),
        r2 == spec_since_verify(rtx, m, tip_number, tip_epoch_number),
    ensures
        r1 == r2,
{
}

/// The since checker rejects only as `InvalidSince` or `Immature`.
proof fn lemma_since_verify_error_kinds<M: BlockMedianTimeContext>(
    rtx: ResolvedTransaction,
    m: &M,
    tip_number: BlockNumber,
    tip_epoch_number: EpochNumber,
    i: int,
)
    ensures
        spec_since_verify_from(rtx, m, tip_number, tip_epoch_number, i) matches Err(e) ==> (e
            == TransactionError::InvalidSince || e == TransactionError::Immature),
    decreases rtx.transaction.inputs@.len() - i,
{
    if 0 <= i < rtx.transaction.inputs@.len() {
        lemma_since_verify_error_kinds(rtx, m, tip_number, tip_epoch_number, i + 1);
    }
}

/// Conservation at the level of the full check sequence: when neither exemption
/// applies, neither capacity sum overflows, and the checks before the
/// capacity checker pass, the transaction is rejected as
/// `OutputsSumOverflow` exactly when the outputs hold more capacity than
/// the committed inputs provide.
pub proof fn lemma_full_verify_conservation<M: BlockMedianTimeContext, E: ScriptEngine>(
    rtx: ResolvedTransaction,
    m: &M,
    engine: &E,
    tip_number: BlockNumber,
    tip_epoch_number: EpochNumber,
    cellbase_maturity: BlockNumber,
    max_cycles: Cycle,
)
    requires
        !spec_capacity_exempt(rtx),
        spec_inputs_sum(rtx.resolved_inputs@) <= u64::MAX,
        spec_outputs_sum(rtx.transaction.outputs@) <= u64::MAX,
        spec_version_verify(rtx.transaction) is Ok,
        spec_empty_verify(rtx.transaction) is Ok,
        spec_maturity_verify(rtx, tip_number, cellbase_maturity) is Ok,
    ensures
        spec_full_verify(rtx, m, engine, tip_number, tip_epoch_number, cellbase_maturity, max_cycles)
            == Err::<Cycle, TransactionError>(TransactionError::OutputsSumOverflow)
            <==> spec_inputs_sum(rtx.resolved_inputs@) < spec_outputs_sum(rtx.transaction.outputs@),
{
    lemma_since_verify_error_kinds(rtx, m, tip_number, tip_epoch_number, 0);
}

/// Cellbase exemption at the level of the full check sequence: a cellbase
/// transaction is never rejected as `OutputsSumOverflow`.
pub proof fn lemma_full_cellbase_exemption<M: BlockMedianTimeContext, E: ScriptEngine>(
    rtx: ResolvedTransaction,
    m: &M,
    engine: &E,
    tip_number: BlockNumber,
    tip_epoch_number: EpochNumber,
    cellbase_maturity: BlockNumber,
    max_cycles: Cycle,
)
    requires
        rtx.spec_is_cellbase(),
    ensures
        spec_full_verify(rtx, m, engine, tip_number, tip_epoch_number, cellbase_maturity, max_cycles)
            != Err::<Cycle, TransactionError>(TransactionError::OutputsSumOverflow),
{
    lemma_since_verify_error_kinds(rtx, m, tip_number, tip_epoch_number, 0);
}

/// Idempotence: each `verify` call returns `spec_full_verify` of fields it
/// leaves unchanged, so two calls from one verifier return the same
/// answer, and neither mutates the transaction, the context, or the
/// engine.
pub proof fn lemma_verify_idempotent<M: BlockMedianTimeContext, E: ScriptEngine>(
    rtx: ResolvedTransaction,
    m: &M,
    engine: &E,
    tip_number: BlockNumber,
    tip_epoch_number: EpochNumber,
    cellbase_maturity: BlockNumber,
    max_cycles: Cycle,
    r1: Result<Cycle, TransactionError>,
    r2: Result<Cycle, TransactionError>,
)
    requires
        r1 == spec_full_verify(
            rtx,
            m,
            engine,
            tip_number,
            tip_epoch_number,
            cellbase_maturity,
            max_cycles,
        ),
        r2 == spec_full_verify(
            rtx,
            m,
            engine,
            tip_number,
            tip_epoch_number,
            cellbase_maturity,
            max_cycles,
        ),
    ensures
        r1 == r2,
{
}

} // verus!
