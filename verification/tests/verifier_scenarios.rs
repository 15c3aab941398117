//! End-to-end scenarios for the two orchestrators.

use tx_verification::context::{FixedScriptEngine, MemoryMedianTimeContext};
use tx_verification::error::{ScriptError, TransactionError};
use tx_verification::transaction_verifier::{ContextualTransactionVerifier, TransactionVerifier};
use tx_verification::types::{
    BlockInfo, Capacity, CellInput, CellMeta, CellOutput, ResolvedOutPoint, ResolvedTransaction,
    Transaction, TX_VERSION,
};

fn committed(capacity: u64, cellbase: bool, block_info: Option<BlockInfo>) -> ResolvedOutPoint {
    ResolvedOutPoint {
        cell_meta: Some(CellMeta { capacity: Capacity(capacity), cellbase, block_info }),
    }
}

fn unresolved() -> ResolvedOutPoint {
    ResolvedOutPoint { cell_meta: None }
}

fn transaction(sinces: &[u64], outputs: &[u64], deps: &[u64]) -> Transaction {
    Transaction {
        version: TX_VERSION,
        deps: deps.to_vec(),
        inputs: sinces.iter().map(|s| CellInput { since: *s }).collect(),
        outputs: outputs
            .iter()
            .map(|c| CellOutput { capacity: Capacity(*c), occupied_capacity_overflow: false })
            .collect(),
        cellbase: false,
        withdrawing_from_dao: false,
    }
}

fn resolve(tx: Transaction, cells: Vec<ResolvedOutPoint>) -> ResolvedTransaction {
    ResolvedTransaction { transaction: tx, resolved_inputs: cells, resolved_deps: Vec::new() }
}

fn oracle(times: Vec<Option<u64>>) -> MemoryMedianTimeContext {
    MemoryMedianTimeContext { times }
}

fn ok_engine() -> FixedScriptEngine {
    FixedScriptEngine { outcome: Ok(7) }
}

fn full(
    rtx: &ResolvedTransaction,
    m: &MemoryMedianTimeContext,
    engine: &FixedScriptEngine,
    tip_number: u64,
    tip_epoch: u64,
    cellbase_maturity: u64,
    max_cycles: u64,
) -> Result<u64, TransactionError> {
    let mut verifier = TransactionVerifier::new(rtx, engine, m, tip_number, tip_epoch, cellbase_maturity);
    verifier.verify(max_cycles)
}

#[test]
fn happy_path_returns_script_cycles() {
    let rtx = resolve(transaction(&[0], &[900], &[]), vec![committed(1000, false, None)]);
    let m = oracle(vec![]);
    assert_eq!(full(&rtx, &m, &ok_engine(), 10, 1, 100, 1000), Ok(7));
}

#[test]
fn capacity_shortfall_rejected() {
    let rtx = resolve(transaction(&[0], &[600], &[]), vec![committed(500, false, None)]);
    let m = oracle(vec![]);
    assert_eq!(
        full(&rtx, &m, &ok_engine(), 10, 1, 100, 1000),
        Err(TransactionError::OutputsSumOverflow)
    );
}

#[test]
fn duplicate_deps_rejected() {
    let rtx = resolve(transaction(&[0], &[1000], &[5, 5]), vec![committed(1000, false, None)]);
    let m = oracle(vec![]);
    assert_eq!(
        full(&rtx, &m, &ok_engine(), 10, 1, 100, 1000),
        Err(TransactionError::DuplicateDeps)
    );
}

#[test]
fn absolute_block_lock_immature_then_mature() {
    let since = 0x0000_0000_0000_0064u64;
    let rtx = resolve(transaction(&[since], &[1000], &[]), vec![committed(1000, false, None)]);
    let m = oracle(vec![]);
    assert_eq!(full(&rtx, &m, &ok_engine(), 99, 1, 10, 1000), Err(TransactionError::Immature));
    assert_eq!(full(&rtx, &m, &ok_engine(), 100, 1, 10, 1000), Ok(7));
}

#[test]
fn absolute_timestamp_lock_compares_milliseconds() {
    let since = 0x4000_0000_0000_0001u64;
    let rtx = resolve(transaction(&[since], &[1000], &[]), vec![committed(1000, false, None)]);
    let mut times = vec![None; 10];
    times[9] = Some(999);
    assert_eq!(
        full(&rtx, &oracle(times.clone()), &ok_engine(), 10, 1, 10, 1000),
        Err(TransactionError::Immature)
    );
    times[9] = Some(1000);
    assert_eq!(full(&rtx, &oracle(times), &ok_engine(), 10, 1, 10, 1000), Ok(7));
}

#[test]
fn relative_lock_on_mempool_cell_is_immature() {
    let since = 0xa000_0000_0000_0005u64;
    let rtx = resolve(transaction(&[since], &[1000], &[]), vec![committed(1000, false, None)]);
    let m = oracle(vec![]);
    assert_eq!(
        full(&rtx, &m, &ok_engine(), 1_000_000, 1_000_000, 10, 1000),
        Err(TransactionError::Immature)
    );
}

#[test]
fn reserved_since_bit_rejected() {
    let since = 0x0100_0000_0000_0000u64;
    let rtx = resolve(transaction(&[since], &[1000], &[]), vec![committed(1000, false, None)]);
    let m = oracle(vec![]);
    assert_eq!(
        full(&rtx, &m, &ok_engine(), 10, 1, 10, 1000),
        Err(TransactionError::InvalidSince)
    );
}

#[test]
fn invalid_metric_code_rejected() {
    let since = 0x6000_0000_0000_0001u64;
    let rtx = resolve(transaction(&[since], &[1000], &[]), vec![committed(1000, false, None)]);
    let m = oracle(vec![]);
    assert_eq!(
        full(&rtx, &m, &ok_engine(), 10, 1, 10, 1000),
        Err(TransactionError::InvalidSince)
    );
}

#[test]
fn wrong_version_rejected_first() {
    let mut tx = transaction(&[0], &[600], &[]);
    tx.version = TX_VERSION + 1;
    // The capacity shortfall would also fail, but version comes first.
    let rtx = resolve(tx, vec![committed(500, false, None)]);
    let m = oracle(vec![]);
    assert_eq!(full(&rtx, &m, &ok_engine(), 10, 1, 10, 1000), Err(TransactionError::Version));
}

#[test]
fn empty_transaction_rejected() {
    let rtx = resolve(transaction(&[], &[1000], &[]), vec![]);
    let m = oracle(vec![]);
    assert_eq!(full(&rtx, &m, &ok_engine(), 10, 1, 10, 1000), Err(TransactionError::Empty));
}

#[test]
fn immature_cellbase_input_rejected() {
    let cell = committed(1000, true, Some(BlockInfo { number: 50, epoch: 0 }));
    let rtx = resolve(transaction(&[0], &[1000], &[]), vec![cell]);
    let m = oracle(vec![]);
    assert_eq!(
        full(&rtx, &m, &ok_engine(), 100, 1, 100, 1000),
        Err(TransactionError::CellbaseImmaturity)
    );
    assert_eq!(full(&rtx, &m, &ok_engine(), 150, 1, 100, 1000), Ok(7));
}

#[test]
fn immature_cellbase_dep_rejected() {
    let dep = committed(1, true, Some(BlockInfo { number: 90, epoch: 0 }));
    let mut rtx = resolve(transaction(&[0], &[1000], &[]), vec![committed(1000, false, None)]);
    rtx.resolved_deps.push(dep);
    let m = oracle(vec![]);
    assert_eq!(
        full(&rtx, &m, &ok_engine(), 100, 1, 100, 1000),
        Err(TransactionError::CellbaseImmaturity)
    );
}

#[test]
fn inputs_sum_overflow_is_capacity_overflow() {
    let cells = vec![committed(u64::MAX, false, None), committed(1, false, None)];
    let rtx = resolve(transaction(&[0, 0], &[1], &[]), cells);
    let m = oracle(vec![]);
    assert_eq!(
        full(&rtx, &m, &ok_engine(), 10, 1, 10, 1000),
        Err(TransactionError::CapacityOverflow)
    );
}

#[test]
fn occupied_capacity_overflow_rejected() {
    let mut tx = transaction(&[0], &[900], &[]);
    tx.outputs[0].occupied_capacity_overflow = true;
    let rtx = resolve(tx, vec![committed(1000, false, None)]);
    let m = oracle(vec![]);
    assert_eq!(
        full(&rtx, &m, &ok_engine(), 10, 1, 10, 1000),
        Err(TransactionError::CapacityOverflow)
    );
}

#[test]
fn cellbase_transaction_skips_sum_comparison() {
    let mut tx = transaction(&[0], &[5000], &[]);
    tx.cellbase = true;
    let rtx = resolve(tx, vec![unresolved()]);
    let m = oracle(vec![]);
    assert_eq!(full(&rtx, &m, &ok_engine(), 10, 1, 10, 1000), Ok(7));
}

#[test]
fn dao_withdrawal_skips_sum_comparison() {
    let mut tx = transaction(&[0], &[5000], &[]);
    tx.withdrawing_from_dao = true;
    let rtx = resolve(tx, vec![committed(1, false, None)]);
    let m = oracle(vec![]);
    assert_eq!(full(&rtx, &m, &ok_engine(), 10, 1, 10, 1000), Ok(7));
}

#[test]
fn unresolved_input_contributes_zero_capacity() {
    let rtx = resolve(
        transaction(&[0, 0], &[1000], &[]),
        vec![committed(1000, false, None), unresolved()],
    );
    let m = oracle(vec![]);
    assert_eq!(full(&rtx, &m, &ok_engine(), 10, 1, 10, 1000), Ok(7));
}

#[test]
fn script_failure_carried_verbatim() {
    let rtx = resolve(transaction(&[0], &[900], &[]), vec![committed(1000, false, None)]);
    let m = oracle(vec![]);
    let engine = FixedScriptEngine { outcome: Err(ScriptError::ValidationFailure(3)) };
    assert_eq!(
        full(&rtx, &m, &engine, 10, 1, 10, 1000),
        Err(TransactionError::ScriptFailure(ScriptError::ValidationFailure(3)))
    );
}

#[test]
fn script_over_budget_fails() {
    let rtx = resolve(transaction(&[0], &[900], &[]), vec![committed(1000, false, None)]);
    let m = oracle(vec![]);
    let engine = FixedScriptEngine { outcome: Ok(100) };
    assert_eq!(
        full(&rtx, &m, &engine, 10, 1, 10, 10),
        Err(TransactionError::ScriptFailure(ScriptError::ExceededMaximumCycles))
    );
}

#[test]
fn full_verify_is_idempotent() {
    let since = 0x4000_0000_0000_0001u64;
    let rtx = resolve(transaction(&[since], &[900], &[]), vec![committed(1000, false, None)]);
    let mut times = vec![None; 10];
    times[9] = Some(999);
    let m = oracle(times);
    let engine = ok_engine();
    let mut verifier = TransactionVerifier::new(&rtx, &engine, &m, 10, 1, 10);
    let first = verifier.verify(1000);
    let second = verifier.verify(1000);
    assert_eq!(first, Err(TransactionError::Immature));
    assert_eq!(first, second);
}

#[test]
fn contextual_verify_orders_maturity_before_since() {
    // Both the maturity check and the since check would fail.
    let cell = committed(1000, true, Some(BlockInfo { number: 90, epoch: 0 }));
    let since = 0x0000_0000_0000_0064u64;
    let rtx = resolve(transaction(&[since], &[1000], &[]), vec![cell]);
    let m = oracle(vec![]);
    let mut verifier = ContextualTransactionVerifier::new(&rtx, &m, 99, 1, 100);
    assert_eq!(verifier.verify(), Err(TransactionError::CellbaseImmaturity));
}

#[test]
fn contextual_verify_accepts_mature_transaction() {
    let cell = committed(1000, true, Some(BlockInfo { number: 10, epoch: 0 }));
    let rtx = resolve(transaction(&[0], &[1000], &[]), vec![cell]);
    let m = oracle(vec![]);
    let mut verifier = ContextualTransactionVerifier::new(&rtx, &m, 500, 1, 100);
    assert_eq!(verifier.verify(), Ok(()));
}

#[test]
fn zero_since_never_rejects() {
    let rtx = resolve(transaction(&[0, 0, 0], &[1], &[]), vec![
        committed(1000, false, None),
        committed(0, false, Some(BlockInfo { number: 0, epoch: 0 })),
        unresolved(),
    ]);
    let m = oracle(vec![]);
    for tip in [0u64, 1, 99, u64::MAX] {
        let mut verifier = ContextualTransactionVerifier::new(&rtx, &m, tip, 0, 0);
        assert_eq!(verifier.verify(), Ok(()));
    }
}

#[test]
fn absolute_epoch_lock() {
    let since = 0x2000_0000_0000_0003u64;
    let rtx = resolve(transaction(&[since], &[1000], &[]), vec![committed(1000, false, None)]);
    let m = oracle(vec![]);
    assert_eq!(full(&rtx, &m, &ok_engine(), 10, 2, 10, 1000), Err(TransactionError::Immature));
    assert_eq!(full(&rtx, &m, &ok_engine(), 10, 3, 10, 1000), Ok(7));
}

#[test]
fn relative_block_lock() {
    let since = 0x8000_0000_0000_0002u64;
    let cell = committed(1000, false, Some(BlockInfo { number: 5, epoch: 0 }));
    let rtx = resolve(transaction(&[since], &[1000], &[]), vec![cell]);
    let m = oracle(vec![]);
    assert_eq!(full(&rtx, &m, &ok_engine(), 6, 1, 10, 1000), Err(TransactionError::Immature));
    assert_eq!(full(&rtx, &m, &ok_engine(), 7, 1, 10, 1000), Ok(7));
}

#[test]
fn relative_epoch_lock_on_committed_cell() {
    let since = 0xa000_0000_0000_0002u64;
    let cell = committed(1000, false, Some(BlockInfo { number: 5, epoch: 1 }));
    let rtx = resolve(transaction(&[since], &[1000], &[]), vec![cell]);
    let m = oracle(vec![]);
    assert_eq!(full(&rtx, &m, &ok_engine(), 10, 2, 10, 1000), Err(TransactionError::Immature));
    assert_eq!(full(&rtx, &m, &ok_engine(), 10, 3, 10, 1000), Ok(7));
}

#[test]
fn relative_timestamp_lock_adds_cell_median() {
    let since = 0xc000_0000_0000_0002u64;
    let cell = committed(1000, false, Some(BlockInfo { number: 5, epoch: 0 }));
    let rtx = resolve(transaction(&[since], &[1000], &[]), vec![cell]);
    let mut times = vec![None; 10];
    times[4] = Some(1000);
    times[9] = Some(2999);
    assert_eq!(
        full(&rtx, &oracle(times.clone()), &ok_engine(), 10, 1, 10, 1000),
        Err(TransactionError::Immature)
    );
    times[9] = Some(3000);
    assert_eq!(full(&rtx, &oracle(times), &ok_engine(), 10, 1, 10, 1000), Ok(7));
}

#[test]
fn missing_median_time_counts_as_zero() {
    // The oracle has no answer for the tip's parent: a timestamp lock of
    // one second cannot have matured.
    let since = 0x4000_0000_0000_0001u64;
    let rtx = resolve(transaction(&[since], &[1000], &[]), vec![committed(1000, false, None)]);
    let m = oracle(vec![]);
    assert_eq!(full(&rtx, &m, &ok_engine(), 10, 1, 10, 1000), Err(TransactionError::Immature));
}
