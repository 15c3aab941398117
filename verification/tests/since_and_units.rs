//! Unit tests: the since decoder, capacities, the median-time cache, and
//! the relay decision.

use std::cell::Cell;
use tx_verification::context::BlockMedianTimeContext;
use tx_verification::error::OverflowError;
use tx_verification::relay::{transaction_hash_action, TxHashAction};
use tx_verification::since::{Since, SinceMetric};
use tx_verification::transaction_verifier::SinceVerifier;
use tx_verification::types::{
    BlockInfo, Capacity, CellInput, CellMeta, CellOutput, ResolvedOutPoint, ResolvedTransaction,
    Transaction, TX_VERSION,
};

#[test]
fn since_lock_type_flag() {
    assert!(Since(0x0000_0000_0000_0064).is_absolute());
    assert!(!Since(0x0000_0000_0000_0064).is_relative());
    assert!(Since(0x8000_0000_0000_0064).is_relative());
    assert!(!Since(0x8000_0000_0000_0064).is_absolute());
}

#[test]
fn since_flag_validity() {
    assert!(Since(0).flags_is_valid());
    assert!(Since(0x4000_0000_0000_0001).flags_is_valid());
    assert!(!Since(0x0100_0000_0000_0000).flags_is_valid());
    assert!(!Since(0x1f00_0000_0000_0000).flags_is_valid());
    assert!(!Since(0x6000_0000_0000_0001).flags_is_valid());
}

#[test]
fn since_metric_extraction() {
    assert_eq!(
        Since(0x0000_0000_0000_0064).extract_metric(),
        Some(SinceMetric::BlockNumber(100))
    );
    assert_eq!(
        Since(0xa000_0000_0000_0005).extract_metric(),
        Some(SinceMetric::EpochNumber(5))
    );
    // The timestamp value is in seconds; the multiplication by 1000
    // happens at the comparison.
    assert_eq!(Since(0x4000_0000_0000_0001).extract_metric(), Some(SinceMetric::Timestamp(1)));
    assert_eq!(Since(0x6000_0000_0000_0001).extract_metric(), None);
}

#[test]
fn since_encode_round_trips() {
    let metrics = [
        SinceMetric::BlockNumber(0),
        SinceMetric::BlockNumber(100),
        SinceMetric::EpochNumber(5),
        SinceMetric::Timestamp(1),
        SinceMetric::Timestamp(0x00ff_ffff_ffff_ffff),
    ];
    for relative in [false, true] {
        for metric in metrics {
            let s = Since::encode(relative, metric);
            assert!(s.flags_is_valid());
            assert_eq!(s.is_relative(), relative);
            assert_eq!(s.extract_metric(), Some(metric));
        }
    }
    assert_eq!(Since::encode(false, SinceMetric::BlockNumber(100)).0, 0x0000_0000_0000_0064);
    assert_eq!(Since::encode(true, SinceMetric::EpochNumber(5)).0, 0xa000_0000_0000_0005);
    assert_eq!(Since::encode(false, SinceMetric::Timestamp(1)).0, 0x4000_0000_0000_0001);
}

#[test]
fn capacity_safe_add() {
    assert_eq!(Capacity(2).safe_add(Capacity(3)), Ok(Capacity(5)));
    assert_eq!(Capacity::zero().safe_add(Capacity(0)), Ok(Capacity(0)));
    assert_eq!(Capacity(u64::MAX).safe_add(Capacity(1)), Err(OverflowError));
    assert_eq!(Capacity(u64::MAX).safe_add(Capacity(0)), Ok(Capacity(u64::MAX)));
}

#[test]
fn relay_hash_decisions() {
    assert_eq!(transaction_hash_action(true, false, false), TxHashAction::IgnoreDuringSync);
    assert_eq!(transaction_hash_action(true, true, true), TxHashAction::IgnoreDuringSync);
    assert_eq!(transaction_hash_action(false, true, false), TxHashAction::IgnoreKnown);
    assert_eq!(transaction_hash_action(false, false, true), TxHashAction::MarkKnown);
    assert_eq!(transaction_hash_action(false, false, false), TxHashAction::AskPeer);
}

/// An oracle that counts how often it is consulted; the answers themselves
/// are fixed, as the validator requires.
struct CountingOracle {
    times: Vec<Option<u64>>,
    queries: Cell<u64>,
}

impl BlockMedianTimeContext for CountingOracle {
    // The ghost half of the trait never runs; the compiled trait still
    // lists it as an item.
    fn spec_median_time(&self, _block_number: u64) -> Option<u64> {
        unreachable!()
    }

    fn block_median_time(&self, block_number: u64) -> Option<u64> {
        self.queries.set(self.queries.get() + 1);
        if (block_number as usize) < self.times.len() {
            self.times[block_number as usize]
        } else {
            None
        }
    }
}

#[test]
fn median_time_cache_asks_oracle_once_per_block() {
    // Input 0 holds a relative timestamp lock (queries the tip's parent
    // and the cell's parent), input 1 an absolute timestamp lock (queries
    // the tip's parent again).
    let tx = Transaction {
        version: TX_VERSION,
        deps: Vec::new(),
        inputs: vec![
            CellInput { since: 0xc000_0000_0000_0001 },
            CellInput { since: 0x4000_0000_0000_0001 },
        ],
        outputs: vec![CellOutput { capacity: Capacity(1), occupied_capacity_overflow: false }],
        cellbase: false,
        withdrawing_from_dao: false,
    };
    let rtx = ResolvedTransaction {
        transaction: tx,
        resolved_inputs: vec![
            ResolvedOutPoint {
                cell_meta: Some(CellMeta {
                    capacity: Capacity(1),
                    cellbase: false,
                    block_info: Some(BlockInfo { number: 5, epoch: 0 }),
                }),
            },
            ResolvedOutPoint {
                cell_meta: Some(CellMeta {
                    capacity: Capacity(1),
                    cellbase: false,
                    block_info: None,
                }),
            },
        ],
        resolved_deps: Vec::new(),
    };
    let mut times = vec![None; 10];
    times[4] = Some(1_000);
    times[9] = Some(10_000_000);
    let m = CountingOracle { times, queries: Cell::new(0) };
    let mut verifier = SinceVerifier::new(&rtx, &m, 10, 1);
    assert_eq!(verifier.verify(), Ok(()));
    assert_eq!(verifier.verify(), Ok(()));
    // Two distinct block numbers were needed; the cache answered every
    // repeat, across both calls.
    assert_eq!(m.queries.get(), 2);
}
