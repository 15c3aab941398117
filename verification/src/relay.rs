//! The decision taken when a peer announces a transaction hash.
//!
//! The network plumbing — decoding the announcement, peer bookkeeping,
//! sending the request — lives with the caller; what is decided from the
//! node's state stands here.

use vstd::prelude::*;

verus! {

/// What to do with an announced transaction hash.
#[derive(Clone, Copy, Debug, PartialEq, Eq)]
pub enum TxHashAction {
    /// During initial block download no transaction is asked for.
    IgnoreDuringSync,
    /// The transaction is already known; nothing to do.
    IgnoreKnown,
    /// The transaction already sits in the transaction pool: remember the
    /// hash as known, ask nobody.
    MarkKnown,
    /// The transaction is new: ask the announcing peer for its body.
    AskPeer,
}

pub open spec fn spec_transaction_hash_action(
    initial_block_download: bool,
    already_known: bool,
    in_transaction_pool: bool,
) -> TxHashAction {
    if initial_block_download {
        TxHashAction::IgnoreDuringSync
    } else if already_known {
        TxHashAction::IgnoreKnown
    } else if in_transaction_pool {
        TxHashAction::MarkKnown
    } else {
        TxHashAction::AskPeer
    }
}

/// Decides how to react to an announced transaction hash: nothing is asked
/// for during initial block download, a known hash is ignored, a pooled
/// transaction is only remembered, and anything else is requested from the
/// announcing peer.
pub fn transaction_hash_action(
    initial_block_download: bool,
    already_known: bool,
    in_transaction_pool: bool,
) -> (r: TxHashAction)
    ensures
        r == spec_transaction_hash_action(
            initial_block_download,
            already_known,
            in_transaction_pool,
        ),
{
    if initial_block_download {
        TxHashAction::IgnoreDuringSync
    } else if already_known {
        TxHashAction::IgnoreKnown
    } else if in_transaction_pool {
        TxHashAction::MarkKnown
    } else {
        TxHashAction::AskPeer
    }
}

} // verus!
