//! Transaction validation core for a UTXO-style blockchain node.
//!
//! A transaction is valid for inclusion in a block only if it satisfies a
//! fixed set of structural, economic, and temporal rules, evaluated against
//! the transaction itself, the outputs it consumes, and the chain context at
//! a given tip. The orchestrators in [`transaction_verifier`] compose the
//! individual checkers and short-circuit on the first failure; the `since`
//! module decodes the 64-bit per-input lock field.

pub mod cache;
pub mod context;
pub mod db;
pub mod error;
pub mod relay;
pub mod since;
pub mod transaction_verifier;
pub mod types;
