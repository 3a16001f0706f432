//! A ledger of client accounts driven by a stream of deposit, withdrawal,
//! dispute, resolve and chargeback records.
//!
//! `store` keeps accounts and disputable transactions, `engine` validates and
//! applies one record at a time against an exact model of its effect, and
//! `laws` proves how balances evolve under that model.

pub mod engine;
pub mod laws;
pub mod money;
pub mod store;

pub use engine::{process_records, Record, RecordKind, Rejection};
pub use money::MoneyAmount;
pub use store::{Account, DisputeState, Ledger};
