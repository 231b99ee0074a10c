//! Accounting engine for continuous, time-based token streams between an
//! employer and an employee: the vesting calculator, the stream record and
//! its lifecycle operations, and a keyed store that dispatches them.

pub mod error;
pub mod laws;
pub mod ledger;
pub mod stream;
pub mod vesting;
