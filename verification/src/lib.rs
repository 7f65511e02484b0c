//! Escrow settlement engine.
//!
//! The crate holds the rules that decide when custodied value may leave an
//! escrow, how much of it goes to whom, and which states a deal can reach.
//! Every operation is a function from the current record, the authenticated
//! caller and the operation's arguments to the next record and the list of
//! transfers the host ledger has to perform.

pub mod types;
pub mod fee;
pub mod record;
pub mod config;
pub mod outcome;
pub mod model;
pub mod milestones;
pub mod books;
pub mod laws;
pub mod machine;
pub mod lifecycle;
