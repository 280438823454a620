//! Predicate evaluation and action dispatch for Bitcoin chainhooks.
//!
//! A chainhook is a subscription: a predicate on transactions, and an action
//! to take for the transactions that meet it. When the chain changes, by new
//! blocks or by a reorganization, the active chainhooks are evaluated on the
//! change (`evaluation`), each transaction being held to the predicate of
//! each chainhook (`predicate`, with the matching rules of `matching` and the
//! scripts of `address`). A chainhook that selected anything yields a
//! trigger, and a trigger is turned into an occurrence (`action`): a request
//! to send, a file to write, or data to hand on, with the payload of
//! `payload`. The caller delivers the occurrence; nothing here performs I/O.
//!
//! The contracts are stated over the views of `chain` and `chainhook`.
//! `guarantees` and `selection` hold what follows from them for every
//! evaluation. Base58 decoding, script assembly, the parsing of an HTTP method
//! and the writing of JSON are left to the crates that do them; the functions
//! that call them say so.

pub mod action;
pub mod address;
pub mod chain;
pub mod chainhook;
pub mod config;
pub mod error;
pub mod evaluation;
pub mod guarantees;
pub mod json;
pub mod lookup;
pub mod matching;
pub mod payload;
pub mod predicate;
pub mod selection;
