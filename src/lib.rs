//! A multi-signature (M-of-N) approval engine for contract deployments.
//!
//! Policies name the addresses that may sign and how many signatures a proposal needs.
//! Proposals move from pending to approved as signatures arrive, and are executed at most
//! once; a proposal whose deadline passes before execution expires. Every operation takes
//! the current time as an argument, so expiry is deterministic.
//!
//! Around the engine: address, network and list parsing, the command-line model, the
//! catalogue's graph and paging rules, the registry API's request URLs, and the hashing and
//! outcome of WASM migrations.


pub mod address;
pub mod catalog;
pub mod cli;
pub mod laws;
pub mod machine;
pub mod migration;
pub mod model;
pub mod parse;
pub mod registry;
pub mod urls;
