//! A verified catalog of games, of the places where their saves and
//! executables live on each operating system, and of the save snapshots that
//! were backed up for each place.
//!
//! An operation of the catalog is a plan (`plan`): it says which statement is
//! put to the storage engine next and what the operation returns in the end,
//! and touches no storage itself. `store` is a storage engine in memory,
//! `driver` runs a plan against it, and `interface` is the catalog that they
//! make. `effects` states what each operation does, and `laws` what holds
//! across operations.

pub mod clock;
pub mod driver;
pub mod effects;
pub mod ident;
pub mod interface;
pub mod laws;
pub mod mapper;
pub mod plan;
pub mod records;
pub mod rows;
pub mod select;
pub mod statement;
pub mod store;
pub mod tables;
