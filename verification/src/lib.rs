//! A ledger-resident registry and reward-accounting engine for IoT sensor
//! devices ("machines").
//!
//! Each machine, once registered, reports sensor readings and optional
//! images; reporting and downstream consumption of that data accrue rewards
//! to the machine's owner, who may later claim them. This crate holds the
//! state-transition logic only: how the global registry, per-machine records
//! and per-reading records evolve under the operations in [`ops`]. Durable
//! storage, cryptographic authentication of callers, transaction sequencing
//! and actual token transfers are the host's concern; the operations consume
//! resolved record handles, the caller's verified identity and a clock
//! reading, all supplied by the host.

pub mod errors;
pub mod records;
pub mod index;
pub mod registry;
pub mod rewards;
pub mod ops;
pub mod model;
