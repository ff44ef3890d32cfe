//! Process supervisor and shutdown orchestrator for a single long-running
//! worker process.
//!
//! The crate holds the decision logic of the supervisor: which operations
//! spawn, probe or terminate the worker, and how a host-close request is
//! sequenced into a graceful shutdown (health-check wait, remote shutdown
//! request, exit wait, forced termination). All operating-system and network
//! effects are performed by the embedding host, which drives these state
//! machines with the outcomes it observed.

pub mod config;
pub mod relay;
pub mod shutdown;
pub mod supervisor;
