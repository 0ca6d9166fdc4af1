//! Backup engine for heterogeneous databases: the data model, the per-backend
//! command construction and output interpretation, validation, size estimation
//! and the orchestration decisions, each with a verified contract.
use vstd::prelude::*;

pub mod error;
pub mod text;
pub mod config;
pub mod tool;
pub mod connection;
pub mod mysql;
pub mod postgres;
pub mod mongodb;
pub mod sqlite;
pub mod performer;
pub mod storage;
pub mod stamp;

verus! {

} // verus!
