//! Persistence of a single value, such as a node's secret key, in a file of
//! its own inside a directory.
//!
//! The library holds the logic of that persistence: how a value is encoded
//! and decoded, the order of the steps that save it and what each failure
//! leads to, and how the contents of a file become a loaded value. The file
//! system calls themselves are made by the caller, who hands the outcome of
//! each one back.
use vstd::prelude::*;

pub mod entity;
pub mod hex;
pub mod secret;
pub mod store;

pub use entity::{DecodeError, DiskEntity};
pub use secret::Secret;
pub use store::{
    finish_load, load_value, LoadError, SaveError, SaveProgress, SaveReport, SaveStep, Severity,
};

verus! {

} // verus!
