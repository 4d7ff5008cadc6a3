//! Device selection for a graphics bootstrap.
//!
//! A front end enumerates the physical devices of the machine, copies what
//! the driver reports about each one into a [`candidate::Candidate`], and
//! hands the list over. This crate decides which device and which queue
//! family to use; every function states what it decides in its contract,
//! and the contracts are proved.

pub mod candidate;
pub mod earliest;
pub mod error;
pub mod select;
