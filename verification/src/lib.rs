//! A worker for a pool that hands out jobs line by line: the search that
//! solves a job, the lines that go over the wire, and the cycle that a
//! worker walks through, each with its contract.

pub mod config;
pub mod decimal;
pub mod error;
pub mod feedback;
pub mod hashing;
pub mod hexcode;
pub mod job;
pub mod protocol;
pub mod rate;
pub mod solver;
pub mod supervisor;
pub mod text;
pub mod worker;
