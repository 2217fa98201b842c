//! Run asynchronous work on one of 256 lazily built execution backends and
//! bring its single result back to the caller, with an optional wait bound.
//!
//! The crate holds everything that happens before and after the one point at
//! which a dispatch suspends: the table of backends and its get-or-create
//! discipline, the submission of the work, the choice between a bounded and an
//! unbounded wait, and the reading of what the wait produced.

pub mod backend;
pub mod config;
pub mod dispatch;
pub mod outcome;
pub mod prelude;
pub mod registry;
pub mod run;
pub mod table;
