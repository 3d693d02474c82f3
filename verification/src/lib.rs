//! One-shot HTTP liveness checking: the rules by which the checks of a run
//! are planned from a configuration, each reply is classified, the
//! outcomes are put in the order of the targets, and the run's verdict,
//! report and exit code follow.
//!
//! The crate performs no I/O. A driver reads the configuration, sends the
//! requests and prints; everything it has to decide is decided here.
//!
//! - [`config`]: the configuration document, its checks, and the targets.
//! - [`status`]: status codes and the labels of failures.
//! - [`outcome`]: what a probe brought back, and the verdict on it.
//! - [`batch`]: the checks of a run, filled in as their results arrive.
//! - [`run`]: the result of a run.
//! - [`report`]: the lines of the report and the exit code.
//! - [`fatal`]: the failures that end a run before it checks anything.
//! - [`text`]: facts about texts that the laws are stated with.

pub mod batch;
pub mod config;
pub mod fatal;
pub mod outcome;
pub mod report;
pub mod run;
pub mod status;
pub mod text;
