//! A lockstep differential-testing engine.
//!
//! The crate drives a system under test and an abstract reference model
//! through the same command sequence, round by round, and checks after every
//! round that the two stay equivalent.  Equivalence is configurable per state
//! field through the wrapper types in [`state`]; divergence handling is
//! configurable per call through [`runner::CheckLevel`].

pub mod command;
pub mod error;
pub mod relabel;
pub mod runner;
pub mod sorting;
pub mod state;

pub use command::Command;
pub use error::Error;
pub use runner::{CheckLevel, Commander, ExecutionStep, Printer, Runner, TestPort};
pub use state::{
    AbstractState, Ident, IdentList, IdentSet, Unmatched, Value, ValueList, ValueSet, map_ident,
};
