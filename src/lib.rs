//! Execution lifecycle and builtin calling convention for a segmented-memory
//! stack machine: segment space, builtin regions, call-stack construction,
//! the ordered post-run verification pipeline, relocation and trace export.
use vstd::prelude::*;

pub mod address;
pub mod memory;
pub mod error;
pub mod builtins;
pub mod relocation;
pub mod runner;
