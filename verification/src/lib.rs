//! Command-execution wrapper core: stream redirection resolution,
//! environment-variable gating, pipe draining, and completion
//! synchronization for a launched child process.

pub mod completion;
pub mod drain;
pub mod gate;
pub mod invocation;
pub mod mode;
