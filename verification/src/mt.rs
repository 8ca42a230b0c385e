//! Control of a containerised development environment.
//!
//! The tool runs `git`, `docker` and, inside a container, `mysql`. This
//! module holds what it decides: the command lines, what the outcome of each
//! command means, which compose files apply, and the course of each
//! subcommand. Running the commands is left to the caller.

pub mod error;
pub mod run;
pub mod lookup;
pub mod compose;
pub mod lifecycle;
pub mod session;
