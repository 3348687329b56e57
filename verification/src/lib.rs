//! Cycling among the workspaces of one output of a Sway or i3 compositor.
//!
//! The compositor reports its workspaces as a snapshot. From the snapshot, the
//! focused workspace and a direction, this crate computes the neighbouring
//! workspace on the same output, wrapping around at either end, and the
//! commands that take the user there.

pub mod command;
pub mod cycle;
pub mod json;
pub mod run;
pub mod select;
pub mod snapshot;
pub mod workspace;
