//! Decision core of the autoloop engine.
//!
//! The engine drives an `autoloop run` subprocess, follows the events that it writes to a
//! file, and maps its result onto a termination reason. What it decides on the
//! way is here, as functions from plain values to plain values; files, processes, signals
//! and terminals belong to the program around it.
//!
//! - [`engine`] takes a run from its request to its completion, step by step.
//! - [`rpc_run`] opens, feeds and closes the RPC stream of a run; [`rpc`] holds the
//!   stream's events and the commands that come in.
//! - [`run`] tells the ways to drive the subprocess and how each of them ends.
//! - [`daemon`] prepares a run on behalf of a daemon.
//! - [`kill`] plans how the subprocess tree is stopped.
//! - [`config`], [`termination`], [`paths`], [`clock`] and [`text`] are what these rest on.
//!
//! [`engine_laws`] and [`rpc_laws`] state what holds of whole runs.

pub mod clock;
pub mod config;
pub mod daemon;
pub mod engine;
pub mod engine_laws;
pub mod kill;
pub mod paths;
pub mod rpc;
pub mod rpc_laws;
pub mod rpc_run;
pub mod run;
pub mod termination;
pub mod text;
