//! A declarative engine for operating-system hardening rules.
//!
//! Every hardening rule is expressed as one or more [`action::BashCommand`]
//! values: a program path, a fixed argument list, an optional argument
//! resolver, and a flag for scripted interactive input.  The modules below
//! cover the four rule shapes the engine supports: static actions,
//! per-entity fan-out, conditional branches on probed facts, and idempotent
//! text patches of configuration files.  Everything that decides or computes
//! lives here with a contract; spawning processes and touching the
//! filesystem is left to the surrounding application.

pub mod action;
pub mod errors;
pub mod textscan;
pub mod probe;
pub mod entities;
pub mod planner;
pub mod catalog;
