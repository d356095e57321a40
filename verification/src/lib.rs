//! Core of an update orchestrator: it decides whether an update step is
//! applicable, plans the command each step would run, classifies what
//! happened, accumulates a report over a whole run, and manages a set of
//! git working trees discovered under a directory.
//!
//! Spawning processes, reading environment variables and probing the
//! filesystem are left to the surrounding program; every decision taken on
//! the results of those probes lives here and is verified.

pub mod exec;
pub mod outcome;
pub mod paths;
pub mod report;
pub mod repos;
pub mod requirements;
pub mod runner;
pub mod zsh;
