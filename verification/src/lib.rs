//! A branching workflow on top of a version-control engine: a stable line, an
//! integration line and short-lived feature, release, hotfix, bugfix and
//! support branches, with their start, finish, publish and track operations.
//!
//! The branch model, the merge strategy, the finish plan and what is shown to
//! the operator are pure functions with exact contracts. The operations that
//! drive the engine state what holds of every outcome of the engine.

pub mod branch;
pub mod category;
pub mod config;
pub mod diff;
pub mod engine;
pub mod error;
pub mod finish;
pub mod lifecycle;
pub mod listing;
pub mod merge;
pub mod operator;
pub mod patch;
pub mod plan;
pub mod rebase;
pub mod remote;
pub mod setup;
pub mod start;
pub mod state;
pub mod strategy;
pub mod tag;
pub mod text;
pub mod track;
