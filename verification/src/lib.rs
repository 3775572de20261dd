//! Decisions of a custom executor for GitLab's runner that builds on spot
//! instances.
//!
//! A job goes through the stages [`config`], [`prepare`], [`run`] and
//! [`cleanup`]; [`driver`] picks the stage that a call is for. Each of them is a
//! state machine: `start` gives the first stage, `action` says what a stage asks
//! of the world outside, and `next` takes what came of it to the stage that
//! follows. Nothing here talks to the cloud, the disk or the instance.

pub mod cleanup;
pub mod config;
pub mod driver;
pub mod fleet;
pub mod logger;
pub mod number;
pub mod path;
pub mod prepare;
pub mod run;
pub mod ssh;
pub mod state;
pub mod text;
