//! Remmy: a cross-posting bot library.
//!
//! The library holds the platform-neutral post model, the body transform that
//! appends an attribution footer, and the control loop of the bot expressed as
//! a state machine: each step takes the current state and an observed event and
//! returns the next state together with the single action the caller must
//! perform next. All network, logging and configuration I/O lives outside.

pub mod cli;
pub mod common;
pub mod config;
pub mod crosspost;
pub mod lemmy;
pub mod reddit;
