//! A scheduling and execution engine for commands that run on cron-style
//! schedules.
//!
//! The crate holds the decisions of the engine and leaves the waiting to its
//! caller: every component is a value that is told what happened and answers
//! with what to do next. Processes, timers and sockets belong to the program
//! that drives these values.

pub mod cli;
pub mod commands;
pub mod config;
pub mod executor;
pub mod job_loop;
pub mod schedule;
pub mod scheduler;
pub mod text;
pub mod utils;
