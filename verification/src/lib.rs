//! Control core for a single-board laptop power and fan manager.
//!
//! Every decision of the control plane is a verified function over plain
//! values: the program around the library reads sensors, performs firmware
//! and operating-system calls, and hands the results back.

pub mod app;
pub mod automatic_scheduler;
pub mod automation;
pub mod capability;
pub mod cli;
pub mod control;
pub mod domain;
pub mod engine;
pub mod format;
pub mod hardware_status;
pub mod laws;
pub mod lines;
pub mod measurements;
pub mod number;
pub mod persistence;
pub mod text;
