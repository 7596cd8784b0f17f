//! The command line: arguments, what they ask for, and what is printed.

pub mod control;
pub mod gpuload;
pub mod os_policy;
pub mod probe;
pub mod profile;
pub mod telemetry;
