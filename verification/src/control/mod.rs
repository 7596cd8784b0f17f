//! The control plane: one writer, a safety supervisor in front of it and a
//! keep-alive behind it.

pub mod advance;
pub mod coordinator;
pub mod drift;
pub mod exchange;
pub mod exec;
pub mod fan_curve;
pub mod journal;
pub mod keepalive;
pub mod lease;
pub mod mux;
pub mod plan;
pub mod recovery;
pub mod run_loop;
pub mod safety;
pub mod scope;
pub mod stamp;
pub mod verification;
