//! What the operations promise, over their inputs and results: relations that
//! every caller can rely on, stated without the definitions that the
//! operations themselves are written down with.

pub mod actions;
pub mod admission;
pub mod automation;
pub mod command_line;
pub mod curves;
pub mod desktop;
pub mod execution;
pub mod frames;
pub mod hand_back;
pub mod heartbeat;
pub mod ledger;
pub mod lines;
pub mod multiplexer;
pub mod plans;
pub mod probe;
pub mod processor;
pub mod profiles;
pub mod readback;
pub mod records;
pub mod rules;
pub mod scheduler;
pub mod service;
pub mod sessions;
pub mod texts;
pub mod watch;
pub mod wording;
pub mod writes;
