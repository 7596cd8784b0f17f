//! The operations of the single writer, one command each. An operation is a
//! conversation: it asks for one thing at a time and is resumed with the
//! answer. A firmware write is only asked for once the ledger that owes its
//! restore has been saved.

pub mod command;
pub mod cpu;
pub mod curve_tick;
pub mod fan;
pub mod gpu;
pub mod heartbeat;
pub mod knobs;
pub mod mux_switch;
pub mod power;
pub mod protect;
pub mod restore;
pub mod thermal;
