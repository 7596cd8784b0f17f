//! The vocabulary of the control plane: policies, commands, capabilities,
//! errors and the desired and observed state of the machine.

pub mod automatic;
pub mod capability;
pub mod command;
pub mod error;
pub mod evidence;
pub mod identity;
pub mod mux_status;
pub mod os_policy;
pub mod policy;
pub mod profile;
pub mod state;
pub mod telemetry;
