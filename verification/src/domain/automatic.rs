//! Power context and automatic modes.
use vstd::prelude::*;

verus! {

/// Where the machine's power comes from.
#[derive(Clone, Copy, Debug, PartialEq, Eq, Structural)]
pub enum PowerSource {
    Ac,
    Battery,
    Unknown,
}

/// The power source and the battery's charge, where known.
#[derive(Clone, Copy, Debug, PartialEq, Eq, Structural)]
pub struct PowerContext {
    pub source: PowerSource,
    pub battery_percent: Option<u8>,
}

/// What the automatic scheduler is asked to do.
#[derive(Clone, Copy, Debug, PartialEq, Eq, Structural)]
pub enum AutomaticMode {
    Off,
    BatteryEfficiency,
}

/// Where the automatic scheduler stands.
#[derive(Clone, Copy, Debug, PartialEq, Eq, Structural)]
pub enum AutomaticPhase {
    Disabled,
    Waiting,
    Applying,
    Active,
    Error,
}

/// The automatic scheduler as a page shows it.
#[derive(Debug, PartialEq)]
pub struct AutomaticSchedulerSnapshot {
    pub mode: AutomaticMode,
    pub phase: AutomaticPhase,
    pub power: Option<PowerContext>,
    pub managed_processes: u32,
    pub skipped_manual: u32,
    pub last_reconcile_at_epoch_ms: Option<u64>,
    pub last_error: Option<String>,
}

impl AutomaticSchedulerSnapshot {
    /// A scheduler that is off.
    pub open spec fn spec_off() -> AutomaticSchedulerSnapshot {
        AutomaticSchedulerSnapshot {
            mode: AutomaticMode::Off,
            phase: AutomaticPhase::Disabled,
            power: None,
            managed_processes: 0,
            skipped_manual: 0,
            last_reconcile_at_epoch_ms: None,
            last_error: None,
        }
    }
}

impl Default for AutomaticSchedulerSnapshot {
    fn default() -> (r: AutomaticSchedulerSnapshot)
        ensures
            r == AutomaticSchedulerSnapshot::spec_off(),
    {
        AutomaticSchedulerSnapshot {
            mode: AutomaticMode::Off,
            phase: AutomaticPhase::Disabled,
            power: None,
            managed_processes: 0,
            skipped_manual: 0,
            last_reconcile_at_epoch_ms: None,
            last_error: None,
        }
    }
}

impl Clone for AutomaticSchedulerSnapshot {
    fn clone(&self) -> (r: Self)
        ensures
            r == *self,
    {
        AutomaticSchedulerSnapshot {
            mode: self.mode,
            phase: self.phase,
            power: self.power,
            managed_processes: self.managed_processes,
            skipped_manual: self.skipped_manual,
            last_reconcile_at_epoch_ms: self.last_reconcile_at_epoch_ms,
            last_error: self.last_error.clone(),
        }
    }
}

} // verus!
