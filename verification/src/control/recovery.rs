//! The ledger of what this session owes the machine.
use vstd::prelude::*;

use crate::domain::policy::{CpuPowerLimits, GpuPlatformPolicy};
use crate::domain::profile::PerformanceProfile;

verus! {

/// An automatic session: what it replaced, and under which power scheme.
#[derive(Debug, PartialEq)]
pub struct ScopedSession {
    pub id: u64,
    pub baseline: PerformanceProfile,
    pub previous_profile: Option<String>,
    pub scheme: Option<String>,
}

impl Clone for ScopedSession {
    fn clone(&self) -> (r: Self)
        ensures
            r == *self,
    {
        ScopedSession {
            id: self.id,
            baseline: self.baseline.clone(),
            previous_profile: self.previous_profile.clone(),
            scheme: self.scheme.clone(),
        }
    }
}

/// What has to be restored on the device it names.
#[derive(Debug, PartialEq)]
pub struct RecoveryRecord {
    pub board: String,
    pub bios: String,
    pub fan: bool,
    pub thermal: bool,
    pub gpu: Option<GpuPlatformPolicy>,
    pub power: Option<CpuPowerLimits>,
    pub scoped: Option<ScopedSession>,
}

impl Clone for RecoveryRecord {
    fn clone(&self) -> (r: Self)
        ensures
            r == *self,
    {
        RecoveryRecord {
            board: self.board.clone(),
            bios: self.bios.clone(),
            fan: self.fan,
            thermal: self.thermal,
            gpu: self.gpu,
            power: self.power,
            scoped: match &self.scoped {
                Some(s) => Some(s.clone()),
                None => None,
            },
        }
    }
}

impl RecoveryRecord {
    pub open spec fn spec_pending(self) -> bool {
        self.fan || self.thermal || self.gpu is Some || self.power is Some || self.scoped is Some
    }

    /// Whether anything has to be restored.
    pub fn pending(&self) -> (r: bool)
        ensures
            r == self.spec_pending(),
    {
        self.fan || self.thermal || self.gpu.is_some() || self.power.is_some() || self.scoped.is_some()
    }
}

/// The ledger of an earlier session that still counts: one with something to
/// restore.
pub fn unfinished(record: Option<RecoveryRecord>) -> (r: Option<RecoveryRecord>)
    ensures
        r == (match record {
            Some(rec) => if rec.spec_pending() { Some(rec) } else { None },
            None => None,
        }),
{
    match record {
        Some(rec) => if rec.pending() { Some(rec) } else { None },
        None => None,
    }
}

} // verus!
