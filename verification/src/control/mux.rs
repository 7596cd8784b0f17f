//! The graphics multiplexer: a selection takes effect across a reboot, so a
//! read in the same boot never confirms it. Writes stay gated until both
//! directions have been confirmed on this device.
use vstd::prelude::*;

use crate::domain::error::{ControlError, Missing, UnsafeReason};
use crate::domain::mux_status::MuxStatus;
use crate::domain::policy::MuxMode;
use crate::text::same_text;

verus! {

/// A selection that waits for its reboot.
#[derive(Debug, PartialEq)]
pub struct MuxPending {
    pub previous: MuxMode,
    pub requested: MuxMode,
    pub boot: String,
}

impl Clone for MuxPending {
    fn clone(&self) -> (r: Self)
        ensures
            r == *self,
    {
        MuxPending { previous: self.previous, requested: self.requested, boot: self.boot.clone() }
    }
}

/// What is remembered across reboots.
#[derive(Debug, PartialEq)]
pub struct MuxRecord {
    pub board: String,
    pub bios: String,
    pub pending: Option<MuxPending>,
    pub verified_hybrid: bool,
    pub verified_discrete: bool,
}

impl Clone for MuxRecord {
    fn clone(&self) -> (r: Self)
        ensures
            r == *self,
    {
        MuxRecord {
            board: self.board.clone(),
            bios: self.bios.clone(),
            pending: match &self.pending {
                Some(p) => Some(p.clone()),
                None => None,
            },
            verified_hybrid: self.verified_hybrid,
            verified_discrete: self.verified_discrete,
        }
    }
}

/// The record as it was found at start.
#[derive(Debug, PartialEq)]
pub enum MuxLoaded {
    Missing,
    Found(MuxRecord),
    Unreadable { cause: String },
}

/// The multiplexer's lifecycle on this device.
#[derive(Debug, PartialEq)]
pub struct MuxLifecycle {
    pub record: MuxRecord,
    /// Identity of the current boot, where it can be read.
    pub boot: Option<String>,
    pub status: MuxStatus,
    /// Whether writes are open.
    pub writable: bool,
    /// Whether nothing may be requested until a person has looked.
    pub blocked: bool,
}

/// The loaded record belongs to this device.
pub open spec fn own_record(loaded: MuxLoaded, board: Seq<char>, bios: Seq<char>) -> bool {
    loaded matches MuxLoaded::Found(r) && r.board@ == board && r.bios@ == bios
}

/// The loaded record stops the lifecycle: it is unreadable, or it waits for
/// another device's reboot.
pub open spec fn blocking_record(loaded: MuxLoaded, board: Seq<char>, bios: Seq<char>) -> bool {
    ||| loaded is Unreadable
    ||| loaded matches MuxLoaded::Found(r) && !own_record(loaded, board, bios) && r.pending is Some
}

/// A pending selection of this device is confirmed: the boot is another one
/// and the firmware reports what was requested.
pub open spec fn confirmed(p: MuxPending, actual: Option<MuxMode>, boot: Option<String>) -> bool {
    boot matches Some(b) && b@ != p.boot@ && actual == Some(p.requested)
}

/// The selection this device waits for, as it was loaded.
pub open spec fn loaded_pending(loaded: MuxLoaded, board: Seq<char>, bios: Seq<char>) -> Option<MuxPending> {
    match loaded {
        MuxLoaded::Found(r) => if own_record(loaded, board, bios) { r.pending } else { None },
        _ => None,
    }
}

impl MuxLifecycle {
    /// Both directions are confirmed and nothing blocks.
    pub open spec fn wf(self) -> bool {
        self.writable == (!self.blocked && self.record.verified_hybrid && self.record.verified_discrete)
    }

    /// Opens the lifecycle with what was loaded, what the firmware reports
    /// and the identity of the current boot. The flag says whether the record
    /// changed and has to be saved.
    pub fn open_with_boot(
        loaded: MuxLoaded,
        board: &str,
        bios: &str,
        actual: Option<MuxMode>,
        boot: Option<String>,
    ) -> (r: (MuxLifecycle, bool))
        ensures
            r.0.wf(),
            r.0.boot == boot,
            r.0.record.board@ == board@,
            r.0.record.bios@ == bios@,
            r.0.blocked == blocking_record(loaded, board@, bios@),
            r.1 == (loaded_pending(loaded, board@, bios@) matches Some(p) && confirmed(p, actual, boot)),
            match loaded_pending(loaded, board@, bios@) {
                Some(p) => if confirmed(p, actual, boot) {
                    r.0.record.pending is None
                } else {
                    r.0.record.pending == Some(p)
                },
                None => r.0.record.pending is None,
            },
            r.0.record.verified_hybrid == ({
                ||| own_record(loaded, board@, bios@) && loaded->Found_0.verified_hybrid
                ||| r.1 && actual == Some(MuxMode::Hybrid)
            }),
            r.0.record.verified_discrete == ({
                ||| own_record(loaded, board@, bios@) && loaded->Found_0.verified_discrete
                ||| r.1 && actual == Some(MuxMode::Discrete)
            }),
            r.0.status == (match loaded {
                MuxLoaded::Unreadable { cause } => MuxStatus::Unreadable { cause },
                _ => if r.0.blocked {
                    MuxStatus::ForeignRecord
                } else {
                    match loaded_pending(loaded, board@, bios@) {
                        None => if r.0.writable { MuxStatus::BothVerified } else { MuxStatus::Unverified },
                        Some(p) => if confirmed(p, actual, boot) {
                            if r.0.writable {
                                MuxStatus::BothVerified
                            } else {
                                MuxStatus::Confirmed { mode: p.requested }
                            }
                        } else if boot matches Some(b) && b@ != p.boot@ {
                            MuxStatus::Mismatch {
                                requested: p.requested,
                                reported: actual,
                                previous: p.previous,
                            }
                        } else {
                            MuxStatus::WaitingForReboot { requested: p.requested, previous: p.previous }
                        },
                    }
                },
            }),
    {
        let mut record = MuxRecord {
            board: String::from_str(board),
            bios: String::from_str(bios),
            pending: None,
            verified_hybrid: false,
            verified_discrete: false,
        };
        let mut blocked = false;
        let mut status = MuxStatus::Unverified;
        match loaded {
            MuxLoaded::Missing => {},
            MuxLoaded::Found(found) => {
                if same_text(found.board.as_str(), board) && same_text(found.bios.as_str(), bios) {
                    record = found;
                } else if found.pending.is_some() {
                    blocked = true;
                    status = MuxStatus::ForeignRecord;
                }
            },
            MuxLoaded::Unreadable { cause } => {
                blocked = true;
                status = MuxStatus::Unreadable { cause };
            },
        }
        let mut changed = false;
        let pending = match &record.pending {
            Some(p) => Some(p.clone()),
            None => None,
        };
        if let Some(p) = pending {
            let rebooted = match &boot {
                Some(b) => !same_text(b.as_str(), p.boot.as_str()),
                None => false,
            };
            if rebooted {
                let agrees = match actual {
                    Some(a) => a == p.requested,
                    None => false,
                };
                if agrees {
                    match p.requested {
                        MuxMode::Hybrid => record.verified_hybrid = true,
                        MuxMode::Discrete => record.verified_discrete = true,
                        MuxMode::Other(_) => {},
                    }
                    record.pending = None;
                    changed = true;
                    status = MuxStatus::Confirmed { mode: p.requested };
                } else {
                    status = MuxStatus::Mismatch {
                        requested: p.requested,
                        reported: actual,
                        previous: p.previous,
                    };
                }
            } else {
                status = MuxStatus::WaitingForReboot { requested: p.requested, previous: p.previous };
            }
        }
        let writable = !blocked && record.verified_hybrid && record.verified_discrete;
        if writable && record.pending.is_none() {
            status = MuxStatus::BothVerified;
        }
        (MuxLifecycle { record, boot, status, writable, blocked }, changed)
    }

    /// The confirmed record could not be saved: nothing may be requested.
    pub fn save_failed(&mut self, cause: String)
        ensures
            *final(self) == (MuxLifecycle {
                blocked: true,
                writable: false,
                status: MuxStatus::SaveFailed { cause },
                ..*old(self)
            }),
            final(self).wf(),
    {
        self.blocked = true;
        self.writable = false;
        self.status = MuxStatus::SaveFailed { cause };
    }

    /// The selection to return to if `target` is requested now.
    pub open spec fn spec_previous(self, current: MuxMode) -> MuxMode {
        match self.record.pending {
            Some(p) => p.previous,
            None => current,
        }
    }

    /// The record of a request for `target` made while `current` is selected.
    pub open spec fn spec_requested(self, current: MuxMode, target: MuxMode) -> MuxRecord {
        MuxRecord {
            pending: Some(
                MuxPending {
                    previous: self.spec_previous(current),
                    requested: target,
                    boot: self.boot->Some_0,
                },
            ),
            ..self.record
        }
    }

    /// The lifecycle once a request has been recorded.
    pub open spec fn spec_recorded(self, record: MuxRecord) -> MuxLifecycle {
        MuxLifecycle {
            record,
            status: MuxStatus::Recorded {
                target: record.pending->Some_0.requested,
                previous: record.pending->Some_0.previous,
            },
            ..self
        }
    }

    /// What stands against requesting `target`.
    pub open spec fn prepare_refusal(self, current: MuxMode, target: MuxMode) -> Option<ControlError> {
        if self.blocked {
            Some(ControlError::UnsafeRequest { reason: UnsafeReason::MuxBlocked { status: self.status } })
        } else if !target.spec_selectable() {
            Some(ControlError::Unsupported)
        } else if self.boot is None {
            Some(ControlError::BackendUnavailable { what: Missing::BootIdentity })
        } else if !current.spec_selectable() {
            Some(ControlError::Unsupported)
        } else if self.record.pending is None && current == target {
            Some(ControlError::UnsafeRequest { reason: UnsafeReason::MuxAlreadySelected })
        } else {
            None
        }
    }

    /// The record to save before `target` is requested of the firmware.
    pub fn prepare(&self, current: MuxMode, target: MuxMode) -> (r: Result<MuxRecord, ControlError>)
        ensures
            r is Ok <==> self.prepare_refusal(current, target) is None,
            r matches Err(e) ==> self.prepare_refusal(current, target) == Some(e),
            r matches Ok(record) ==> record == self.spec_requested(current, target),
    {
        if self.blocked {
            return Err(
                ControlError::UnsafeRequest { reason: UnsafeReason::MuxBlocked { status: self.status.clone() } },
            );
        }
        if !target.selectable() {
            return Err(ControlError::Unsupported);
        }
        let boot = match &self.boot {
            Some(b) => b.clone(),
            None => return Err(ControlError::BackendUnavailable { what: Missing::BootIdentity }),
        };
        let previous = match &self.record.pending {
            Some(p) => p.previous,
            None => current,
        };
        if !current.selectable() {
            return Err(ControlError::Unsupported);
        }
        if self.record.pending.is_none() && current == target {
            return Err(ControlError::UnsafeRequest { reason: UnsafeReason::MuxAlreadySelected });
        }
        let mut record = self.record.clone();
        record.pending = Some(MuxPending { previous, requested: target, boot });
        Ok(record)
    }

    /// Takes over a prepared record that has been saved.
    pub fn commit(&mut self, record: MuxRecord)
        requires
            record.pending is Some,
            record.verified_hybrid == old(self).record.verified_hybrid,
            record.verified_discrete == old(self).record.verified_discrete,
        ensures
            *final(self) == old(self).spec_recorded(record),
            old(self).wf() ==> final(self).wf(),
    {
        if let Some(p) = &record.pending {
            self.status = MuxStatus::Recorded { target: p.requested, previous: p.previous };
        }
        self.record = record;
    }
}

/// A read in the boot in which a selection was requested never confirms it,
/// whatever the firmware reports.
pub proof fn same_boot_never_confirms(p: MuxPending, actual: Option<MuxMode>, boot: Option<String>)
    requires
        boot matches Some(b) ==> b@ == p.boot@,
    ensures
        !confirmed(p, actual, boot),
{
}

} // verus!
