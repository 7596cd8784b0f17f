//! The graphics multiplexer.
use vstd::prelude::*;

use crate::control::coordinator::ControlCoordinator;
use crate::control::exchange::{HpWrite, Progress, Reply, Request};
use crate::control::exec::mux_switch::MuxRun;
use crate::control::mux::{
    blocking_record, confirmed, loaded_pending, own_record, MuxLifecycle, MuxLoaded, MuxPending, MuxRecord,
};
use crate::domain::command::{ControlStatus, Verification};
use crate::domain::error::{mapped_hp_error, ControlError, HpWmiError, Missing, UnsafeReason};
use crate::domain::mux_status::MuxStatus;
use crate::domain::policy::MuxMode;

verus! {

/// A record belongs to this device if board and firmware are its own. An
/// unreadable one, or one that waits for another device, stops everything.
pub proof fn records_belong_to_a_device(loaded: MuxLoaded, r: MuxRecord, board: Seq<char>, bios: Seq<char>)
    ensures
        own_record(MuxLoaded::Found(r), board, bios) <==> r.board@ == board && r.bios@ == bios,
        !own_record(MuxLoaded::Missing, board, bios) && !blocking_record(MuxLoaded::Missing, board, bios),
        loaded is Unreadable ==> blocking_record(loaded, board, bios) && loaded_pending(loaded, board, bios) is None,
        blocking_record(MuxLoaded::Found(r), board, bios) <==> r.pending is Some && (r.board@ != board || r.bios@
            != bios),
        loaded_pending(MuxLoaded::Found(r), board, bios) == (if r.board@ == board && r.bios@ == bios {
            r.pending
        } else {
            None
        }),
{
}

/// A selection is confirmed exactly in a later boot, by a firmware that
/// reports what was requested.
pub proof fn later_boots_confirm(p: MuxPending, actual: Option<MuxMode>, boot: Option<String>)
    ensures
        confirmed(p, actual, boot) <==> boot is Some && boot->Some_0@ != p.boot@ && actual is Some && actual->Some_0
            == p.requested,
{
}

/// What speaks against a request: a lifecycle that is blocked, a selection
/// that is none, a boot without identity, or what is selected already.
pub proof fn requests_are_prepared(m: MuxLifecycle, current: MuxMode, target: MuxMode)
    ensures
        ({
            let known = |x: MuxMode| x == MuxMode::Hybrid || x == MuxMode::Discrete;
            m.prepare_refusal(current, target) == (if m.blocked {
                Some(ControlError::UnsafeRequest { reason: UnsafeReason::MuxBlocked { status: m.status } })
            } else if !known(target) {
                Some(ControlError::Unsupported)
            } else if m.boot is None {
                Some(ControlError::BackendUnavailable { what: Missing::BootIdentity })
            } else if !known(current) {
                Some(ControlError::Unsupported)
            } else if m.record.pending is None && current == target {
                Some(ControlError::UnsafeRequest { reason: UnsafeReason::MuxAlreadySelected })
            } else {
                None
            })
        }),
{
}

/// A request remembers its target, this boot, and the selection before the
/// first request that still waits.
pub proof fn requests_are_remembered(m: MuxLifecycle, current: MuxMode, target: MuxMode)
    ensures
        ({
            let r = m.spec_requested(current, target);
            &&& r.pending is Some
            &&& r.pending->Some_0.requested == target
            &&& r.pending->Some_0.boot == m.boot->Some_0
            &&& m.record.pending is None ==> r.pending->Some_0.previous == current
            &&& m.record.pending is Some ==> r.pending->Some_0.previous == m.record.pending->Some_0.previous
            &&& r == (MuxRecord { pending: r.pending, ..m.record })
        }),
        ({
            let r = m.spec_requested(current, target);
            let n = m.spec_recorded(r);
            &&& n.record == r && n.boot == m.boot && n.writable == m.writable && n.blocked == m.blocked
            &&& n.status == (MuxStatus::Recorded { target, previous: r.pending->Some_0.previous })
        }),
        m.wf() == (m.writable == (!m.blocked && m.record.verified_hybrid && m.record.verified_discrete)),
{
}

/// A change of the multiplexer: the selection is read, the request saved, and
/// only then the firmware asked for exactly the target. What was saved stays,
/// whatever the firmware answers.
pub proof fn multiplexer_from_start_to_end(
    c: ControlCoordinator,
    target: MuxMode,
    current: MuxMode,
    refusal: ControlError,
    e: HpWmiError,
)
    ensures
        !c.hp_present ==> MuxRun::spec_start(c, target).progress == Progress::Done(
            ControlStatus::Rejected { error: ControlError::Unsupported },
        ),
        c.hp_present ==> ({
            let s = MuxRun::spec_start(c, target);
            let unread = s.run.spec_resume(s.coordinator, Reply::Mux(Err(e)));
            let read = s.run.spec_resume(s.coordinator, Reply::Mux(Ok(current)));
            let against = c.mux_lifecycle.prepare_refusal(current, target);
            let record = c.mux_lifecycle.spec_requested(current, target);
            let w = read.run.spec_resume(read.coordinator, Reply::Saved(Ok(())));
            let unsaved = read.run.spec_resume(read.coordinator, Reply::Saved(Err(refusal)));
            let done = w.run.spec_resume(w.coordinator, Reply::Written(Ok(())));
            let failed = w.run.spec_resume(w.coordinator, Reply::Written(Err(e)));
            &&& s.progress == Progress::Ask(Request::ReadMux) && s.coordinator == c
            &&& unread.coordinator == c && unread.progress == Progress::Done(
                ControlStatus::Rejected { error: mapped_hp_error(e) },
            )
            &&& against is Some ==> read.coordinator == c && read.progress == Progress::Done(
                ControlStatus::Rejected { error: against->Some_0 },
            )
            &&& against is None ==> {
                &&& read.progress == Progress::Ask(Request::SaveMux(record)) && read.coordinator == c
                &&& unsaved.coordinator == c && unsaved.progress == Progress::Done(
                    ControlStatus::Rejected { error: refusal },
                )
                &&& w.progress == Progress::Ask(Request::Write(HpWrite::Mux(target)))
                &&& w.coordinator.mux_lifecycle.record == record
                &&& done.progress == Progress::Done(ControlStatus::Applied { verification: Verification::Skipped })
                &&& failed.progress == Progress::Done(ControlStatus::Rejected { error: mapped_hp_error(e) })
                &&& done.coordinator.mux_lifecycle.record == record && failed.coordinator.mux_lifecycle.record == record
                &&& done.coordinator.observed.mux == c.observed.mux
                &&& done.coordinator.observed.mux_status == Some(done.coordinator.mux_lifecycle.status)
            }
        }),
{
}

} // verus!
