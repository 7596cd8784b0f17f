//! Single writes from beginning to end: the ledger first, then exactly what
//! was asked for, and what is known afterwards.
use vstd::prelude::*;

use crate::control::coordinator::ControlCoordinator;
use crate::control::exchange::{HpWrite, Progress, Reply, Request};
use crate::control::exec::command::exec_start;
use crate::control::exec::fan::FanRun;
use crate::control::exec::gpu::{GpuChange, GpuRun};
use crate::control::exec::mux_switch::MuxRun;
use crate::control::exec::power::PowerRun;
use crate::control::exec::thermal::ThermalRun;
use crate::control::safety::ThermalFeed;
use crate::domain::command::{ControlCommand, ControlStatus, Note, Step, StepOutcome, Verification};
use crate::domain::error::{mapped_hp_error, ControlError, FirmwareDetail, HpWmiError, Missing, UnsafeReason};
use crate::domain::evidence::Target;
use crate::domain::policy::{
    CpuPolicy, CpuPowerLimits, FanCurve, FanLevels, FanMode, GpuPlatformPolicy, GpuPolicyPatch, MuxMode, ThermalMode,
};
use crate::domain::state::{ObservedState, ObservedValue};

verus! {

/// A firmware that says no has not written; one that does not answer may have.
pub proof fn refusals_are_definite(e: HpWmiError)
    ensures
        e.spec_definite_rejection() <==> !(e is Timeout) && !(e is Transport),
        e matches HpWmiError::FirmwareReturnCode { code } ==> mapped_hp_error(e) == (ControlError::FirmwareRejected {
            detail: FirmwareDetail::ReturnCode { code },
        }),
        e is Timeout ==> mapped_hp_error(e) is Timeout,
        e matches HpWmiError::InvalidInput(s) ==> mapped_hp_error(e) == (ControlError::UnsafeRequest {
            reason: UnsafeReason::Refused { text: s },
        }),
        e matches HpWmiError::NotAvailable(s) ==> mapped_hp_error(e) == (ControlError::BackendUnavailable {
            what: Missing::Named { what: s },
        }),
        e matches HpWmiError::Transport(s) ==> mapped_hp_error(e) == (ControlError::BackendUnavailable {
            what: Missing::Named { what: s },
        }),
{
}

/// A trusted value: written at that moment, and not read back.
pub open spec fn on_trust<T>(v: ObservedValue<T>, value: T, at: u64) -> bool {
    v == (ObservedValue::TrustedWrite { value, at })
}

/// What this session owes is what it has changed: fans and thermal mode by
/// themselves, graphics policy and power limits by what they were before. The
/// ledger that is saved is that, unless an earlier one is unsettled.
pub proof fn the_ledger_holds_what_is_owed(c: ControlCoordinator)
    ensures
        ({
            let r = c.spec_record();
            &&& r.fan <==> c.fan_control_dirty
            &&& r.thermal <==> c.thermal_mode_dirty
            &&& c.gpu_policy_dirty ==> r.gpu == c.gpu_policy_startup
            &&& !c.gpu_policy_dirty ==> r.gpu is None
            &&& c.power_limits_dirty ==> r.power == c.power_limits_baseline
            &&& !c.power_limits_dirty ==> r.power is None
            &&& r.scoped == c.scoped_session
            &&& r.board == c.board && r.bios == c.bios
            &&& c.previous_recovery is None ==> c.spec_ledger() == r
            &&& c.previous_recovery matches Some(earlier) ==> c.spec_ledger() == earlier
            &&& r.spec_pending() <==> r.fan || r.thermal || r.gpu is Some || r.power is Some || r.scoped is Some
        }),
{
}

/// Each setting is performed by the operation for it, with its own value.
pub proof fn settings_reach_their_operation(
    c: ControlCoordinator,
    scratch: Seq<StepOutcome>,
    feed: ThermalFeed,
    now: u64,
    mode: ThermalMode,
    fan: FanMode,
    cpu: CpuPolicy,
    gpu: GpuPlatformPolicy,
    patch: GpuPolicyPatch,
    limits: CpuPowerLimits,
    mux: MuxMode,
)
    ensures
        exec_start(c, ControlCommand::SetCpuPolicy(cpu), scratch, feed, now).progress == Progress::Ask(
            Request::ApplyCpu(cpu),
        ),
        exec_start(c, ControlCommand::SetThermalMode(mode), scratch, feed, now).coordinator == ThermalRun::spec_start(
            c,
            mode,
        ).coordinator,
        exec_start(c, ControlCommand::SetThermalMode(mode), scratch, feed, now).run->Thermal_0 == ThermalRun::spec_start(
            c,
            mode,
        ).run,
        exec_start(c, ControlCommand::SetFanMode(fan), scratch, feed, now).run->Fan_0 == FanRun::spec_start(
            c,
            fan,
        ).run,
        exec_start(c, ControlCommand::SetFanMode(fan), scratch, feed, now).coordinator == FanRun::spec_start(
            c,
            fan,
        ).coordinator,
        exec_start(c, ControlCommand::SetGpuPlatformPolicy(gpu), scratch, feed, now).run->Gpu_0.change
            == GpuChange::Whole(gpu),
        exec_start(c, ControlCommand::SetGpuPlatformPolicyPatch(patch), scratch, feed, now).run->Gpu_0.change
            == GpuChange::Patch(patch),
        exec_start(c, ControlCommand::SetPowerLimits(limits), scratch, feed, now).run->Power_0.limits == limits,
        exec_start(c, ControlCommand::SetMuxMode(mux), scratch, feed, now).run->Mux_0 == MuxRun::spec_start(
            c,
            mux,
        ).run,
{
}

/// A change of the thermal mode: its restore is owed before it is written, the
/// mode itself is written, and then it is trusted. What could not be saved or
/// was refused changes nothing; what was not answered stays owed.
pub proof fn thermal_mode_from_start_to_end(
    c: ControlCoordinator,
    mode: ThermalMode,
    saved: u64,
    written: u64,
    refusal: ControlError,
    e: HpWmiError,
)
    requires
        c.hp_present,
    ensures
        ({
            let s = ThermalRun::spec_start(c, mode);
            let w = s.run.spec_resume(s.coordinator, Reply::Saved(Ok(())), saved);
            let unsaved = s.run.spec_resume(s.coordinator, Reply::Saved(Err(refusal)), saved);
            let done = w.run.spec_resume(w.coordinator, Reply::Written(Ok(())), written);
            let failed = w.run.spec_resume(w.coordinator, Reply::Written(Err(e)), written);
            let owing = ControlCoordinator { thermal_mode_dirty: true, ..c };
            &&& s.progress == Progress::Ask(Request::SaveLedger(owing.spec_ledger()))
            &&& s.coordinator == owing
            &&& w.progress == Progress::Ask(Request::Write(HpWrite::Thermal(mode)))
            &&& w.coordinator == owing
            &&& on_trust(done.coordinator.observed.thermal_mode, mode, written)
            &&& done.coordinator == (ControlCoordinator {
                observed: ObservedState { thermal_mode: done.coordinator.observed.thermal_mode, ..c.observed },
                ..owing
            })
            &&& done.progress == Progress::Done(
                ControlStatus::Applied { verification: Verification::TrustedNoReadback },
            )
            &&& done.steps.len() == 1 && done.steps[0].step == Step::SetThermalMode && done.steps[0].before == Some(
                Note::Thermal(c.observed.thermal_mode.known()),
            )
            &&& unsaved.coordinator == c && unsaved.progress == Progress::Done(
                ControlStatus::Rejected { error: refusal },
            )
            &&& failed.coordinator == (if e.spec_definite_rejection() { c } else { owing })
            &&& failed.progress == Progress::Done(ControlStatus::Rejected { error: mapped_hp_error(e) })
            &&& failed.steps.len() == 1 && failed.steps[0].step == Step::SetThermalMode && failed.steps[0].verification
                is Failed
        }),
{
}

/// The fans at manual levels: the overlay is released first where it is on,
/// the very levels are written, and a readback of them is asked for.
pub proof fn manual_levels_from_start_to_end(
    c: ControlCoordinator,
    levels: FanLevels,
    feed: ThermalFeed,
    saved: u64,
    released: u64,
    written: u64,
)
    requires
        c.hp_present,
    ensures
        ({
            let mode = FanMode::Manual(levels);
            let s = FanRun::spec_start(c, mode);
            let owing = ControlCoordinator { fan_control_dirty: true, ..c };
            let on = c.observed.max_fan.known() == Some(true);
            let first = s.run.spec_resume(s.coordinator, Reply::Saved(Ok(())), feed, saved);
            let w = if on {
                first.run.spec_resume(first.coordinator, Reply::Written(Ok(())), feed, released)
            } else {
                first
            };
            let done = w.run.spec_resume(w.coordinator, Reply::Written(Ok(())), feed, written);
            &&& s.progress == Progress::Ask(Request::SaveLedger(owing.spec_ledger()))
            &&& s.coordinator == owing
            &&& on ==> first.progress == Progress::Ask(Request::Write(HpWrite::MaxFan(false)))
            &&& w.progress == Progress::Ask(Request::Write(HpWrite::FanLevels(levels)))
            &&& done.progress == Progress::Done(
                ControlStatus::Applied { verification: Verification::TrustedNoReadback },
            )
            &&& on_trust(done.coordinator.observed.fan_mode, mode, written)
            &&& on_trust(done.coordinator.observed.max_fan, false, written)
            &&& done.coordinator.fan_control_dirty
            &&& done.coordinator.verification_requested is Some
            &&& done.coordinator.verification_requested->Some_0.target == Target::Fan(levels)
            &&& done.coordinator.verification_requested->Some_0.written_at == written
            &&& done.coordinator.fan_curve.last_target is None
            &&& done.coordinator.observed == (ObservedState {
                fan_mode: done.coordinator.observed.fan_mode,
                max_fan: done.coordinator.observed.max_fan,
                ..c.observed
            })
        }),
{
}

/// The fans at max: the overlay is switched on, no level is written, and no
/// curve runs any more.
pub proof fn max_fan_from_start_to_end(c: ControlCoordinator, feed: ThermalFeed, saved: u64, written: u64)
    requires
        c.hp_present,
    ensures
        ({
            let s = FanRun::spec_start(c, FanMode::Max);
            let w = s.run.spec_resume(s.coordinator, Reply::Saved(Ok(())), feed, saved);
            let done = w.run.spec_resume(w.coordinator, Reply::Written(Ok(())), feed, written);
            &&& s.progress is Ask && s.progress->Ask_0 is SaveLedger
            &&& w.progress == Progress::Ask(Request::Write(HpWrite::MaxFan(true)))
            &&& done.progress == Progress::Done(
                ControlStatus::Applied { verification: Verification::TrustedNoReadback },
            )
            &&& on_trust(done.coordinator.observed.max_fan, true, written)
            &&& on_trust(done.coordinator.observed.fan_mode, FanMode::Max, written)
            &&& done.coordinator.fan_control_dirty
            &&& done.coordinator.verification_requested == c.verification_requested
            &&& done.coordinator.fan_curve.last_target is None
        }),
{
}

/// The fans on a curve: a fresh temperature is needed, what the curve asks for
/// at it is written, and the curve goes on from there.
pub proof fn curve_from_start_to_end(
    c: ControlCoordinator,
    curve: FanCurve,
    feed: ThermalFeed,
    saved: u64,
    released: u64,
    written: u64,
)
    requires
        c.hp_present,
        curve.valid(),
    ensures
        ({
            let mode = FanMode::Curve(curve);
            let s = FanRun::spec_start(c, mode);
            let on = c.observed.max_fan.known() == Some(true);
            let first = s.run.spec_resume(s.coordinator, Reply::Saved(Ok(())), feed, saved);
            let temp = crate::control::fan_curve::controlling_temp(feed.pkg_temp, feed.gpu_temp, saved);
            let w = if on {
                first.run.spec_resume(first.coordinator, Reply::Written(Ok(())), feed, released)
            } else {
                first
            };
            let done = w.run.spec_resume(w.coordinator, Reply::Written(Ok(())), feed, written);
            &&& temp is None ==> first.progress == Progress::Done(
                ControlStatus::Rejected {
                    error: ControlError::UnsafeRequest { reason: UnsafeReason::NoFreshCurveTemperature },
                },
            )
            &&& temp matches Some(t) ==> {
                &&& on ==> first.progress == Progress::Ask(Request::Write(HpWrite::MaxFan(false)))
                &&& w.progress matches Progress::Ask(Request::Write(HpWrite::FanLevels(l))) && (
                    l.left as int,
                    l.right as int,
                ) == curve.spec_target(t as int) && done.coordinator.fan_curve.last_target == Some(l)
                &&& done.coordinator.fan_curve.last_write_at == Some(saved)
                &&& done.coordinator.last_saved_fan_curve == Some(curve)
                &&& done.coordinator.observed.fan_mode.known() == Some(mode)
                &&& done.coordinator.observed.max_fan.known() == Some(false)
                &&& done.coordinator.fan_control_dirty
                &&& done.progress == Progress::Done(
                    ControlStatus::Applied { verification: Verification::TrustedNoReadback },
                )
            }
        }),
{
    if let Some(t) = crate::control::fan_curve::controlling_temp(feed.pkg_temp, feed.gpu_temp, saved) {
        crate::domain::policy::target_within_ends(curve, t as int, 1000);
    }
}

/// The fans back to firmware: the overlay is switched off unless it is known
/// to be off, the levels are handed over unless they are, and then nothing is
/// owed for the fans.
pub proof fn firmware_control_from_start_to_end(
    c: ControlCoordinator,
    feed: ThermalFeed,
    saved: u64,
    released: u64,
    written: u64,
)
    requires
        c.hp_present,
        c.observed.max_fan.known() != Some(false),
        c.observed.fan_mode.known() != Some(FanMode::FirmwareAuto),
    ensures
        ({
            let s = FanRun::spec_start(c, FanMode::FirmwareAuto);
            let off = s.run.spec_resume(s.coordinator, Reply::Saved(Ok(())), feed, saved);
            let over = off.run.spec_resume(off.coordinator, Reply::Written(Ok(())), feed, released);
            let done = over.run.spec_resume(over.coordinator, Reply::Written(Ok(())), feed, written);
            &&& off.progress == Progress::Ask(Request::Write(HpWrite::MaxFan(false)))
            &&& over.progress == Progress::Ask(Request::Write(HpWrite::FanLevels(FanLevels { left: 0, right: 0 })))
            &&& done.progress == Progress::Done(ControlStatus::Applied { verification: Verification::Skipped })
            &&& done.coordinator.observed.fan_mode.known() == Some(FanMode::FirmwareAuto)
            &&& done.coordinator.observed.max_fan.known() == Some(false)
            &&& !done.coordinator.fan_control_dirty
            &&& done.coordinator.safety.override_saved is None
            &&& done.coordinator.fan_curve.last_target is None
        }),
{
}

/// What fails while the fans change: an unsaved ledger changes nothing; failed
/// levels are a refusal by the firmware, and a machine that was taken off max
/// fan for them, or a curve that did not start, goes back to firmware.
pub proof fn failed_fan_writes(
    c: ControlCoordinator,
    levels: FanLevels,
    feed: ThermalFeed,
    saved: u64,
    released: u64,
    written: u64,
    refusal: ControlError,
    e: HpWmiError,
    mode: FanMode,
)
    requires
        c.hp_present,
    ensures
        ({
            let s = FanRun::spec_start(c, mode);
            let unsaved = s.run.spec_resume(s.coordinator, Reply::Saved(Err(refusal)), feed, saved);
            &&& unsaved.coordinator == c
            &&& unsaved.progress == Progress::Done(ControlStatus::Rejected { error: refusal })
        }),
        ({
            let s = FanRun::spec_start(c, FanMode::Manual(levels));
            let on = c.observed.max_fan.known() == Some(true);
            let first = s.run.spec_resume(s.coordinator, Reply::Saved(Ok(())), feed, saved);
            let w = if on {
                first.run.spec_resume(first.coordinator, Reply::Written(Ok(())), feed, released)
            } else {
                first
            };
            let failed = w.run.spec_resume(w.coordinator, Reply::Written(Err(e)), feed, written);
            let status = ControlStatus::Rejected {
                error: ControlError::FirmwareRejected { detail: FirmwareDetail::FanWrite },
            };
            &&& failed.progress == (if on { Progress::HandBack(status) } else { Progress::Done(status) })
            &&& failed.coordinator.fan_control_dirty
            &&& failed.coordinator.observed.fan_mode == c.observed.fan_mode
        }),
{
}

/// Without the firmware interface no setting of it begins.
pub proof fn no_interface_no_write(
    c: ControlCoordinator,
    mode: ThermalMode,
    fan: FanMode,
    gpu: GpuChange,
    limits: CpuPowerLimits,
    feed: ThermalFeed,
)
    requires
        !c.hp_present,
    ensures
        ({
            let missing = Progress::Done(
                ControlStatus::Rejected { error: ControlError::BackendUnavailable { what: Missing::HpPlatform } },
            );
            &&& ThermalRun::spec_start(c, mode).progress == missing && ThermalRun::spec_start(c, mode).coordinator == c
            &&& FanRun::spec_start(c, fan).progress == missing && FanRun::spec_start(c, fan).coordinator == c
            &&& GpuRun::spec_start(c, gpu).progress == missing && GpuRun::spec_start(c, gpu).coordinator == c
            &&& PowerRun::spec_start(c, limits, feed).progress == missing && PowerRun::spec_start(
                c,
                limits,
                feed,
            ).coordinator == c
        }),
{
}

/// A whole graphics policy: the live one is read and owed unless one is owed
/// already, the very policy is written, and a readback of every field is asked
/// for.
pub proof fn graphics_policy_from_start_to_end(
    c: ControlCoordinator,
    policy: GpuPlatformPolicy,
    live: GpuPlatformPolicy,
    read: u64,
    saved: u64,
    written: u64,
    refusal: ControlError,
    e: HpWmiError,
)
    requires
        c.hp_present,
    ensures
        ({
            let s = GpuRun::spec_start(c, GpuChange::Whole(policy));
            let b = s.run.spec_resume(s.coordinator, Reply::Gpu(Ok(live)), read);
            let w = b.run.spec_resume(b.coordinator, Reply::Saved(Ok(())), saved);
            let unsaved = b.run.spec_resume(b.coordinator, Reply::Saved(Err(refusal)), saved);
            let done = w.run.spec_resume(w.coordinator, Reply::Written(Ok(())), written);
            let failed = w.run.spec_resume(w.coordinator, Reply::Written(Err(e)), written);
            let unread = s.run.spec_resume(s.coordinator, Reply::Gpu(Err(e)), read);
            &&& s.progress == Progress::Ask(Request::ReadGpu) && s.coordinator == c
            &&& b.progress == Progress::Ask(Request::SaveLedger(b.coordinator.spec_ledger()))
            &&& b.coordinator.gpu_policy_dirty
            &&& b.coordinator.gpu_policy_startup == (if c.gpu_policy_dirty { c.gpu_policy_startup } else { Some(live) })
            &&& w.progress == Progress::Ask(Request::Write(HpWrite::GpuPolicy(policy)))
            &&& done.progress == Progress::Done(
                ControlStatus::Applied { verification: Verification::TrustedNoReadback },
            )
            &&& on_trust(done.coordinator.observed.gpu_platform_policy, policy, written)
            &&& done.coordinator.gpu_policy_dirty
            &&& done.coordinator.verification_requested is Some
            &&& done.coordinator.verification_requested->Some_0.target == Target::Gpu(policy, true)
            &&& done.coordinator.verification_requested->Some_0.written_at == written
            &&& done.coordinator.desired == c.desired
            &&& unsaved.coordinator.gpu_policy_dirty == c.gpu_policy_dirty
            &&& unsaved.progress == Progress::Done(ControlStatus::Rejected { error: refusal })
            &&& failed.coordinator.gpu_policy_dirty == (c.gpu_policy_dirty || !e.spec_definite_rejection())
            &&& failed.progress == Progress::Done(ControlStatus::Rejected { error: mapped_hp_error(e) })
            &&& failed.coordinator.observed == c.observed
            &&& unread.coordinator == c && unread.progress == Progress::Done(
                ControlStatus::Rejected { error: mapped_hp_error(e) },
            )
        }),
{
}

/// A sparse change of the graphics policy is merged over the policy that was
/// just read: what is written has the fields that it names, and the read value
/// of every other. The merged policy is what the user wants from then on.
pub proof fn graphics_change_from_start_to_end(
    c: ControlCoordinator,
    patch: GpuPolicyPatch,
    live: GpuPlatformPolicy,
    again: GpuPlatformPolicy,
    merged: u64,
    read: u64,
    saved: u64,
    written: u64,
)
    requires
        c.hp_present,
    ensures
        ({
            let s = GpuRun::spec_start(c, GpuChange::Patch(patch));
            let m = s.run.spec_resume(s.coordinator, Reply::Gpu(Ok(live)), merged);
            let b = m.run.spec_resume(m.coordinator, Reply::Gpu(Ok(again)), read);
            let w = b.run.spec_resume(b.coordinator, Reply::Saved(Ok(())), saved);
            let done = w.run.spec_resume(w.coordinator, Reply::Written(Ok(())), written);
            &&& s.progress == Progress::Ask(Request::ReadGpu)
            &&& m.progress == Progress::Ask(Request::ReadGpu)
            &&& w.progress matches Progress::Ask(Request::Write(HpWrite::GpuPolicy(p))) && {
                &&& p.ctgp == (if patch.ctgp is Some { patch.ctgp->Some_0 } else { live.ctgp })
                &&& p.ppab == (if patch.ppab is Some { patch.ppab->Some_0 } else { live.ppab })
                &&& p.dstate == (if patch.dstate is Some { patch.dstate->Some_0 } else { live.dstate })
                &&& p.slowdown_temp_c == (if patch.slowdown_temp_c is Some {
                    patch.slowdown_temp_c->Some_0
                } else {
                    live.slowdown_temp_c
                })
                &&& done.coordinator.observed.gpu_platform_policy.known() == Some(p)
                &&& done.coordinator.desired.gpu_platform_policy == Some(p)
                &&& done.coordinator.verification_requested is Some
                &&& done.coordinator.verification_requested->Some_0.target == Target::Gpu(p, patch.dstate is Some)
            }
            &&& !c.gpu_policy_dirty ==> done.coordinator.gpu_policy_startup == Some(again)
        }),
{
}

/// Power limits: what has to be put back is captured before the first write
/// and kept from then on, the very limits are written, and a readback of them
/// is asked for from the moment of the write.
pub proof fn power_limits_from_start_to_end(
    c: ControlCoordinator,
    limits: CpuPowerLimits,
    feed: ThermalFeed,
    saved: u64,
    written: u64,
    refusal: ControlError,
    e: HpWmiError,
)
    requires
        c.hp_present,
        c.power_limits_baseline is Some || feed.power_limits is Some,
    ensures
        ({
            let s = PowerRun::spec_start(c, limits, feed);
            let w = s.run.spec_resume(s.coordinator, Reply::Saved(Ok(())), saved);
            let unsaved = s.run.spec_resume(s.coordinator, Reply::Saved(Err(refusal)), saved);
            let done = w.run.spec_resume(w.coordinator, Reply::Written(Ok(())), written);
            let failed = w.run.spec_resume(w.coordinator, Reply::Written(Err(e)), written);
            &&& s.progress == Progress::Ask(Request::SaveLedger(s.coordinator.spec_ledger()))
            &&& s.coordinator.power_limits_dirty
            &&& c.power_limits_baseline is Some ==> s.coordinator.power_limits_baseline == c.power_limits_baseline
            &&& c.power_limits_baseline is None ==> {
                let seen = feed.power_limits->Some_0;
                let b = s.coordinator.power_limits_baseline->Some_0;
                &&& s.coordinator.power_limits_baseline is Some
                &&& crate::laws::sessions::near_watts(b.pl1_w, seen.pl1_mw as int)
                &&& crate::laws::sessions::near_watts(b.pl2_w, seen.pl2_mw as int)
                &&& feed.pl4 is None ==> b.pl4_w == 0
                &&& feed.pl4 is Some ==> crate::laws::sessions::near_watts(b.pl4_w, feed.pl4->Some_0.pl4_mw as int)
                &&& b.cpu_gpu_concurrent_w == 0
            }
            &&& w.progress == Progress::Ask(Request::Write(HpWrite::PowerLimits(limits)))
            &&& done.progress == Progress::Done(
                ControlStatus::Applied { verification: Verification::TrustedNoReadback },
            )
            &&& on_trust(done.coordinator.observed.power_limits, limits, written)
            &&& done.coordinator.power_limits_dirty
            &&& done.coordinator.verification_requested is Some
            &&& done.coordinator.verification_requested->Some_0.target == Target::Power(limits)
            &&& done.coordinator.verification_requested->Some_0.written_at == saved
            &&& unsaved.coordinator.power_limits_dirty == c.power_limits_dirty
            &&& unsaved.progress == Progress::Done(ControlStatus::Rejected { error: refusal })
            &&& failed.coordinator.power_limits_dirty == (c.power_limits_dirty || !e.spec_definite_rejection())
            &&& failed.coordinator.observed == c.observed
            &&& failed.progress == Progress::Done(ControlStatus::Rejected { error: mapped_hp_error(e) })
        }),
{
}

} // verus!
