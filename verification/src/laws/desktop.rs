//! The desktop program: its queue, its gates and what its pages show.
use vstd::prelude::*;

use crate::app::coalesce::Coalescer;
use crate::app::runtime::{gate_error, Pump, PumpExit, PumpMsg};
use crate::app::state::{outcome_status, summary_of, AppState, KnobId, KnobStatus, Knobs};
use crate::app::validate::gate_refusal;
use crate::domain::capability::{CapabilitySet, Support};
use crate::domain::command::{ControlCommand, ControlStatus, Verification};
use crate::domain::error::{ControlError, Missing, UnsafeReason};
use crate::domain::profile::{PerformanceProfile, ProfileEntry, ProfileRegistry};

verus! {

/// The next command leaves once none is under way and the moment of the next
/// attempt has come; a writer counts as busy since it first was.
pub proof fn one_command_at_a_time(q: Coalescer, now: u64)
    ensures
        q.ready(now) <==> q.in_flight is None && (q.next_attempt_at is None || q.next_attempt_at->Some_0 <= now),
        q.busy_since is Some ==> q.busy_start(now) == q.busy_since->Some_0,
        q.busy_since is None ==> q.busy_start(now) == now,
{
}

/// A profile with power limits, its own or the processor's, needs a build and
/// a machine that have them as an experiment; any other passes.
pub proof fn power_limits_are_gated(p: PerformanceProfile, built: bool, caps: Option<CapabilitySet>)
    ensures
        ({
            let limits = p.power_limits is Some || p.cpu.power_limits is Some;
            let open = caps is Some && caps->Some_0.power_limits == Support::Experimental;
            let refusal = gate_refusal(p, built, caps);
            &&& refusal is None <==> !limits || (built && open)
            &&& limits && !built ==> refusal == Some(UnsafeReason::ExperimentalNotBuilt)
            &&& limits && built && !open ==> refusal == Some(UnsafeReason::PowerLimitsNotExperimental)
        }),
{
}

/// Without a writer nothing passes; with one, a change of the multiplexer has
/// to be proven, a named profile must not be refused, and everything else
/// passes.
pub proof fn commands_pass_the_desktop(
    cmd: ControlCommand,
    registry: ProfileRegistry,
    caps: Option<CapabilitySet>,
    mux_proven: bool,
    has_control: bool,
    experimental: bool,
)
    ensures
        ({
            let e = gate_error(cmd, registry, caps, mux_proven, has_control, experimental);
            let p = registry.lookup(cmd->ApplyProfile_profile@);
            &&& !has_control ==> e == Some(ControlError::BackendUnavailable { what: Missing::TelemetryOnly })
            &&& has_control && cmd is SetMuxMode ==> e == (if mux_proven {
                None
            } else {
                Some(ControlError::UnsafeRequest { reason: UnsafeReason::MuxNotProven })
            })
            &&& has_control && cmd is ApplyProfile && p is Some && gate_refusal(p->Some_0, experimental, caps) is Some ==> e
                == Some(
                ControlError::UnsafeRequest { reason: gate_refusal(p->Some_0, experimental, caps)->Some_0 },
            )
            &&& has_control && cmd is ApplyProfile && (p is None || gate_refusal(p->Some_0, experimental, caps) is None)
                ==> e is None
            &&& has_control && !(cmd is SetMuxMode) && !(cmd is ApplyProfile) ==> e is None
        }),
{
}

/// A request shows on its own knob alone: failed with its reason where it does
/// not pass, else pending. A baseline is the capture that is there, and any
/// other message changes nothing that is shown.
pub proof fn requests_show_on_their_knob(pump: Pump, knob: KnobId, cmd: ControlCommand, msg: PumpMsg, state: AppState, at: u64)
    ensures
        ({
            let r = pump.reduced(PumpMsg::Dispatch(knob, cmd), state, at);
            let e = gate_error(
                cmd,
                pump.registry,
                state.caps,
                state.observed.mux_write_verified,
                pump.has_control,
                pump.experimental,
            );
            &&& r.knobs.at(knob) == (match e {
                Some(error) => KnobStatus::Failed { error, at_epoch_ms: at },
                None => KnobStatus::Pending,
            })
            &&& forall|other: KnobId| other != knob ==> #[trigger] r.knobs.at(other) == state.knobs.at(other)
            &&& r == (AppState { knobs: r.knobs, ..state })
        }),
        pump.reduced(PumpMsg::UseCaptureBaseline, state, at) == (AppState {
            capture_baseline: state.capture_report,
            ..state
        }),
        !(msg is Dispatch) && !(msg is UseCaptureBaseline) ==> pump.reduced(msg, state, at) == state,
{
    assert forall|other: KnobId| other != knob implies #[trigger] pump.reduced(
        PumpMsg::Dispatch(knob, cmd),
        state,
        at,
    ).knobs.at(other) == state.knobs.at(other) by {}
}

/// Each knob has its own place.
pub proof fn knobs_have_their_places(k: Knobs)
    ensures
        k.at(KnobId::Profile) == k.profile && k.at(KnobId::Cpu) == k.cpu && k.at(KnobId::Fan) == k.fan,
        k.at(KnobId::Gpu) == k.gpu && k.at(KnobId::Power) == k.power && k.at(KnobId::Recovery) == k.recovery,
        k.at(KnobId::Mux) == k.mux,
        forall|id: KnobId| #[trigger] Knobs::all_idle().at(id) is Idle,
{
}

/// An outcome shows as applied only if its readback did not fail; a failed
/// readback and a refusal show as failures with their reason.
pub proof fn outcomes_are_shown(v: Verification, error: ControlError, at: u64)
    ensures
        v is Failed ==> outcome_status(ControlStatus::Applied { verification: v }, at) == (KnobStatus::Failed {
            error: ControlError::VerificationFailed { expected: v->expected, actual: v->actual },
            at_epoch_ms: at,
        }),
        !(v is Failed) ==> outcome_status(ControlStatus::Applied { verification: v }, at) == (KnobStatus::Applied {
            verification: v,
            at_epoch_ms: at,
        }),
        outcome_status(ControlStatus::Rejected { error }, at) == (KnobStatus::Failed { error, at_epoch_ms: at }),
        outcome_status(ControlStatus::Partial, at) == (KnobStatus::Partial { at_epoch_ms: at }),
{
}

/// A profile is listed under its name, with its description and what it is.
pub proof fn profiles_are_listed(entry: ProfileEntry)
    ensures
        summary_of(entry).name == entry.name,
        summary_of(entry).description == entry.profile.description,
        summary_of(entry).profile == entry.profile,
        summary_of(entry).builtin == entry.builtin,
{
}

/// The end: a capture is stopped first unless the telemetry is lost, then the
/// rules where there are any, then the engine; who asked gets an answer, and
/// after a loss the end that is still to come is served.
pub proof fn the_desktop_ends_in_order(exit: PumpExit, has_automation: bool)
    ensures
        ({
            let steps = Pump::exit_order(exit, has_automation);
            let c: int = if exit is TelemetryLost { 0 } else { 1 };
            let a: int = if has_automation { 1 } else { 0 };
            let t: int = if exit is PagesGone { 0 } else { 1 };
            &&& steps.len() == c + a + 1 + t
            &&& c == 1 ==> steps[0] is StopCapture
            &&& a == 1 ==> steps[c] is ShutDownAutomation
            &&& steps[c + a] is ShutDownEngine
            &&& exit is Asked ==> steps[c + a + 1] is Acknowledge
            &&& exit is TelemetryLost ==> steps[c + a + 1] is ServeShutdownOnly
        }),
{
}

} // verus!
