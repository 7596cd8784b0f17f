//! Processor policy: each setting is read, written and read back on its own;
//! a later failure leaves earlier settings applied.
use vstd::prelude::*;

use crate::control::coordinator::ControlCoordinator;
use crate::control::exchange::{CpuResults, KnobRun};
use crate::control::stamp::{stamp_rails, stamp_windows_ppm, with_rails};
use crate::domain::command::{
    os_failed_step, platform_failed_step, ControlStatus, FirmwareReturn, Note, Step, StepOutcome, Verification,
};
use crate::domain::error::{ControlError, PlatformError};
use crate::domain::evidence::{Evidence, Knob, KnobValue};
use crate::domain::policy::{BoostPolicy, CpuPolicy, PpmRail};
use crate::domain::state::ObservedState;

verus! {

/// A type of processor setting.
pub trait KnobSide: Sized + Copy {
    /// The setting as a plain value.
    spec fn value(self) -> KnobValue;

    /// The setting as a plain value.
    fn to_value(&self) -> (r: KnobValue)
        ensures
            r == self.value(),
    ;

    /// Whether two settings are equal.
    fn same(&self, other: &Self) -> (r: bool)
        ensures
            r == (*self == *other),
    ;
}

impl KnobSide for u8 {
    open spec fn value(self) -> KnobValue {
        KnobValue::Number(self as u32)
    }

    fn to_value(&self) -> (r: KnobValue) {
        KnobValue::Number(*self as u32)
    }

    fn same(&self, other: &u8) -> (r: bool) {
        *self == *other
    }
}

impl KnobSide for u32 {
    open spec fn value(self) -> KnobValue {
        KnobValue::Number(self)
    }

    fn to_value(&self) -> (r: KnobValue) {
        KnobValue::Number(*self)
    }

    fn same(&self, other: &u32) -> (r: bool) {
        *self == *other
    }
}

impl KnobSide for BoostPolicy {
    open spec fn value(self) -> KnobValue {
        KnobValue::Boost(self)
    }

    fn to_value(&self) -> (r: KnobValue) {
        KnobValue::Boost(*self)
    }

    fn same(&self, other: &BoostPolicy) -> (r: bool) {
        *self == *other
    }
}

/// The policy names the setting on some side.
pub open spec fn wanted<T>(ac: Option<T>, dc: Option<T>) -> bool {
    ac is Some || dc is Some
}

/// The readback has every side that was requested.
pub open spec fn agrees<T>(ac: Option<T>, dc: Option<T>, read: (T, T)) -> bool {
    (ac matches Some(v) ==> v == read.0) && (dc matches Some(v) ==> v == read.1)
}

/// A requested side as a plain value.
pub open spec fn plain<T: KnobSide>(side: Option<T>) -> Option<KnobValue> {
    match side {
        Some(v) => Some(v.value()),
        None => None,
    }
}

pub(crate) fn to_plain<T: KnobSide>(side: Option<T>) -> (r: Option<KnobValue>)
    ensures
        r == plain(side),
{
    match side {
        Some(v) => Some(v.to_value()),
        None => None,
    }
}

/// The verdict on a setting whose write succeeded.
pub open spec fn knob_verdict<T: KnobSide>(
    ac: Option<T>,
    dc: Option<T>,
    readback: Result<(T, T), PlatformError>,
) -> Verification {
    let expected = Evidence::KnobRequest { ac: plain(ac), dc: plain(dc) };
    match readback {
        Ok(read) => if agrees(ac, dc, read) {
            Verification::Verified
        } else {
            Verification::Failed {
                expected,
                actual: Evidence::KnobReading { read_ac: read.0.value(), read_dc: read.1.value() },
            }
        },
        Err(e) => Verification::Failed { expected, actual: Evidence::KnobUnreadable(e) },
    }
}

/// What the setting was before the write.
pub open spec fn knob_before<T: KnobSide>(run: KnobRun<T>) -> Note {
    match run.before {
        Ok(read) => Note::KnobRead { ac: read.0.value(), dc: read.1.value() },
        Err(e) => Note::KnobUnreadable(e),
    }
}

/// The evidence of one setting.
pub open spec fn knob_step<T: KnobSide>(knob: Knob, ac: Option<T>, dc: Option<T>, run: KnobRun<T>) -> StepOutcome {
    let step = Step::WriteKnob(knob);
    match run.write {
        Ok(readback) => StepOutcome {
            step,
            firmware_return: FirmwareReturn::ApiOk,
            before: Some(knob_before(run)),
            after: Some(Note::Verdict(knob_verdict(ac, dc, readback))),
            verification: knob_verdict(ac, dc, readback),
        },
        Err(e) => os_failed_step(step, e, knob_before(run)),
    }
}

/// A setting that was performed: it was wanted, and answered.
pub open spec fn performed<T>(ac: Option<T>, dc: Option<T>, run: Option<KnobRun<T>>) -> bool {
    wanted(ac, dc) && run is Some
}

/// The setting's write succeeded.
pub open spec fn knob_applied<T>(ac: Option<T>, dc: Option<T>, run: Option<KnobRun<T>>) -> bool {
    performed(ac, dc, run) && run->Some_0.write is Ok
}

/// The setting's write succeeded and its readback agreed.
pub open spec fn knob_verified<T>(ac: Option<T>, dc: Option<T>, run: Option<KnobRun<T>>) -> bool {
    knob_applied(ac, dc, run) && (run->Some_0.write->Ok_0 matches Ok(read) && agrees(ac, dc, read))
}

/// The setting failed: its write, or its readback.
pub open spec fn knob_failed<T>(ac: Option<T>, dc: Option<T>, run: Option<KnobRun<T>>) -> bool {
    performed(ac, dc, run) && !knob_verified(ac, dc, run)
}

/// The evidence of one setting, if it was performed.
pub open spec fn knob_steps<T: KnobSide>(
    knob: Knob,
    ac: Option<T>,
    dc: Option<T>,
    run: Option<KnobRun<T>>,
) -> Seq<StepOutcome> {
    if performed(ac, dc, run) { seq![knob_step(knob, ac, dc, run->Some_0)] } else { Seq::empty() }
}

/// What a verified readback showed on mains.
pub open spec fn shown_ac<T>(ac: Option<T>, dc: Option<T>, run: Option<KnobRun<T>>) -> Option<T> {
    if knob_verified(ac, dc, run) { Some(run->Some_0.write->Ok_0->Ok_0.0) } else { None }
}

/// What a verified readback showed on battery.
pub open spec fn shown_dc<T>(ac: Option<T>, dc: Option<T>, run: Option<KnobRun<T>>) -> Option<T> {
    if knob_verified(ac, dc, run) { Some(run->Some_0.write->Ok_0->Ok_0.1) } else { None }
}

fn side_agrees<T: KnobSide>(side: Option<T>, read: &T) -> (r: bool)
    ensures
        r == (side matches Some(v) ==> v == *read),
{
    match side {
        Some(v) => v.same(read),
        None => true,
    }
}

pub(crate) fn sides_wanted<T: KnobSide>(ac: &Option<T>, dc: &Option<T>) -> (r: bool)
    ensures
        r == wanted(*ac, *dc),
{
    ac.is_some() || dc.is_some()
}

/// The effect of one setting: whether it was applied, whether it failed, and
/// what a verified readback showed.
struct KnobEffect<T> {
    applied: bool,
    failed: bool,
    shown: (Option<T>, Option<T>),
}

fn exec_ppm_knob<T: KnobSide>(
    knob: Knob,
    ac: Option<T>,
    dc: Option<T>,
    run: &Option<KnobRun<T>>,
    steps: &mut Vec<StepOutcome>,
) -> (r: KnobEffect<T>)
    ensures
        r.applied == knob_applied(ac, dc, *run),
        r.failed == knob_failed(ac, dc, *run),
        r.shown == (shown_ac(ac, dc, *run), shown_dc(ac, dc, *run)),
        final(steps)@ == old(steps)@ + knob_steps(knob, ac, dc, *run),
{
    let ghost added = knob_steps(knob, ac, dc, *run);
    let ghost start = steps@;
    let asked = if sides_wanted(&ac, &dc) { run.as_ref() } else { None };
    let effect = match asked {
        Some(run) => {
            let before = match &run.before {
                Ok(read) => Note::KnobRead { ac: read.0.to_value(), dc: read.1.to_value() },
                Err(e) => Note::KnobUnreadable(e.clone()),
            };
            match &run.write {
                Ok(readback) => {
                    let expected = Evidence::KnobRequest { ac: to_plain(ac), dc: to_plain(dc) };
                    let (verification, shown) = match readback {
                        Ok(read) => if side_agrees(ac, &read.0) && side_agrees(dc, &read.1) {
                            (Verification::Verified, (Some(read.0), Some(read.1)))
                        } else {
                            (
                                Verification::Failed {
                                    expected,
                                    actual: Evidence::KnobReading {
                                        read_ac: read.0.to_value(),
                                        read_dc: read.1.to_value(),
                                    },
                                },
                                (None, None),
                            )
                        },
                        Err(e) => (
                            Verification::Failed { expected, actual: Evidence::KnobUnreadable(e.clone()) },
                            (None, None),
                        ),
                    };
                    let verified = matches!(verification, Verification::Verified);
                    steps.push(
                        StepOutcome {
                            step: Step::WriteKnob(knob),
                            firmware_return: FirmwareReturn::ApiOk,
                            before: Some(before),
                            after: Some(Note::Verdict(verification.clone())),
                            verification,
                        },
                    );
                    KnobEffect { applied: true, failed: !verified, shown }
                },
                Err(e) => {
                    steps.push(platform_failed_step(Step::WriteKnob(knob), e, before));
                    KnobEffect { applied: false, failed: true, shown: (None, None) }
                },
            }
        },
        None => KnobEffect { applied: false, failed: false, shown: (None, None) },
    };
    assert(steps@ =~= start + added);
    effect
}

/// The evidence of a processor policy, in the fixed order of its settings.
pub open spec fn cpu_steps(p: CpuPolicy, r: CpuResults) -> Seq<StepOutcome> {
    knob_steps(Knob::Epp, p.epp_ac, p.epp_dc, r.epp) + knob_steps(Knob::Epp1, p.epp1_ac, p.epp1_dc, r.epp1)
        + knob_steps(Knob::MaxFrequency, p.max_freq_mhz_ac, p.max_freq_mhz_dc, r.max_freq) + knob_steps(
        Knob::MinPerformance,
        p.min_performance_ac,
        p.min_performance_dc,
        r.min_performance,
    ) + knob_steps(Knob::MaxPerformance, p.max_performance_ac, p.max_performance_dc, r.max_performance) + knob_steps(
        Knob::Boost,
        p.spec_boost_ac(),
        p.spec_boost_dc(),
        r.boost,
    )
}

/// Some setting was written.
pub open spec fn cpu_applied(p: CpuPolicy, r: CpuResults) -> bool {
    ||| knob_applied(p.epp_ac, p.epp_dc, r.epp)
    ||| knob_applied(p.epp1_ac, p.epp1_dc, r.epp1)
    ||| knob_applied(p.max_freq_mhz_ac, p.max_freq_mhz_dc, r.max_freq)
    ||| knob_applied(p.min_performance_ac, p.min_performance_dc, r.min_performance)
    ||| knob_applied(p.max_performance_ac, p.max_performance_dc, r.max_performance)
    ||| knob_applied(p.spec_boost_ac(), p.spec_boost_dc(), r.boost)
}

/// Some setting failed.
pub open spec fn cpu_failed(p: CpuPolicy, r: CpuResults) -> bool {
    ||| knob_failed(p.epp_ac, p.epp_dc, r.epp)
    ||| knob_failed(p.epp1_ac, p.epp1_dc, r.epp1)
    ||| knob_failed(p.max_freq_mhz_ac, p.max_freq_mhz_dc, r.max_freq)
    ||| knob_failed(p.min_performance_ac, p.min_performance_dc, r.min_performance)
    ||| knob_failed(p.max_performance_ac, p.max_performance_dc, r.max_performance)
    ||| knob_failed(p.spec_boost_ac(), p.spec_boost_dc(), r.boost)
}

/// What verified readbacks showed on mains; of the boost policy, only a side
/// that was requested.
pub open spec fn cpu_shown_ac(p: CpuPolicy, r: CpuResults) -> PpmRail {
    PpmRail {
        epp: shown_ac(p.epp_ac, p.epp_dc, r.epp),
        epp1: shown_ac(p.epp1_ac, p.epp1_dc, r.epp1),
        max_freq_mhz: shown_ac(p.max_freq_mhz_ac, p.max_freq_mhz_dc, r.max_freq),
        min_performance: shown_ac(p.min_performance_ac, p.min_performance_dc, r.min_performance),
        max_performance: shown_ac(p.max_performance_ac, p.max_performance_dc, r.max_performance),
        boost_policy: if knob_verified(p.spec_boost_ac(), p.spec_boost_dc(), r.boost) {
            p.spec_boost_ac()
        } else {
            None
        },
    }
}

/// What verified readbacks showed on battery; of the boost policy, only a
/// side that was requested.
pub open spec fn cpu_shown_dc(p: CpuPolicy, r: CpuResults) -> PpmRail {
    PpmRail {
        epp: shown_dc(p.epp_ac, p.epp_dc, r.epp),
        epp1: shown_dc(p.epp1_ac, p.epp1_dc, r.epp1),
        max_freq_mhz: shown_dc(p.max_freq_mhz_ac, p.max_freq_mhz_dc, r.max_freq),
        min_performance: shown_dc(p.min_performance_ac, p.min_performance_dc, r.min_performance),
        max_performance: shown_dc(p.max_performance_ac, p.max_performance_dc, r.max_performance),
        boost_policy: if knob_verified(p.spec_boost_ac(), p.spec_boost_dc(), r.boost) {
            p.spec_boost_dc()
        } else {
            None
        },
    }
}

/// The machine as known after a processor policy: what verified readbacks
/// showed, then what the Windows state holds.
pub open spec fn cpu_observed(o: ObservedState, p: CpuPolicy, r: CpuResults, now: u64) -> ObservedState {
    let read = with_rails(o, cpu_shown_ac(p, r), cpu_shown_dc(p, r), now);
    match r.windows_ppm {
        Some(state) => with_rails(read, state.ac, state.dc, now),
        None => read,
    }
}

/// How a processor policy ended: an empty one needs no verification, and one
/// of which nothing was written is rejected.
pub open spec fn cpu_status(p: CpuPolicy, r: CpuResults) -> ControlStatus {
    if !cpu_failed(p, r) {
        ControlStatus::Applied {
            verification: if cpu_applied(p, r) { Verification::Verified } else { Verification::Skipped },
        }
    } else if cpu_applied(p, r) {
        ControlStatus::Partial
    } else {
        ControlStatus::Rejected {
            error: ControlError::VerificationFailed {
                expected: Evidence::CpuPolicyWrite,
                actual: Evidence::AllStepsFailed,
            },
        }
    }
}

/// The writer's state after a processor policy.
pub open spec fn after_cpu(c: ControlCoordinator, p: CpuPolicy, r: CpuResults, now: u64) -> ControlCoordinator {
    ControlCoordinator {
        observed: cpu_observed(c.observed, p, r, now),
        windows_ppm: if r.windows_ppm is Some { r.windows_ppm } else { c.windows_ppm },
        ..c
    }
}

proof fn six_parts<A>(start: Seq<A>, a: Seq<A>, b: Seq<A>, c: Seq<A>, d: Seq<A>, e: Seq<A>, f: Seq<A>)
    ensures
        start + a + b + c + d + e + f == start + (a + b + c + d + e + f),
{
    assert(start + a + b + c + d + e + f =~= start + (a + b + c + d + e + f));
}

/// Takes in what the settings of a processor policy answered.
pub fn exec_cpu_policy(
    c: &mut ControlCoordinator,
    p: &CpuPolicy,
    results: CpuResults,
    steps: &mut Vec<StepOutcome>,
    now: u64,
) -> (r: ControlStatus)
    requires
        results.covers(*p),
    ensures
        r == cpu_status(*p, results),
        *final(c) == after_cpu(*old(c), *p, results, now),
        final(steps)@ == old(steps)@ + cpu_steps(*p, results),
{
    let ghost start = steps@;
    let epp = exec_ppm_knob(Knob::Epp, p.epp_ac, p.epp_dc, &results.epp, steps);
    let epp1 = exec_ppm_knob(Knob::Epp1, p.epp1_ac, p.epp1_dc, &results.epp1, steps);
    let freq = exec_ppm_knob(
        Knob::MaxFrequency,
        p.max_freq_mhz_ac,
        p.max_freq_mhz_dc,
        &results.max_freq,
        steps,
    );
    let min = exec_ppm_knob(
        Knob::MinPerformance,
        p.min_performance_ac,
        p.min_performance_dc,
        &results.min_performance,
        steps,
    );
    let max = exec_ppm_knob(
        Knob::MaxPerformance,
        p.max_performance_ac,
        p.max_performance_dc,
        &results.max_performance,
        steps,
    );
    let boost_ac = p.boost_ac();
    let boost_dc = p.boost_dc();
    let boost = exec_ppm_knob(Knob::Boost, boost_ac, boost_dc, &results.boost, steps);
    proof {
        six_parts(
            start,
            knob_steps(Knob::Epp, p.epp_ac, p.epp_dc, results.epp),
            knob_steps(Knob::Epp1, p.epp1_ac, p.epp1_dc, results.epp1),
            knob_steps(Knob::MaxFrequency, p.max_freq_mhz_ac, p.max_freq_mhz_dc, results.max_freq),
            knob_steps(
                Knob::MinPerformance,
                p.min_performance_ac,
                p.min_performance_dc,
                results.min_performance,
            ),
            knob_steps(
                Knob::MaxPerformance,
                p.max_performance_ac,
                p.max_performance_dc,
                results.max_performance,
            ),
            knob_steps(Knob::Boost, boost_ac, boost_dc, results.boost),
        );
    }
    let boost_verified = boost.applied && !boost.failed;
    let ac = PpmRail {
        epp: epp.shown.0,
        epp1: epp1.shown.0,
        max_freq_mhz: freq.shown.0,
        min_performance: min.shown.0,
        max_performance: max.shown.0,
        boost_policy: if boost_verified { boost_ac } else { None },
    };
    let dc = PpmRail {
        epp: epp.shown.1,
        epp1: epp1.shown.1,
        max_freq_mhz: freq.shown.1,
        min_performance: min.shown.1,
        max_performance: max.shown.1,
        boost_policy: if boost_verified { boost_dc } else { None },
    };
    stamp_rails(&mut c.observed, &ac, &dc, now);
    if let Some(state) = results.windows_ppm {
        stamp_windows_ppm(&mut c.observed, &state, now);
        c.windows_ppm = Some(state);
    }
    let applied = epp.applied || epp1.applied || freq.applied || min.applied || max.applied || boost.applied;
    let failed = epp.failed || epp1.failed || freq.failed || min.failed || max.failed || boost.failed;
    match (applied, failed) {
        (false, false) => ControlStatus::Applied { verification: Verification::Skipped },
        (true, false) => ControlStatus::Applied { verification: Verification::Verified },
        (true, true) => ControlStatus::Partial,
        (false, true) => ControlStatus::Rejected {
            error: ControlError::VerificationFailed {
                expected: Evidence::CpuPolicyWrite,
                actual: Evidence::AllStepsFailed,
            },
        },
    }
}

/// An empty processor policy is a no-op, whatever came back.
pub proof fn empty_policy_is_noop(r: CpuResults)
    ensures
        cpu_status(CpuPolicy::spec_empty(), r) == (ControlStatus::Applied { verification: Verification::Skipped }),
        cpu_steps(CpuPolicy::spec_empty(), r).len() == 0,
{
}

} // verus!
