//! Processor settings: what is written, and what the answers amount to.
use vstd::prelude::*;

use crate::control::coordinator::ControlCoordinator;
use crate::control::exchange::{CpuResults, KnobRun};
use crate::control::exec::cpu::{after_cpu, cpu_observed, cpu_status, cpu_steps, knob_step, knob_steps, KnobSide};
use crate::control::exec::knobs::{knob_write, policy_writes, with_result, KnobResult, KnobWrite};
use crate::domain::command::{ControlStatus, FirmwareReturn, Note, Step, StepOutcome, Verification};
use crate::domain::evidence::{Knob, KnobValue};
use crate::domain::policy::{BoostPolicy, CpuPolicy, PpmRail};
use crate::domain::state::{ObservedState, ObservedValue};

verus! {

/// A number as a value of a setting.
pub open spec fn number(v: Option<u32>) -> Option<KnobValue> {
    match v {
        Some(n) => Some(KnobValue::Number(n)),
        None => None,
    }
}

/// A byte as a value of a setting.
pub open spec fn byte(v: Option<u8>) -> Option<KnobValue> {
    match v {
        Some(n) => Some(KnobValue::Number(n as u32)),
        None => None,
    }
}

/// A boost policy as a value of a setting: a side's own, else the shared one.
pub open spec fn boost(side: Option<BoostPolicy>, shared: Option<BoostPolicy>) -> Option<KnobValue> {
    match side {
        Some(b) => Some(KnobValue::Boost(b)),
        None => match shared {
            Some(b) => Some(KnobValue::Boost(b)),
            None => None,
        },
    }
}

/// What the policy asks of a setting on mains and on battery.
pub open spec fn asked_of(p: CpuPolicy, knob: Knob) -> (Option<KnobValue>, Option<KnobValue>) {
    match knob {
        Knob::Epp => (byte(p.epp_ac), byte(p.epp_dc)),
        Knob::Epp1 => (byte(p.epp1_ac), byte(p.epp1_dc)),
        Knob::MaxFrequency => (number(p.max_freq_mhz_ac), number(p.max_freq_mhz_dc)),
        Knob::MinPerformance => (byte(p.min_performance_ac), byte(p.min_performance_dc)),
        Knob::MaxPerformance => (byte(p.max_performance_ac), byte(p.max_performance_dc)),
        Knob::Boost => (boost(p.boost_policy_ac, p.boost_policy), boost(p.boost_policy_dc, p.boost_policy)),
    }
}

/// How late a setting is written.
pub open spec fn turn_of(knob: Knob) -> int {
    match knob {
        Knob::Epp => 0,
        Knob::Epp1 => 1,
        Knob::MaxFrequency => 2,
        Knob::MinPerformance => 3,
        Knob::MaxPerformance => 4,
        Knob::Boost => 5,
    }
}

/// The write is one that the policy asks for.
pub open spec fn asked_write(p: CpuPolicy, w: KnobWrite) -> bool {
    &&& w.ac == asked_of(p, w.knob).0
    &&& w.dc == asked_of(p, w.knob).1
    &&& w.ac is Some || w.dc is Some
}

/// A policy writes each setting that it names, with the values that it names
/// and once, in a fixed order.
pub proof fn policies_write_what_they_name(p: CpuPolicy)
    ensures
        forall|w: KnobWrite| policy_writes(p).contains(w) <==> #[trigger] asked_write(p, w),
        forall|i: int, j: int|
            0 <= i < j < policy_writes(p).len() ==> turn_of((#[trigger] policy_writes(p)[i]).knob) < turn_of(
                (#[trigger] policy_writes(p)[j]).knob,
            ),
{
    let w = policy_writes(p);
    let a = knob_write(Knob::Epp, p.epp_ac, p.epp_dc);
    let b = knob_write(Knob::Epp1, p.epp1_ac, p.epp1_dc);
    let c = knob_write(Knob::MaxFrequency, p.max_freq_mhz_ac, p.max_freq_mhz_dc);
    let d = knob_write(Knob::MinPerformance, p.min_performance_ac, p.min_performance_dc);
    let e = knob_write(Knob::MaxPerformance, p.max_performance_ac, p.max_performance_dc);
    let f = knob_write(Knob::Boost, p.spec_boost_ac(), p.spec_boost_dc());
    let (n1, n2, n3, n4) = (
        a.len(),
        a.len() + b.len(),
        a.len() + b.len() + c.len(),
        a.len() + b.len() + c.len() + d.len(),
    );
    let n5 = n4 + e.len();
    assert(w == a + b + c + d + e + f);
    assert forall|x: KnobWrite| asked_write(p, x) implies w.contains(x) by {
        match x.knob {
            Knob::Epp => {
                assert(a[0] == x);
                assert(w[0] == a[0]);
            },
            Knob::Epp1 => {
                assert(b[0] == x);
                assert(w[n1 as int] == b[0]);
            },
            Knob::MaxFrequency => {
                assert(c[0] == x);
                assert(w[n2 as int] == c[0]);
            },
            Knob::MinPerformance => {
                assert(d[0] == x);
                assert(w[n3 as int] == d[0]);
            },
            Knob::MaxPerformance => {
                assert(e[0] == x);
                assert(w[n4 as int] == e[0]);
            },
            Knob::Boost => {
                assert(f[0] == x);
                assert(w[n5 as int] == f[0]);
            },
        }
    }
    assert forall|x: KnobWrite| w.contains(x) implies asked_write(p, x) by {
        let i = choose|i: int| 0 <= i < w.len() && w[i] == x;
        assert(w[i] == x);
    }
}

/// One setting was asked for and written.
pub open spec fn written<T>(ac: Option<T>, dc: Option<T>, run: Option<KnobRun<T>>) -> bool {
    (ac is Some || dc is Some) && run is Some && run->Some_0.write is Ok
}

/// One setting was asked for, written, and the readback has what was asked.
pub open spec fn kept<T>(ac: Option<T>, dc: Option<T>, run: Option<KnobRun<T>>) -> bool {
    let read = run->Some_0.write->Ok_0;
    &&& written(ac, dc, run)
    &&& read is Ok
    &&& ac is Some ==> ac == Some(read->Ok_0.0)
    &&& dc is Some ==> dc == Some(read->Ok_0.1)
}

/// One setting was asked for and did not come out as asked.
pub open spec fn lost<T>(ac: Option<T>, dc: Option<T>, run: Option<KnobRun<T>>) -> bool {
    (ac is Some || dc is Some) && run is Some && !kept(ac, dc, run)
}

/// A side's own boost policy, else the shared one.
pub open spec fn boost_side(side: Option<BoostPolicy>, shared: Option<BoostPolicy>) -> Option<BoostPolicy> {
    if side is Some { side } else { shared }
}

/// A policy ends as verified if every setting came out as asked, as partial if
/// only some were written well, and as rejected if none was written at all. An
/// empty one needs no verification.
pub proof fn policies_end_honestly(p: CpuPolicy, r: CpuResults)
    ensures
        ({
            let (bac, bdc) = (
                boost_side(p.boost_policy_ac, p.boost_policy),
                boost_side(p.boost_policy_dc, p.boost_policy),
            );
            let any = written(p.epp_ac, p.epp_dc, r.epp) || written(p.epp1_ac, p.epp1_dc, r.epp1) || written(
                p.max_freq_mhz_ac,
                p.max_freq_mhz_dc,
                r.max_freq,
            ) || written(p.min_performance_ac, p.min_performance_dc, r.min_performance) || written(
                p.max_performance_ac,
                p.max_performance_dc,
                r.max_performance,
            ) || written(bac, bdc, r.boost);
            let bad = lost(p.epp_ac, p.epp_dc, r.epp) || lost(p.epp1_ac, p.epp1_dc, r.epp1) || lost(
                p.max_freq_mhz_ac,
                p.max_freq_mhz_dc,
                r.max_freq,
            ) || lost(p.min_performance_ac, p.min_performance_dc, r.min_performance) || lost(
                p.max_performance_ac,
                p.max_performance_dc,
                r.max_performance,
            ) || lost(bac, bdc, r.boost);
            let status = cpu_status(p, r);
            &&& any && !bad ==> status == (ControlStatus::Applied { verification: Verification::Verified })
            &&& any && bad ==> status is Partial
            &&& !any && bad ==> status is Rejected && status->error is VerificationFailed
            &&& !any && !bad ==> status == (ControlStatus::Applied { verification: Verification::Skipped })
        }),
{
}

/// A readback that has what was asked for is known from then on; without one,
/// what was known stays, unless the Windows state says something newer.
pub open spec fn learned<T>(
    ac: Option<T>,
    dc: Option<T>,
    run: Option<KnobRun<T>>,
    windows: Option<T>,
    read: T,
    before: ObservedValue<T>,
    after: ObservedValue<T>,
) -> bool {
    if windows is Some {
        after.known() == windows && after is Verified
    } else if kept(ac, dc, run) {
        after.known() == Some(read) && after is Verified
    } else {
        after == before
    }
}

/// What a policy teaches of the energy preferences and the frequency.
pub proof fn readbacks_teach(o: ObservedState, p: CpuPolicy, r: CpuResults, now: u64)
    ensures
        ({
            let n = cpu_observed(o, p, r, now);
            let none = PpmRail {
                epp: None,
                epp1: None,
                max_freq_mhz: None,
                boost_policy: None,
                min_performance: None,
                max_performance: None,
            };
            let (ac, dc) = match r.windows_ppm {
                Some(s) => (s.ac, s.dc),
                None => (none, none),
            };
            let pair = r.epp->Some_0.write->Ok_0->Ok_0;
            let pair1 = r.epp1->Some_0.write->Ok_0->Ok_0;
            let freq = r.max_freq->Some_0.write->Ok_0->Ok_0;
            let low = r.min_performance->Some_0.write->Ok_0->Ok_0;
            let high = r.max_performance->Some_0.write->Ok_0->Ok_0;
            &&& learned(p.epp_ac, p.epp_dc, r.epp, ac.epp, pair.0, o.epp_ac, n.epp_ac)
            &&& learned(p.epp_ac, p.epp_dc, r.epp, dc.epp, pair.1, o.epp_dc, n.epp_dc)
            &&& learned(p.epp1_ac, p.epp1_dc, r.epp1, ac.epp1, pair1.0, o.epp1_ac, n.epp1_ac)
            &&& learned(p.epp1_ac, p.epp1_dc, r.epp1, dc.epp1, pair1.1, o.epp1_dc, n.epp1_dc)
            &&& learned(
                p.max_freq_mhz_ac,
                p.max_freq_mhz_dc,
                r.max_freq,
                ac.max_freq_mhz,
                freq.0,
                o.max_freq_ac,
                n.max_freq_ac,
            )
            &&& learned(
                p.max_freq_mhz_ac,
                p.max_freq_mhz_dc,
                r.max_freq,
                dc.max_freq_mhz,
                freq.1,
                o.max_freq_dc,
                n.max_freq_dc,
            )
            &&& learned(
                p.min_performance_ac,
                p.min_performance_dc,
                r.min_performance,
                ac.min_performance,
                low.0,
                o.min_performance_ac,
                n.min_performance_ac,
            )
            &&& learned(
                p.min_performance_ac,
                p.min_performance_dc,
                r.min_performance,
                dc.min_performance,
                low.1,
                o.min_performance_dc,
                n.min_performance_dc,
            )
            &&& learned(
                p.max_performance_ac,
                p.max_performance_dc,
                r.max_performance,
                ac.max_performance,
                high.0,
                o.max_performance_ac,
                n.max_performance_ac,
            )
            &&& learned(
                p.max_performance_ac,
                p.max_performance_dc,
                r.max_performance,
                dc.max_performance,
                high.1,
                o.max_performance_dc,
                n.max_performance_dc,
            )
            &&& n.fan_mode == o.fan_mode && n.max_fan == o.max_fan && n.thermal_mode == o.thermal_mode
                && n.gpu_platform_policy == o.gpu_platform_policy && n.power_limits == o.power_limits
                && n.active_profile == o.active_profile
        }),
{
}

/// Of the boost policy only a side that was asked for is learned.
pub proof fn boost_readbacks_teach(o: ObservedState, p: CpuPolicy, r: CpuResults, now: u64)
    requires
        r.windows_ppm is None,
    ensures
        ({
            let n = cpu_observed(o, p, r, now);
            let (bac, bdc) = (
                boost_side(p.boost_policy_ac, p.boost_policy),
                boost_side(p.boost_policy_dc, p.boost_policy),
            );
            let good = kept(bac, bdc, r.boost);
            &&& good && bac is Some ==> n.boost_ac.known() == bac && n.boost_ac is Verified
            &&& good && bdc is Some ==> n.boost_dc.known() == bdc && n.boost_dc is Verified
            &&& !good || bac is None ==> n.boost_ac == o.boost_ac
            &&& !good || bdc is None ==> n.boost_dc == o.boost_dc
        }),
{
}

/// The evidence of one setting: what it was before, whether the call was
/// accepted, and whether the readback has what was asked.
pub proof fn evidence_of_a_setting<T: KnobSide>(knob: Knob, ac: Option<T>, dc: Option<T>, run: KnobRun<T>)
    requires
        ac is Some || dc is Some,
    ensures
        ({
            let s = knob_step(knob, ac, dc, run);
            &&& s.step == Step::WriteKnob(knob)
            &&& run.write is Ok ==> s.firmware_return == FirmwareReturn::ApiOk && (s.verification is Verified <==> kept(
                ac,
                dc,
                Some(run),
            )) && (!(s.verification is Verified) ==> s.verification is Failed)
            &&& run.write matches Err(e) ==> s.firmware_return == FirmwareReturn::Platform(e) && s.verification is Failed
            &&& run.before matches Ok(b) ==> s.before == Some(Note::KnobRead { ac: b.0.value(), dc: b.1.value() })
            &&& run.before matches Err(e) ==> s.before == Some(Note::KnobUnreadable(e))
        }),
{
}

/// One setting was asked for and has answered.
pub open spec fn tried<T>(ac: Option<T>, dc: Option<T>, run: Option<KnobRun<T>>) -> bool {
    (ac is Some || dc is Some) && run is Some
}

proof fn in_parts(a: Seq<StepOutcome>, b: Seq<StepOutcome>, s: StepOutcome)
    ensures
        (a + b).contains(s) <==> a.contains(s) || b.contains(s),
{
    if a.contains(s) {
        let i = choose|i: int| 0 <= i < a.len() && a[i] == s;
        assert((a + b)[i] == s);
    }
    if b.contains(s) {
        let i = choose|i: int| 0 <= i < b.len() && b[i] == s;
        assert((a + b)[a.len() + i] == s);
    }
}

proof fn single_step(a: Seq<StepOutcome>, s: StepOutcome)
    ensures
        a.len() == 0 ==> !a.contains(s),
        a.len() == 1 ==> (a.contains(s) <==> s == a[0]),
{
    if a.len() == 1 && s == a[0] {
        assert(a[0] == s);
    }
}

/// Of each setting that was asked for and has answered there is one step, and
/// of no other.
pub proof fn settings_leave_their_evidence(p: CpuPolicy, r: CpuResults, s: StepOutcome)
    ensures
        ({
            let (bac, bdc) = (
                boost_side(p.boost_policy_ac, p.boost_policy),
                boost_side(p.boost_policy_dc, p.boost_policy),
            );
            &&& cpu_steps(p, r).contains(s) <==> {
                ||| tried(p.epp_ac, p.epp_dc, r.epp) && s == knob_step(Knob::Epp, p.epp_ac, p.epp_dc, r.epp->Some_0)
                ||| tried(p.epp1_ac, p.epp1_dc, r.epp1) && s == knob_step(
                    Knob::Epp1,
                    p.epp1_ac,
                    p.epp1_dc,
                    r.epp1->Some_0,
                )
                ||| tried(p.max_freq_mhz_ac, p.max_freq_mhz_dc, r.max_freq) && s == knob_step(
                    Knob::MaxFrequency,
                    p.max_freq_mhz_ac,
                    p.max_freq_mhz_dc,
                    r.max_freq->Some_0,
                )
                ||| tried(p.min_performance_ac, p.min_performance_dc, r.min_performance) && s == knob_step(
                    Knob::MinPerformance,
                    p.min_performance_ac,
                    p.min_performance_dc,
                    r.min_performance->Some_0,
                )
                ||| tried(p.max_performance_ac, p.max_performance_dc, r.max_performance) && s == knob_step(
                    Knob::MaxPerformance,
                    p.max_performance_ac,
                    p.max_performance_dc,
                    r.max_performance->Some_0,
                )
                ||| tried(bac, bdc, r.boost) && s == knob_step(Knob::Boost, bac, bdc, r.boost->Some_0)
            }
        }),
{
    let (bac, bdc) = (boost_side(p.boost_policy_ac, p.boost_policy), boost_side(p.boost_policy_dc, p.boost_policy));
    let a = knob_steps(Knob::Epp, p.epp_ac, p.epp_dc, r.epp);
    let b = knob_steps(Knob::Epp1, p.epp1_ac, p.epp1_dc, r.epp1);
    let c = knob_steps(Knob::MaxFrequency, p.max_freq_mhz_ac, p.max_freq_mhz_dc, r.max_freq);
    let d = knob_steps(Knob::MinPerformance, p.min_performance_ac, p.min_performance_dc, r.min_performance);
    let e = knob_steps(Knob::MaxPerformance, p.max_performance_ac, p.max_performance_dc, r.max_performance);
    let f = knob_steps(Knob::Boost, bac, bdc, r.boost);
    assert(cpu_steps(p, r) == a + b + c + d + e + f);
    in_parts(a, b, s);
    in_parts(a + b, c, s);
    in_parts(a + b + c, d, s);
    in_parts(a + b + c + d, e, s);
    in_parts(a + b + c + d + e, f, s);
    single_step(a, s);
    single_step(b, s);
    single_step(c, s);
    single_step(d, s);
    single_step(e, s);
    single_step(f, s);
}

/// A policy changes what is known of the processor, and nothing else of the
/// writer's state.
pub proof fn policies_touch_the_processor_only(c: ControlCoordinator, p: CpuPolicy, r: CpuResults, now: u64)
    ensures
        ({
            let n = after_cpu(c, p, r, now);
            &&& n.observed == cpu_observed(c.observed, p, r, now)
            &&& r.windows_ppm is Some ==> n.windows_ppm == r.windows_ppm
            &&& r.windows_ppm is None ==> n.windows_ppm == c.windows_ppm
            &&& n == (ControlCoordinator { observed: n.observed, windows_ppm: n.windows_ppm, ..c })
        }),
{
}

/// An answer is kept as that of its own setting, and those of the others stay.
pub proof fn answers_are_kept_apart(
    r: CpuResults,
    byte_run: KnobRun<u8>,
    word_run: KnobRun<u32>,
    boost_run: KnobRun<BoostPolicy>,
)
    ensures
        ({
            let epp = with_result(r, Knob::Epp, KnobResult::Byte(byte_run));
            let epp1 = with_result(r, Knob::Epp1, KnobResult::Byte(byte_run));
            let freq = with_result(r, Knob::MaxFrequency, KnobResult::Word(word_run));
            let low = with_result(r, Knob::MinPerformance, KnobResult::Byte(byte_run));
            let high = with_result(r, Knob::MaxPerformance, KnobResult::Byte(byte_run));
            let boost = with_result(r, Knob::Boost, KnobResult::Boost(boost_run));
            &&& epp.epp == Some(byte_run) && (CpuResults { epp: r.epp, ..epp }) == r
            &&& epp1.epp1 == Some(byte_run) && (CpuResults { epp1: r.epp1, ..epp1 }) == r
            &&& freq.max_freq == Some(word_run) && (CpuResults { max_freq: r.max_freq, ..freq }) == r
            &&& low.min_performance == Some(byte_run) && (CpuResults { min_performance: r.min_performance, ..low }) == r
            &&& high.max_performance == Some(byte_run) && (CpuResults { max_performance: r.max_performance, ..high }) == r
            &&& boost.boost == Some(boost_run) && (CpuResults { boost: r.boost, ..boost }) == r
        }),
{
}

} // verus!
