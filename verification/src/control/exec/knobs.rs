//! The order in which the settings of a processor policy are performed: one
//! at a time, each of them whatever became of those before it.
use vstd::prelude::*;

use crate::control::exchange::{CpuResults, KnobRun};
use crate::control::exec::cpu::{cpu_steps, plain, sides_wanted, to_plain, wanted, KnobSide};
use crate::domain::command::Step;
use crate::domain::evidence::{Knob, KnobValue};
use crate::domain::policy::{BoostPolicy, CpuPolicy, WindowsPpmState};

verus! {

/// One setting to read, write on the sides that are given, and read back
/// where the write succeeded.
#[derive(Clone, Copy, Debug, PartialEq, Eq, Structural)]
pub struct KnobWrite {
    pub knob: Knob,
    pub ac: Option<KnobValue>,
    pub dc: Option<KnobValue>,
}

/// What one setting answered.
#[derive(Debug, PartialEq)]
pub enum KnobResult {
    Byte(KnobRun<u8>),
    Word(KnobRun<u32>),
    Boost(KnobRun<BoostPolicy>),
}

/// The write of a setting, if the policy names it on some side.
pub open spec fn knob_write<T: KnobSide>(knob: Knob, ac: Option<T>, dc: Option<T>) -> Seq<KnobWrite> {
    if wanted(ac, dc) { seq![KnobWrite { knob, ac: plain(ac), dc: plain(dc) }] } else { Seq::empty() }
}

/// The writes of a policy, in the order of the settings.
pub open spec fn policy_writes(p: CpuPolicy) -> Seq<KnobWrite> {
    knob_write(Knob::Epp, p.epp_ac, p.epp_dc) + knob_write(Knob::Epp1, p.epp1_ac, p.epp1_dc) + knob_write(
        Knob::MaxFrequency,
        p.max_freq_mhz_ac,
        p.max_freq_mhz_dc,
    ) + knob_write(Knob::MinPerformance, p.min_performance_ac, p.min_performance_dc) + knob_write(
        Knob::MaxPerformance,
        p.max_performance_ac,
        p.max_performance_dc,
    ) + knob_write(Knob::Boost, p.spec_boost_ac(), p.spec_boost_dc())
}

fn push_write<T: KnobSide>(out: &mut Vec<KnobWrite>, knob: Knob, ac: Option<T>, dc: Option<T>)
    ensures
        final(out)@ == old(out)@ + knob_write(knob, ac, dc),
{
    if sides_wanted(&ac, &dc) {
        out.push(KnobWrite { knob, ac: to_plain(ac), dc: to_plain(dc) });
    }
    assert(out@ =~= old(out)@ + knob_write(knob, ac, dc));
}

/// The writes that a policy asks for, in order.
pub fn cpu_writes(p: &CpuPolicy) -> (r: Vec<KnobWrite>)
    ensures
        r@ == knob_write(Knob::Epp, p.epp_ac, p.epp_dc) + knob_write(Knob::Epp1, p.epp1_ac, p.epp1_dc) + knob_write(
            Knob::MaxFrequency,
            p.max_freq_mhz_ac,
            p.max_freq_mhz_dc,
        ) + knob_write(Knob::MinPerformance, p.min_performance_ac, p.min_performance_dc) + knob_write(
            Knob::MaxPerformance,
            p.max_performance_ac,
            p.max_performance_dc,
        ) + knob_write(Knob::Boost, p.spec_boost_ac(), p.spec_boost_dc()),
        r@ == policy_writes(*p),
{
    let mut out: Vec<KnobWrite> = Vec::new();
    push_write(&mut out, Knob::Epp, p.epp_ac, p.epp_dc);
    assert(out@ =~= knob_write(Knob::Epp, p.epp_ac, p.epp_dc));
    push_write(&mut out, Knob::Epp1, p.epp1_ac, p.epp1_dc);
    push_write(&mut out, Knob::MaxFrequency, p.max_freq_mhz_ac, p.max_freq_mhz_dc);
    push_write(&mut out, Knob::MinPerformance, p.min_performance_ac, p.min_performance_dc);
    push_write(&mut out, Knob::MaxPerformance, p.max_performance_ac, p.max_performance_dc);
    push_write(&mut out, Knob::Boost, p.boost_ac(), p.boost_dc());
    out
}

/// A policy being performed: what is still to be asked for, and what came
/// back so far.
#[derive(Debug, PartialEq)]
pub struct CpuRun {
    pub policy: CpuPolicy,
    pub left: Vec<KnobWrite>,
    pub results: CpuResults,
}

/// No setting has answered.
pub open spec fn no_results() -> CpuResults {
    CpuResults {
        epp: None,
        epp1: None,
        max_freq: None,
        min_performance: None,
        max_performance: None,
        boost: None,
        windows_ppm: None,
    }
}

/// The result is of the setting's type.
pub open spec fn fits(knob: Knob, result: KnobResult) -> bool {
    match knob {
        Knob::MaxFrequency => result is Word,
        Knob::Boost => result is Boost,
        _ => result is Byte,
    }
}

/// The answers with that of one more setting.
pub open spec fn with_result(r: CpuResults, knob: Knob, result: KnobResult) -> CpuResults {
    match (knob, result) {
        (Knob::Epp, KnobResult::Byte(run)) => CpuResults { epp: Some(run), ..r },
        (Knob::Epp1, KnobResult::Byte(run)) => CpuResults { epp1: Some(run), ..r },
        (Knob::MaxFrequency, KnobResult::Word(run)) => CpuResults { max_freq: Some(run), ..r },
        (Knob::MinPerformance, KnobResult::Byte(run)) => CpuResults { min_performance: Some(run), ..r },
        (Knob::MaxPerformance, KnobResult::Byte(run)) => CpuResults { max_performance: Some(run), ..r },
        (Knob::Boost, KnobResult::Boost(run)) => CpuResults { boost: Some(run), ..r },
        _ => r,
    }
}

/// The setting has answered.
pub open spec fn answered(r: CpuResults, knob: Knob) -> bool {
    match knob {
        Knob::Epp => r.epp is Some,
        Knob::Epp1 => r.epp1 is Some,
        Knob::MaxFrequency => r.max_freq is Some,
        Knob::MinPerformance => r.min_performance is Some,
        Knob::MaxPerformance => r.max_performance is Some,
        Knob::Boost => r.boost is Some,
    }
}

/// A list of writes has one of the setting.
pub open spec fn names(writes: Seq<KnobWrite>, knob: Knob) -> bool {
    exists|i: int| 0 <= i < writes.len() && (#[trigger] writes[i]).knob == knob
}

proof fn named_in_sum(a: Seq<KnobWrite>, b: Seq<KnobWrite>, knob: Knob)
    ensures
        names(a, knob) || names(b, knob) ==> names(a + b, knob),
{
    if names(a, knob) {
        let i = choose|i: int| 0 <= i < a.len() && (#[trigger] a[i]).knob == knob;
        assert((a + b)[i].knob == knob);
    }
    if names(b, knob) {
        let i = choose|i: int| 0 <= i < b.len() && (#[trigger] b[i]).knob == knob;
        assert((a + b)[a.len() + i].knob == knob);
    }
}

proof fn knob_write_names<T: KnobSide>(knob: Knob, ac: Option<T>, dc: Option<T>)
    ensures
        wanted(ac, dc) ==> names(knob_write(knob, ac, dc), knob),
{
    if wanted(ac, dc) {
        assert(knob_write(knob, ac, dc)[0].knob == knob);
    }
}

/// Every setting that a policy names stands among its writes.
proof fn writes_name_the_policy(p: CpuPolicy)
    ensures
        wanted(p.epp_ac, p.epp_dc) ==> names(policy_writes(p), Knob::Epp),
        wanted(p.epp1_ac, p.epp1_dc) ==> names(policy_writes(p), Knob::Epp1),
        wanted(p.max_freq_mhz_ac, p.max_freq_mhz_dc) ==> names(policy_writes(p), Knob::MaxFrequency),
        wanted(p.min_performance_ac, p.min_performance_dc) ==> names(policy_writes(p), Knob::MinPerformance),
        wanted(p.max_performance_ac, p.max_performance_dc) ==> names(policy_writes(p), Knob::MaxPerformance),
        wanted(p.spec_boost_ac(), p.spec_boost_dc()) ==> names(policy_writes(p), Knob::Boost),
{
    let a = knob_write(Knob::Epp, p.epp_ac, p.epp_dc);
    let b = knob_write(Knob::Epp1, p.epp1_ac, p.epp1_dc);
    let c = knob_write(Knob::MaxFrequency, p.max_freq_mhz_ac, p.max_freq_mhz_dc);
    let d = knob_write(Knob::MinPerformance, p.min_performance_ac, p.min_performance_dc);
    let e = knob_write(Knob::MaxPerformance, p.max_performance_ac, p.max_performance_dc);
    let f = knob_write(Knob::Boost, p.spec_boost_ac(), p.spec_boost_dc());
    knob_write_names(Knob::Epp, p.epp_ac, p.epp_dc);
    knob_write_names(Knob::Epp1, p.epp1_ac, p.epp1_dc);
    knob_write_names(Knob::MaxFrequency, p.max_freq_mhz_ac, p.max_freq_mhz_dc);
    knob_write_names(Knob::MinPerformance, p.min_performance_ac, p.min_performance_dc);
    knob_write_names(Knob::MaxPerformance, p.max_performance_ac, p.max_performance_dc);
    knob_write_names(Knob::Boost, p.spec_boost_ac(), p.spec_boost_dc());
    assert forall|k: Knob| (names(a, k) || names(b, k) || names(c, k) || names(d, k) || names(e, k) || names(f, k))
        implies names(policy_writes(p), k) by {
        named_in_sum(a, b, k);
        named_in_sum(a + b, c, k);
        named_in_sum(a + b + c, d, k);
        named_in_sum(a + b + c + d, e, k);
        named_in_sum(a + b + c + d + e, f, k);
    }
}

impl CpuRun {
    /// Each setting of the policy has answered or is still to be asked for.
    pub open spec fn wf(self) -> bool {
        forall|i: int|
            0 <= i < policy_writes(self.policy).len() ==> answered(
                self.results,
                (#[trigger] policy_writes(self.policy)[i]).knob,
            ) || names(self.left@, policy_writes(self.policy)[i].knob)
    }

    /// A policy of which nothing has been performed.
    pub fn start(policy: CpuPolicy) -> (r: CpuRun)
        ensures
            r.policy == policy,
            r.left@ == policy_writes(policy),
            r.results == no_results(),
            r.wf(),
    {
        CpuRun {
            policy,
            left: cpu_writes(&policy),
            results: CpuResults {
                epp: None,
                epp1: None,
                max_freq: None,
                min_performance: None,
                max_performance: None,
                boost: None,
                windows_ppm: None,
            },
        }
    }

    /// The setting to perform next.
    pub fn next(&self) -> (r: Option<KnobWrite>)
        ensures
            r == (if self.left@.len() > 0 { Some(self.left@[0]) } else { None }),
    {
        if self.left.len() > 0 { Some(self.left[0]) } else { None }
    }

    /// Takes in what the setting answered. The next one's turn comes whatever
    /// that was.
    pub fn record(&mut self, result: KnobResult)
        requires
            old(self).wf(),
            old(self).left@.len() > 0,
            fits(old(self).left@[0].knob, result),
        ensures
            final(self).wf(),
            final(self).policy == old(self).policy,
            final(self).left@ == old(self).left@.drop_first(),
            final(self).results == with_result(old(self).results, old(self).left@[0].knob, result),
    {
        let ghost before = self.left@;
        let write = self.left.remove(0);
        match (write.knob, result) {
            (Knob::Epp, KnobResult::Byte(run)) => self.results.epp = Some(run),
            (Knob::Epp1, KnobResult::Byte(run)) => self.results.epp1 = Some(run),
            (Knob::MaxFrequency, KnobResult::Word(run)) => self.results.max_freq = Some(run),
            (Knob::MinPerformance, KnobResult::Byte(run)) => self.results.min_performance = Some(run),
            (Knob::MaxPerformance, KnobResult::Byte(run)) => self.results.max_performance = Some(run),
            (Knob::Boost, KnobResult::Boost(run)) => self.results.boost = Some(run),
            _ => {},
        }
        assert(self.left@ =~= before.drop_first());
        assert forall|k: Knob| names(before, k) implies k == write.knob || names(self.left@, k) by {
            let i = choose|i: int| 0 <= i < before.len() && (#[trigger] before[i]).knob == k;
            if i > 0 {
                assert(self.left@[i - 1].knob == k);
            }
        }
        assert forall|i: int| 0 <= i < policy_writes(self.policy).len() implies answered(
            self.results,
            (#[trigger] policy_writes(self.policy)[i]).knob,
        ) || names(self.left@, policy_writes(self.policy)[i].knob) by {
            let k = policy_writes(old(self).policy)[i].knob;
            assert(answered(old(self).results, k) || names(before, k));
        }
    }

    /// What the settings answered, once each has, with the Windows processor
    /// state as read afterwards.
    pub fn finish(self, windows_ppm: Option<WindowsPpmState>) -> (r: CpuResults)
        requires
            self.wf(),
            self.left@.len() == 0,
        ensures
            r == (CpuResults { windows_ppm, ..self.results }),
            r.covers(self.policy),
    {
        proof {
            writes_name_the_policy(self.policy);
            let writes = policy_writes(self.policy);
            assert forall|k: Knob| #[trigger] names(writes, k) implies answered(self.results, k) by {
                let i = choose|i: int| 0 <= i < writes.len() && (#[trigger] writes[i]).knob == k;
                assert(writes[i].knob == k);
            }
        }
        let mut results = self.results;
        results.windows_ppm = windows_ppm;
        results
    }
}

/// Where a run of the policy stands once so many settings have answered: what
/// is left to ask for, and the answers.
pub open spec fn run_after(p: CpuPolicy, answers: Seq<KnobResult>) -> (Seq<KnobWrite>, CpuResults)
    decreases answers.len(),
{
    if answers.len() == 0 {
        (policy_writes(p), no_results())
    } else {
        let (left, results) = run_after(p, answers.drop_last());
        (left.drop_first(), with_result(results, left[0].knob, answers.last()))
    }
}

/// However the settings answer, a run asks for each write of the policy, in
/// order, and ends only behind the last of them.
pub proof fn settings_are_tried_whatever_came_back(p: CpuPolicy, answers: Seq<KnobResult>)
    requires
        answers.len() <= policy_writes(p).len(),
    ensures
        run_after(p, answers).0 == policy_writes(p).skip(answers.len() as int),
    decreases answers.len(),
{
    if answers.len() > 0 {
        settings_are_tried_whatever_came_back(p, answers.drop_last());
    }
    assert(run_after(p, answers).0 =~= policy_writes(p).skip(answers.len() as int));
}

/// The evidence of a policy is one step for each of its writes, in their
/// order.
pub proof fn each_write_leaves_one_step(p: CpuPolicy, r: CpuResults)
    requires
        r.covers(p),
    ensures
        cpu_steps(p, r).len() == policy_writes(p).len(),
        forall|i: int|
            0 <= i < policy_writes(p).len() ==> (#[trigger] cpu_steps(p, r)[i]).step == Step::WriteKnob(
                policy_writes(p)[i].knob,
            ),
{
}

} // verus!
