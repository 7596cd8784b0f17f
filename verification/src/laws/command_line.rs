//! The command line: what a request becomes, and what is shown.
use vstd::prelude::*;

use crate::cli::control::{planned, run_action, written_lines, ControlCmd, FanCmd, Plan, PlanError, RunAction, RunError};
use crate::cli::os_policy::{asked_policy, given_policy, ApplyArgs, CpuArg, NamedPolicy, PolicyError};
use crate::cli::telemetry::{bytes_text, is_shown, unit_name, unit_of, unit_size, value_text};
use crate::domain::command::ControlCommand;
use crate::domain::os_policy::CpuPlacement;
use crate::domain::policy::{BoostPolicy, CpuPolicy, FanMode, GpuPlatformPolicy, GpuPolicyPatch, ThermalMode};
use crate::domain::state::ObservedValue;
use crate::domain::telemetry::MetricValue;
use crate::format::{ends_in, holds, nearest, tenths};
use crate::number::trimmed;
use crate::text::{decimal, numeral};

verus! {

/// No setting of the processor is asked for but those that are marked.
pub open spec fn nothing_else_of(p: CpuPolicy, epp: bool, epp1: bool, freq: bool, boost: bool) -> bool {
    &&& !epp ==> p.epp_ac is None && p.epp_dc is None
    &&& !epp1 ==> p.epp1_ac is None && p.epp1_dc is None
    &&& !freq ==> p.max_freq_mhz_ac is None && p.max_freq_mhz_dc is None
    &&& !boost ==> p.boost_policy is None
    &&& p.boost_policy_ac is None && p.boost_policy_dc is None
    &&& p.min_performance_ac is None && p.min_performance_dc is None
    &&& p.max_performance_ac is None && p.max_performance_dc is None
    &&& p.power_limits is None
}

/// A request for an energy preference, a highest frequency or a boost policy
/// asks for exactly the sides that are given, of that setting alone; one
/// without a side, or with an implausible frequency, is refused.
pub proof fn processor_requests(ac: Option<u8>, dc: Option<u8>, fac: Option<u32>, fdc: Option<u32>, mode: BoostPolicy)
    ensures
        ({
            let none = ac is None && dc is None;
            let e = planned(ControlCmd::Epp { ac, dc });
            let p = e->Ok_0->Change_0->SetCpuPolicy_0;
            let f = planned(ControlCmd::Epp1 { ac, dc });
            let q = f->Ok_0->Change_0->SetCpuPolicy_0;
            &&& none ==> e == Err::<Plan, PlanError>(PlanError::NoSide) && f == Err::<Plan, PlanError>(PlanError::NoSide)
            &&& !none ==> e is Ok && e->Ok_0 is Change && e->Ok_0->Change_0 is SetCpuPolicy && p.epp_ac == ac && p.epp_dc == dc
                && nothing_else_of(p, true, false, false, false)
            &&& !none ==> f is Ok && f->Ok_0 is Change && f->Ok_0->Change_0 is SetCpuPolicy && q.epp1_ac == ac && q.epp1_dc
                == dc && nothing_else_of(q, false, true, false, false)
        }),
        ({
            let none = fac is None && fdc is None;
            let bad = |side: Option<u32>| side is Some && side->Some_0 != 0 && !(400 <= side->Some_0 <= 6_000);
            let g = planned(ControlCmd::MaxFreq { ac: fac, dc: fdc });
            let p = g->Ok_0->Change_0->SetCpuPolicy_0;
            &&& none ==> g == Err::<Plan, PlanError>(PlanError::NoSide)
            &&& bad(fac) ==> g == Err::<Plan, PlanError>(PlanError::MaxFreq { battery: false, mhz: fac->Some_0 })
            &&& !bad(fac) && bad(fdc) ==> g == Err::<Plan, PlanError>(
                PlanError::MaxFreq { battery: true, mhz: fdc->Some_0 },
            )
            &&& !none && !bad(fac) && !bad(fdc) ==> g is Ok && g->Ok_0 is Change && g->Ok_0->Change_0 is SetCpuPolicy
                && p.max_freq_mhz_ac == fac && p.max_freq_mhz_dc == fdc && nothing_else_of(p, false, false, true, false)
        }),
        ({
            let b = planned(ControlCmd::Boost { mode });
            let p = b->Ok_0->Change_0->SetCpuPolicy_0;
            &&& b is Ok && b->Ok_0 is Change && b->Ok_0->Change_0 is SetCpuPolicy
            &&& p.boost_policy == Some(mode) && nothing_else_of(p, false, false, false, true)
        }),
{
}

/// A request for a state that a heartbeat keeps asks for exactly what is
/// given, held for the time that is given; without any such time it is
/// refused.
pub proof fn held_requests(
    mode: ThermalMode,
    on: bool,
    cpu: u16,
    gpu: u16,
    patch: GpuPolicyPatch,
    hold: u64,
)
    ensures
        ({
            let refused = Err::<Plan, PlanError>(PlanError::NoHold);
            let thermal = planned(ControlCmd::Thermal { mode, hold });
            let max = planned(ControlCmd::Fan { mode: FanCmd::Max { on, hold } });
            let manual = planned(ControlCmd::Fan { mode: FanCmd::Manual { cpu, gpu, hold } });
            let policy = planned(ControlCmd::GpuPolicy { patch, hold });
            let l = manual->Ok_0->HpState_0->SetFanMode_0->Manual_0;
            let empty = patch.ctgp is None && patch.ppab is None && patch.dstate is None && patch.slowdown_temp_c is None;
            let d = patch.dstate is Some && !(1 <= patch.dstate->Some_0 <= 4);
            let t = patch.slowdown_temp_c is Some && !(30 <= patch.slowdown_temp_c->Some_0 <= 110);
            &&& hold == 0 ==> thermal == refused && max == refused && manual == refused && policy == refused
            &&& hold > 0 ==> {
                &&& thermal == Ok::<Plan, PlanError>(Plan::HpState(ControlCommand::SetThermalMode(mode), hold))
                &&& on ==> max == Ok::<Plan, PlanError>(Plan::HpState(ControlCommand::SetFanMode(FanMode::Max), hold))
                &&& !on ==> max == Ok::<Plan, PlanError>(
                    Plan::HpState(ControlCommand::SetFanMode(FanMode::FirmwareAuto), hold),
                )
                &&& manual is Ok <==> cpu % 100 == 0 && gpu % 100 == 0 && cpu > 0 && gpu > 0
                &&& manual is Ok ==> manual->Ok_0 == Plan::HpState(
                    ControlCommand::SetFanMode(FanMode::Manual(l)),
                    hold,
                ) && 100 * l.left == cpu && 100 * l.right == gpu
                &&& manual is Err ==> manual->Err_0 == (if cpu % 100 == 0 && gpu % 100 == 0 {
                    PlanError::ZeroLevel
                } else {
                    PlanError::NotHundreds
                })
                &&& policy is Ok <==> !empty && !d && !t
                &&& policy is Ok ==> policy->Ok_0 == (Plan::GpuPolicyMerge { patch, hold })
                &&& policy is Err ==> policy->Err_0 == (if empty {
                    PlanError::NoGpuField
                } else if d {
                    PlanError::DState { dstate: patch.dstate->Some_0 }
                } else {
                    PlanError::SlowdownTemp { celsius: patch.slowdown_temp_c->Some_0 }
                })
            }
        }),
        planned(ControlCmd::Status) == Ok::<Plan, PlanError>(Plan::Status),
        planned(ControlCmd::Fan { mode: FanCmd::Auto }) == Ok::<Plan, PlanError>(
            Plan::Change(ControlCommand::SetFanMode(FanMode::FirmwareAuto)),
        ),
{
}

/// Power limits are asked for as they are given, a peak limit that is not
/// given as none; outside the envelope the first limit is told.
pub proof fn power_limit_requests(pl1: u8, pl2: u8, pl4: Option<u8>, hold: u64)
    requires
        hold > 0,
    ensures
        ({
            let p = planned(ControlCmd::PowerLimits { pl1, pl2, pl4, hold });
            let l = p->Ok_0->HpState_0->SetPowerLimits_0;
            let high = pl4 is Some && !(30 <= pl4->Some_0 <= 200);
            &&& p is Ok <==> 15 <= pl1 <= 130 && 15 <= pl2 <= 157 && pl1 <= pl2 && !high
            &&& p is Ok ==> p->Ok_0 == Plan::HpState(ControlCommand::SetPowerLimits(l), hold) && l.pl1_w == pl1 && l.pl2_w
                == pl2 && l.cpu_gpu_concurrent_w == 0 && l.pl4_w == (if pl4 is Some { pl4->Some_0 } else { 0 })
            &&& p is Err ==> p->Err_0 == (if pl1 < 15 || pl1 > 130 {
                PlanError::Pl1 { watts: pl1 }
            } else if pl2 < 15 || pl2 > 157 {
                PlanError::Pl2 { watts: pl2 }
            } else if pl2 < pl1 {
                PlanError::Pl2BelowPl1
            } else {
                PlanError::Pl4 { watts: pl4->Some_0 }
            })
        }),
{
}

/// A plan runs as it is; a change needs a writer, and a change of a part of
/// the graphics policy needs the rest of it to be known.
pub proof fn plans_run_as_they_are(
    cmd: ControlCommand,
    hold: u64,
    patch: GpuPolicyPatch,
    gpu: Option<ObservedValue<GpuPlatformPolicy>>,
)
    ensures
        run_action(Plan::Status, gpu) == Ok::<RunAction, RunError>(RunAction::Status),
        gpu is Some ==> run_action(Plan::Change(cmd), gpu) == Ok::<RunAction, RunError>(RunAction::Change(cmd)),
        gpu is Some ==> run_action(Plan::HpState(cmd, hold), gpu) == Ok::<RunAction, RunError>(
            RunAction::HpState(cmd, hold),
        ),
        gpu is None ==> run_action(Plan::Change(cmd), gpu) == Err::<RunAction, RunError>(RunError::NoControl)
            && run_action(Plan::HpState(cmd, hold), gpu) == Err::<RunAction, RunError>(RunError::NoControl)
            && run_action(Plan::GpuPolicyMerge { patch, hold }, gpu) == Err::<RunAction, RunError>(RunError::NoControl),
        gpu is Some && gpu->Some_0 is Unknown ==> run_action(Plan::GpuPolicyMerge { patch, hold }, gpu) == Err::<
            RunAction,
            RunError,
        >(RunError::NoGpuReadback),
        gpu is Some && !(gpu->Some_0 is Unknown) ==> ({
            let r = run_action(Plan::GpuPolicyMerge { patch, hold }, gpu);
            let w = r->Ok_0->HpState_0->SetGpuPlatformPolicy_0;
            let live = gpu->Some_0.known()->Some_0;
            &&& r == Ok::<RunAction, RunError>(RunAction::HpState(ControlCommand::SetGpuPlatformPolicy(w), hold))
            &&& w.ctgp == (if patch.ctgp is Some { patch.ctgp->Some_0 } else { live.ctgp })
            &&& w.ppab == (if patch.ppab is Some { patch.ppab->Some_0 } else { live.ppab })
            &&& w.dstate == (if patch.dstate is Some { patch.dstate->Some_0 } else { live.dstate })
            &&& w.slowdown_temp_c == (if patch.slowdown_temp_c is Some {
                patch.slowdown_temp_c->Some_0
            } else {
                live.slowdown_temp_c
            })
        }),
{
}

/// A scheduling policy is made of what is given, each part from its own
/// options; a list of processors comes before a kind of them, and two options
/// that make up one part are given together.
pub proof fn scheduling_requests(args: ApplyArgs, named: NamedPolicy)
    ensures
        ({
            let p = given_policy(args);
            &&& args.cpu_set is Some ==> p.cpu_placement == Some(CpuPlacement::Custom(args.cpu_set->Some_0))
            &&& args.cpu_set is None && args.cpu is None ==> p.cpu_placement is None
            &&& args.cpu_set is None && args.cpu == Some(CpuArg::All) ==> p.cpu_placement == Some(CpuPlacement::All)
            &&& args.cpu_set is None && args.cpu == Some(CpuArg::Performance) ==> p.cpu_placement == Some(
                CpuPlacement::Performance,
            )
            &&& args.cpu_set is None && args.cpu == Some(CpuArg::Efficiency) ==> p.cpu_placement == Some(
                CpuPlacement::Efficiency,
            )
            &&& args.affinity_group is Some && args.affinity_mask is Some ==> p.affinity is Some
                && p.affinity->Some_0.group == args.affinity_group->Some_0 && p.affinity->Some_0.mask
                == args.affinity_mask->Some_0
            &&& args.affinity_group is None || args.affinity_mask is None ==> p.affinity is None
            &&& args.ideal_group is Some && args.ideal_number is Some ==> p.ideal_processor is Some
                && p.ideal_processor->Some_0.group == args.ideal_group->Some_0 && p.ideal_processor->Some_0.number
                == args.ideal_number->Some_0
            &&& args.ideal_group is None || args.ideal_number is None ==> p.ideal_processor is None
            &&& p.qos == args.qos && p.process_priority == args.process_priority && p.thread_priority
                == args.thread_priority && p.memory_priority == args.memory_priority && p.gpu_preference == args.gpu
        }),
        ({
            let r = asked_policy(args, named);
            let affinity = (args.affinity_group is Some) == (args.affinity_mask is Some);
            let ideal = (args.ideal_group is Some) == (args.ideal_number is Some);
            &&& !affinity ==> r is Err && r->Err_0 is AffinityPair
            &&& affinity && !ideal ==> r is Err && r->Err_0 is IdealPair
            &&& affinity && ideal && args.profile is None ==> r is Ok && r->Ok_0 == given_policy(args)
            &&& affinity && ideal && args.profile is Some && named is Policy ==> r is Ok && r->Ok_0 == named->Policy_0
            &&& affinity && ideal && args.profile is Some && named is NoPolicy ==> r is Err && r->Err_0 is NoPolicy
            &&& affinity && ideal && args.profile is Some && named is UnknownProfile ==> r is Err && r->Err_0 == (
            PolicyError::UnknownProfile { name: args.profile->Some_0 })
        }),
{
}

/// A metric is shown without filters, or if its name holds the text of one.
pub proof fn filters_choose_metrics(filters: Seq<String>, more: String, id: Seq<char>)
    ensures
        is_shown(Seq::empty(), id),
        is_shown(seq![more], id) <==> holds(id, more@),
        filters.len() > 0 ==> (is_shown(filters.push(more), id) <==> is_shown(filters, id) || holds(id, more@)),
{
    let all = filters.push(more);
    let one = seq![more];
    assert(one[0] == more);
    if holds(id, more@) {
        assert(holds(id, one[0]@));
        assert(all[filters.len() as int] == more);
    }
    if filters.len() > 0 {
        if is_shown(filters, id) {
            let i = choose|i: int| 0 <= i < filters.len() && holds(id, (#[trigger] filters[i])@);
            assert(all[i] == filters[i]);
        }
        if is_shown(all, id) {
            let i = choose|i: int| 0 <= i < all.len() && holds(id, (#[trigger] all[i])@);
            if i < filters.len() {
                assert(filters[i] == all[i]);
            }
        }
    }
}

/// A text holds a part exactly if it can be parted around it, and ends in it
/// exactly if nothing stands behind it.
pub proof fn texts_hold_parts(before: Seq<char>, part: Seq<char>, behind: Seq<char>, text: Seq<char>)
    ensures
        holds(before + part + behind, part),
        ends_in(before + part, part),
        holds(text, part) ==> exists|i: int| 0 <= i <= text.len() - part.len() && text == #[trigger] text.take(i) + part
            + text.skip(i + part.len()),
        ends_in(text, part) ==> text == text.take(text.len() - part.len()) + part,
{
    let s = before + part + behind;
    assert(s.subrange(before.len() as int, (before.len() + part.len()) as int) =~= part);
    assert(crate::format::holds_at(s, part, before.len() as int));
    let e = before + part;
    assert(e.subrange(before.len() as int, (before.len() + part.len()) as int) =~= part);
    if holds(text, part) {
        let i = choose|i: int| #[trigger] crate::format::holds_at(text, part, i);
        assert(text =~= text.take(i) + text.subrange(i, i + part.len()) + text.skip(i + part.len()));
    }
    if ends_in(text, part) {
        let i = text.len() - part.len();
        assert(text =~= text.take(i) + text.subrange(i, i + part.len()));
    }
}

/// Amounts are shown in the largest unit of which there is at least one: from
/// bytes up, each unit is 1024 of the one before.
pub proof fn amounts_have_a_unit(thousandths: int)
    ensures
        ({
            let u = unit_of(thousandths);
            &&& 0 <= u <= 4
            &&& u > 0 ==> thousandths >= 1000 * unit_size(u)
            &&& u < 4 ==> thousandths < 1000 * unit_size(u + 1)
            &&& unit_size(0) == 1
            &&& forall|k: int| 0 <= k < 4 ==> unit_size(k + 1) == 1024 * #[trigger] unit_size(k)
            &&& unit_name(0) == " B"@ && unit_name(1) == " KiB"@ && unit_name(2) == " MiB"@ && unit_name(3) == " GiB"@
                && unit_name(4) == " TiB"@
            &&& thousandths >= 0 ==> exists|t: nat|
                -100 * unit_size(u) <= 2 * (100 * unit_size(u) * t - thousandths) <= 100 * unit_size(u) && bytes_text(
                    thousandths,
                ) == #[trigger] tenths(t) + unit_name(u)
        }),
{
    let u = unit_of(thousandths);
    reveal_strlit("");
    if thousandths >= 0 {
        let d = 100 * unit_size(u);
        crate::laws::texts::quotients_are_rounded(thousandths, d);
        let t = nearest(thousandths, d);
        assert(t >= 0) by {
            assert(thousandths / d >= 0) by (nonlinear_arith)
                requires
                    thousandths >= 0,
                    d > 0,
            ;
        }
        assert(""@ + tenths(t as nat) =~= tenths(t as nat));
        assert(bytes_text(thousandths) == tenths(t as nat) + unit_name(u));
    }
}

/// A measured value is shown by what its name ends in: bytes and rates in
/// units, speeds, frequencies and shares as whole numbers, and everything else
/// with one decimal. Raw counts are shown in hexadecimal.
pub proof fn values_are_shown_by_kind(id: Seq<char>, v: u64, n: i64)
    requires
        n >= 0,
    ensures
        ({
            let bytes = ends_in(id, "_bytes"@);
            let rate = ends_in(id, "_bps"@);
            let whole = ends_in(id, "_rpm"@) || ends_in(id, "_mhz"@) || ends_in(id, "_percent"@);
            let m = value_text(id, MetricValue::Measured { thousandths: n });
            let c = value_text(id, MetricValue::Count(v));
            &&& bytes ==> m == bytes_text(n as int)
            &&& !bytes && rate ==> m == bytes_text(n as int) + "/s"@
            &&& !bytes && !rate && whole ==> m == decimal(nearest(n as int, 1000) as nat)
            &&& !bytes && !rate && !whole ==> m == tenths(nearest(n as int, 100) as nat)
            &&& ends_in(id, "_raw"@) ==> c == "0x"@ + numeral(v as nat, 16)
            &&& !ends_in(id, "_raw"@) && bytes ==> c == bytes_text(1000 * v)
            &&& !ends_in(id, "_raw"@) && !bytes ==> c == decimal(v as nat)
            &&& value_text(id, MetricValue::Flag(true)) == "yes"@ && value_text(id, MetricValue::Flag(false)) == "no"@
        }),
{
    reveal_strlit("");
    let a = decimal(nearest(n as int, 1000) as nat);
    let b = tenths(nearest(n as int, 100) as nat);
    assert(""@ + a =~= a);
    assert(""@ + b =~= b);
}

/// Of the lines of the journal those that hold more than white space are
/// shown, in order.
pub proof fn written_lines_are_shown(lines: Seq<String>, line: String)
    ensures
        written_lines(Seq::empty()) == Seq::<String>::empty(),
        trimmed(line@).len() == 0 ==> written_lines(lines.push(line)) == written_lines(lines),
        trimmed(line@).len() > 0 ==> written_lines(lines.push(line)) == written_lines(lines).push(line),
{
    assert(lines.push(line).drop_last() =~= lines);
}

} // verus!
