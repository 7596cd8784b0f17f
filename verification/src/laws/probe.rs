//! What the probe finds of the hardware.
use vstd::prelude::*;

use crate::capability::{
    design_notes, failure, hp_notes, lower_of, mux_gate, mux_notes, ppm_notes, probed_capabilities, rank, table_notes,
    BoardProfile, HpAnswers, HpReadings, HpValues, PpmReadings, ProbeNote, Reading, SystemDesign,
};
use crate::domain::capability::{FanScale, Support};

verus! {

/// The multiplexer is read where the board has one, unless the firmware says
/// that it has none.
pub proof fn multiplexers_are_read_where_there_is_one(profile: BoardProfile, design: Option<SystemDesign>)
    ensures
        mux_gate(Some(profile), design) <==> profile.supports_mux && (design is None || design->Some_0.mux_supported),
        !mux_gate(None, design),
{
}

/// Degrees of support are ordered, and of two the lower one counts.
pub proof fn the_lower_support_counts(a: Support, b: Support)
    ensures
        rank(Support::NotProbed) < rank(Support::Unsupported) < rank(Support::Experimental) < rank(Support::Supported),
        rank(lower_of(a, b)) <= rank(a) && rank(lower_of(a, b)) <= rank(b),
        lower_of(a, b) == a || lower_of(a, b) == b,
{
}

/// Firmware settings are supported on a known board whose firmware answers,
/// each as far as its own reading went: the fans if they are counted, manual
/// levels with a table and a highest level, the graphics policy and the
/// multiplexer where the board has them and they were read.
pub proof fn support_follows_the_readings(
    profile: BoardProfile,
    elevated: bool,
    epp: bool,
    epp1: bool,
    max_freq: bool,
    h: HpAnswers,
)
    ensures
        ({
            let c = probed_capabilities(Some(profile), elevated, epp, epp1, max_freq, Some(h));
            let top = h.fan_table is Some && (h.fan_table->Some_0.clamp is Some || profile.clamp_max is Some);
            &&& c.known_board && c.thermal_mode is Supported
            &&& c.power_limits == profile.power_limits
            &&& c.max_fan == (if h.fan_count is Some { Support::Supported } else { Support::Unsupported })
            &&& c.fan_rpm_read == (if h.fan_count is Some && h.fan_levels {
                Support::Supported
            } else {
                Support::Unsupported
            })
            &&& c.fan_manual_level == (if h.fan_count is Some && top { Support::Supported } else { Support::Unsupported })
            &&& c.gpu_platform_policy == (if profile.supports_gpu_power_mode && h.gpu_policy {
                Support::Supported
            } else {
                Support::Unsupported
            })
            &&& c.mux == (if h.mux && profile.supports_mux && (h.design is None || h.design->Some_0.mux_supported) {
                Support::Supported
            } else {
                Support::Unsupported
            })
        }),
{
}

/// The processor's settings are supported as far as they were read, whatever
/// the board, and writable by an elevated process.
pub proof fn processor_settings_are_probed(
    profile: Option<BoardProfile>,
    elevated: bool,
    epp: bool,
    epp1: bool,
    max_freq: bool,
    hp: Option<HpAnswers>,
)
    ensures
        ({
            let p = probed_capabilities(profile, elevated, epp, epp1, max_freq, hp).ppm;
            &&& p.epp == (if epp { Support::Supported } else { Support::Unsupported })
            &&& p.epp1 == (if epp1 { Support::Supported } else { Support::Unsupported })
            &&& p.max_freq == (if max_freq { Support::Supported } else { Support::Unsupported })
            &&& p.write_privileged == elevated
        }),
{
}

/// The fans: counted by the firmware, else by the board; levels between the
/// ends of the firmware's table, else the board's; in the board's scale.
pub proof fn fans_are_probed(
    profile: Option<BoardProfile>,
    elevated: bool,
    epp: bool,
    epp1: bool,
    max_freq: bool,
    hp: Option<HpAnswers>,
)
    ensures
        ({
            let f = probed_capabilities(profile, elevated, epp, epp1, max_freq, hp).fan;
            let told = hp is Some && hp->Some_0.fan_table is Some && hp->Some_0.fan_table->Some_0.clamp is Some;
            let range = hp->Some_0.fan_table->Some_0.clamp->Some_0;
            &&& hp is Some && hp->Some_0.fan_count is Some ==> f.count == hp->Some_0.fan_count->Some_0
            &&& hp is None || hp->Some_0.fan_count is None ==> f.count == (if profile is Some {
                profile->Some_0.fan_count
            } else {
                0
            })
            &&& told ==> f.clamp_min == Some(range.lo) && f.clamp_max == Some(range.hi)
            &&& !told && profile is Some ==> f.clamp_min == profile->Some_0.clamp_min && f.clamp_max
                == profile->Some_0.clamp_max
            &&& !told && profile is None ==> f.clamp_min is None && f.clamp_max is None
            &&& f.scale == (if profile is Some { profile->Some_0.fan_scale } else { FanScale::Unknown })
            &&& f.sw_control_declared <==> hp is Some && hp->Some_0.design is Some
                && hp->Some_0.design->Some_0.sw_fan_control
        }),
{
}

/// A reading that succeeded keeps its value, a failed one has none; each
/// stands for itself.
pub proof fn readings_stand_for_themselves(h: HpReadings, profile: Option<BoardProfile>)
    ensures
        ({
            let v = h.values(profile);
            let a = v.spec_answers();
            let read_mux = profile is Some && profile->Some_0.supports_mux && (h.design is Err
                || h.design->Ok_0.mux_supported);
            &&& v.fan_count == (if h.fan_count is Ok { Some(h.fan_count->Ok_0) } else { None })
            &&& v.design == (if h.design is Ok { Some(h.design->Ok_0) } else { None })
            &&& v.fan_table == (if h.fan_table is Ok { Some(h.fan_table->Ok_0) } else { None })
            &&& v.fan_levels == (if h.fan_levels is Ok { Some(h.fan_levels->Ok_0) } else { None })
            &&& v.gpu_policy == (if h.gpu_policy is Ok { Some(h.gpu_policy->Ok_0) } else { None })
            &&& v.max_fan_diag == (if h.max_fan_diag is Ok { Some(h.max_fan_diag->Ok_0) } else { None })
            &&& read_mux && h.mux is Some ==> v.mux == (if h.mux->Some_0 is Ok { Some(h.mux->Some_0->Ok_0) } else { None })
            &&& !read_mux ==> v.mux is None
            &&& a.fan_count == v.fan_count && a.design == v.design && a.fan_table == v.fan_table
            &&& a.fan_levels == (h.fan_levels is Ok) && a.gpu_policy == (h.gpu_policy is Ok) && a.mux == (v.mux is Some)
            &&& v.reported() == (HpValues { fan_count: None, ..v })
        }),
{
}

/// The notes tell of an unknown board, of missing privileges, and of every
/// reading of the processor that failed, and of nothing else.
pub proof fn processor_notes(board_id: String, known: bool, ppm: PpmReadings, n: ProbeNote)
    ensures
        ppm_notes(board_id, known, ppm).contains(n) <==> {
            ||| !known && n == (ProbeNote::UnknownBoard { board_id })
            ||| !ppm.elevated && n is NotElevated
            ||| ppm.epp is Err && n == (ProbeNote::Failed { reading: Reading::Epp, why: ppm.epp->Err_0 })
            ||| ppm.epp1_failure is Some && n == (ProbeNote::Failed {
                reading: Reading::Epp1,
                why: ppm.epp1_failure->Some_0,
            })
            ||| ppm.max_freq_mhz is Err && n == (ProbeNote::Failed {
                reading: Reading::MaxFreq,
                why: ppm.max_freq_mhz->Err_0,
            })
        },
{
    let a: Seq<ProbeNote> = if !known { seq![ProbeNote::UnknownBoard { board_id }] } else { Seq::empty() };
    let b: Seq<ProbeNote> = if !ppm.elevated { seq![ProbeNote::NotElevated] } else { Seq::empty() };
    let c = failure(ppm.epp, Reading::Epp);
    let d: Seq<ProbeNote> = match ppm.epp1_failure {
        Some(e) => seq![ProbeNote::Failed { reading: Reading::Epp1, why: e }],
        None => Seq::empty(),
    };
    let e = failure(ppm.max_freq_mhz, Reading::MaxFreq);
    assert(ppm_notes(board_id, known, ppm) == a + b + c + d + e);
    in_parts(a, b, n);
    in_parts(a + b, c, n);
    in_parts(a + b + c, d, n);
    in_parts(a + b + c + d, e, n);
    singles(a, n);
    singles(b, n);
    singles(c, n);
    singles(d, n);
    singles(e, n);
}

proof fn in_parts(a: Seq<ProbeNote>, b: Seq<ProbeNote>, n: ProbeNote)
    ensures
        (a + b).contains(n) <==> a.contains(n) || b.contains(n),
{
    if a.contains(n) {
        let i = choose|i: int| 0 <= i < a.len() && a[i] == n;
        assert((a + b)[i] == n);
    }
    if b.contains(n) {
        let i = choose|i: int| 0 <= i < b.len() && b[i] == n;
        assert((a + b)[a.len() + i] == n);
    }
}

proof fn singles(a: Seq<ProbeNote>, n: ProbeNote)
    ensures
        a.len() == 0 ==> !a.contains(n),
        a.len() == 1 ==> (a.contains(n) <==> n == a[0]),
{
    if a.len() == 1 && n == a[0] {
        assert(a[0] == n);
    }
}

/// The notes of the firmware tell of every reading that failed, of a policy
/// version that is not the board's, of fans that software may not drive, and
/// of a table without a usable range; and of nothing else.
pub proof fn firmware_notes(profile: Option<BoardProfile>, h: HpReadings, n: ProbeNote)
    ensures
        hp_notes(profile, h).contains(n) <==> {
            ||| h.fan_count is Err && n == (ProbeNote::Failed { reading: Reading::FanCount, why: h.fan_count->Err_0 })
            ||| h.design is Err && n == (ProbeNote::Failed { reading: Reading::Design, why: h.design->Err_0 })
            ||| h.design is Ok && profile is Some && profile->Some_0.thermal_policy is V1
                && h.design->Ok_0.thermal_policy_version != 1 && n == (ProbeNote::PolicyVersion {
                found: h.design->Ok_0.thermal_policy_version,
            })
            ||| h.design is Ok && !h.design->Ok_0.sw_fan_control && n is NoSoftwareFanControl
            ||| h.fan_table is Err && n == (ProbeNote::Failed { reading: Reading::FanTable, why: h.fan_table->Err_0 })
            ||| h.fan_table is Ok && h.fan_table->Ok_0.clamp is None && n is ImplausibleFanTable
            ||| h.fan_levels is Err && n == (ProbeNote::Failed { reading: Reading::FanLevels, why: h.fan_levels->Err_0 })
            ||| h.gpu_policy is Err && n == (ProbeNote::Failed { reading: Reading::GpuPolicy, why: h.gpu_policy->Err_0 })
            ||| profile is Some && profile->Some_0.supports_mux && (h.design is Err || h.design->Ok_0.mux_supported)
                && h.mux is Some && h.mux->Some_0 is Err && n == (ProbeNote::Failed {
                reading: Reading::Mux,
                why: h.mux->Some_0->Err_0,
            })
            ||| h.max_fan_diag is Err && n == (ProbeNote::Failed {
                reading: Reading::MaxFanDiag,
                why: h.max_fan_diag->Err_0,
            })
        },
{
    let a = failure(h.fan_count, Reading::FanCount);
    let b = design_notes(profile, h.design);
    let c = table_notes(h.fan_table);
    let d = failure(h.fan_levels, Reading::FanLevels);
    let e = failure(h.gpu_policy, Reading::GpuPolicy);
    let f = mux_notes(mux_gate(profile, h.design.ok()), h.mux);
    let g = failure(h.max_fan_diag, Reading::MaxFanDiag);
    in_parts(a, b, n);
    in_parts(a + b, c, n);
    in_parts(a + b + c, d, n);
    in_parts(a + b + c + d, e, n);
    in_parts(a + b + c + d + e, f, n);
    in_parts(a + b + c + d + e + f, g, n);
    singles(a, n);
    singles(c, n);
    singles(d, n);
    singles(e, n);
    singles(f, n);
    singles(g, n);
    if h.design is Ok {
        let x = h.design->Ok_0;
        let v: Seq<ProbeNote> = if (profile matches Some(p) && p.thermal_policy is V1) && x.thermal_policy_version != 1 {
            seq![ProbeNote::PolicyVersion { found: x.thermal_policy_version }]
        } else {
            Seq::empty()
        };
        let w: Seq<ProbeNote> = if !x.sw_fan_control { seq![ProbeNote::NoSoftwareFanControl] } else { Seq::empty() };
        assert(b == v + w);
        in_parts(v, w, n);
        singles(v, n);
        singles(w, n);
    } else {
        singles(b, n);
    }
}

} // verus!
