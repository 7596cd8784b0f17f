//! Names, numbers and readings in words.
use vstd::prelude::*;

use crate::app::fmt::{control_error_text, fan_mode_text, quality_text, verification_text};
use crate::capability::{ProbeNote, ProbeReport, SystemDesign};
use crate::cli::control::{observed_text, status_line_text, verdict_text};
use crate::cli::gpuload::{buffer_bytes_of, failure_text, signed};
use crate::cli::probe::{
    capability_section, design_section, entry_line, gpu_line_text, hex_byte, identity_section, levels_line_text,
    mux_text, notes_section, ppm_section, readings_section, report_text, scale_text, smoke_section, support_text,
    table_section, FanTable, SmokeRow,
};
use crate::cli::telemetry::{provider_text, quality_word, sign};
use crate::control::coordinator::ControlCoordinator;
use crate::control::journal::JournalOrigin;
use crate::control::scope::scheme_kept;
use crate::domain::capability::{CapabilitySet, FanScale, Support};
use crate::domain::command::{ControlStatus, Step, Verification};
use crate::domain::error::{ControlError, FirmwareDetail, HpWmiError, Missing, UnsafeReason};
use crate::domain::evidence::{
    bool_text, fan_text, gpu_text, limits_text, pl4_sample_text, power_sample_text, side_text, Evidence, Knob,
    KnobValue, Pl4Sample, PowerSample, Target,
};
use crate::domain::identity::DeviceIdentity;
use crate::domain::mux_status::{mode_text, reported_text, MuxStatus};
use crate::domain::policy::{BoostPolicy, CpuPowerLimits, FanLevels, FanMode, GpuPlatformPolicy, MuxMode};
use crate::domain::profile::{ProfileEntry, ProfileRegistry};
use crate::domain::state::{Channel, DesiredState, ObservedState, ObservedValue};
use crate::domain::telemetry::{MetricQuality, ProviderStatus};
use crate::engine::Provider;
use crate::format::{left_aligned, maybe_level, seconds, truth};
use crate::persistence::joined;
use crate::text::{decimal, numeral};

verus! {

/// Truth is told as it is.
pub proof fn truth_is_told()
    ensures
        bool_text(true) == "true"@ && bool_text(false) == "false"@,
        truth(true) == "true"@ && truth(false) == "false"@,
{
}

/// A graphics policy in words names each of its settings with its own value.
pub proof fn graphics_policies_in_words(p: GpuPlatformPolicy)
    ensures
        gpu_text(p) == "ctgp="@ + truth(p.ctgp) + " ppab="@ + truth(p.ppab) + " dstate="@ + decimal(p.dstate as nat)
            + " slowdown="@ + decimal(p.slowdown_temp_c as nat) + "C"@,
        gpu_line_text(p) == "  ctgp="@ + truth(p.ctgp) + " ppab="@ + truth(p.ppab) + " dstate="@ + decimal(
            p.dstate as nat,
        ) + " slowdown_temp="@ + decimal(p.slowdown_temp_c as nat) + "C"@,
{
}

/// Fan levels in words: left before right, in levels, and in turns a minute
/// where those are asked for.
pub proof fn fan_levels_in_words(l: FanLevels, rpm_left: nat, rpm_right: nat)
    requires
        rpm_left == 100 * l.left,
        rpm_right == 100 * l.right,
    ensures
        fan_text(l) == "left="@ + decimal(l.left as nat) + " right="@ + decimal(l.right as nat) + " (x100 RPM)"@,
        fan_mode_text(FanMode::Manual(l)) == "手动 "@ + decimal(rpm_left) + " / "@ + decimal(rpm_right) + " RPM"@,
        levels_line_text(l) == "  left="@ + decimal(l.left as nat) + " ("@ + decimal(rpm_left) + " RPM) right="@
            + decimal(l.right as nat) + " ("@ + decimal(rpm_right) + " RPM)"@,
        fan_mode_text(FanMode::FirmwareAuto) == "固件自动"@ && fan_mode_text(FanMode::Max) == "最大转速"@,
{
}

/// Power limits in words: the long limit before the short one, and the peak
/// where it is set; samples in milliwatts.
pub proof fn power_limits_in_words(l: CpuPowerLimits, p: PowerSample, q: Pl4Sample)
    ensures
        l.pl4_w == 0 ==> limits_text(l) == "pl1="@ + decimal(l.pl1_w as nat) + "W pl2="@ + decimal(l.pl2_w as nat)
            + "W (pl4 untouched)"@,
        l.pl4_w != 0 ==> limits_text(l) == "pl1="@ + decimal(l.pl1_w as nat) + "W pl2="@ + decimal(l.pl2_w as nat) + (
        "W pl4="@ + decimal(l.pl4_w as nat) + "W"@),
        power_sample_text(Some(p)) == decimal(p.pl1_mw as nat) + "/"@ + decimal(p.pl2_mw as nat) + " mW"@,
        power_sample_text(None) == "none"@ && pl4_sample_text(None) == "none"@,
        pl4_sample_text(Some(q)) == decimal(q.pl4_mw as nat) + " mW"@,
{
}

/// Targets and evidence in words: each says what it is about and then its own
/// value; mains stands before battery.
pub proof fn evidence_in_words(
    l: FanLevels,
    p: GpuPlatformPolicy,
    d: bool,
    w: CpuPowerLimits,
    ac: KnobValue,
    dc: KnobValue,
    sides: (Option<KnobValue>, Option<KnobValue>),
    power: Option<PowerSample>,
    pl4: Option<Pl4Sample>,
    e: HpWmiError,
    n: u32,
)
    ensures
        Target::Fan(l).spec_text() == "fan "@ + fan_text(l),
        Target::Gpu(p, d).spec_text() == "gpu "@ + gpu_text(p),
        Target::Power(w).spec_text() == "power "@ + limits_text(w),
        Evidence::Requested(Target::Fan(l)).spec_text() == "fan "@ + fan_text(l),
        Evidence::FanReading(l).spec_text() == fan_text(l) && Evidence::GpuReading(p).spec_text() == gpu_text(p),
        Evidence::Hp(e).spec_text() == e.spec_text(),
        (Evidence::KnobReading { read_ac: ac, read_dc: dc }).spec_text() == "ac="@ + ac.spec_text() + " dc="@
            + dc.spec_text(),
        (Evidence::KnobRequest { ac: sides.0, dc: sides.1 }).spec_text() == "ac="@ + side_text(sides.0) + " dc="@
            + side_text(sides.1),
        side_text(Some(ac)) == "Some("@ + ac.spec_text() + ")"@ && side_text(None) == "None"@,
        KnobValue::Number(n).spec_text() == decimal(n as nat),
        (Evidence::PowerReading { power, pl4 }).spec_text() == "0x610="@ + power_sample_text(power) + "; PL4="@
            + pl4_sample_text(pl4) + "; samples must follow write"@,
        (HpWmiError::FirmwareReturnCode { code: n }).spec_text() == "bios rc="@ + decimal(n as nat),
        (FirmwareDetail::ReturnCode { code: n }).spec_text() == "bios rc="@ + decimal(n as nat),
{
}

/// The multiplexer in words: the selection that was asked for stands before
/// the one that it replaces, with the firmware's report between them.
pub proof fn the_multiplexer_in_words(asked: MuxMode, before: MuxMode, reported: Option<MuxMode>, n: u8, cause: String)
    ensures
        mode_text(MuxMode::Hybrid) == "Hybrid"@ && mode_text(MuxMode::Discrete) == "Discrete"@,
        mode_text(MuxMode::Other(n)) == "Other("@ + decimal(n as nat) + ")"@,
        reported_text(None) == "None"@ && reported_text(Some(asked)) == "Some("@ + mode_text(asked) + ")"@,
        mux_text(MuxMode::Hybrid) == "  current: Hybrid"@ && mux_text(MuxMode::Discrete) == "  current: Discrete"@,
        mux_text(MuxMode::Other(n)) == "  current: Other("@ + decimal(n as nat) + ")"@,
        (MuxStatus::Confirmed { mode: asked }).spec_text() == "已在重启后确认："@ + mode_text(asked),
        (MuxStatus::WaitingForReboot { requested: asked, previous: before }).spec_text() == "已请求 "@ + mode_text(asked)
            + "，等待重启后核验；原选择 "@ + mode_text(before) + "。"@,
        (MuxStatus::Recorded { target: asked, previous: before }).spec_text() == "已记录 "@ + mode_text(asked)
            + " 请求；需要重启后核验。原选择 "@ + mode_text(before) + "。"@,
        (MuxStatus::Mismatch { requested: asked, reported, previous: before }).spec_text() == "重启后未匹配目标 "@
            + mode_text(asked) + "；固件报告 "@ + reported_text(reported) + "，可申请恢复 "@ + mode_text(before) + "。"@,
        (MuxStatus::SaveFailed { cause }).spec_text() == cause@,
        (MuxStatus::Unreadable { cause }).spec_text() == "显卡切换记录无法读取："@ + cause@,
{
}

/// A refusal in words names what was asked for and the bounds it has to keep.
pub proof fn refusals_in_words(right: bool, level: u16, low: u16, high: u16, a: u8, b: u8, mhz: u32, status: MuxStatus)
    ensures
        (UnsafeReason::FanLevelClamp { right, level, low, high }).spec_text() == (if right {
            "right"@
        } else {
            "left"@
        }) + " fan level "@ + decimal(level as nat) + " outside clamp "@ + decimal(low as nat) + "..="@ + decimal(
            high as nat,
        ) + " (x100 RPM)"@,
        (UnsafeReason::Pl2BelowPl1 { pl2: a, pl1: b }).spec_text() == "PL2 "@ + decimal(a as nat) + "W < PL1 "@ + decimal(
            b as nat,
        ) + "W"@,
        (UnsafeReason::MaxFrequencyBand { mhz }).spec_text() == "max frequency "@ + decimal(mhz as nat)
            + " MHz outside 0|400..=6000"@,
        (UnsafeReason::MuxBlocked { status }).spec_text() == status.spec_text(),
        (UnsafeReason::EppRange { value: a }).spec_text() == "EPP "@ + decimal(a as nat) + " out of range 0..=100"@,
        (UnsafeReason::Epp1Range { value: a }).spec_text() == "EPP1 "@ + decimal(a as nat) + " out of range 0..=100"@,
        (UnsafeReason::Pl1Envelope { watts: a }).spec_text() == "PL1 "@ + decimal(a as nat)
            + "W outside 13900HX envelope 15..=130"@,
        (UnsafeReason::Pl2Envelope { watts: a }).spec_text() == "PL2 "@ + decimal(a as nat)
            + "W outside 13900HX envelope 15..=157"@,
        (UnsafeReason::Pl4Envelope { watts: a }).spec_text() == "PL4 "@ + decimal(a as nat) + "W outside envelope 30..=200"@,
{
}

/// Failures and verdicts in words: the expected reading stands before the one
/// that was found, and the reason is the failure's own.
pub proof fn failures_in_words(
    expected: Evidence,
    actual: Evidence,
    reason: UnsafeReason,
    detail: FirmwareDetail,
    what: Missing,
    name: String,
    v: Verification,
)
    ensures
        control_error_text(ControlError::UnsafeRequest { reason }) == "安全校验拒绝："@ + reason.spec_text(),
        control_error_text(ControlError::FirmwareRejected { detail }) == "固件拒绝了请求："@ + detail.spec_text(),
        control_error_text(ControlError::BackendUnavailable { what }) == "后端不可用："@ + what.spec_text(),
        control_error_text(ControlError::UnknownProfile { name }) == "未知配置档："@ + name@,
        control_error_text(ControlError::VerificationFailed { expected, actual }) == "写入后回读不符：期望 "@
            + expected.spec_text() + "，读回 "@ + actual.spec_text(),
        verification_text(Verification::Failed { expected, actual }) == "验证失败：期望 "@ + expected.spec_text() + "，读回 "@
            + actual.spec_text(),
        verification_text(Verification::Verified) == "已回读验证"@,
        verification_text(Verification::Skipped) == "未验证（已跳过）"@,
        verdict_text(Verification::Failed { expected, actual }) == "FAILED (expected "@ + expected.spec_text()
            + ", actual "@ + actual.spec_text() + ")"@,
        verdict_text(Verification::Verified) == "verified"@ && verdict_text(Verification::Skipped) == "skipped"@,
        verdict_text(Verification::TrustedNoReadback) == "trusted (no readback exists)"@,
        status_line_text(ControlStatus::Applied { verification: v }) == "status: APPLIED ("@ + verdict_text(v) + ")"@,
        status_line_text(ControlStatus::Partial) == "status: PARTIAL — some steps applied, see below"@,
        status_line_text(ControlStatus::Rejected { error: ControlError::UnsafeRequest { reason } })
            == "status: REJECTED — "@ + control_error_text(ControlError::UnsafeRequest { reason }),
{
}

/// An observed value is shown with how it is known, through which channel, and
/// how long ago.
pub proof fn observed_values_in_words(value: u8, shown: Seq<char>, at: u64, source: Channel, now: u64)
    requires
        at <= now,
    ensures
        observed_text(ObservedValue::Verified { value, at, source }, shown, now) == "VERIFIED "@ + shown + " (via "@
            + source.spec_label() + ", "@ + seconds((now - at) as u64) + "s ago)"@,
        observed_text(ObservedValue::TrustedWrite { value, at }, shown, now) == "trusted-write "@ + shown + " ("@
            + seconds((now - at) as u64) + "s ago, keep-alive maintained)"@,
        observed_text(ObservedValue::<u8>::Unknown, shown, now) == "unknown"@,
{
}

/// Degrees of support, qualities and states of a provider have their own
/// words.
pub proof fn degrees_in_words(why: String)
    ensures
        support_text(Support::Supported) == "SUPPORTED"@ && support_text(Support::Experimental) == "EXPERIMENTAL"@,
        support_text(Support::Unsupported) == "unsupported"@ && support_text(Support::NotProbed) == "not-probed"@,
        scale_text(FanScale::Krpm) == "Krpm"@ && scale_text(FanScale::Unknown) == "Unknown"@,
        quality_word(MetricQuality::Fresh) == ""@ && quality_word(MetricQuality::Estimated) == "estimated"@,
        quality_word(MetricQuality::Stale) == "stale"@ && quality_word(MetricQuality::Unavailable) == "unavailable"@,
        quality_word(MetricQuality::Unsupported) == "unsupported"@,
        quality_text(MetricQuality::Fresh) == "实时"@ && quality_text(MetricQuality::Stale) == "陈旧"@,
        quality_text(MetricQuality::Unavailable) == "不可用"@ && quality_text(MetricQuality::Unsupported) == "不支持"@,
        provider_text(ProviderStatus::Healthy) == "ok"@,
        provider_text(ProviderStatus::Degraded(why)) == "DEGRADED: "@ + why@,
        provider_text(ProviderStatus::Unavailable(why)) == "UNAVAILABLE: "@ + why@,
        provider_text(ProviderStatus::Unsupported(why)) == "UNSUPPORTED: "@ + why@,
        JournalOrigin::User.spec_label() == "user"@ && JournalOrigin::Keepalive.spec_label() == "keepalive"@,
        JournalOrigin::Safety.spec_label() == "safety"@ && JournalOrigin::Shutdown.spec_label() == "shutdown"@,
{
}

/// The report on the device: who it is, line by line, and its graphics
/// processors one after the other.
pub proof fn identity_lines(id: DeviceIdentity, known: bool, elevated: bool, i: int)
    ensures
        ({
            let lines = identity_section(id, known, elevated);
            let n = id.gpus@.len();
            &&& lines.len() == n + 7
            &&& lines[1] == "-- identity --"@
            &&& lines[2] == "  product : "@ + id.product_name@
            &&& known ==> lines[3] == "  board   : "@ + id.board_id@ + " "@ + "(KNOWN)"@
            &&& !known ==> lines[3] == "  board   : "@ + id.board_id@ + " "@ + "(UNKNOWN — read-only)"@
            &&& lines[4] == "  bios    : "@ + id.bios_version@
            &&& lines[5] == "  cpu     : "@ + id.cpu@
            &&& 0 <= i < n ==> lines[6 + i] == "  gpu     : "@ + id.gpus@[i]@
            &&& lines[6 + n as int] == "  elevated: "@ + truth(elevated)
        }),
{
}

/// The report on what is supported: each capability on its own line.
pub proof fn capability_lines(c: CapabilitySet, d: SystemDesign)
    ensures
        ({
            let lines = capability_section(c);
            &&& lines.len() == 10
            &&& lines[2] == "  thermal mode (0x1A)     : "@ + support_text(c.thermal_mode)
            &&& lines[3] == "  fan rpm read (0x2D)     : "@ + support_text(c.fan_rpm_read)
            &&& lines[4] == "  fan manual level (0x2E) : "@ + support_text(c.fan_manual_level)
            &&& lines[5] == "  max fan (0x27)          : "@ + support_text(c.max_fan)
            &&& lines[6] == "  gpu platform (0x21/22)  : "@ + support_text(c.gpu_platform_policy)
            &&& lines[7] == "  mux (0x52)              : "@ + support_text(c.mux)
            &&& lines[8] == "  power limits (0x29)     : "@ + support_text(c.power_limits)
                + " (staged verification required)"@
            &&& lines[9] == "  fan: count="@ + decimal(c.fan.count as nat) + " scale="@ + scale_text(c.fan.scale)
                + " clamp="@ + maybe_level(c.fan.clamp_min) + "-"@ + maybe_level(c.fan.clamp_max) + " sw-declared="@
                + truth(c.fan.sw_control_declared)
        }),
        ({
            let lines = design_section(Some(d));
            &&& lines.len() == 3
            &&& lines[2] == "  tp_version="@ + decimal(d.thermal_policy_version as nat) + " sw_fan="@ + truth(
                d.sw_fan_control,
            ) + " default_pl4="@ + decimal(d.default_pl4_w as nat) + "W mux_byte=0x"@ + hex_byte(d.mux_byte)
                + " mux_supported="@ + truth(d.mux_supported)
        }),
        design_section(None).len() == 0,
        d.mux_byte < 16 ==> hex_byte(d.mux_byte) == "0"@ + numeral(d.mux_byte as nat, 16),
        d.mux_byte >= 16 ==> hex_byte(d.mux_byte) == ""@ + numeral(d.mux_byte as nat, 16),
{
}

/// The report on the fan table: every entry under its number, left before
/// right, and the range it comes to.
pub proof fn table_lines(t: FanTable, i: int)
    ensures
        ({
            let lines = table_section(Some(t));
            let n = t.entries@.len();
            let e = t.entries@[i];
            &&& lines.len() == n + 4
            &&& lines[2] == "  num_fans="@ + decimal(t.num_fans as nat) + " entries="@ + decimal(n)
            &&& 0 <= i < n ==> lines[3 + i] == "    ["@ + decimal(i as nat) + "] left="@ + decimal(e.left as nat)
                + " right="@ + decimal(e.right as nat) + " noise="@ + decimal(e.noise_db as nat) + "dB"@
            &&& t.clamp is Some ==> lines[3 + n as int] == "  clamp: Some(("@ + decimal(t.clamp->Some_0.lo as nat) + ", "@
                + decimal(t.clamp->Some_0.hi as nat) + "))"@
            &&& t.clamp is None ==> lines[3 + n as int] == "  clamp: None"@
        }),
        table_section(None).len() == 0,
{
}

/// The report on what was read: only what was, in order.
pub proof fn reading_lines(l: FanLevels, p: GpuPlatformPolicy, m: MuxMode, v: bool)
    ensures
        readings_section(None, None, None, None).len() == 0,
        readings_section(Some(l), Some(p), Some(m), Some(v)) == seq![
            ""@,
            "-- fan levels (0x2D) --"@,
            levels_line_text(l),
            ""@,
            "-- gpu platform policy (0x21) --"@,
            gpu_line_text(p),
            ""@,
            "-- mux (0x52) --"@,
            mux_text(m),
            ""@,
            "-- 0x26 max fan (DIAGNOSTICS ONLY, unreliable) --"@,
            "  reads: "@ + truth(v),
        ],
        readings_section(Some(l), None, None, None) == seq![""@, "-- fan levels (0x2D) --"@, levels_line_text(l)],
        readings_section(None, Some(p), None, None) == seq![""@, "-- gpu platform policy (0x21) --"@, gpu_line_text(p)],
        readings_section(None, None, Some(m), None) == seq![""@, "-- mux (0x52) --"@, mux_text(m)],
{
    assert(readings_section(Some(l), Some(p), Some(m), Some(v)) =~= seq![
        ""@,
        "-- fan levels (0x2D) --"@,
        levels_line_text(l),
        ""@,
        "-- gpu platform policy (0x21) --"@,
        gpu_line_text(p),
        ""@,
        "-- mux (0x52) --"@,
        mux_text(m),
        ""@,
        "-- 0x26 max fan (DIAGNOSTICS ONLY, unreliable) --"@,
        "  reads: "@ + truth(v),
    ]);
    assert(readings_section(Some(l), None, None, None) =~= seq![""@, "-- fan levels (0x2D) --"@, levels_line_text(l)]);
    assert(readings_section(None, Some(p), None, None) =~= seq![
        ""@,
        "-- gpu platform policy (0x21) --"@,
        gpu_line_text(p),
    ]);
    assert(readings_section(None, None, Some(m), None) =~= seq![""@, "-- mux (0x52) --"@, mux_text(m)]);
}

/// The report on the processor: the energy preferences where both were read,
/// and the ceiling, of which zero means none.
pub proof fn processor_lines(ac: u8, dc: u8, other: Option<u8>, mhz: u32)
    ensures
        ({
            let lines = ppm_section(Some(ac), Some(dc), Some(mhz));
            &&& lines.len() == 4
            &&& lines[2] == "  EPP: AC="@ + decimal(ac as nat) + "% DC="@ + decimal(dc as nat)
                + "% (0=max perf, 100=max efficiency)"@
            &&& mhz == 0 ==> lines[3] == "  max freq ceiling: unlimited"@
            &&& mhz > 0 ==> lines[3] == "  max freq ceiling: "@ + decimal(mhz as nat) + " MHz"@
        }),
        ppm_section(None, other, None)[2] == "  EPP: unreadable"@ && ppm_section(other, None, None)[2]
            == "  EPP: unreadable"@,
        ppm_section(other, other, None)[3] == "  max freq ceiling: unreadable"@,
{
}

/// The report on the providers and the notes: one line each, in order, and no
/// heading for no notes. The whole report is its parts, one after the other.
pub proof fn report_lines(
    id: DeviceIdentity,
    r: ProbeReport,
    table: Option<FanTable>,
    smoke: Seq<SmokeRow>,
    notes: Seq<ProbeNote>,
    i: int,
)
    ensures
        ({
            let lines = smoke_section(smoke);
            let row = smoke[i];
            &&& lines.len() == smoke.len() + 2
            &&& 0 <= i < smoke.len() ==> lines[2 + i] == "  "@ + left_aligned(row.provider@, 18) + " "@ + left_aligned(
                row.status@,
                5,
            ) + " "@ + (if row.detail is Some { row.detail->Some_0@ } else { ""@ })
        }),
        ({
            let lines = notes_section(notes);
            &&& notes.len() == 0 ==> lines.len() == 0
            &&& notes.len() > 0 ==> lines.len() == notes.len() + 2
            &&& 0 <= i < notes.len() ==> lines[2 + i] == "  * "@ + notes[i].spec_text()
        }),
        report_text(id, r, table, smoke) == identity_section(id, r.known_board, r.elevated) + capability_section(
            r.capabilities,
        ) + design_section(r.design) + table_section(table) + readings_section(
            r.fan_levels,
            r.gpu_platform_policy,
            r.mux,
            r.max_fan_diag,
        ) + ppm_section(r.epp_ac, r.epp_dc, r.max_freq_mhz) + smoke_section(smoke) + notes_section(r.notes@),
{
}

/// Numbers with a sign, sizes in bytes and optional levels.
pub proof fn small_numbers_in_words(n: i32, mib: u64, level: u16, v: i64, what: Seq<char>)
    ensures
        n < 0 ==> signed(n) == "-"@ + decimal((-n) as nat),
        n >= 0 ==> signed(n) == decimal(n as nat),
        failure_text(n, what) == what + " failed: CUresult="@ + signed(n),
        mib < 0x1000_0000_0000 ==> buffer_bytes_of(mib) == mib * 1_048_576,
        maybe_level(Some(level)) == "Some("@ + decimal(level as nat) + ")"@ && maybe_level(None) == "None"@,
        v < 0 ==> sign(v) == "-"@,
        v >= 0 ==> sign(v) == ""@,
{
    reveal_strlit("");
    if n >= 0 {
        assert(signed(n) =~= decimal(n as nat));
    }
}

/// A profile is listed by its name, where it comes from, and what it is for.
pub proof fn profiles_in_words(e: ProfileEntry)
    ensures
        e.builtin ==> crate::cli::profile::entry_line(e) == left_aligned(e.name@, 16) + " built-in  "@
            + e.profile.description@,
        !e.builtin ==> crate::cli::profile::entry_line(e) == left_aligned(e.name@, 16) + " user      "@
            + e.profile.description@,
{
}

/// A file's path is its directory and its name with one separator between
/// them, unless the directory brings its own or there is none.
pub proof fn paths_are_joined(base: Seq<char>, name: Seq<char>)
    ensures
        base.len() == 0 || base.last() == '/' || base.last() == '\\' ==> joined(base, name) == base + name,
        base.len() > 0 && base.last() != '/' && base.last() != '\\' ==> joined(base, name) == base.push('/') + name,
{
    reveal_strlit("/");
    assert(base + "/"@ =~= base.push('/'));
}

/// A name resolves to the first entry that has it, and is built in if that
/// entry is.
pub proof fn names_resolve_to_the_first_entry(r: ProfileRegistry, name: Seq<char>, k: int)
    requires
        0 <= k <= r.entries@.len(),
        forall|i: int| 0 <= i < k ==> (#[trigger] r.entries@[i]).name@ != name,
        k < r.entries@.len() ==> r.entries@[k].name@ == name,
    ensures
        k < r.entries@.len() ==> r.lookup(name) == Some(r.entries@[k].profile) && r.holds_builtin(name)
            == r.entries@[k].builtin,
        k == r.entries@.len() ==> r.lookup(name) is None && !r.holds_builtin(name),
{
    crate::domain::profile::name_index_unique(r.entries@, name, k);
}

/// A session goes on under the power scheme in which it began, where that is
/// known.
pub proof fn sessions_keep_their_scheme(c: ControlCoordinator, scheme: Option<String>)
    ensures
        ({
            let began = c.scoped_session->Some_0.scheme;
            scheme_kept(c, scheme) <==> c.scoped_session is None || began is None || (scheme is Some
                && scheme->Some_0@ == began->Some_0@)
        }),
{
}

/// At first nothing is known and nothing is wished for.
pub proof fn nothing_is_known_at_first()
    ensures
        ({
            let o = ObservedState::spec_blank();
            let d = DesiredState::spec_blank();
            &&& o.epp_ac is Unknown && o.epp_dc is Unknown && o.epp1_ac is Unknown && o.epp1_dc is Unknown
            &&& o.max_freq_ac is Unknown && o.max_freq_dc is Unknown && o.boost_ac is Unknown && o.boost_dc is Unknown
            &&& o.min_performance_ac is Unknown && o.min_performance_dc is Unknown
            &&& o.max_performance_ac is Unknown && o.max_performance_dc is Unknown
            &&& o.gpu_platform_policy is Unknown && o.thermal_mode is Unknown && o.fan_mode is Unknown
            &&& o.max_fan is Unknown && o.power_limits is Unknown && o.mux is Unknown && o.mux_status is None
            &&& !o.mux_write_verified && o.active_profile is None && o.control_notice is None
            &&& d.profile is None && d.thermal_mode is None && d.fan_mode is None && d.cpu_policy is None
            &&& d.gpu_platform_policy is None && d.power_limits is None
        }),
        ({
            let c = CapabilitySet::spec_unknown();
            &&& !c.known_board && !c.ppm.write_privileged && !c.fan.sw_control_declared
            &&& c.thermal_mode is NotProbed && c.fan_rpm_read is NotProbed && c.fan_manual_level is NotProbed
            &&& c.max_fan is NotProbed && c.gpu_platform_policy is NotProbed && c.mux is NotProbed
            &&& c.power_limits is NotProbed && c.ppm.epp is NotProbed && c.ppm.epp1 is NotProbed
            &&& c.ppm.max_freq is NotProbed && c.fan.count == 0 && c.fan.scale is Unknown
            &&& c.fan.clamp_min is None && c.fan.clamp_max is None
        }),
{
}

/// Every step is told by its own name.
pub proof fn steps_have_their_names()
    ensures
        Step::SetThermalMode.spec_label() == "set_thermal_mode"@,
        Step::MaxFanOff.spec_label() == "max-fan off (0x27 0)"@,
        Step::FanToAuto.spec_label() == "fan->auto (0x2E {0,0})"@,
        Step::MaxFanOn.spec_label() == "max-fan on (0x27 1)"@,
        Step::MaxFanOffBeforeManual.spec_label() == "max-fan off before manual"@,
        Step::SetManualLevels.spec_label() == "set manual fan levels"@,
        Step::VerifyFanLevels.spec_label() == "verify fan levels (0x2D)"@,
        Step::MaxFanOffBeforeCurve.spec_label() == "max-fan off before curve"@,
        Step::SetCurveTarget.spec_label() == "set fan curve target"@,
        Step::ActivateCurve.spec_label() == "activate fan curve"@,
        Step::UpdateCurveTarget.spec_label() == "update fan curve target"@,
        Step::ReadGpuPolicy.spec_label() == "read gpu policy (0x21)"@,
        Step::SetGpuPolicy.spec_label() == "set gpu policy"@,
        Step::VerifyGpuPolicy.spec_label() == "verify gpu policy (0x21)"@,
        Step::CapturePowerBaseline.spec_label() == "capture power-limits baseline (MSR 0x610)"@,
        Step::SetPowerLimits.spec_label() == "set power limits"@,
        Step::VerifyPowerLimits.spec_label() == "verify power limits (MSR 0x610)"@,
        Step::VerifyPowerLimitsPl4.spec_label() == "verify power limits (MSR 0x610 + MCHBAR 0x59B0)"@,
        Step::WriteKnob(Knob::Epp).spec_label() == "write EPP"@,
        Step::WriteKnob(Knob::Epp1).spec_label() == "write EPP1 (class-1)"@,
        Step::WriteKnob(Knob::MaxFrequency).spec_label() == "write max frequency"@,
        Step::WriteKnob(Knob::MinPerformance).spec_label() == "write minimum performance"@,
        Step::WriteKnob(Knob::MaxPerformance).spec_label() == "write maximum performance"@,
        Step::WriteKnob(Knob::Boost).spec_label() == "write boost policy"@,
        Step::SafetyMaxFanOn.spec_label() == "SAFETY max-fan on"@,
        Step::SafetyMaxFanOff.spec_label() == "SAFETY max-fan off"@,
        Step::SafetyRearmMaxFan.spec_label() == "SAFETY re-arm max-fan"@,
        Step::RestoreMaxFanOff.spec_label() == "restore max-fan off"@,
        Step::RestoreFanAuto.spec_label() == "restore fan auto"@,
        Step::RestoreFallbackMaxFan.spec_label() == "restore fallback max-fan on"@,
        Step::RestoreGpuPolicy.spec_label() == "restore gpu policy (startup value)"@,
        Step::RestorePowerLimits.spec_label() == "restore power limits (captured baseline)"@,
        Step::RestoreThermal.spec_label() == "restore thermal balanced"@,
        Step::RequestMuxReboot.spec_label() == "request_mux_reboot"@,
{
}

/// Every step is told with the interface that it goes through.
pub proof fn steps_have_their_interface()
    ensures
        Step::SetThermalMode.spec_backend() == "hp-wmi 0x1A"@,
        Step::RestoreThermal.spec_backend() == "hp-wmi 0x1A"@,
        Step::MaxFanOff.spec_backend() == "hp-wmi 0x27"@,
        Step::MaxFanOn.spec_backend() == "hp-wmi 0x27"@,
        Step::MaxFanOffBeforeManual.spec_backend() == "hp-wmi 0x27"@,
        Step::MaxFanOffBeforeCurve.spec_backend() == "hp-wmi 0x27"@,
        Step::SafetyMaxFanOn.spec_backend() == "hp-wmi 0x27"@,
        Step::SafetyMaxFanOff.spec_backend() == "hp-wmi 0x27"@,
        Step::SafetyRearmMaxFan.spec_backend() == "hp-wmi 0x27"@,
        Step::RestoreMaxFanOff.spec_backend() == "hp-wmi 0x27"@,
        Step::RestoreFallbackMaxFan.spec_backend() == "hp-wmi 0x27"@,
        Step::FanToAuto.spec_backend() == "hp-wmi 0x2E"@,
        Step::SetManualLevels.spec_backend() == "hp-wmi 0x2E"@,
        Step::SetCurveTarget.spec_backend() == "hp-wmi 0x2E"@,
        Step::UpdateCurveTarget.spec_backend() == "hp-wmi 0x2E"@,
        Step::RestoreFanAuto.spec_backend() == "hp-wmi 0x2E"@,
        Step::VerifyFanLevels.spec_backend() == "hp-wmi 0x2D"@,
        Step::ActivateCurve.spec_backend() == "phelper curve + hp-wmi 0x2E"@,
        Step::ReadGpuPolicy.spec_backend() == "hp-wmi 0x21"@,
        Step::VerifyGpuPolicy.spec_backend() == "hp-wmi 0x21"@,
        Step::SetGpuPolicy.spec_backend() == "hp-wmi 0x22"@,
        Step::RestoreGpuPolicy.spec_backend() == "hp-wmi 0x22"@,
        Step::CapturePowerBaseline.spec_backend() == "pawnio telemetry feed"@,
        Step::VerifyPowerLimits.spec_backend() == "pawnio telemetry feed"@,
        Step::VerifyPowerLimitsPl4.spec_backend() == "pawnio telemetry feed"@,
        Step::SetPowerLimits.spec_backend() == "hp-wmi 0x29"@,
        Step::RestorePowerLimits.spec_backend() == "hp-wmi 0x29"@,
        Step::WriteKnob(Knob::Epp).spec_backend() == "powrprof PERFEPP"@,
        Step::WriteKnob(Knob::Epp1).spec_backend() == "powrprof PERFEPP1"@,
        Step::WriteKnob(Knob::MaxFrequency).spec_backend() == "powrprof PROCFREQMAX"@,
        Step::WriteKnob(Knob::MinPerformance).spec_backend() == "powrprof PROCTHROTTLEMIN"@,
        Step::WriteKnob(Knob::MaxPerformance).spec_backend() == "powrprof PROCTHROTTLEMAX"@,
        Step::WriteKnob(Knob::Boost).spec_backend() == "powrprof PERFBOOSTMODE"@,
        Step::RequestMuxReboot.spec_backend() == "hp-wmi 0x02/0x52"@,
{
}

/// Every channel is told by its own name.
pub proof fn channels_have_their_names()
    ensures
        Channel::Ppm(Knob::Epp).spec_label() == "powrprof PERFEPP"@,
        Channel::Ppm(Knob::Epp1).spec_label() == "powrprof PERFEPP1"@,
        Channel::Ppm(Knob::MaxFrequency).spec_label() == "powrprof PROCFREQMAX"@,
        Channel::Ppm(Knob::MinPerformance).spec_label() == "powrprof PROCTHROTTLEMIN"@,
        Channel::Ppm(Knob::MaxPerformance).spec_label() == "powrprof PROCTHROTTLEMAX"@,
        Channel::Ppm(Knob::Boost).spec_label() == "powrprof PERFBOOSTMODE"@,
        Channel::FanLevels.spec_label() == "hp-wmi 0x2D"@,
        Channel::GpuPolicy.spec_label() == "hp-wmi 0x21"@,
        Channel::GpuPolicyRestoration.spec_label() == "hp-wmi 0x21 restoration"@,
        Channel::PowerLimits.spec_label() == "MSR 0x610 / MCHBAR 0x59B0"@,
        Channel::PowerLimitsRestoration.spec_label() == "MSR 0x610 / MCHBAR 0x59B0 restoration"@,
        Channel::Mux.spec_label() == "hp-wmi 0x52"@,
        Channel::MuxProbe.spec_label() == "hp-wmi 0x52 initial probe"@,
{
}

/// Every provider is told by its own name.
pub proof fn providers_have_their_names()
    ensures
        Provider::CpuSilicon.spec_label() == "pawnio/cpu-silicon"@,
        Provider::Gpu.spec_label() == "nvapi/gpu"@,
        Provider::WindowsCounters.spec_label() == "windows/pdh"@,
        Provider::Battery.spec_label() == "windows/battery"@,
        Provider::ProcessorSettings.spec_label() == "windows/ppm"@,
        Provider::Fans.spec_label() == "hp-wmi/fans"@,
{
}

/// Every boost policy is told by its own name.
pub proof fn boost_policies_have_their_names()
    ensures
        BoostPolicy::Disabled.spec_text() == "Disabled"@,
        BoostPolicy::Enabled.spec_text() == "Enabled"@,
        BoostPolicy::Aggressive.spec_text() == "Aggressive"@,
        BoostPolicy::EfficientEnabled.spec_text() == "EfficientEnabled"@,
        BoostPolicy::EfficientAggressive.spec_text() == "EfficientAggressive"@,
        BoostPolicy::AggressiveGuaranteed.spec_text() == "AggressiveGuaranteed"@,
        BoostPolicy::EfficientAggressiveGuaranteed.spec_text() == "EfficientAggressiveGuaranteed"@,
{
}

} // verus!
