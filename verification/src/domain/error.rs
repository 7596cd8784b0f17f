//! Errors of the firmware, the operating system and the control plane.
use vstd::prelude::*;

use super::evidence::Evidence;
use super::mux_status::MuxStatus;
use crate::text::{decimal, decimal_text};

verus! {

/// Failure of one firmware call.
#[derive(Debug, PartialEq)]
pub enum HpWmiError {
    /// The firmware answered with a nonzero return code.
    FirmwareReturnCode { code: u32 },
    /// No answer in time: the call may still take effect.
    Timeout,
    /// The request was refused before it reached the firmware.
    InvalidInput(String),
    /// The interface does not exist on this machine.
    NotAvailable(String),
    /// The transport failed: the call may have taken effect.
    Transport(String),
}

impl Clone for HpWmiError {
    fn clone(&self) -> (r: Self)
        ensures
            r == *self,
    {
        match self {
            HpWmiError::FirmwareReturnCode { code } => HpWmiError::FirmwareReturnCode { code: *code },
            HpWmiError::Timeout => HpWmiError::Timeout,
            HpWmiError::InvalidInput(s) => HpWmiError::InvalidInput(s.clone()),
            HpWmiError::NotAvailable(s) => HpWmiError::NotAvailable(s.clone()),
            HpWmiError::Transport(s) => HpWmiError::Transport(s.clone()),
        }
    }
}

impl HpWmiError {
    pub open spec fn spec_text(self) -> Seq<char> {
        match self {
            HpWmiError::FirmwareReturnCode { code } => "bios rc="@ + decimal(code as nat),
            HpWmiError::Timeout => "timeout"@,
            HpWmiError::InvalidInput(s) => s@,
            HpWmiError::NotAvailable(s) => s@,
            HpWmiError::Transport(s) => s@,
        }
    }

    /// The error in words.
    pub fn text(&self) -> (r: String)
        ensures
            r@ == self.spec_text(),
    {
        match self {
            HpWmiError::FirmwareReturnCode { code } => {
                let mut s = String::from_str("bios rc=");
                s.append(decimal_text(*code as u64).as_str());
                s
            },
            HpWmiError::Timeout => String::from_str("timeout"),
            HpWmiError::InvalidInput(s) => s.clone(),
            HpWmiError::NotAvailable(s) => s.clone(),
            HpWmiError::Transport(s) => s.clone(),
        }
    }

    /// The interface refused the request, so nothing was written.
    pub open spec fn spec_definite_rejection(self) -> bool {
        self is FirmwareReturnCode || self is InvalidInput || self is NotAvailable
    }
}

/// Failure of one operating-system call.
#[derive(Debug, PartialEq)]
pub struct PlatformError {
    pub what: String,
}

impl Clone for PlatformError {
    fn clone(&self) -> (r: Self)
        ensures
            r == *self,
    {
        PlatformError { what: self.what.clone() }
    }
}

/// What a list of profile commands is called.
#[derive(Debug, PartialEq)]
pub enum ProfileName {
    Registered(String),
    /// A profile that is being edited.
    Draft,
    /// The restore of an automatic session.
    SessionRestore,
    /// The restore that comes before a manual command takes over.
    TakeOver,
}

impl Clone for ProfileName {
    fn clone(&self) -> (r: Self)
        ensures
            r == *self,
    {
        match self {
            ProfileName::Registered(name) => ProfileName::Registered(name.clone()),
            ProfileName::Draft => ProfileName::Draft,
            ProfileName::SessionRestore => ProfileName::SessionRestore,
            ProfileName::TakeOver => ProfileName::TakeOver,
        }
    }
}

impl ProfileName {
    pub open spec fn spec_text(self) -> Seq<char> {
        match self {
            ProfileName::Registered(name) => name@,
            ProfileName::Draft => "编辑中的配置"@,
            ProfileName::SessionRestore => "会话恢复"@,
            ProfileName::TakeOver => "手动接管前恢复"@,
        }
    }

    /// The name in words.
    pub fn text(&self) -> (r: String)
        ensures
            r@ == self.spec_text(),
    {
        match self {
            ProfileName::Registered(name) => name.clone(),
            ProfileName::Draft => String::from_str("编辑中的配置"),
            ProfileName::SessionRestore => String::from_str("会话恢复"),
            ProfileName::TakeOver => String::from_str("手动接管前恢复"),
        }
    }
}

/// Why a request was refused as unsafe.
#[derive(Debug, PartialEq)]
pub enum UnsafeReason {
    ConcurrentLimit,
    Pl1Envelope { watts: u8 },
    Pl2Envelope { watts: u8 },
    Pl2BelowPl1 { pl2: u8, pl1: u8 },
    Pl4Envelope { watts: u8 },
    PowerReadbackStale,
    Pl4ReadbackStale,
    DStateRange { dstate: u8 },
    SlowdownBand { celsius: u8 },
    EmptyGpuPatch,
    EppRange { value: u8 },
    Epp1Range { value: u8 },
    MaxFrequencyBand { mhz: u32 },
    ThermalOverrideActive,
    MaxFanOn,
    NoFanClamp,
    FanLevelClamp { right: bool, level: u16, low: u16, high: u16 },
    NoFreshTemperature,
    NoFreshCurveTemperature,
    InvalidCurve,
    SessionNotRestored,
    ScopeExpired,
    SchemeChanged,
    PowerBaselineStale,
    Pl4BaselineStale,
    LedgerOfOtherDevice,
    EmptyProfile { name: ProfileName },
    MuxBlocked { status: MuxStatus },
    MuxAlreadySelected,
    MuxNotProven,
    ExperimentalNotBuilt,
    PowerLimitsNotExperimental,
    Refused { text: String },
}

impl Clone for UnsafeReason {
    fn clone(&self) -> (r: Self)
        ensures
            r == *self,
    {
        match self {
            UnsafeReason::ConcurrentLimit => UnsafeReason::ConcurrentLimit,
            UnsafeReason::Pl1Envelope { watts } => UnsafeReason::Pl1Envelope { watts: *watts },
            UnsafeReason::Pl2Envelope { watts } => UnsafeReason::Pl2Envelope { watts: *watts },
            UnsafeReason::Pl2BelowPl1 { pl2, pl1 } => UnsafeReason::Pl2BelowPl1 { pl2: *pl2, pl1: *pl1 },
            UnsafeReason::Pl4Envelope { watts } => UnsafeReason::Pl4Envelope { watts: *watts },
            UnsafeReason::PowerReadbackStale => UnsafeReason::PowerReadbackStale,
            UnsafeReason::Pl4ReadbackStale => UnsafeReason::Pl4ReadbackStale,
            UnsafeReason::DStateRange { dstate } => UnsafeReason::DStateRange { dstate: *dstate },
            UnsafeReason::SlowdownBand { celsius } => UnsafeReason::SlowdownBand { celsius: *celsius },
            UnsafeReason::EmptyGpuPatch => UnsafeReason::EmptyGpuPatch,
            UnsafeReason::EppRange { value } => UnsafeReason::EppRange { value: *value },
            UnsafeReason::Epp1Range { value } => UnsafeReason::Epp1Range { value: *value },
            UnsafeReason::MaxFrequencyBand { mhz } => UnsafeReason::MaxFrequencyBand { mhz: *mhz },
            UnsafeReason::ThermalOverrideActive => UnsafeReason::ThermalOverrideActive,
            UnsafeReason::MaxFanOn => UnsafeReason::MaxFanOn,
            UnsafeReason::NoFanClamp => UnsafeReason::NoFanClamp,
            UnsafeReason::FanLevelClamp { right, level, low, high } => UnsafeReason::FanLevelClamp {
                right: *right,
                level: *level,
                low: *low,
                high: *high,
            },
            UnsafeReason::NoFreshTemperature => UnsafeReason::NoFreshTemperature,
            UnsafeReason::NoFreshCurveTemperature => UnsafeReason::NoFreshCurveTemperature,
            UnsafeReason::InvalidCurve => UnsafeReason::InvalidCurve,
            UnsafeReason::SessionNotRestored => UnsafeReason::SessionNotRestored,
            UnsafeReason::ScopeExpired => UnsafeReason::ScopeExpired,
            UnsafeReason::SchemeChanged => UnsafeReason::SchemeChanged,
            UnsafeReason::PowerBaselineStale => UnsafeReason::PowerBaselineStale,
            UnsafeReason::Pl4BaselineStale => UnsafeReason::Pl4BaselineStale,
            UnsafeReason::LedgerOfOtherDevice => UnsafeReason::LedgerOfOtherDevice,
            UnsafeReason::EmptyProfile { name } => UnsafeReason::EmptyProfile { name: name.clone() },
            UnsafeReason::MuxBlocked { status } => UnsafeReason::MuxBlocked { status: status.clone() },
            UnsafeReason::MuxAlreadySelected => UnsafeReason::MuxAlreadySelected,
            UnsafeReason::MuxNotProven => UnsafeReason::MuxNotProven,
            UnsafeReason::ExperimentalNotBuilt => UnsafeReason::ExperimentalNotBuilt,
            UnsafeReason::PowerLimitsNotExperimental => UnsafeReason::PowerLimitsNotExperimental,
            UnsafeReason::Refused { text } => UnsafeReason::Refused { text: text.clone() },
        }
    }
}

impl UnsafeReason {
    pub open spec fn spec_text(self) -> Seq<char> {
        match self {
            UnsafeReason::ConcurrentLimit =>
                "cpu_gpu_concurrent writes are unverified on 8BAB; set 0 (= leave unchanged, wire 0xFF)"@,
            UnsafeReason::Pl1Envelope { watts } =>
                "PL1 "@ + decimal(watts as nat) + "W outside 13900HX envelope 15..=130"@,
            UnsafeReason::Pl2Envelope { watts } =>
                "PL2 "@ + decimal(watts as nat) + "W outside 13900HX envelope 15..=157"@,
            UnsafeReason::Pl2BelowPl1 { pl2, pl1 } =>
                "PL2 "@ + decimal(pl2 as nat) + "W < PL1 "@ + decimal(pl1 as nat) + "W"@,
            UnsafeReason::Pl4Envelope { watts } =>
                "PL4 "@ + decimal(watts as nat) + "W outside envelope 30..=200"@,
            UnsafeReason::PowerReadbackStale =>
                "no fresh 0x610 power-limit sample; refusing an unrestorable write"@,
            UnsafeReason::Pl4ReadbackStale =>
                "no fresh MCHBAR PL4 sample; refusing an unverifiable write"@,
            UnsafeReason::DStateRange { dstate } =>
                "dstate "@ + decimal(dstate as nat) + " out of range 1..=4 (100/50/25/12.5%)"@,
            UnsafeReason::SlowdownBand { celsius } =>
                "gpu slowdown temp "@ + decimal(celsius as nat)
                    + "°C outside plausible band 30..=110 (0 = preserve board-absent value)"@,
            UnsafeReason::EmptyGpuPatch => "gpu policy patch has no fields"@,
            UnsafeReason::EppRange { value } => "EPP "@ + decimal(value as nat) + " out of range 0..=100"@,
            UnsafeReason::Epp1Range { value } => "EPP1 "@ + decimal(value as nat) + " out of range 0..=100"@,
            UnsafeReason::MaxFrequencyBand { mhz } =>
                "max frequency "@ + decimal(mhz as nat) + " MHz outside 0|400..=6000"@,
            UnsafeReason::ThermalOverrideActive =>
                "thermal override active (max fan forced); cool down first"@,
            UnsafeReason::MaxFanOn => "max fan is on; return to automatic before manual levels"@,
            UnsafeReason::NoFanClamp => "no fan clamp range known (0x2F table + profile both failed)"@,
            UnsafeReason::FanLevelClamp { right, level, low, high } =>
                (if right { "right"@ } else { "left"@ }) + " fan level "@ + decimal(level as nat)
                    + " outside clamp "@ + decimal(low as nat) + "..="@ + decimal(high as nat)
                    + " (x100 RPM)"@,
            UnsafeReason::NoFreshTemperature =>
                "no fresh CPU temperature sample (≤5s); refusing blind manual fan control"@,
            UnsafeReason::NoFreshCurveTemperature =>
                "no fresh CPU temperature sample (≤5s); refusing blind fan curve control"@,
            UnsafeReason::InvalidCurve => "fan curve points need levels on both channels, rising in temperature and never falling in level"@,
            UnsafeReason::SessionNotRestored => "上次会话尚未恢复，请先执行恢复"@,
            UnsafeReason::ScopeExpired => "自动会话标识已过期"@,
            UnsafeReason::SchemeChanged => "Windows 电源计划已改变；请切回接管时的计划后恢复"@,
            UnsafeReason::PowerBaselineStale => "功率基线已过期"@,
            UnsafeReason::Pl4BaselineStale => "PL4 基线已过期"@,
            UnsafeReason::LedgerOfOtherDevice => "恢复记录的主板或 BIOS 与当前设备不同，需要重新核验"@,
            UnsafeReason::EmptyProfile { name } => "profile '"@ + name.spec_text() + "' has no actions"@,
            UnsafeReason::MuxBlocked { status } => status.spec_text(),
            UnsafeReason::MuxAlreadySelected => "固件已报告该模式，无需再次请求"@,
            UnsafeReason::MuxNotProven => "本机 MUX 尚未完成双向重启验证；桌面写入未开放"@,
            UnsafeReason::ExperimentalNotBuilt => "该配置档包含实验性功耗墙（0x29），本构建未启用 experimental-hp-power-limits"@,
            UnsafeReason::PowerLimitsNotExperimental => "本平台未将 0x29 功耗墙标记为 Experimental，拒绝应用"@,
            UnsafeReason::Refused { text } => text@,
        }
    }

    /// The reason in words.
    pub fn text(&self) -> (r: String)
        ensures
            r@ == self.spec_text(),
    {
        match self {
            UnsafeReason::ConcurrentLimit => String::from_str(
                "cpu_gpu_concurrent writes are unverified on 8BAB; set 0 (= leave unchanged, wire 0xFF)",
            ),
            UnsafeReason::Pl1Envelope { watts } => numbered("PL1 ", *watts as u64, "W outside 13900HX envelope 15..=130"),
            UnsafeReason::Pl2Envelope { watts } => numbered("PL2 ", *watts as u64, "W outside 13900HX envelope 15..=157"),
            UnsafeReason::Pl2BelowPl1 { pl2, pl1 } => {
                let mut s = numbered("PL2 ", *pl2 as u64, "W < PL1 ");
                s.append(decimal_text(*pl1 as u64).as_str());
                s.append("W");
                s
            },
            UnsafeReason::Pl4Envelope { watts } => numbered("PL4 ", *watts as u64, "W outside envelope 30..=200"),
            UnsafeReason::PowerReadbackStale => String::from_str(
                "no fresh 0x610 power-limit sample; refusing an unrestorable write",
            ),
            UnsafeReason::Pl4ReadbackStale => String::from_str(
                "no fresh MCHBAR PL4 sample; refusing an unverifiable write",
            ),
            UnsafeReason::DStateRange { dstate } => numbered("dstate ", *dstate as u64, " out of range 1..=4 (100/50/25/12.5%)"),
            UnsafeReason::SlowdownBand { celsius } => numbered(
                "gpu slowdown temp ",
                *celsius as u64,
                "°C outside plausible band 30..=110 (0 = preserve board-absent value)",
            ),
            UnsafeReason::EmptyGpuPatch => String::from_str("gpu policy patch has no fields"),
            UnsafeReason::EppRange { value } => numbered("EPP ", *value as u64, " out of range 0..=100"),
            UnsafeReason::Epp1Range { value } => numbered("EPP1 ", *value as u64, " out of range 0..=100"),
            UnsafeReason::MaxFrequencyBand { mhz } => numbered("max frequency ", *mhz as u64, " MHz outside 0|400..=6000"),
            UnsafeReason::ThermalOverrideActive => String::from_str(
                "thermal override active (max fan forced); cool down first",
            ),
            UnsafeReason::MaxFanOn => String::from_str("max fan is on; return to automatic before manual levels"),
            UnsafeReason::NoFanClamp => String::from_str("no fan clamp range known (0x2F table + profile both failed)"),
            UnsafeReason::FanLevelClamp { right, level, low, high } => {
                let mut s = String::from_str(if *right { "right" } else { "left" });
                s.append(" fan level ");
                s.append(decimal_text(*level as u64).as_str());
                s.append(" outside clamp ");
                s.append(decimal_text(*low as u64).as_str());
                s.append("..=");
                s.append(decimal_text(*high as u64).as_str());
                s.append(" (x100 RPM)");
                s
            },
            UnsafeReason::NoFreshTemperature => String::from_str(
                "no fresh CPU temperature sample (≤5s); refusing blind manual fan control",
            ),
            UnsafeReason::NoFreshCurveTemperature => String::from_str(
                "no fresh CPU temperature sample (≤5s); refusing blind fan curve control",
            ),
            UnsafeReason::InvalidCurve => String::from_str(
                "fan curve points need levels on both channels, rising in temperature and never falling in level",
            ),
            UnsafeReason::SessionNotRestored => String::from_str("上次会话尚未恢复，请先执行恢复"),
            UnsafeReason::ScopeExpired => String::from_str("自动会话标识已过期"),
            UnsafeReason::SchemeChanged => String::from_str("Windows 电源计划已改变；请切回接管时的计划后恢复"),
            UnsafeReason::PowerBaselineStale => String::from_str("功率基线已过期"),
            UnsafeReason::Pl4BaselineStale => String::from_str("PL4 基线已过期"),
            UnsafeReason::LedgerOfOtherDevice => String::from_str("恢复记录的主板或 BIOS 与当前设备不同，需要重新核验"),
            UnsafeReason::EmptyProfile { name } => {
                let mut s = String::from_str("profile '");
                s.append(name.text().as_str());
                s.append("' has no actions");
                s
            },
            UnsafeReason::MuxBlocked { status } => status.text(),
            UnsafeReason::MuxAlreadySelected => String::from_str("固件已报告该模式，无需再次请求"),
            UnsafeReason::MuxNotProven => String::from_str("本机 MUX 尚未完成双向重启验证；桌面写入未开放"),
            UnsafeReason::ExperimentalNotBuilt => String::from_str("该配置档包含实验性功耗墙（0x29），本构建未启用 experimental-hp-power-limits"),
            UnsafeReason::PowerLimitsNotExperimental => String::from_str("本平台未将 0x29 功耗墙标记为 Experimental，拒绝应用"),
            UnsafeReason::Refused { text } => text.clone(),
        }
    }
}

/// `head`, the decimal numeral of `n`, `tail`.
fn numbered(head: &str, n: u64, tail: &str) -> (r: String)
    ensures
        r@ == head@ + decimal(n as nat) + tail@,
{
    let mut s = String::from_str(head);
    s.append(decimal_text(n).as_str());
    s.append(tail);
    s
}

/// What exactly the firmware refused.
#[derive(Clone, Copy, Debug, PartialEq, Eq, Structural)]
pub enum FirmwareDetail {
    ReturnCode { code: u32 },
    FanWrite,
    CurveWrite,
    CurveUpdate,
}

impl FirmwareDetail {
    pub open spec fn spec_text(self) -> Seq<char> {
        match self {
            FirmwareDetail::ReturnCode { code } => "bios rc="@ + decimal(code as nat),
            FirmwareDetail::FanWrite => "0x2E write failed"@,
            FirmwareDetail::CurveWrite => "0x2E curve write failed"@,
            FirmwareDetail::CurveUpdate => "0x2E curve update failed"@,
        }
    }

    /// The refusal in words.
    pub fn text(&self) -> (r: String)
        ensures
            r@ == self.spec_text(),
    {
        match *self {
            FirmwareDetail::ReturnCode { code } => {
                let mut s = String::from_str("bios rc=");
                s.append(decimal_text(code as u64).as_str());
                s
            },
            FirmwareDetail::FanWrite => String::from_str("0x2E write failed"),
            FirmwareDetail::CurveWrite => String::from_str("0x2E curve write failed"),
            FirmwareDetail::CurveUpdate => String::from_str("0x2E curve update failed"),
        }
    }
}

/// What is missing where a backend is unavailable.
#[derive(Debug, PartialEq)]
pub enum Missing {
    HpPlatform,
    Coordinator,
    PowerReadbackFeed,
    BootIdentity,
    TelemetryOnly,
    ChannelGone,
    RecoveryLedger { cause: String },
    Named { what: String },
}

impl Clone for Missing {
    fn clone(&self) -> (r: Self)
        ensures
            r == *self,
    {
        match self {
            Missing::HpPlatform => Missing::HpPlatform,
            Missing::Coordinator => Missing::Coordinator,
            Missing::PowerReadbackFeed => Missing::PowerReadbackFeed,
            Missing::BootIdentity => Missing::BootIdentity,
            Missing::TelemetryOnly => Missing::TelemetryOnly,
            Missing::ChannelGone => Missing::ChannelGone,
            Missing::RecoveryLedger { cause } => Missing::RecoveryLedger { cause: cause.clone() },
            Missing::Named { what } => Missing::Named { what: what.clone() },
        }
    }
}

impl Missing {
    pub open spec fn spec_text(self) -> Seq<char> {
        match self {
            Missing::HpPlatform => "HP platform"@,
            Missing::Coordinator => "control coordinator gone"@,
            Missing::PowerReadbackFeed => "0x610 readback feed (baseline capture)"@,
            Missing::BootIdentity => "无法读取 Windows 启动标识，不能验证跨重启切换"@,
            Missing::TelemetryOnly => "控制协调器（遥测-only 模式）"@,
            Missing::ChannelGone => "控制协调器通道断开"@,
            Missing::RecoveryLedger { cause } => "恢复记录无法保存："@ + cause@,
            Missing::Named { what } => what@,
        }
    }

    /// The missing part in words.
    pub fn text(&self) -> (r: String)
        ensures
            r@ == self.spec_text(),
    {
        match self {
            Missing::HpPlatform => String::from_str("HP platform"),
            Missing::Coordinator => String::from_str("control coordinator gone"),
            Missing::PowerReadbackFeed => String::from_str("0x610 readback feed (baseline capture)"),
            Missing::BootIdentity => String::from_str("无法读取 Windows 启动标识，不能验证跨重启切换"),
            Missing::TelemetryOnly => String::from_str("控制协调器（遥测-only 模式）"),
            Missing::ChannelGone => String::from_str("控制协调器通道断开"),
            Missing::RecoveryLedger { cause } => {
                let mut s = String::from_str("恢复记录无法保存：");
                s.append(cause.as_str());
                s
            },
            Missing::Named { what } => what.clone(),
        }
    }
}

/// Why a control command failed.
#[allow(inconsistent_fields)]
#[derive(Debug, PartialEq)]
pub enum ControlError {
    Unsupported,
    UnsafeRequest { reason: UnsafeReason },
    PermissionDenied,
    DriverUnavailable { what: String },
    FirmwareRejected { detail: FirmwareDetail },
    VerificationFailed { expected: Evidence, actual: Evidence },
    Timeout,
    BackendUnavailable { what: Missing },
    Busy,
    UnknownProfile { name: String },
}

impl Clone for ControlError {
    fn clone(&self) -> (r: Self)
        ensures
            r == *self,
    {
        match self {
            ControlError::Unsupported => ControlError::Unsupported,
            ControlError::UnsafeRequest { reason } => ControlError::UnsafeRequest { reason: reason.clone() },
            ControlError::PermissionDenied => ControlError::PermissionDenied,
            ControlError::DriverUnavailable { what } => ControlError::DriverUnavailable { what: what.clone() },
            ControlError::FirmwareRejected { detail } => ControlError::FirmwareRejected { detail: *detail },
            ControlError::VerificationFailed { expected, actual } => ControlError::VerificationFailed {
                expected: expected.clone(),
                actual: actual.clone(),
            },
            ControlError::Timeout => ControlError::Timeout,
            ControlError::BackendUnavailable { what } => ControlError::BackendUnavailable { what: what.clone() },
            ControlError::Busy => ControlError::Busy,
            ControlError::UnknownProfile { name } => ControlError::UnknownProfile { name: name.clone() },
        }
    }
}

/// Whether the interface refused the request outright, so nothing was written.
pub fn definite_hp_rejection(error: &HpWmiError) -> (r: bool)
    ensures
        r == error.spec_definite_rejection(),
{
    matches!(
        error,
        HpWmiError::FirmwareReturnCode { .. } | HpWmiError::InvalidInput(_) | HpWmiError::NotAvailable(_)
    )
}

/// The control error that a firmware failure is reported as.
pub open spec fn mapped_hp_error(e: HpWmiError) -> ControlError {
    match e {
        HpWmiError::FirmwareReturnCode { code } => ControlError::FirmwareRejected {
            detail: FirmwareDetail::ReturnCode { code },
        },
        HpWmiError::Timeout => ControlError::Timeout,
        HpWmiError::InvalidInput(s) => ControlError::UnsafeRequest { reason: UnsafeReason::Refused { text: s } },
        HpWmiError::NotAvailable(s) => ControlError::BackendUnavailable { what: Missing::Named { what: s } },
        HpWmiError::Transport(s) => ControlError::BackendUnavailable { what: Missing::Named { what: s } },
    }
}

/// Reports a firmware failure as a control error.
pub fn map_hp_error(e: &HpWmiError) -> (r: ControlError)
    ensures
        r == mapped_hp_error(*e),
{
    match e {
        HpWmiError::FirmwareReturnCode { code } => ControlError::FirmwareRejected {
            detail: FirmwareDetail::ReturnCode { code: *code },
        },
        HpWmiError::Timeout => ControlError::Timeout,
        HpWmiError::InvalidInput(s) => ControlError::UnsafeRequest {
            reason: UnsafeReason::Refused { text: s.clone() },
        },
        HpWmiError::NotAvailable(s) => ControlError::BackendUnavailable {
            what: Missing::Named { what: s.clone() },
        },
        HpWmiError::Transport(s) => ControlError::BackendUnavailable {
            what: Missing::Named { what: s.clone() },
        },
    }
}

} // verus!
