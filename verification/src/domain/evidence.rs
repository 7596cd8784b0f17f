//! What a verification expected and what it found.
use vstd::prelude::*;

use super::error::{HpWmiError, PlatformError};
use super::policy::{BoostPolicy, CpuPowerLimits, FanLevels, GpuPlatformPolicy};
use crate::text::{decimal, decimal_text};

verus! {

/// One reading and the time it was taken, in milliseconds.
#[derive(Clone, Copy, Debug, PartialEq, Eq, Structural)]
pub struct Sample {
    pub value: i64,
    pub at: u64,
}

/// A fan reading and the time it was taken, in milliseconds.
#[derive(Clone, Copy, Debug, PartialEq, Eq, Structural)]
pub struct FanSample {
    pub levels: FanLevels,
    pub at: u64,
}

/// The sustained and turbo power limits in milliwatts and the time they were
/// read, in milliseconds.
#[derive(Clone, Copy, Debug, PartialEq, Eq, Structural)]
pub struct PowerSample {
    pub pl1_mw: u64,
    pub pl2_mw: u64,
    pub at: u64,
}

/// The peak power limit in milliwatts and the time it was read, in
/// milliseconds.
#[derive(Clone, Copy, Debug, PartialEq, Eq, Structural)]
pub struct Pl4Sample {
    pub pl4_mw: u64,
    pub at: u64,
}

/// What a delayed readback has to show.
#[derive(Clone, Copy, Debug, PartialEq, Eq, Structural)]
pub enum Target {
    Fan(FanLevels),
    /// The policy, and whether its power state was itself requested.
    Gpu(GpuPlatformPolicy, bool),
    Power(CpuPowerLimits),
}

/// A Windows processor setting with one value per power source.
#[derive(Clone, Copy, Debug, PartialEq, Eq, Structural)]
pub enum Knob {
    Epp,
    Epp1,
    MaxFrequency,
    MinPerformance,
    MaxPerformance,
    Boost,
}

/// The value of a processor setting.
#[derive(Clone, Copy, Debug, PartialEq, Eq, Structural)]
pub enum KnobValue {
    Number(u32),
    Boost(BoostPolicy),
}

/// One side of a verification verdict.
#[derive(Debug, PartialEq)]
pub enum Evidence {
    FirmwareAccept,
    ApiSuccess,
    Hp(HpWmiError),
    Platform(PlatformError),
    RequestedFanTarget,
    ThermalOverride,
    RestoreDeadline,
    CpuPolicyWrite,
    AllStepsFailed,
    Requested(Target),
    FanReading(FanLevels),
    FanUnavailable,
    GpuReading(GpuPlatformPolicy),
    GpuUnavailable,
    PowerReading { power: Option<PowerSample>, pl4: Option<Pl4Sample> },
    KnobRequest { ac: Option<KnobValue>, dc: Option<KnobValue> },
    KnobReading { read_ac: KnobValue, read_dc: KnobValue },
    KnobUnreadable(PlatformError),
    Text(String),
}

impl Clone for Evidence {
    fn clone(&self) -> (r: Self)
        ensures
            r == *self,
    {
        match self {
            Evidence::FirmwareAccept => Evidence::FirmwareAccept,
            Evidence::ApiSuccess => Evidence::ApiSuccess,
            Evidence::Hp(e) => Evidence::Hp(e.clone()),
            Evidence::Platform(e) => Evidence::Platform(e.clone()),
            Evidence::RequestedFanTarget => Evidence::RequestedFanTarget,
            Evidence::ThermalOverride => Evidence::ThermalOverride,
            Evidence::RestoreDeadline => Evidence::RestoreDeadline,
            Evidence::CpuPolicyWrite => Evidence::CpuPolicyWrite,
            Evidence::AllStepsFailed => Evidence::AllStepsFailed,
            Evidence::Requested(t) => Evidence::Requested(*t),
            Evidence::FanReading(l) => Evidence::FanReading(*l),
            Evidence::FanUnavailable => Evidence::FanUnavailable,
            Evidence::GpuReading(p) => Evidence::GpuReading(*p),
            Evidence::GpuUnavailable => Evidence::GpuUnavailable,
            Evidence::PowerReading { power, pl4 } => Evidence::PowerReading { power: *power, pl4: *pl4 },
            Evidence::KnobRequest { ac, dc } => Evidence::KnobRequest { ac: *ac, dc: *dc },
            Evidence::KnobReading { read_ac, read_dc } => Evidence::KnobReading { read_ac: *read_ac, read_dc: *read_dc },
            Evidence::KnobUnreadable(e) => Evidence::KnobUnreadable(e.clone()),
            Evidence::Text(t) => Evidence::Text(t.clone()),
        }
    }
}

pub open spec fn bool_text(b: bool) -> Seq<char> {
    if b { "true"@ } else { "false"@ }
}

fn bool_str(b: bool) -> (r: &'static str)
    ensures
        r@ == bool_text(b),
{
    if b { "true" } else { "false" }
}

impl BoostPolicy {
    pub open spec fn spec_text(self) -> Seq<char> {
        match self {
            BoostPolicy::Disabled => "Disabled"@,
            BoostPolicy::Enabled => "Enabled"@,
            BoostPolicy::Aggressive => "Aggressive"@,
            BoostPolicy::EfficientEnabled => "EfficientEnabled"@,
            BoostPolicy::EfficientAggressive => "EfficientAggressive"@,
            BoostPolicy::AggressiveGuaranteed => "AggressiveGuaranteed"@,
            BoostPolicy::EfficientAggressiveGuaranteed => "EfficientAggressiveGuaranteed"@,
        }
    }

    /// The policy's name.
    pub fn text(&self) -> (r: &'static str)
        ensures
            r@ == self.spec_text(),
    {
        match *self {
            BoostPolicy::Disabled => "Disabled",
            BoostPolicy::Enabled => "Enabled",
            BoostPolicy::Aggressive => "Aggressive",
            BoostPolicy::EfficientEnabled => "EfficientEnabled",
            BoostPolicy::EfficientAggressive => "EfficientAggressive",
            BoostPolicy::AggressiveGuaranteed => "AggressiveGuaranteed",
            BoostPolicy::EfficientAggressiveGuaranteed => "EfficientAggressiveGuaranteed",
        }
    }
}

impl KnobValue {
    pub open spec fn spec_text(self) -> Seq<char> {
        match self {
            KnobValue::Number(n) => decimal(n as nat),
            KnobValue::Boost(b) => b.spec_text(),
        }
    }

    /// The value in words.
    pub fn text(&self) -> (r: String)
        ensures
            r@ == self.spec_text(),
    {
        match *self {
            KnobValue::Number(n) => decimal_text(n as u64),
            KnobValue::Boost(b) => String::from_str(b.text()),
        }
    }
}

pub open spec fn side_text(v: Option<KnobValue>) -> Seq<char> {
    match v {
        None => "None"@,
        Some(v) => "Some("@ + v.spec_text() + ")"@,
    }
}

fn side_string(v: Option<KnobValue>) -> (r: String)
    ensures
        r@ == side_text(v),
{
    match v {
        None => String::from_str("None"),
        Some(v) => {
            let mut s = String::from_str("Some(");
            s.append(v.text().as_str());
            s.append(")");
            s
        },
    }
}

pub open spec fn gpu_text(p: GpuPlatformPolicy) -> Seq<char> {
    "ctgp="@ + bool_text(p.ctgp) + " ppab="@ + bool_text(p.ppab) + " dstate="@ + decimal(p.dstate as nat)
        + " slowdown="@ + decimal(p.slowdown_temp_c as nat) + "C"@
}

/// A GPU platform policy in words.
pub fn gpu_policy_text(p: &GpuPlatformPolicy) -> (r: String)
    ensures
        r@ == gpu_text(*p),
{
    let mut s = String::from_str("ctgp=");
    s.append(bool_str(p.ctgp));
    s.append(" ppab=");
    s.append(bool_str(p.ppab));
    s.append(" dstate=");
    s.append(decimal_text(p.dstate as u64).as_str());
    s.append(" slowdown=");
    s.append(decimal_text(p.slowdown_temp_c as u64).as_str());
    s.append("C");
    s
}

pub open spec fn fan_text(l: FanLevels) -> Seq<char> {
    "left="@ + decimal(l.left as nat) + " right="@ + decimal(l.right as nat) + " (x100 RPM)"@
}

/// A pair of fan levels in words.
pub fn fan_levels_text(l: &FanLevels) -> (r: String)
    ensures
        r@ == fan_text(*l),
{
    let mut s = String::from_str("left=");
    s.append(decimal_text(l.left as u64).as_str());
    s.append(" right=");
    s.append(decimal_text(l.right as u64).as_str());
    s.append(" (x100 RPM)");
    s
}

pub open spec fn limits_text(l: CpuPowerLimits) -> Seq<char> {
    "pl1="@ + decimal(l.pl1_w as nat) + "W pl2="@ + decimal(l.pl2_w as nat) + (if l.pl4_w != 0 {
        "W pl4="@ + decimal(l.pl4_w as nat) + "W"@
    } else {
        "W (pl4 untouched)"@
    })
}

/// A set of power limits in words.
pub fn power_limits_text(l: &CpuPowerLimits) -> (r: String)
    ensures
        r@ == limits_text(*l),
{
    let mut s = String::from_str("pl1=");
    s.append(decimal_text(l.pl1_w as u64).as_str());
    s.append("W pl2=");
    s.append(decimal_text(l.pl2_w as u64).as_str());
    if l.pl4_w != 0 {
        let mut tail = String::from_str("W pl4=");
        tail.append(decimal_text(l.pl4_w as u64).as_str());
        tail.append("W");
        s.append(tail.as_str());
    } else {
        s.append("W (pl4 untouched)");
    }
    s
}

pub open spec fn power_sample_text(p: Option<PowerSample>) -> Seq<char> {
    match p {
        None => "none"@,
        Some(p) => decimal(p.pl1_mw as nat) + "/"@ + decimal(p.pl2_mw as nat) + " mW"@,
    }
}

fn power_sample_string(p: &Option<PowerSample>) -> (r: String)
    ensures
        r@ == power_sample_text(*p),
{
    match p {
        None => String::from_str("none"),
        Some(p) => {
            let mut s = decimal_text(p.pl1_mw);
            s.append("/");
            s.append(decimal_text(p.pl2_mw).as_str());
            s.append(" mW");
            s
        },
    }
}

pub open spec fn pl4_sample_text(p: Option<Pl4Sample>) -> Seq<char> {
    match p {
        None => "none"@,
        Some(p) => decimal(p.pl4_mw as nat) + " mW"@,
    }
}

fn pl4_sample_string(p: &Option<Pl4Sample>) -> (r: String)
    ensures
        r@ == pl4_sample_text(*p),
{
    match p {
        None => String::from_str("none"),
        Some(p) => {
            let mut s = decimal_text(p.pl4_mw);
            s.append(" mW");
            s
        },
    }
}

impl Target {
    pub open spec fn spec_text(self) -> Seq<char> {
        match self {
            Target::Fan(l) => "fan "@ + fan_text(l),
            Target::Gpu(p, _) => "gpu "@ + gpu_text(p),
            Target::Power(l) => "power "@ + limits_text(l),
        }
    }

    /// The target in words.
    pub fn text(&self) -> (r: String)
        ensures
            r@ == self.spec_text(),
    {
        match self {
            Target::Fan(l) => joined("fan ", fan_levels_text(l)),
            Target::Gpu(p, _) => joined("gpu ", gpu_policy_text(p)),
            Target::Power(l) => joined("power ", power_limits_text(l)),
        }
    }
}

fn joined(head: &str, tail: String) -> (r: String)
    ensures
        r@ == head@ + tail@,
{
    let mut s = String::from_str(head);
    s.append(tail.as_str());
    s
}

impl Evidence {
    pub open spec fn spec_text(self) -> Seq<char> {
        match self {
            Evidence::FirmwareAccept => "firmware accept"@,
            Evidence::ApiSuccess => "API success"@,
            Evidence::Hp(e) => e.spec_text(),
            Evidence::Platform(e) => e.what@,
            Evidence::RequestedFanTarget => "requested fan target"@,
            Evidence::ThermalOverride => "thermal safety override"@,
            Evidence::RestoreDeadline => "restore deadline exceeded"@,
            Evidence::CpuPolicyWrite => "cpu policy write"@,
            Evidence::AllStepsFailed => "all steps failed"@,
            Evidence::Requested(t) => t.spec_text(),
            Evidence::FanReading(l) => fan_text(l),
            Evidence::FanUnavailable => "fan readback unavailable"@,
            Evidence::GpuReading(p) => gpu_text(p),
            Evidence::GpuUnavailable => "GPU readback unavailable"@,
            Evidence::PowerReading { power, pl4 } =>
                "0x610="@ + power_sample_text(power) + "; PL4="@ + pl4_sample_text(pl4)
                    + "; samples must follow write"@,
            Evidence::KnobRequest { ac, dc } => "ac="@ + side_text(ac) + " dc="@ + side_text(dc),
            Evidence::KnobReading { read_ac, read_dc } =>
                "ac="@ + read_ac.spec_text() + " dc="@ + read_dc.spec_text(),
            Evidence::KnobUnreadable(e) => "readback error: "@ + e.what@,
            Evidence::Text(t) => t@,
        }
    }

    /// The evidence in words.
    pub fn text(&self) -> (r: String)
        ensures
            r@ == self.spec_text(),
    {
        match self {
            Evidence::FirmwareAccept => String::from_str("firmware accept"),
            Evidence::ApiSuccess => String::from_str("API success"),
            Evidence::Hp(e) => e.text(),
            Evidence::Platform(e) => e.what.clone(),
            Evidence::RequestedFanTarget => String::from_str("requested fan target"),
            Evidence::ThermalOverride => String::from_str("thermal safety override"),
            Evidence::RestoreDeadline => String::from_str("restore deadline exceeded"),
            Evidence::CpuPolicyWrite => String::from_str("cpu policy write"),
            Evidence::AllStepsFailed => String::from_str("all steps failed"),
            Evidence::Requested(t) => t.text(),
            Evidence::FanReading(l) => fan_levels_text(l),
            Evidence::FanUnavailable => String::from_str("fan readback unavailable"),
            Evidence::GpuReading(p) => gpu_policy_text(p),
            Evidence::GpuUnavailable => String::from_str("GPU readback unavailable"),
            Evidence::PowerReading { power, pl4 } => {
                let mut s = String::from_str("0x610=");
                s.append(power_sample_string(power).as_str());
                s.append("; PL4=");
                s.append(pl4_sample_string(pl4).as_str());
                s.append("; samples must follow write");
                s
            },
            Evidence::KnobRequest { ac, dc } => {
                let mut s = String::from_str("ac=");
                s.append(side_string(*ac).as_str());
                s.append(" dc=");
                s.append(side_string(*dc).as_str());
                s
            },
            Evidence::KnobReading { read_ac, read_dc } => {
                let mut s = String::from_str("ac=");
                s.append(read_ac.text().as_str());
                s.append(" dc=");
                s.append(read_dc.text().as_str());
                s
            },
            Evidence::KnobUnreadable(e) => joined("readback error: ", e.what.clone()),
            Evidence::Text(t) => t.clone(),
        }
    }
}

} // verus!
