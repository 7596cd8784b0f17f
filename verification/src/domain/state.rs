//! What was asked of the machine and what it is known to do.
use vstd::prelude::*;

use super::command::ControlStatus;
use super::error::ControlError;
use super::evidence::Knob;
use super::mux_status::MuxStatus;
use super::policy::{
    BoostPolicy, CpuPolicy, CpuPowerLimits, FanMode, GpuPlatformPolicy, MuxMode, ThermalMode,
};

verus! {

/// The channel a verified value was read through.
#[derive(Clone, Copy, Debug, PartialEq, Eq, Structural)]
pub enum Channel {
    Ppm(Knob),
    /// hp-wmi 0x2D
    FanLevels,
    /// hp-wmi 0x21
    GpuPolicy,
    /// hp-wmi 0x21, after a restore
    GpuPolicyRestoration,
    /// MSR 0x610 / MCHBAR 0x59B0
    PowerLimits,
    /// MSR 0x610 / MCHBAR 0x59B0, after a restore
    PowerLimitsRestoration,
    /// hp-wmi 0x52
    Mux,
    /// hp-wmi 0x52, while starting
    MuxProbe,
}

impl Channel {
    pub open spec fn spec_label(self) -> Seq<char> {
        match self {
            Channel::Ppm(Knob::Epp) => "powrprof PERFEPP"@,
            Channel::Ppm(Knob::Epp1) => "powrprof PERFEPP1"@,
            Channel::Ppm(Knob::MaxFrequency) => "powrprof PROCFREQMAX"@,
            Channel::Ppm(Knob::MinPerformance) => "powrprof PROCTHROTTLEMIN"@,
            Channel::Ppm(Knob::MaxPerformance) => "powrprof PROCTHROTTLEMAX"@,
            Channel::Ppm(Knob::Boost) => "powrprof PERFBOOSTMODE"@,
            Channel::FanLevels => "hp-wmi 0x2D"@,
            Channel::GpuPolicy => "hp-wmi 0x21"@,
            Channel::GpuPolicyRestoration => "hp-wmi 0x21 restoration"@,
            Channel::PowerLimits => "MSR 0x610 / MCHBAR 0x59B0"@,
            Channel::PowerLimitsRestoration => "MSR 0x610 / MCHBAR 0x59B0 restoration"@,
            Channel::Mux => "hp-wmi 0x52"@,
            Channel::MuxProbe => "hp-wmi 0x52 initial probe"@,
        }
    }

    /// The channel's name.
    pub fn label(&self) -> (r: &'static str)
        ensures
            r@ == self.spec_label(),
    {
        match *self {
            Channel::Ppm(Knob::Epp) => "powrprof PERFEPP",
            Channel::Ppm(Knob::Epp1) => "powrprof PERFEPP1",
            Channel::Ppm(Knob::MaxFrequency) => "powrprof PROCFREQMAX",
            Channel::Ppm(Knob::MinPerformance) => "powrprof PROCTHROTTLEMIN",
            Channel::Ppm(Knob::MaxPerformance) => "powrprof PROCTHROTTLEMAX",
            Channel::Ppm(Knob::Boost) => "powrprof PERFBOOSTMODE",
            Channel::FanLevels => "hp-wmi 0x2D",
            Channel::GpuPolicy => "hp-wmi 0x21",
            Channel::GpuPolicyRestoration => "hp-wmi 0x21 restoration",
            Channel::PowerLimits => "MSR 0x610 / MCHBAR 0x59B0",
            Channel::PowerLimitsRestoration => "MSR 0x610 / MCHBAR 0x59B0 restoration",
            Channel::Mux => "hp-wmi 0x52",
            Channel::MuxProbe => "hp-wmi 0x52 initial probe",
        }
    }
}

/// A setting of the machine: read back, written on trust, or not known.
#[derive(Debug, PartialEq)]
pub enum ObservedValue<T> {
    Unknown,
    Verified { value: T, at: u64, source: Channel },
    TrustedWrite { value: T, at: u64 },
}

impl<T: Copy> Clone for ObservedValue<T> {
    fn clone(&self) -> (r: Self)
        ensures
            r == *self,
    {
        *self
    }
}

impl<T: Copy> Copy for ObservedValue<T> {

}

impl<T> ObservedValue<T> {
    /// The value, however it is known.
    pub open spec fn known(self) -> Option<T> {
        match self {
            ObservedValue::Unknown => None,
            ObservedValue::Verified { value, .. } => Some(value),
            ObservedValue::TrustedWrite { value, .. } => Some(value),
        }
    }

    /// The value, however it is known.
    pub fn value(&self) -> (r: Option<&T>)
        ensures
            r matches Some(v) ==> self.known() == Some(*v),
            r is None ==> self.known() is None,
    {
        match self {
            ObservedValue::Unknown => None,
            ObservedValue::Verified { value, .. } => Some(value),
            ObservedValue::TrustedWrite { value, .. } => Some(value),
        }
    }

    /// Whether the value was read back.
    pub fn is_verified(&self) -> (r: bool)
        ensures
            r == (*self is Verified),
    {
        matches!(self, ObservedValue::Verified { .. })
    }
}

impl<T: Copy> ObservedValue<T> {
    /// A copy of the value, however it is known.
    pub fn get(&self) -> (r: Option<T>)
        ensures
            r == self.known(),
    {
        match *self {
            ObservedValue::Unknown => None,
            ObservedValue::Verified { value, .. } => Some(value),
            ObservedValue::TrustedWrite { value, .. } => Some(value),
        }
    }
}

/// What the user should know about the control session.
#[derive(Debug, PartialEq)]
pub enum ControlNotice {
    PreviousSession,
    ProfileDrifted,
    NotFullyApplied,
    ThermalTakeover,
    HandedBack,
    RestoreIncomplete,
    ScopeRestoreIncomplete(ControlStatus),
    Error(ControlError),
    Text(String),
}

impl Clone for ControlNotice {
    fn clone(&self) -> (r: Self)
        ensures
            r == *self,
    {
        match self {
            ControlNotice::PreviousSession => ControlNotice::PreviousSession,
            ControlNotice::ProfileDrifted => ControlNotice::ProfileDrifted,
            ControlNotice::NotFullyApplied => ControlNotice::NotFullyApplied,
            ControlNotice::ThermalTakeover => ControlNotice::ThermalTakeover,
            ControlNotice::HandedBack => ControlNotice::HandedBack,
            ControlNotice::RestoreIncomplete => ControlNotice::RestoreIncomplete,
            ControlNotice::ScopeRestoreIncomplete(status) => ControlNotice::ScopeRestoreIncomplete(status.clone()),
            ControlNotice::Error(e) => ControlNotice::Error(e.clone()),
            ControlNotice::Text(t) => ControlNotice::Text(t.clone()),
        }
    }
}

/// The machine as this session knows it.
#[derive(Clone, Debug, PartialEq)]
pub struct ObservedState {
    pub epp_ac: ObservedValue<u8>,
    pub epp_dc: ObservedValue<u8>,
    pub epp1_ac: ObservedValue<u8>,
    pub epp1_dc: ObservedValue<u8>,
    pub max_freq_ac: ObservedValue<u32>,
    pub max_freq_dc: ObservedValue<u32>,
    pub min_performance_ac: ObservedValue<u8>,
    pub min_performance_dc: ObservedValue<u8>,
    pub max_performance_ac: ObservedValue<u8>,
    pub max_performance_dc: ObservedValue<u8>,
    pub boost_ac: ObservedValue<BoostPolicy>,
    pub boost_dc: ObservedValue<BoostPolicy>,
    pub gpu_platform_policy: ObservedValue<GpuPlatformPolicy>,
    pub thermal_mode: ObservedValue<ThermalMode>,
    pub fan_mode: ObservedValue<FanMode>,
    pub max_fan: ObservedValue<bool>,
    pub power_limits: ObservedValue<CpuPowerLimits>,
    pub mux: ObservedValue<MuxMode>,
    pub mux_status: Option<MuxStatus>,
    pub mux_write_verified: bool,
    pub active_profile: Option<String>,
    pub control_notice: Option<ControlNotice>,
}

impl ObservedState {
    /// Nothing is known.
    pub open spec fn spec_blank() -> ObservedState {
        ObservedState {
            epp_ac: ObservedValue::Unknown,
            epp_dc: ObservedValue::Unknown,
            epp1_ac: ObservedValue::Unknown,
            epp1_dc: ObservedValue::Unknown,
            max_freq_ac: ObservedValue::Unknown,
            max_freq_dc: ObservedValue::Unknown,
            min_performance_ac: ObservedValue::Unknown,
            min_performance_dc: ObservedValue::Unknown,
            max_performance_ac: ObservedValue::Unknown,
            max_performance_dc: ObservedValue::Unknown,
            boost_ac: ObservedValue::Unknown,
            boost_dc: ObservedValue::Unknown,
            gpu_platform_policy: ObservedValue::Unknown,
            thermal_mode: ObservedValue::Unknown,
            fan_mode: ObservedValue::Unknown,
            max_fan: ObservedValue::Unknown,
            power_limits: ObservedValue::Unknown,
            mux: ObservedValue::Unknown,
            mux_status: None,
            mux_write_verified: false,
            active_profile: None,
            control_notice: None,
        }
    }
}

impl Default for ObservedState {
    fn default() -> (r: ObservedState)
        ensures
            r == ObservedState::spec_blank(),
    {
        ObservedState {
            epp_ac: ObservedValue::Unknown,
            epp_dc: ObservedValue::Unknown,
            epp1_ac: ObservedValue::Unknown,
            epp1_dc: ObservedValue::Unknown,
            max_freq_ac: ObservedValue::Unknown,
            max_freq_dc: ObservedValue::Unknown,
            min_performance_ac: ObservedValue::Unknown,
            min_performance_dc: ObservedValue::Unknown,
            max_performance_ac: ObservedValue::Unknown,
            max_performance_dc: ObservedValue::Unknown,
            boost_ac: ObservedValue::Unknown,
            boost_dc: ObservedValue::Unknown,
            gpu_platform_policy: ObservedValue::Unknown,
            thermal_mode: ObservedValue::Unknown,
            fan_mode: ObservedValue::Unknown,
            max_fan: ObservedValue::Unknown,
            power_limits: ObservedValue::Unknown,
            mux: ObservedValue::Unknown,
            mux_status: None,
            mux_write_verified: false,
            active_profile: None,
            control_notice: None,
        }
    }
}

/// What the user asked for last, per domain.
#[derive(Clone, Debug, PartialEq)]
pub struct DesiredState {
    pub profile: Option<String>,
    pub thermal_mode: Option<ThermalMode>,
    pub fan_mode: Option<FanMode>,
    pub cpu_policy: Option<CpuPolicy>,
    pub gpu_platform_policy: Option<GpuPlatformPolicy>,
    pub power_limits: Option<CpuPowerLimits>,
}

impl DesiredState {
    /// Nothing was asked for.
    pub open spec fn spec_blank() -> DesiredState {
        DesiredState {
            profile: None,
            thermal_mode: None,
            fan_mode: None,
            cpu_policy: None,
            gpu_platform_policy: None,
            power_limits: None,
        }
    }
}

impl Default for DesiredState {
    fn default() -> (r: DesiredState)
        ensures
            r == DesiredState::spec_blank(),
    {
        DesiredState {
            profile: None,
            thermal_mode: None,
            fan_mode: None,
            cpu_policy: None,
            gpu_platform_policy: None,
            power_limits: None,
        }
    }
}

} // verus!
