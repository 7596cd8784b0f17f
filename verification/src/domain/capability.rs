//! What the board and the session can do.
use vstd::prelude::*;

verus! {

/// How far a function is known to work on this board.
#[derive(Clone, Copy, Debug, PartialEq, Eq, Structural)]
pub enum Support {
    Supported,
    Experimental,
    Unsupported,
    NotProbed,
}

/// Unit of the firmware's fan levels.
#[derive(Clone, Copy, Debug, PartialEq, Eq, Structural)]
pub enum FanScale {
    Unknown,
    Krpm,
}

/// Fan hardware: channel count, level unit and the levels a user may request.
#[derive(Clone, Copy, Debug, PartialEq, Eq, Structural)]
pub struct FanCapability {
    pub count: u8,
    pub scale: FanScale,
    pub clamp_min: Option<u16>,
    pub clamp_max: Option<u16>,
    pub sw_control_declared: bool,
}

/// Windows processor settings that can be written, and whether this session may.
#[derive(Clone, Copy, Debug, PartialEq, Eq, Structural)]
pub struct PpmCapability {
    pub epp: Support,
    pub epp1: Support,
    pub max_freq: Support,
    pub write_privileged: bool,
}

/// The capability surface of the machine in this session.
#[derive(Clone, Copy, Debug, PartialEq, Eq, Structural)]
pub struct CapabilitySet {
    pub known_board: bool,
    pub thermal_mode: Support,
    pub fan_rpm_read: Support,
    pub fan_manual_level: Support,
    pub max_fan: Support,
    pub gpu_platform_policy: Support,
    pub mux: Support,
    pub power_limits: Support,
    pub fan: FanCapability,
    pub ppm: PpmCapability,
}

impl CapabilitySet {
    /// A board nothing is known of: nothing probed, no privilege, no clamp.
    pub open spec fn spec_unknown() -> CapabilitySet {
        CapabilitySet {
            known_board: false,
            thermal_mode: Support::NotProbed,
            fan_rpm_read: Support::NotProbed,
            fan_manual_level: Support::NotProbed,
            max_fan: Support::NotProbed,
            gpu_platform_policy: Support::NotProbed,
            mux: Support::NotProbed,
            power_limits: Support::NotProbed,
            fan: FanCapability {
                count: 0,
                scale: FanScale::Unknown,
                clamp_min: None,
                clamp_max: None,
                sw_control_declared: false,
            },
            ppm: PpmCapability {
                epp: Support::NotProbed,
                epp1: Support::NotProbed,
                max_freq: Support::NotProbed,
                write_privileged: false,
            },
        }
    }
}

impl Default for CapabilitySet {
    fn default() -> (r: CapabilitySet)
        ensures
            r == CapabilitySet::spec_unknown(),
    {
        CapabilitySet {
            known_board: false,
            thermal_mode: Support::NotProbed,
            fan_rpm_read: Support::NotProbed,
            fan_manual_level: Support::NotProbed,
            max_fan: Support::NotProbed,
            gpu_platform_policy: Support::NotProbed,
            mux: Support::NotProbed,
            power_limits: Support::NotProbed,
            fan: FanCapability {
                count: 0,
                scale: FanScale::Unknown,
                clamp_min: None,
                clamp_max: None,
                sw_control_declared: false,
            },
            ppm: PpmCapability {
                epp: Support::NotProbed,
                epp1: Support::NotProbed,
                max_freq: Support::NotProbed,
                write_privileged: false,
            },
        }
    }
}

} // verus!
