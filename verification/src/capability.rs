//! Capability discovery: what is not known to work counts as unsupported.
//!
//! A board profile sets a ceiling for each domain, and the readings of a probe
//! may only lower it. A reading that fails lowers its own domain and leaves a
//! note; it never ends the probe.
use vstd::prelude::*;

use crate::domain::capability::{CapabilitySet, FanCapability, FanScale, PpmCapability, Support};
use crate::domain::policy::{FanLevels, GpuPlatformPolicy, MuxMode};
use crate::text::{decimal, decimal_text, same_text};

verus! {

/// The order of support levels: what is not probed ranks lowest.
pub open spec fn spec_rank(s: Support) -> u8 {
    match s {
        Support::Supported => 3,
        Support::Experimental => 2,
        Support::Unsupported => 1,
        Support::NotProbed => 0,
    }
}

/// Rank for ceiling comparison.
#[verifier::when_used_as_spec(spec_rank)]
pub fn rank(s: Support) -> (r: u8)
    ensures
        r == spec_rank(s),
{
    match s {
        Support::Supported => 3,
        Support::Experimental => 2,
        Support::Unsupported => 1,
        Support::NotProbed => 0,
    }
}

/// The lower of the two levels.
pub open spec fn lower_of(profile: Support, probe: Support) -> Support {
    if rank(probe) < rank(profile) { probe } else { profile }
}

/// Merges what the profile allows with what a probe observed.
pub fn merge(profile: Support, probe: Support) -> (r: Support)
    ensures
        r == lower_of(profile, probe),
        rank(r) <= rank(profile),
        rank(r) <= rank(probe),
        r == profile || r == probe,
{
    if rank(probe) < rank(profile) { probe } else { profile }
}

/// Version of the thermal policy a board speaks.
#[derive(Clone, Copy, Debug, PartialEq, Eq, Structural)]
pub enum ThermalPolicyVersion {
    V0,
    V1,
}

/// What is known of a board beforehand.
#[derive(Clone, Copy, Debug, PartialEq, Eq, Structural)]
pub struct BoardProfile {
    pub supports_gpu_power_mode: bool,
    pub supports_mux: bool,
    pub power_limits: Support,
    pub thermal_policy: ThermalPolicyVersion,
    pub fan_count: u8,
    pub fan_scale: FanScale,
    pub clamp_min: Option<u16>,
    pub clamp_max: Option<u16>,
}

/// Whether there is a profile for the board.
pub fn has_board_profile(board_id: &str) -> (r: bool)
    ensures
        r == (board_id@ == "8BAB"@),
{
    same_text(board_id, "8BAB")
}

/// What the firmware declares of the system's design.
#[derive(Clone, Copy, Debug, PartialEq, Eq, Structural)]
pub struct SystemDesign {
    pub thermal_policy_version: u8,
    pub sw_fan_control: bool,
    /// Peak power limit that the firmware starts with, in watts.
    pub default_pl4_w: u8,
    pub mux_byte: u8,
    pub mux_supported: bool,
}

/// A range of fan levels.
#[derive(Clone, Copy, Debug, PartialEq, Eq, Structural)]
pub struct LevelRange {
    pub lo: u16,
    pub hi: u16,
}

/// The level range a fan table allows, if the table is plausible.
#[derive(Clone, Copy, Debug, PartialEq, Eq, Structural)]
pub struct FanTableRange {
    pub clamp: Option<LevelRange>,
}

/// The readings of the firmware. `mux` is `None` where it was not read.
#[derive(Debug, PartialEq)]
pub struct HpReadings {
    pub fan_count: Result<u8, String>,
    pub design: Result<SystemDesign, String>,
    pub fan_table: Result<FanTableRange, String>,
    pub fan_levels: Result<FanLevels, String>,
    pub gpu_policy: Result<GpuPlatformPolicy, String>,
    pub mux: Option<Result<MuxMode, String>>,
    pub max_fan_diag: Result<bool, String>,
}

/// The readings of the processor power settings, and whether the process may
/// write them.
#[derive(Debug, PartialEq)]
pub struct PpmReadings {
    pub elevated: bool,
    /// The energy preference on mains and on battery.
    pub epp: Result<(u8, u8), String>,
    /// Why the second energy preference could not be read, if so.
    pub epp1_failure: Option<String>,
    pub max_freq_mhz: Result<u32, String>,
}

/// The reading that a note speaks of.
#[derive(Clone, Copy, Debug, PartialEq, Eq, Structural)]
pub enum Reading {
    Epp,
    Epp1,
    MaxFreq,
    FanCount,
    Design,
    FanTable,
    FanLevels,
    GpuPolicy,
    Mux,
    MaxFanDiag,
}

impl Reading {
    pub open spec fn spec_text(self) -> Seq<char> {
        match self {
            Reading::Epp => "EPP read failed: "@,
            Reading::Epp1 => "EPP1 read failed: "@,
            Reading::MaxFreq => "max freq read failed: "@,
            Reading::FanCount => "fan count read failed: "@,
            Reading::Design => "SDD read failed: "@,
            Reading::FanTable => "fan table read failed: "@,
            Reading::FanLevels => "fan levels read failed: "@,
            Reading::GpuPolicy => "GPU platform policy read failed: "@,
            Reading::Mux => "MUX read failed: "@,
            Reading::MaxFanDiag => "0x26 diag read failed: "@,
        }
    }

    fn text(self) -> (r: &'static str)
        ensures
            r@ == self.spec_text(),
    {
        match self {
            Reading::Epp => "EPP read failed: ",
            Reading::Epp1 => "EPP1 read failed: ",
            Reading::MaxFreq => "max freq read failed: ",
            Reading::FanCount => "fan count read failed: ",
            Reading::Design => "SDD read failed: ",
            Reading::FanTable => "fan table read failed: ",
            Reading::FanLevels => "fan levels read failed: ",
            Reading::GpuPolicy => "GPU platform policy read failed: ",
            Reading::Mux => "MUX read failed: ",
            Reading::MaxFanDiag => "0x26 diag read failed: ",
        }
    }
}

/// Something a probe has to say besides its results.
#[derive(Debug, PartialEq)]
pub enum ProbeNote {
    UnknownBoard { board_id: String },
    NotElevated,
    Failed { reading: Reading, why: String },
    PolicyVersion { found: u8 },
    NoSoftwareFanControl,
    ImplausibleFanTable,
    TransportUnavailable { why: String },
}

impl ProbeNote {
    pub open spec fn spec_text(self) -> Seq<char> {
        match self {
            ProbeNote::UnknownBoard { board_id } => "board '"@ + board_id@
                + "' has no profile: all write capabilities forced Unsupported"@,
            ProbeNote::NotElevated => "process is not elevated: PowrProf writes will be denied"@,
            ProbeNote::Failed { reading, why } => reading.spec_text() + why@,
            ProbeNote::PolicyVersion { found } => "SDD thermal policy version "@ + decimal(found as nat)
                + " does not match profile v1 — profile wins"@,
            ProbeNote::NoSoftwareFanControl => "SDD byte4 bit0: firmware does NOT declare sw fan control"@,
            ProbeNote::ImplausibleFanTable => "fan table implausible; using BoardProfile clamp fallback"@,
            ProbeNote::TransportUnavailable { why } => "HP WMI transport unavailable: "@ + why@,
        }
    }

    /// The note in words.
    pub fn text(&self) -> (r: String)
        ensures
            r@ == self.spec_text(),
    {
        match self {
            ProbeNote::UnknownBoard { board_id } => {
                let mut s = String::from_str("board '");
                s.append(board_id.as_str());
                s.append("' has no profile: all write capabilities forced Unsupported");
                s
            },
            ProbeNote::NotElevated => String::from_str(
                "process is not elevated: PowrProf writes will be denied",
            ),
            ProbeNote::Failed { reading, why } => {
                let mut s = String::from_str(reading.text());
                s.append(why.as_str());
                s
            },
            ProbeNote::PolicyVersion { found } => {
                let mut s = String::from_str("SDD thermal policy version ");
                s.append(decimal_text(*found as u64).as_str());
                s.append(" does not match profile v1 — profile wins");
                s
            },
            ProbeNote::NoSoftwareFanControl => String::from_str(
                "SDD byte4 bit0: firmware does NOT declare sw fan control",
            ),
            ProbeNote::ImplausibleFanTable => String::from_str(
                "fan table implausible; using BoardProfile clamp fallback",
            ),
            ProbeNote::TransportUnavailable { why } => {
                let mut s = String::from_str("HP WMI transport unavailable: ");
                s.append(why.as_str());
                s
            },
        }
    }
}

/// Everything one probe learned.
#[derive(Debug, PartialEq)]
pub struct ProbeReport {
    pub schema_version: u32,
    pub taken_at_epoch_ms: u64,
    pub board_id: String,
    pub known_board: bool,
    pub elevated: bool,
    pub capabilities: CapabilitySet,
    pub design: Option<SystemDesign>,
    pub fan_table: Option<FanTableRange>,
    pub fan_levels: Option<FanLevels>,
    pub gpu_platform_policy: Option<GpuPlatformPolicy>,
    pub mux: Option<MuxMode>,
    /// A diagnostic value; no capability depends on it.
    pub max_fan_diag: Option<bool>,
    pub epp_ac: Option<u8>,
    pub epp_dc: Option<u8>,
    pub max_freq_mhz: Option<u32>,
    pub notes: Vec<ProbeNote>,
}

impl ProbeReport {
    /// The firmware readings that the report shows.
    pub open spec fn readings(self) -> HpValues {
        HpValues {
            fan_count: None,
            design: self.design,
            fan_table: self.fan_table,
            fan_levels: self.fan_levels,
            gpu_policy: self.gpu_platform_policy,
            mux: self.mux,
            max_fan_diag: self.max_fan_diag,
        }
    }
}

/// Supported or unsupported.
pub open spec fn supported_if(b: bool) -> Support {
    if b { Support::Supported } else { Support::Unsupported }
}

fn support_of(b: bool) -> (r: Support)
    ensures
        r == supported_if(b),
{
    if b { Support::Supported } else { Support::Unsupported }
}

/// The readings that a probe of the firmware has, reduced to whether each
/// succeeded.
#[derive(Clone, Copy, Debug, PartialEq, Eq, Structural)]
pub struct HpAnswers {
    pub fan_count: Option<u8>,
    pub design: Option<SystemDesign>,
    pub fan_table: Option<FanTableRange>,
    pub fan_levels: bool,
    pub gpu_policy: bool,
    pub mux: bool,
}

/// The values that the firmware readings gave.
#[derive(Clone, Copy, Debug, PartialEq)]
pub struct HpValues {
    pub fan_count: Option<u8>,
    pub design: Option<SystemDesign>,
    pub fan_table: Option<FanTableRange>,
    pub fan_levels: Option<FanLevels>,
    pub gpu_policy: Option<GpuPlatformPolicy>,
    pub mux: Option<MuxMode>,
    pub max_fan_diag: Option<bool>,
}

impl HpValues {
    /// No reading gave a value.
    pub open spec fn spec_none() -> HpValues {
        HpValues {
            fan_count: None,
            design: None,
            fan_table: None,
            fan_levels: None,
            gpu_policy: None,
            mux: None,
            max_fan_diag: None,
        }
    }

    fn none() -> (r: HpValues)
        ensures
            r == HpValues::spec_none(),
    {
        HpValues {
            fan_count: None,
            design: None,
            fan_table: None,
            fan_levels: None,
            gpu_policy: None,
            mux: None,
            max_fan_diag: None,
        }
    }

    /// What of the values a report shows; the fan count shows in the
    /// capabilities.
    pub open spec fn reported(self) -> HpValues {
        HpValues { fan_count: None, ..self }
    }

    pub open spec fn spec_answers(self) -> HpAnswers {
        HpAnswers {
            fan_count: self.fan_count,
            design: self.design,
            fan_table: self.fan_table,
            fan_levels: self.fan_levels is Some,
            gpu_policy: self.gpu_policy is Some,
            mux: self.mux is Some,
        }
    }

    fn answers(&self) -> (r: HpAnswers)
        ensures
            r == self.spec_answers(),
    {
        HpAnswers {
            fan_count: self.fan_count,
            design: self.design,
            fan_table: self.fan_table,
            fan_levels: self.fan_levels.is_some(),
            gpu_policy: self.gpu_policy.is_some(),
            mux: self.mux.is_some(),
        }
    }
}

impl HpReadings {
    /// The values of the readings; the switch only where it may be read.
    pub open spec fn values(self, profile: Option<BoardProfile>) -> HpValues {
        HpValues {
            fan_count: self.fan_count.ok(),
            design: self.design.ok(),
            fan_table: self.fan_table.ok(),
            fan_levels: self.fan_levels.ok(),
            gpu_policy: self.gpu_policy.ok(),
            mux: if mux_gate(profile, self.design.ok()) { self.mux->0.ok() } else { None },
            max_fan_diag: self.max_fan_diag.ok(),
        }
    }
}

/// The switch may be read: the profile has one and the firmware does not deny it.
pub open spec fn mux_gate(profile: Option<BoardProfile>, design: Option<SystemDesign>) -> bool {
    (profile matches Some(p) && p.supports_mux) && (design matches Some(d) ==> d.mux_supported)
}

/// Whether the switch may be read.
pub fn mux_readable(profile: &Option<BoardProfile>, design: &Option<SystemDesign>) -> (r: bool)
    ensures
        r == mux_gate(*profile, *design),
{
    let declared = match design {
        Some(d) => d.mux_supported,
        None => true,
    };
    match profile {
        Some(p) => p.supports_mux && declared,
        None => false,
    }
}

/// The fan hardware: what the firmware reads, else what the profile says.
pub open spec fn probed_fan(profile: Option<BoardProfile>, hp: Option<HpAnswers>) -> FanCapability {
    let table = match hp {
        Some(h) => match h.fan_table {
            Some(t) => t.clamp,
            None => None,
        },
        None => None,
    };
    FanCapability {
        count: match hp {
            Some(h) if h.fan_count is Some => h.fan_count->0,
            _ => match profile {
                Some(p) => p.fan_count,
                None => 0,
            },
        },
        scale: match profile {
            Some(p) => p.fan_scale,
            None => FanScale::Unknown,
        },
        clamp_min: match table {
            Some(t) => Some(t.lo),
            None => match profile {
                Some(p) => p.clamp_min,
                None => None,
            },
        },
        clamp_max: match table {
            Some(t) => Some(t.hi),
            None => match profile {
                Some(p) => p.clamp_max,
                None => None,
            },
        },
        sw_control_declared: match hp {
            Some(h) => match h.design {
                Some(d) => d.sw_fan_control,
                None => false,
            },
            None => false,
        },
    }
}

/// The capability surface that profile and readings leave: a firmware domain
/// is supported where the profile allows it and no reading it rests on failed.
pub open spec fn probed_capabilities(
    profile: Option<BoardProfile>,
    elevated: bool,
    epp: bool,
    epp1: bool,
    max_freq: bool,
    hp: Option<HpAnswers>,
) -> CapabilitySet {
    let reachable = profile is Some && hp is Some;
    let counted = hp matches Some(h) && h.fan_count is Some;
    CapabilitySet {
        known_board: profile is Some,
        thermal_mode: supported_if(reachable),
        fan_rpm_read: supported_if(reachable && counted && (hp matches Some(h) && h.fan_levels)),
        fan_manual_level: supported_if(
            reachable && counted && (hp matches Some(h) && h.fan_table is Some) && probed_fan(
                profile,
                hp,
            ).clamp_max is Some,
        ),
        max_fan: supported_if(reachable && counted),
        gpu_platform_policy: supported_if(
            (profile matches Some(p) && p.supports_gpu_power_mode) && (hp matches Some(h) && h.gpu_policy),
        ),
        mux: supported_if(
            hp matches Some(h) && mux_gate(profile, h.design) && h.mux,
        ),
        power_limits: if reachable { profile->0.power_limits } else { Support::Unsupported },
        fan: probed_fan(profile, hp),
        ppm: PpmCapability {
            epp: supported_if(epp),
            epp1: supported_if(epp1),
            max_freq: supported_if(max_freq),
            write_privileged: elevated,
        },
    }
}

pub open spec fn note_if(b: bool, n: ProbeNote) -> Seq<ProbeNote> {
    if b { seq![n] } else { Seq::empty() }
}

pub open spec fn failure<T>(r: Result<T, String>, reading: Reading) -> Seq<ProbeNote> {
    match r {
        Ok(_) => Seq::empty(),
        Err(e) => seq![ProbeNote::Failed { reading, why: e }],
    }
}

/// The notes on the board and the processor settings.
pub open spec fn ppm_notes(board_id: String, known: bool, ppm: PpmReadings) -> Seq<ProbeNote> {
    note_if(!known, ProbeNote::UnknownBoard { board_id }) + note_if(!ppm.elevated, ProbeNote::NotElevated) + failure(
        ppm.epp,
        Reading::Epp,
    ) + (match ppm.epp1_failure {
        Some(e) => seq![ProbeNote::Failed { reading: Reading::Epp1, why: e }],
        None => Seq::empty(),
    }) + failure(ppm.max_freq_mhz, Reading::MaxFreq)
}

/// The notes on what the firmware declares of itself.
pub open spec fn design_notes(profile: Option<BoardProfile>, design: Result<SystemDesign, String>) -> Seq<ProbeNote> {
    match design {
        Ok(d) => note_if(
            (profile matches Some(p) && p.thermal_policy is V1) && d.thermal_policy_version != 1,
            ProbeNote::PolicyVersion { found: d.thermal_policy_version },
        ) + note_if(!d.sw_fan_control, ProbeNote::NoSoftwareFanControl),
        Err(e) => seq![ProbeNote::Failed { reading: Reading::Design, why: e }],
    }
}

/// The notes on the fan table.
pub open spec fn table_notes(table: Result<FanTableRange, String>) -> Seq<ProbeNote> {
    match table {
        Ok(t) => note_if(t.clamp is None, ProbeNote::ImplausibleFanTable),
        Err(e) => seq![ProbeNote::Failed { reading: Reading::FanTable, why: e }],
    }
}

/// The notes on the switch, which is left alone where it may not be read.
pub open spec fn mux_notes(readable: bool, mux: Option<Result<MuxMode, String>>) -> Seq<ProbeNote> {
    if readable && mux is Some {
        failure(mux->0, Reading::Mux)
    } else {
        Seq::empty()
    }
}

/// The notes on the firmware readings, in the order of the readings.
pub open spec fn hp_notes(profile: Option<BoardProfile>, hp: HpReadings) -> Seq<ProbeNote> {
    failure(hp.fan_count, Reading::FanCount) + design_notes(profile, hp.design) + table_notes(hp.fan_table) + failure(
        hp.fan_levels,
        Reading::FanLevels,
    ) + failure(hp.gpu_policy, Reading::GpuPolicy) + mux_notes(mux_gate(profile, hp.design.ok()), hp.mux) + failure(
        hp.max_fan_diag,
        Reading::MaxFanDiag,
    )
}

fn note_failure<T>(notes: &mut Vec<ProbeNote>, r: Result<T, String>, reading: Reading) -> (out: Option<T>)
    ensures
        final(notes)@ == old(notes)@ + failure(r, reading),
        out == r.ok(),
{
    match r {
        Ok(v) => {
            assert(notes@ =~= old(notes)@ + failure(r, reading));
            Some(v)
        },
        Err(why) => {
            notes.push(ProbeNote::Failed { reading, why });
            assert(notes@ =~= old(notes)@ + failure(r, reading));
            None
        },
    }
}

fn note_when(notes: &mut Vec<ProbeNote>, b: bool, n: ProbeNote)
    ensures
        final(notes)@ == old(notes)@ + note_if(b, n),
{
    if b {
        notes.push(n);
    }
    assert(notes@ =~= old(notes)@ + note_if(b, n));
}

/// The capability prober.
#[derive(Clone, Copy, Debug, PartialEq)]
pub struct CapabilityService;

impl CapabilityService {
    fn fan_hardware(profile: &Option<BoardProfile>, hp: &Option<HpAnswers>) -> (r: FanCapability)
        ensures
            r == probed_fan(*profile, *hp),
    {
        let mut fan = CapabilitySet::default().fan;
        if let Some(p) = profile {
            fan =
            FanCapability {
                count: p.fan_count,
                scale: p.fan_scale,
                clamp_min: p.clamp_min,
                clamp_max: p.clamp_max,
                sw_control_declared: false,
            };
        }
        if let Some(h) = hp {
            if let Some(n) = h.fan_count {
                fan.count = n;
            }
            if let Some(d) = h.design {
                fan.sw_control_declared = d.sw_fan_control;
            }
            if let Some(t) = h.fan_table {
                if let Some(range) = t.clamp {
                    fan.clamp_min = Some(range.lo);
                    fan.clamp_max = Some(range.hi);
                }
            }
        }
        fan
    }

    fn surface(
        profile: &Option<BoardProfile>,
        elevated: bool,
        epp: bool,
        epp1: bool,
        max_freq: bool,
        hp: &Option<HpAnswers>,
    ) -> (r: CapabilitySet)
        ensures
            r == probed_capabilities(*profile, elevated, epp, epp1, max_freq, *hp),
    {
        let fan = CapabilityService::fan_hardware(profile, hp);
        let (gpu_ceiling, mux_ceiling, power_ceiling) = match profile {
            Some(p) => (support_of(p.supports_gpu_power_mode), support_of(p.supports_mux), p.power_limits),
            None => (Support::Unsupported, Support::Unsupported, Support::Unsupported),
        };
        let ceiling = support_of(profile.is_some());
        let (counted, levelled, tabled, gpu_read, mux_read) = match hp {
            Some(h) => (
                h.fan_count.is_some(),
                h.fan_levels,
                h.fan_table.is_some(),
                h.gpu_policy,
                mux_readable(profile, &h.design) && h.mux,
            ),
            None => (false, false, false, false, false),
        };
        CapabilitySet {
            known_board: profile.is_some(),
            thermal_mode: merge(ceiling, support_of(hp.is_some())),
            fan_rpm_read: merge(ceiling, support_of(counted && levelled)),
            fan_manual_level: merge(ceiling, support_of(counted && tabled && fan.clamp_max.is_some())),
            max_fan: merge(ceiling, support_of(counted)),
            gpu_platform_policy: merge(gpu_ceiling, support_of(gpu_read)),
            mux: merge(mux_ceiling, support_of(mux_read)),
            power_limits: if hp.is_some() { power_ceiling } else { Support::Unsupported },
            fan,
            ppm: PpmCapability {
                epp: support_of(epp),
                epp1: support_of(epp1),
                max_freq: support_of(max_freq),
                write_privileged: elevated,
            },
        }
    }

    /// Takes the processor readings apart into values and notes.
    fn read_ppm(board_id: &String, known_board: bool, ppm: PpmReadings) -> (r: (
        Option<(u8, u8)>,
        bool,
        Option<u32>,
        Vec<ProbeNote>,
    ))
        ensures
            r.0 == ppm.epp.ok(),
            r.1 == (ppm.epp1_failure is None),
            r.2 == ppm.max_freq_mhz.ok(),
            r.3@ == ppm_notes(*board_id, known_board, ppm),
    {
        let mut notes: Vec<ProbeNote> = Vec::new();
        note_when(&mut notes, !known_board, ProbeNote::UnknownBoard { board_id: board_id.clone() });
        note_when(&mut notes, !ppm.elevated, ProbeNote::NotElevated);
        let epp = note_failure(&mut notes, ppm.epp, Reading::Epp);
        let epp1 = match ppm.epp1_failure {
            None => Ok(true),
            Some(e) => Err(e),
        };
        let epp1_ok = note_failure(&mut notes, epp1, Reading::Epp1).is_some();
        let freq = note_failure(&mut notes, ppm.max_freq_mhz, Reading::MaxFreq);
        assert(notes@ =~= ppm_notes(*board_id, known_board, ppm));
        (epp, epp1_ok, freq, notes)
    }

    /// Notes what the firmware declares of itself.
    fn read_design(
        profile: &Option<BoardProfile>,
        design: Result<SystemDesign, String>,
        notes: &mut Vec<ProbeNote>,
    ) -> (r: Option<SystemDesign>)
        ensures
            r == design.ok(),
            final(notes)@ == old(notes)@ + design_notes(*profile, design),
    {
        let expects_v1 = match profile {
            Some(p) => matches!(p.thermal_policy, ThermalPolicyVersion::V1),
            None => false,
        };
        let read = note_failure(notes, design, Reading::Design);
        if let Some(d) = read {
            note_when(
                notes,
                expects_v1 && d.thermal_policy_version != 1,
                ProbeNote::PolicyVersion { found: d.thermal_policy_version },
            );
            note_when(notes, !d.sw_fan_control, ProbeNote::NoSoftwareFanControl);
        }
        assert(notes@ =~= old(notes)@ + design_notes(*profile, design));
        read
    }

    /// Notes what is wrong with the fan table.
    fn read_table(table: Result<FanTableRange, String>, notes: &mut Vec<ProbeNote>) -> (r: Option<FanTableRange>)
        ensures
            r == table.ok(),
            final(notes)@ == old(notes)@ + table_notes(table),
    {
        let read = note_failure(notes, table, Reading::FanTable);
        if let Some(t) = read {
            note_when(notes, t.clamp.is_none(), ProbeNote::ImplausibleFanTable);
        }
        assert(notes@ =~= old(notes)@ + table_notes(table));
        read
    }

    /// Takes the reading of the switch, where it may be read.
    fn read_mux(readable: bool, mux: Option<Result<MuxMode, String>>, notes: &mut Vec<ProbeNote>) -> (r: Option<
        MuxMode,
    >)
        requires
            readable ==> mux is Some,
        ensures
            r == (if readable { mux->0.ok() } else { None }),
            final(notes)@ == old(notes)@ + mux_notes(readable, mux),
    {
        if readable {
            if let Some(m) = mux {
                return note_failure(notes, m, Reading::Mux);
            }
        }
        assert(notes@ =~= old(notes)@ + mux_notes(readable, mux));
        None
    }

    /// Takes the firmware readings apart into values and notes.
    fn read_firmware(profile: &Option<BoardProfile>, hp: HpReadings) -> (r: (HpValues, Vec<ProbeNote>))
        requires
            mux_gate(*profile, hp.design.ok()) ==> hp.mux is Some,
        ensures
            r.0 == hp.values(*profile),
            r.1@ == hp_notes(*profile, hp),
    {
        let mut notes: Vec<ProbeNote> = Vec::new();
        let fan_count = note_failure(&mut notes, hp.fan_count, Reading::FanCount);
        assert(notes@ =~= failure(hp.fan_count, Reading::FanCount));
        let design = CapabilityService::read_design(profile, hp.design, &mut notes);
        let fan_table = CapabilityService::read_table(hp.fan_table, &mut notes);
        let fan_levels = note_failure(&mut notes, hp.fan_levels, Reading::FanLevels);
        let gpu_policy = note_failure(&mut notes, hp.gpu_policy, Reading::GpuPolicy);
        let mux = CapabilityService::read_mux(mux_readable(profile, &design), hp.mux, &mut notes);
        let max_fan_diag = note_failure(&mut notes, hp.max_fan_diag, Reading::MaxFanDiag);
        (HpValues { fan_count, design, fan_table, fan_levels, gpu_policy, mux, max_fan_diag }, notes)
    }

    /// Draws up the report of one probe. Without firmware readings every
    /// firmware domain is unsupported.
    pub fn probe_runtime(
        board_id: String,
        profile: Option<BoardProfile>,
        ppm: PpmReadings,
        hp: Option<HpReadings>,
        taken_at_epoch_ms: u64,
    ) -> (r: ProbeReport)
        requires
            hp matches Some(h) && mux_gate(profile, h.design.ok()) ==> hp->0.mux is Some,
        ensures
            r.schema_version == 1,
            r.taken_at_epoch_ms == taken_at_epoch_ms,
            r.board_id == board_id,
            r.known_board == (profile is Some),
            r.elevated == ppm.elevated,
            r.capabilities == probed_capabilities(
                profile,
                ppm.elevated,
                ppm.epp is Ok,
                ppm.epp1_failure is None,
                ppm.max_freq_mhz is Ok,
                match hp {
                    Some(h) => Some(h.values(profile).spec_answers()),
                    None => None,
                },
            ),
            r.epp_ac == (match ppm.epp {
                Ok(e) => Some(e.0),
                Err(_) => None,
            }),
            r.epp_dc == (match ppm.epp {
                Ok(e) => Some(e.1),
                Err(_) => None,
            }),
            r.max_freq_mhz == ppm.max_freq_mhz.ok(),
            r.readings() == (match hp {
                Some(h) => h.values(profile).reported(),
                None => HpValues::spec_none().reported(),
            }),
            r.notes@ == ppm_notes(board_id, profile is Some, ppm) + (match hp {
                Some(h) => hp_notes(profile, h),
                None => Seq::empty(),
            }),
    {
        let known_board = profile.is_some();
        let elevated = ppm.elevated;
        let (epp, epp1, freq, mut notes) = CapabilityService::read_ppm(&board_id, known_board, ppm);
        let (answers, values) = match hp {
            Some(h) => {
                let (values, mut more) = CapabilityService::read_firmware(&profile, h);
                notes.append(&mut more);
                (Some(values.answers()), values)
            },
            None => (None, HpValues::none()),
        };
        assert(notes@ =~= ppm_notes(board_id, profile is Some, ppm) + (match hp {
            Some(h) => hp_notes(profile, h),
            None => Seq::empty(),
        }));
        let capabilities = CapabilityService::surface(
            &profile,
            elevated,
            epp.is_some(),
            epp1,
            freq.is_some(),
            &answers,
        );
        ProbeReport {
            schema_version: 1,
            taken_at_epoch_ms,
            board_id,
            known_board,
            elevated,
            capabilities,
            design: values.design,
            fan_table: values.fan_table,
            fan_levels: values.fan_levels,
            gpu_platform_policy: values.gpu_policy,
            mux: values.mux,
            max_fan_diag: values.max_fan_diag,
            epp_ac: match epp {
                Some(e) => Some(e.0),
                None => None,
            },
            epp_dc: match epp {
                Some(e) => Some(e.1),
                None => None,
            },
            max_freq_mhz: freq,
            notes,
        }
    }

    /// Draws up the report of a probe that opens its own connection: a
    /// connection that failed is noted last.
    pub fn probe(
        board_id: String,
        profile: Option<BoardProfile>,
        ppm: PpmReadings,
        hp: Result<HpReadings, String>,
        taken_at_epoch_ms: u64,
    ) -> (r: ProbeReport)
        requires
            hp matches Ok(h) && mux_gate(profile, h.design.ok()) ==> hp->Ok_0.mux is Some,
        ensures
            r.board_id == board_id,
            r.known_board == (profile is Some),
            r.elevated == ppm.elevated,
            r.schema_version == 1,
            r.taken_at_epoch_ms == taken_at_epoch_ms,
            r.epp_ac == (match ppm.epp {
                Ok(e) => Some(e.0),
                Err(_) => None,
            }),
            r.epp_dc == (match ppm.epp {
                Ok(e) => Some(e.1),
                Err(_) => None,
            }),
            r.max_freq_mhz == ppm.max_freq_mhz.ok(),
            r.readings() == (match hp {
                Ok(h) => h.values(profile).reported(),
                Err(_) => HpValues::spec_none().reported(),
            }),
            r.capabilities == probed_capabilities(
                profile,
                ppm.elevated,
                ppm.epp is Ok,
                ppm.epp1_failure is None,
                ppm.max_freq_mhz is Ok,
                match hp {
                    Ok(h) => Some(h.values(profile).spec_answers()),
                    Err(_) => None,
                },
            ),
            r.notes@ == ppm_notes(board_id, profile is Some, ppm) + (match hp {
                Ok(h) => hp_notes(profile, h),
                Err(why) => seq![ProbeNote::TransportUnavailable { why }],
            }),
    {
        match hp {
            Ok(h) => CapabilityService::probe_runtime(board_id, profile, ppm, Some(h), taken_at_epoch_ms),
            Err(why) => {
                let mut r = CapabilityService::probe_runtime(board_id, profile, ppm, None, taken_at_epoch_ms);
                let ghost before = r.notes@;
                r.notes.push(ProbeNote::TransportUnavailable { why });
                assert(r.notes@ =~= before + seq![ProbeNote::TransportUnavailable { why }]);
                r
            },
        }
    }
}

/// A probe can lower what the profile allows but never raise it, in any
/// firmware domain.
pub proof fn probe_never_raises_the_ceiling(
    profile: BoardProfile,
    elevated: bool,
    epp: bool,
    epp1: bool,
    max_freq: bool,
    hp: Option<HpAnswers>,
)
    ensures
        ({
            let caps = probed_capabilities(Some(profile), elevated, epp, epp1, max_freq, hp);
            &&& rank(caps.gpu_platform_policy) <= rank(supported_if(profile.supports_gpu_power_mode))
            &&& rank(caps.mux) <= rank(supported_if(profile.supports_mux))
            &&& caps.power_limits == profile.power_limits || caps.power_limits is Unsupported
            &&& caps.fan.scale == profile.fan_scale
        }),
{
}

/// On an unknown board no firmware function is usable, whatever was read.
pub proof fn unknown_board_cannot_be_written(elevated: bool, epp: bool, epp1: bool, max_freq: bool, hp: Option<HpAnswers>)
    ensures
        ({
            let caps = probed_capabilities(None, elevated, epp, epp1, max_freq, hp);
            &&& !caps.known_board
            &&& caps.thermal_mode is Unsupported
            &&& caps.fan_rpm_read is Unsupported
            &&& caps.fan_manual_level is Unsupported
            &&& caps.max_fan is Unsupported
            &&& caps.gpu_platform_policy is Unsupported
            &&& caps.mux is Unsupported
            &&& caps.power_limits is Unsupported
        }),
{
}

/// Without an answering firmware no firmware function is usable, whatever the
/// profile says.
pub proof fn silent_firmware_cannot_be_written(
    profile: Option<BoardProfile>,
    elevated: bool,
    epp: bool,
    epp1: bool,
    max_freq: bool,
)
    ensures
        ({
            let caps = probed_capabilities(profile, elevated, epp, epp1, max_freq, None);
            &&& caps.thermal_mode is Unsupported
            &&& caps.fan_rpm_read is Unsupported
            &&& caps.fan_manual_level is Unsupported
            &&& caps.max_fan is Unsupported
            &&& caps.gpu_platform_policy is Unsupported
            &&& caps.mux is Unsupported
            &&& caps.power_limits is Unsupported
        }),
{
}

} // verus!
