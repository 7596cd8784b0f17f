//! Policies that can be requested of the firmware and the operating system.
use vstd::prelude::*;

verus! {

/// Firmware thermal mode (0x1A).
#[derive(Clone, Copy, Debug, PartialEq, Eq, Structural)]
pub enum ThermalMode {
    Balanced,
    Performance,
}

/// Graphics multiplexer selection (0x52). Only the first two can be requested.
#[derive(Clone, Copy, Debug, PartialEq, Eq, Structural)]
pub enum MuxMode {
    Hybrid,
    Discrete,
    Other(u8),
}

impl MuxMode {
    pub open spec fn spec_selectable(self) -> bool {
        self == MuxMode::Hybrid || self == MuxMode::Discrete
    }

    /// Whether this mode can be requested and confirmed.
    pub fn selectable(&self) -> (r: bool)
        ensures
            r == self.spec_selectable(),
    {
        matches!(*self, MuxMode::Hybrid | MuxMode::Discrete)
    }
}

/// Processor boost policy (PERFBOOSTMODE).
#[derive(Clone, Copy, Debug, PartialEq, Eq, Structural)]
pub enum BoostPolicy {
    Disabled,
    Enabled,
    Aggressive,
    EfficientEnabled,
    EfficientAggressive,
    AggressiveGuaranteed,
    EfficientAggressiveGuaranteed,
}

/// A pair of fan levels in units of 100 RPM; 0 leaves a channel to firmware.
#[derive(Clone, Copy, Debug, PartialEq, Eq, Structural)]
pub struct FanLevels {
    pub left: u16,
    pub right: u16,
}

impl FanLevels {
    /// Both channels on firmware control.
    pub open spec fn spec_auto() -> FanLevels {
        FanLevels { left: 0, right: 0 }
    }

    pub open spec fn spec_is_auto(self) -> bool {
        self.left == 0 && self.right == 0
    }

    /// Both channels on firmware control.
    pub fn auto() -> (r: FanLevels)
        ensures
            r == FanLevels::spec_auto(),
    {
        FanLevels { left: 0, right: 0 }
    }

    pub fn new(left: u16, right: u16) -> (r: FanLevels)
        ensures
            r == (FanLevels { left, right }),
    {
        FanLevels { left, right }
    }

    /// Whether both channels are left to firmware.
    pub fn is_auto(&self) -> (r: bool)
        ensures
            r == self.spec_is_auto(),
    {
        self.left == 0 && self.right == 0
    }

    /// Left target in RPM.
    pub fn left_rpm(&self) -> (r: u32)
        ensures
            r == self.left * 100,
    {
        self.left as u32 * 100
    }

    /// Right target in RPM.
    pub fn right_rpm(&self) -> (r: u32)
        ensures
            r == self.right * 100,
    {
        self.right as u32 * 100
    }
}

/// One point of a software fan curve: a temperature and the levels held there.
#[derive(Clone, Copy, Debug, PartialEq, Eq, Structural)]
pub struct FanCurvePoint {
    pub temp_c: u8,
    pub left: u16,
    pub right: u16,
}

impl FanCurvePoint {
    pub fn new(temp_c: u8, left: u16, right: u16) -> (r: FanCurvePoint)
        ensures
            r == (FanCurvePoint { temp_c, left, right }),
    {
        FanCurvePoint { temp_c, left, right }
    }

    /// The point's temperature, with so many units to a degree.
    pub open spec fn at(self, unit: int) -> int {
        self.temp_c * unit
    }

    pub open spec fn levels(self) -> FanLevels {
        FanLevels { left: self.left, right: self.right }
    }
}

/// A software fan curve of four points, coolest first.
#[derive(Clone, Copy, Debug, PartialEq, Eq, Structural)]
pub struct FanCurve {
    pub first: FanCurvePoint,
    pub second: FanCurvePoint,
    pub third: FanCurvePoint,
    pub fourth: FanCurvePoint,
}

/// The level at `t` on the straight line from `(t0, l0)` to `(t1, l1)`,
/// rounded to the nearest whole level, halves upwards.
pub open spec fn interpolated(t0: int, l0: int, t1: int, l1: int, t: int) -> int
    recommends
        t0 <= t < t1,
{
    (2 * (l0 * (t1 - t0) + (l1 - l0) * (t - t0)) + (t1 - t0)) / (2 * (t1 - t0))
}

/// The point pair interpolated between two curve points.
pub open spec fn segment_levels(a: FanCurvePoint, b: FanCurvePoint, t: int, unit: int) -> (int, int) {
    (
        interpolated(a.at(unit), a.left as int, b.at(unit), b.left as int, t),
        interpolated(a.at(unit), a.right as int, b.at(unit), b.right as int, t),
    )
}

/// Millidegrees to a degree.
pub const MILLI: i128 = 1_000;

/// The fine units to a millidegree that averages of temperatures are kept in.
pub const FINE_PER_MILLI: i128 = 1_099_511_627_776;

/// The fine units to a degree.
pub const FINE: i128 = 1_099_511_627_776_000;

impl FanCurve {
    pub fn new(points: [FanCurvePoint; 4]) -> (r: FanCurve)
        ensures
            r == (FanCurve {
                first: points@[0],
                second: points@[1],
                third: points@[2],
                fourth: points@[3],
            }),
    {
        FanCurve { first: points[0], second: points[1], third: points[2], fourth: points[3] }
    }

    /// The levels the curve asks for at `t`, with so many units to a degree:
    /// constant below the first and above the last point, straight lines in
    /// between.
    pub open spec fn spec_target_in(self, t: int, unit: int) -> (int, int) {
        if t < self.first.at(unit) {
            (self.first.left as int, self.first.right as int)
        } else if t < self.second.at(unit) {
            segment_levels(self.first, self.second, t, unit)
        } else if t < self.third.at(unit) {
            segment_levels(self.second, self.third, t, unit)
        } else if t < self.fourth.at(unit) {
            segment_levels(self.third, self.fourth, t, unit)
        } else {
            (self.fourth.left as int, self.fourth.right as int)
        }
    }

    /// The levels the curve asks for at `t` millidegrees.
    pub open spec fn spec_target(self, t: int) -> (int, int) {
        self.spec_target_in(t, MILLI as int)
    }

    /// The levels asked for at `temp`, with so many units to a degree.
    pub fn target_in(&self, temp: i128, unit: i128) -> (r: FanLevels)
        requires
            0 < unit <= FINE,
        ensures
            (r.left as int, r.right as int) == self.spec_target_in(temp as int, unit as int),
    {
        proof {
            point_in_range(self.first, unit as int);
            point_in_range(self.second, unit as int);
            point_in_range(self.third, unit as int);
            point_in_range(self.fourth, unit as int);
        }
        if temp < self.first.temp_c as i128 * unit {
            FanLevels { left: self.first.left, right: self.first.right }
        } else if temp < self.second.temp_c as i128 * unit {
            segment_target(&self.first, &self.second, temp, unit)
        } else if temp < self.third.temp_c as i128 * unit {
            segment_target(&self.second, &self.third, temp, unit)
        } else if temp < self.fourth.temp_c as i128 * unit {
            segment_target(&self.third, &self.fourth, temp, unit)
        } else {
            FanLevels { left: self.fourth.left, right: self.fourth.right }
        }
    }

    /// The levels asked for at `temp` millidegrees.
    pub fn target_at(&self, temp: i64) -> (r: FanLevels)
        ensures
            (r.left as int, r.right as int) == self.spec_target(temp as int),
    {
        self.target_in(temp as i128, MILLI)
    }

    /// No channel is left to firmware, temperatures strictly rise, and no
    /// level falls from one point to the next.
    pub open spec fn valid(self) -> bool {
        &&& self.first.left > 0
        &&& self.first.right > 0
        &&& rises(self.first, self.second)
        &&& rises(self.second, self.third)
        &&& rises(self.third, self.fourth)
    }

    /// Whether the curve is usable: levels on both channels that never fall,
    /// at strictly rising temperatures.
    pub fn validate(&self) -> (r: bool)
        ensures
            r == self.valid(),
    {
        self.first.left > 0 && self.first.right > 0 && point_rises(&self.first, &self.second) && point_rises(&self.second, &self.third)
            && point_rises(&self.third, &self.fourth)
    }
}

/// From `a` to `b` the temperature rises and neither level falls.
pub open spec fn rises(a: FanCurvePoint, b: FanCurvePoint) -> bool {
    a.temp_c < b.temp_c && a.left <= b.left && a.right <= b.right
}

fn point_rises(a: &FanCurvePoint, b: &FanCurvePoint) -> (r: bool)
    ensures
        r == rises(*a, *b),
{
    a.temp_c < b.temp_c && a.left <= b.left && a.right <= b.right
}

/// An interpolated level lies between the levels at the ends of its segment.
pub proof fn interpolated_between(t0: int, l0: int, t1: int, l1: int, t: int)
    requires
        t0 <= t < t1,
    ensures
        l0 <= l1 ==> l0 <= interpolated(t0, l0, t1, l1, t) <= l1,
        l1 <= l0 ==> l1 <= interpolated(t0, l0, t1, l1, t) <= l0,
{
    let span = t1 - t0;
    let step = t - t0;
    let num = 2 * (l0 * span + (l1 - l0) * step) + span;
    let q = num / (2 * span);
    assert(num == 2 * (l0 * span + (l1 - l0) * step) + span);
    let low = if l0 <= l1 { l0 } else { l1 };
    let high = if l0 <= l1 { l1 } else { l0 };
    assert(2 * low * span + span <= num <= 2 * high * span + span) by (nonlinear_arith)
        requires
            0 <= step < span,
            num == 2 * (l0 * span + (l1 - l0) * step) + span,
            low == (if l0 <= l1 { l0 } else { l1 }),
            high == (if l0 <= l1 { l1 } else { l0 }),
    ;
    assert(low <= q <= high) by (nonlinear_arith)
        requires
            span > 0,
            2 * low * span + span <= num <= 2 * high * span + span,
            q == num / (2 * span),
    ;
}

/// On a segment whose level does not fall, a higher temperature never asks
/// for a lower level.
pub proof fn interpolated_monotone(t0: int, l0: int, t1: int, l1: int, s: int, t: int)
    requires
        t0 <= s <= t < t1,
        l0 <= l1,
    ensures
        interpolated(t0, l0, t1, l1, s) <= interpolated(t0, l0, t1, l1, t),
{
    let span = t1 - t0;
    let a = 2 * (l0 * span + (l1 - l0) * (s - t0)) + span;
    let b = 2 * (l0 * span + (l1 - l0) * (t - t0)) + span;
    assert(a <= b) by (nonlinear_arith)
        requires
            l0 <= l1,
            s <= t,
            a == 2 * (l0 * span + (l1 - l0) * (s - t0)) + span,
            b == 2 * (l0 * span + (l1 - l0) * (t - t0)) + span,
    ;
    assert(a / (2 * span) <= b / (2 * span)) by (nonlinear_arith)
        requires
            a <= b,
            span > 0,
    ;
}

proof fn point_in_range(p: FanCurvePoint, unit: int)
    requires
        0 < unit <= FINE,
    ensures
        0 <= p.at(unit) <= 255 * FINE,
{
    assert(0 <= p.temp_c * unit <= 255 * FINE) by (nonlinear_arith)
        requires
            0 <= p.temp_c <= 255,
            0 < unit <= FINE,
    ;
}

fn segment_level(t0: i128, l0: u16, t1: i128, l1: u16, temp: i128) -> (r: u16)
    requires
        0 <= t0 <= temp < t1 <= 255 * FINE,
    ensures
        r == interpolated(t0 as int, l0 as int, t1 as int, l1 as int, temp as int),
{
    proof {
        interpolated_between(t0 as int, l0 as int, t1 as int, l1 as int, temp as int);
        let span = t1 - t0;
        let step = temp - t0;
        assert(0 <= l0 * span <= 65_535 * (255 * FINE)) by (nonlinear_arith)
            requires
                0 <= l0 <= 65_535,
                0 < span <= 255 * FINE,
        ;
        assert(-65_535 * (255 * FINE) <= (l1 - l0) * step <= 65_535 * (255 * FINE)) by (nonlinear_arith)
            requires
                -65_535 <= l1 - l0 <= 65_535,
                0 <= step <= 255 * FINE,
        ;
        assert(l0 * span + (l1 - l0) * step >= 0) by (nonlinear_arith)
            requires
                0 <= l0,
                0 <= l1,
                0 <= step < span,
        ;
    }
    let span: i128 = t1 - t0;
    let num: i128 = 2 * (l0 as i128 * span + (l1 as i128 - l0 as i128) * (temp - t0)) + span;
    (num / (2 * span)) as u16
}

fn segment_target(a: &FanCurvePoint, b: &FanCurvePoint, temp: i128, unit: i128) -> (r: FanLevels)
    requires
        0 < unit <= FINE,
        a.at(unit as int) <= temp < b.at(unit as int),
    ensures
        (r.left as int, r.right as int) == segment_levels(*a, *b, temp as int, unit as int),
{
    proof {
        point_in_range(*a, unit as int);
        point_in_range(*b, unit as int);
    }
    let t0: i128 = a.temp_c as i128 * unit;
    let t1: i128 = b.temp_c as i128 * unit;
    FanLevels {
        left: segment_level(t0, a.left, t1, b.left, temp),
        right: segment_level(t0, a.right, t1, b.right, temp),
    }
}

/// On a valid curve a hotter machine never gets slower fans.
pub proof fn hotter_never_slower(curve: FanCurve, s: int, t: int, unit: int)
    requires
        curve.valid(),
        unit > 0,
        s <= t,
    ensures
        curve.spec_target_in(s, unit).0 <= curve.spec_target_in(t, unit).0,
        curve.spec_target_in(s, unit).1 <= curve.spec_target_in(t, unit).1,
{
    let (a, b, c, d) = (curve.first, curve.second, curve.third, curve.fourth);
    segment_bounds(a, b, s, unit);
    segment_bounds(b, c, s, unit);
    segment_bounds(c, d, s, unit);
    segment_bounds(a, b, t, unit);
    segment_bounds(b, c, t, unit);
    segment_bounds(c, d, t, unit);
    segment_monotone(a, b, s, t, unit);
    segment_monotone(b, c, s, t, unit);
    segment_monotone(c, d, s, t, unit);
}

proof fn segment_bounds(a: FanCurvePoint, b: FanCurvePoint, t: int, unit: int)
    requires
        rises(a, b),
    ensures
        a.at(unit) <= t < b.at(unit) ==> a.left <= segment_levels(a, b, t, unit).0 <= b.left,
        a.at(unit) <= t < b.at(unit) ==> a.right <= segment_levels(a, b, t, unit).1 <= b.right,
{
    if a.at(unit) <= t < b.at(unit) {
        interpolated_between(a.at(unit), a.left as int, b.at(unit), b.left as int, t);
        interpolated_between(a.at(unit), a.right as int, b.at(unit), b.right as int, t);
    }
}

proof fn segment_monotone(a: FanCurvePoint, b: FanCurvePoint, s: int, t: int, unit: int)
    requires
        rises(a, b),
        s <= t,
    ensures
        a.at(unit) <= s && t < b.at(unit) ==> segment_levels(a, b, s, unit).0 <= segment_levels(a, b, t, unit).0,
        a.at(unit) <= s && t < b.at(unit) ==> segment_levels(a, b, s, unit).1 <= segment_levels(a, b, t, unit).1,
{
    if a.at(unit) <= s && t < b.at(unit) {
        interpolated_monotone(a.at(unit), a.left as int, b.at(unit), b.left as int, s, t);
        interpolated_monotone(a.at(unit), a.right as int, b.at(unit), b.right as int, s, t);
    }
}

/// A valid curve asks for no less than its first and no more than its last
/// point, whatever the temperature.
pub proof fn target_within_ends(curve: FanCurve, t: int, unit: int)
    requires
        curve.valid(),
    ensures
        curve.first.left <= curve.spec_target_in(t, unit).0 <= curve.fourth.left,
        curve.first.right <= curve.spec_target_in(t, unit).1 <= curve.fourth.right,
{
    segment_bounds(curve.first, curve.second, t, unit);
    segment_bounds(curve.second, curve.third, t, unit);
    segment_bounds(curve.third, curve.fourth, t, unit);
}

proof fn interpolated_scales(t0: int, l0: int, t1: int, l1: int, t: int, k: int)
    requires
        t0 <= t < t1,
        k > 0,
    ensures
        interpolated(t0 * k, l0, t1 * k, l1, t * k) == interpolated(t0, l0, t1, l1, t),
{
    let span = t1 - t0;
    let num = 2 * (l0 * span + (l1 - l0) * (t - t0)) + span;
    assert(t1 * k - t0 * k == span * k) by (nonlinear_arith)
        requires
            span == t1 - t0,
    ;
    assert(2 * (l0 * (t1 * k - t0 * k) + (l1 - l0) * (t * k - t0 * k)) + (t1 * k - t0 * k) == num * k)
        by (nonlinear_arith)
        requires
            span == t1 - t0,
            num == 2 * (l0 * span + (l1 - l0) * (t - t0)) + span,
    ;
    assert(2 * (t1 * k - t0 * k) == (2 * span) * k) by (nonlinear_arith)
        requires
            span == t1 - t0,
    ;
    assert((num * k) / ((2 * span) * k) == num / (2 * span)) by (nonlinear_arith)
        requires
            span > 0,
            k > 0,
    ;
}

proof fn segment_scales(a: FanCurvePoint, b: FanCurvePoint, t: int, unit: int, k: int)
    requires
        unit > 0,
        k > 0,
    ensures
        a.at(unit * k) == a.at(unit) * k,
        t * k < a.at(unit * k) <==> t < a.at(unit),
        t * k < b.at(unit * k) <==> t < b.at(unit),
        a.at(unit) <= t < b.at(unit) ==> segment_levels(a, b, t * k, unit * k) == segment_levels(a, b, t, unit),
{
    assert(a.temp_c * (unit * k) == (a.temp_c * unit) * k) by (nonlinear_arith);
    assert(b.temp_c * (unit * k) == (b.temp_c * unit) * k) by (nonlinear_arith);
    let (x, y) = (a.at(unit), b.at(unit));
    assert(t * k < x * k <==> t < x) by (nonlinear_arith)
        requires
            k > 0,
    ;
    assert(t * k < y * k <==> t < y) by (nonlinear_arith)
        requires
            k > 0,
    ;
    if x <= t < y {
        interpolated_scales(x, a.left as int, y, b.left as int, t, k);
        interpolated_scales(x, a.right as int, y, b.right as int, t, k);
    }
}

/// The unit that a temperature is given in does not matter: what the curve
/// asks for is the same at the same temperature.
pub proof fn targets_do_not_depend_on_the_unit(curve: FanCurve, t: int, unit: int, k: int)
    requires
        unit > 0,
        k > 0,
    ensures
        curve.spec_target_in(t * k, unit * k) == curve.spec_target_in(t, unit),
{
    segment_scales(curve.first, curve.second, t, unit, k);
    segment_scales(curve.second, curve.third, t, unit, k);
    segment_scales(curve.third, curve.fourth, t, unit, k);
}

/// Who decides the fan speed.
#[derive(Clone, Copy, Debug, PartialEq, Eq, Structural)]
pub enum FanMode {
    FirmwareAuto,
    Max,
    Manual(FanLevels),
    Curve(FanCurve),
}

/// CPU power limits in watts; 0 leaves a field unchanged.
#[derive(Clone, Copy, Debug, PartialEq, Eq, Structural)]
pub struct CpuPowerLimits {
    pub pl1_w: u8,
    pub pl2_w: u8,
    pub pl4_w: u8,
    pub cpu_gpu_concurrent_w: u8,
}

/// Processor policy; `None` leaves a setting alone. Each setting has a value
/// for mains (`ac`) and for battery (`dc`).
#[derive(Clone, Copy, Debug, PartialEq, Eq, Structural)]
pub struct CpuPolicy {
    pub epp_ac: Option<u8>,
    pub epp_dc: Option<u8>,
    pub epp1_ac: Option<u8>,
    pub epp1_dc: Option<u8>,
    pub max_freq_mhz_ac: Option<u32>,
    pub max_freq_mhz_dc: Option<u32>,
    pub min_performance_ac: Option<u8>,
    pub min_performance_dc: Option<u8>,
    pub max_performance_ac: Option<u8>,
    pub max_performance_dc: Option<u8>,
    pub boost_policy: Option<BoostPolicy>,
    pub boost_policy_ac: Option<BoostPolicy>,
    pub boost_policy_dc: Option<BoostPolicy>,
    pub power_limits: Option<CpuPowerLimits>,
}

impl CpuPolicy {
    /// The policy that asks for nothing.
    pub open spec fn spec_empty() -> CpuPolicy {
        CpuPolicy {
            epp_ac: None,
            epp_dc: None,
            epp1_ac: None,
            epp1_dc: None,
            max_freq_mhz_ac: None,
            max_freq_mhz_dc: None,
            min_performance_ac: None,
            min_performance_dc: None,
            max_performance_ac: None,
            max_performance_dc: None,
            boost_policy: None,
            boost_policy_ac: None,
            boost_policy_dc: None,
            power_limits: None,
        }
    }

    /// The boost policy asked for on mains: the side's own, else the shared one.
    pub open spec fn spec_boost_ac(self) -> Option<BoostPolicy> {
        if self.boost_policy_ac is Some { self.boost_policy_ac } else { self.boost_policy }
    }

    /// The boost policy asked for on battery: the side's own, else the shared one.
    pub open spec fn spec_boost_dc(self) -> Option<BoostPolicy> {
        if self.boost_policy_dc is Some { self.boost_policy_dc } else { self.boost_policy }
    }

    /// The boost policy asked for on mains.
    pub fn boost_ac(&self) -> (r: Option<BoostPolicy>)
        ensures
            r == self.spec_boost_ac(),
    {
        if self.boost_policy_ac.is_some() { self.boost_policy_ac } else { self.boost_policy }
    }

    /// The boost policy asked for on battery.
    pub fn boost_dc(&self) -> (r: Option<BoostPolicy>)
        ensures
            r == self.spec_boost_dc(),
    {
        if self.boost_policy_dc.is_some() { self.boost_policy_dc } else { self.boost_policy }
    }
}

impl Default for CpuPolicy {
    fn default() -> (r: CpuPolicy)
        ensures
            r == CpuPolicy::spec_empty(),
    {
        CpuPolicy {
            epp_ac: None,
            epp_dc: None,
            epp1_ac: None,
            epp1_dc: None,
            max_freq_mhz_ac: None,
            max_freq_mhz_dc: None,
            min_performance_ac: None,
            min_performance_dc: None,
            max_performance_ac: None,
            max_performance_dc: None,
            boost_policy: None,
            boost_policy_ac: None,
            boost_policy_dc: None,
            power_limits: None,
        }
    }
}

/// GPU platform policy as the firmware reports it (0x21) and takes it (0x22).
#[derive(Clone, Copy, Debug, PartialEq, Eq, Structural)]
pub struct GpuPlatformPolicy {
    pub ctgp: bool,
    pub ppab: bool,
    pub dstate: u8,
    pub slowdown_temp_c: u8,
}

/// A sparse change of the GPU platform policy; `None` keeps the live value.
#[derive(Clone, Copy, Debug, PartialEq, Eq, Structural)]
pub struct GpuPolicyPatch {
    pub ctgp: Option<bool>,
    pub ppab: Option<bool>,
    pub dstate: Option<u8>,
    pub slowdown_temp_c: Option<u8>,
}

impl GpuPolicyPatch {
    pub open spec fn spec_empty() -> GpuPolicyPatch {
        GpuPolicyPatch { ctgp: None, ppab: None, dstate: None, slowdown_temp_c: None }
    }

    pub open spec fn spec_apply(self, live: GpuPlatformPolicy) -> GpuPlatformPolicy {
        GpuPlatformPolicy {
            ctgp: self.ctgp.unwrap_or(live.ctgp),
            ppab: self.ppab.unwrap_or(live.ppab),
            dstate: self.dstate.unwrap_or(live.dstate),
            slowdown_temp_c: self.slowdown_temp_c.unwrap_or(live.slowdown_temp_c),
        }
    }

    /// The live policy with the requested fields replaced.
    pub fn apply(&self, live: GpuPlatformPolicy) -> (r: GpuPlatformPolicy)
        ensures
            r == self.spec_apply(live),
    {
        GpuPlatformPolicy {
            ctgp: self.ctgp.unwrap_or(live.ctgp),
            ppab: self.ppab.unwrap_or(live.ppab),
            dstate: self.dstate.unwrap_or(live.dstate),
            slowdown_temp_c: self.slowdown_temp_c.unwrap_or(live.slowdown_temp_c),
        }
    }
}

impl Default for GpuPolicyPatch {
    fn default() -> (r: GpuPolicyPatch)
        ensures
            r == GpuPolicyPatch::spec_empty(),
    {
        GpuPolicyPatch { ctgp: None, ppab: None, dstate: None, slowdown_temp_c: None }
    }
}

/// The processor settings of one power source, as Windows reports them.
#[derive(Clone, Copy, Debug, PartialEq, Eq, Structural)]
pub struct PpmRail {
    pub epp: Option<u8>,
    pub epp1: Option<u8>,
    pub max_freq_mhz: Option<u32>,
    pub boost_policy: Option<BoostPolicy>,
    pub min_performance: Option<u8>,
    pub max_performance: Option<u8>,
}

/// The Windows processor power state: both rails and the active power scheme.
#[derive(Debug, PartialEq)]
pub struct WindowsPpmState {
    pub ac: PpmRail,
    pub dc: PpmRail,
    pub active_scheme_guid: String,
}

impl Clone for WindowsPpmState {
    fn clone(&self) -> (r: Self)
        ensures
            r == *self,
    {
        WindowsPpmState { ac: self.ac, dc: self.dc, active_scheme_guid: self.active_scheme_guid.clone() }
    }
}

} // verus!
