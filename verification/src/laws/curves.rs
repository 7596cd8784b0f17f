//! Software fan curves: what they ask for, and when it is written.
use vstd::prelude::*;

use crate::control::fan_curve::{controlling_temp, FanCurveController};
use crate::domain::evidence::Sample;
use crate::domain::policy::{FanCurve, FanCurvePoint};

verus! {

/// `level` is the whole number next to the straight line from `(t0, l0)` to
/// `(t1, l1)` at `t`; of two that are equally near, the higher one.
pub open spec fn next_to_the_line(level: int, t0: int, l0: int, t1: int, l1: int, t: int) -> bool {
    let span = t1 - t0;
    let line = l0 * (t1 - t) + l1 * (t - t0);
    &&& 2 * level * span <= 2 * line + span
    &&& 2 * line + span < 2 * (level + 1) * span
}

proof fn rounded(t0: int, l0: int, t1: int, l1: int, t: int, q: int)
    requires
        t0 <= t < t1,
        q == (2 * (l0 * (t1 - t0) + (l1 - l0) * (t - t0)) + (t1 - t0)) / (2 * (t1 - t0)),
    ensures
        next_to_the_line(q, t0, l0, t1, l1, t),
{
    let span = t1 - t0;
    let num = 2 * (l0 * span + (l1 - l0) * (t - t0)) + span;
    let line = l0 * (t1 - t) + l1 * (t - t0);
    assert(num == 2 * line + span) by (nonlinear_arith)
        requires
            span == t1 - t0,
            num == 2 * (l0 * span + (l1 - l0) * (t - t0)) + span,
            line == l0 * (t1 - t) + l1 * (t - t0),
    ;
    let d = 2 * span;
    assert(d * q <= num < d * (q + 1)) by (nonlinear_arith)
        requires
            d > 0,
            q == num / d,
    ;
    assert(2 * q * span == d * q && 2 * (q + 1) * span == d * (q + 1)) by (nonlinear_arith)
        requires
            d == 2 * span,
    ;
}

/// Between two points that follow one another, each channel's target is the
/// whole level next to the straight line between them.
pub open spec fn on_segment(curve: FanCurve, a: FanCurvePoint, b: FanCurvePoint, t: int, unit: int) -> bool {
    let target = curve.spec_target_in(t, unit);
    let (ta, tb) = (a.temp_c * unit, b.temp_c * unit);
    ta <= t < tb ==> {
        &&& next_to_the_line(target.0, ta, a.left as int, tb, b.left as int, t)
        &&& next_to_the_line(target.1, ta, a.right as int, tb, b.right as int, t)
    }
}

/// On every segment of a valid curve the targets follow the straight line to
/// the nearest whole level; below the first and from the last point on they
/// are that point's.
pub proof fn targets_follow_the_line(curve: FanCurve, t: int, unit: int)
    requires
        curve.valid(),
        unit > 0,
    ensures
        on_segment(curve, curve.first, curve.second, t, unit),
        on_segment(curve, curve.second, curve.third, t, unit),
        on_segment(curve, curve.third, curve.fourth, t, unit),
        t < curve.first.temp_c * unit ==> curve.spec_target_in(t, unit) == (
            curve.first.left as int,
            curve.first.right as int,
        ),
        t >= curve.fourth.temp_c * unit ==> curve.spec_target_in(t, unit) == (
            curve.fourth.left as int,
            curve.fourth.right as int,
        ),
{
    let (a, b, c, d) = (curve.first, curve.second, curve.third, curve.fourth);
    let target = curve.spec_target_in(t, unit);
    let (ta, tb, tc, td) = (a.temp_c * unit, b.temp_c * unit, c.temp_c * unit, d.temp_c * unit);
    assert(ta < tb < tc < td) by (nonlinear_arith)
        requires
            unit > 0,
            a.temp_c < b.temp_c < c.temp_c < d.temp_c,
            ta == a.temp_c * unit,
            tb == b.temp_c * unit,
            tc == c.temp_c * unit,
            td == d.temp_c * unit,
    ;
    if ta <= t < tb {
        rounded(ta, a.left as int, tb, b.left as int, t, target.0);
        rounded(ta, a.right as int, tb, b.right as int, t, target.1);
    }
    if tb <= t < tc {
        rounded(tb, b.left as int, tc, c.left as int, t, target.0);
        rounded(tb, b.right as int, tc, c.right as int, t, target.1);
    }
    if tc <= t < td {
        rounded(tc, c.left as int, td, d.left as int, t, target.0);
        rounded(tc, c.right as int, td, d.right as int, t, target.1);
    }
}

/// At each of its points a valid curve asks for that point's levels, whether
/// in millidegrees or in any other unit.
pub proof fn points_are_on_the_curve(curve: FanCurve, unit: int)
    requires
        curve.valid(),
        unit > 0,
    ensures
        forall|p: FanCurvePoint|
            p == curve.first || p == curve.second || p == curve.third || p == curve.fourth ==> #[trigger] curve.spec_target_in(
                p.temp_c * unit,
                unit,
            ) == (p.left as int, p.right as int),
        forall|t: int| curve.spec_target(t) == #[trigger] curve.spec_target_in(t, 1000),
{
    assert forall|p: FanCurvePoint|
        p == curve.first || p == curve.second || p == curve.third || p == curve.fourth implies #[trigger] curve.spec_target_in(
        p.temp_c * unit,
        unit,
    ) == (p.left as int, p.right as int) by {
        let t = p.temp_c * unit;
        targets_follow_the_line(curve, t, unit);
        let (a, b, c, d) = (curve.first, curve.second, curve.third, curve.fourth);
        let (ta, tb, tc, td) = (a.temp_c * unit, b.temp_c * unit, c.temp_c * unit, d.temp_c * unit);
        assert(ta < tb < tc < td) by (nonlinear_arith)
            requires
                unit > 0,
                a.temp_c < b.temp_c < c.temp_c < d.temp_c,
                ta == a.temp_c * unit,
                tb == b.temp_c * unit,
                tc == c.temp_c * unit,
                td == d.temp_c * unit,
        ;
        let target = curve.spec_target_in(t, unit);
        if t == ta {
            at_the_start(target.0, ta, a.left as int, tb, b.left as int);
            at_the_start(target.1, ta, a.right as int, tb, b.right as int);
        } else if t == tb {
            at_the_start(target.0, tb, b.left as int, tc, c.left as int);
            at_the_start(target.1, tb, b.right as int, tc, c.right as int);
        } else if t == tc {
            at_the_start(target.0, tc, c.left as int, td, d.left as int);
            at_the_start(target.1, tc, c.right as int, td, d.right as int);
        }
    }
}

proof fn at_the_start(level: int, t0: int, l0: int, t1: int, l1: int)
    requires
        t0 < t1,
        next_to_the_line(level, t0, l0, t1, l1, t0),
    ensures
        level == l0,
{
    let span = t1 - t0;
    assert(l1 * (t0 - t0) == 0) by (nonlinear_arith);
    assert(2 * level * span <= 2 * (l0 * span) + span);
    assert(level <= l0 && l0 <= level) by (nonlinear_arith)
        requires
            span > 0,
            2 * level * span <= 2 * (l0 * span) + span,
            2 * (l0 * span) + span < 2 * (level + 1) * span,
    ;
}

/// A curve is usable exactly if its temperatures strictly rise, neither level
/// ever falls, and both channels turn from the first point on.
pub proof fn usable_curves(curve: FanCurve)
    ensures
        curve.valid() <==> {
            &&& curve.first.left > 0 && curve.first.right > 0
            &&& curve.first.temp_c < curve.second.temp_c < curve.third.temp_c < curve.fourth.temp_c
            &&& curve.first.left <= curve.second.left <= curve.third.left <= curve.fourth.left
            &&& curve.first.right <= curve.second.right <= curve.third.right <= curve.fourth.right
        },
{
}

/// The controlling temperature is the hotter of the samples that are at most
/// five seconds old; without such a sample of the processor there is none.
pub proof fn hottest_fresh_sample_controls(cpu: Option<Sample>, gpu: Option<Sample>, now: u64)
    ensures
        ({
            let temp = controlling_temp(cpu, gpu, now);
            let cpu_fresh = cpu matches Some(s) && now - s.at <= 5_000;
            let gpu_fresh = gpu matches Some(s) && now - s.at <= 5_000;
            &&& temp is Some <==> cpu_fresh
            &&& temp matches Some(t) ==> {
                &&& t >= cpu->Some_0.value
                &&& gpu_fresh ==> t >= gpu->Some_0.value
                &&& t == cpu->Some_0.value || (gpu_fresh && t == gpu->Some_0.value)
            }
        }),
{
}

/// A sample moves the smoothed temperature to the middle between the two; the
/// first sample is taken as it is. A fine unit is 2^-40 of a millidegree.
pub proof fn samples_are_averaged(k: FanCurveController, temp: i64)
    ensures
        ({
            let s = k.spec_smoothed(temp);
            let t = temp * 1_099_511_627_776;
            match k.smoothed_temp {
                None => s == t,
                Some(previous) => {
                    &&& previous + t - 1 <= 2 * s <= previous + t + 1
                    &&& previous <= t ==> previous <= s <= t
                    &&& t <= previous ==> t <= s <= previous
                },
            }
        }),
{
}

/// A target is written only if it differs from the last one on some channel,
/// and a whole second has passed since the last write or failure.
pub proof fn writes_are_rare_and_meaningful(k: FanCurveController, target: (int, int), now: u64)
    ensures
        k.spec_changed(target) <==> (k.last_target matches Some(last) ==> last.left != target.0 || last.right
            != target.1),
        k.spec_quiet(now) <==> (k.last_write_at matches Some(at) ==> now - at >= 1_000),
{
}

} // verus!
