//! The heartbeat: what it keeps alive, and when it is due.
use vstd::prelude::*;

use crate::control::coordinator::ControlCoordinator;
use crate::control::keepalive::{after, KeepAliveService, ReAssert};
use crate::domain::policy::ThermalMode;

verus! {

/// A moment is as far away as its delay, as far as the clock can tell.
pub proof fn moments(now: u64, delay: u64)
    ensures
        now + delay <= u64::MAX ==> after(now, delay) - now == delay,
        now + delay > u64::MAX ==> after(now, delay) == u64::MAX,
{
}

/// How late an item is re-asserted.
pub open spec fn turn_of(item: ReAssert) -> int {
    match item {
        ReAssert::ThermalMode => 0,
        ReAssert::FanLevels => 1,
        ReAssert::MaxFan => 2,
        ReAssert::PowerLimits => 3,
    }
}

/// What differs from the firmware's own state is kept alive, and nothing else:
/// the performance mode, levels or a curve of the user, max fan, and power
/// limits that were read back and are owed. Each once, in that order.
pub proof fn what_is_kept_alive(c: ControlCoordinator)
    ensures
        ({
            let items = c.spec_tracked();
            let o = c.observed;
            &&& items.contains(ReAssert::ThermalMode) <==> o.thermal_mode.known() == Some(ThermalMode::Performance)
            &&& items.contains(ReAssert::FanLevels) <==> o.fan_mode.known() is Some && (o.fan_mode.known()->Some_0
                is Manual || o.fan_mode.known()->Some_0 is Curve)
            &&& items.contains(ReAssert::MaxFan) <==> o.max_fan.known() == Some(true)
            &&& items.contains(ReAssert::PowerLimits) <==> c.power_limits_dirty && o.power_limits is Verified
            &&& forall|i: int, j: int|
                0 <= i < j < items.len() ==> turn_of(#[trigger] items[i]) < turn_of(#[trigger] items[j])
        }),
{
    let items = c.spec_tracked();
    let o = c.observed;
    let thermal = o.thermal_mode.known() == Some(ThermalMode::Performance);
    let fan = o.fan_mode.known() is Some && (o.fan_mode.known()->Some_0 is Manual || o.fan_mode.known()->Some_0
        is Curve);
    let max = o.max_fan.known() == Some(true);
    let power = c.power_limits_dirty && o.power_limits is Verified;
    let n0: int = if thermal { 1 } else { 0 };
    let n1: int = n0 + (if fan { 1int } else { 0 });
    let n2: int = n1 + (if max { 1int } else { 0 });
    assert(thermal ==> items[0] == ReAssert::ThermalMode);
    assert(fan ==> items[n0] == ReAssert::FanLevels);
    assert(max ==> items[n1] == ReAssert::MaxFan);
    assert(power ==> items[n2] == ReAssert::PowerLimits);
    assert(items.len() == n2 + (if power { 1int } else { 0 }));
    assert forall|x: ReAssert| items.contains(x) implies (x is ThermalMode ==> thermal) && (x is FanLevels ==> fan) && (
    x is MaxFan ==> max) && (x is PowerLimits ==> power) by {
        let i = choose|i: int| 0 <= i < items.len() && items[i] == x;
        assert(items[i] == x);
    }
}

/// Without anything to keep alive there is no heartbeat; else it is due one
/// period after the change. The streak of failures stays.
pub proof fn heartbeats_follow_changes(c: ControlCoordinator, now: u64)
    ensures
        ({
            let k = c.spec_rescheduled(now).keepalive;
            &&& c.spec_tracked().len() == 0 ==> k.next_due is None
            &&& c.spec_tracked().len() > 0 && now + c.keepalive.period <= u64::MAX ==> k.next_due == Some(
                (now + c.keepalive.period) as u64,
            )
            &&& k.period == c.keepalive.period
            &&& k.consecutive_failures == c.keepalive.consecutive_failures
            &&& c.spec_rescheduled(now) == (ControlCoordinator { keepalive: k, ..c })
        }),
{
}

/// A heartbeat that succeeded ends the streak and comes again after a period;
/// one that failed makes the streak one longer and comes again after five
/// seconds, or a period where that is shorter.
pub proof fn heartbeats_are_counted(k: KeepAliveService, now: u64, t: u64)
    ensures
        ({
            let (good, bad) = (k.spec_succeeded(now), k.spec_failed(now));
            &&& good.consecutive_failures == 0
            &&& now + k.period <= u64::MAX ==> good.next_due == Some((now + k.period) as u64)
            &&& k.consecutive_failures < u32::MAX ==> bad.consecutive_failures == k.consecutive_failures + 1
            &&& k.consecutive_failures == u32::MAX ==> bad.consecutive_failures == u32::MAX
            &&& now + 5_000 <= u64::MAX ==> bad.next_due is Some && bad.next_due->Some_0 - now == (if k.period < 5_000 {
                k.period as int
            } else {
                5_000
            })
            &&& good.period == k.period && bad.period == k.period
        }),
        k.due(t) <==> k.next_due is Some && t >= k.next_due->Some_0,
        crate::control::keepalive::PERIOD == 60_000,
        crate::control::keepalive::FAIL_CLOSED_AFTER == 2,
{
}

} // verus!
