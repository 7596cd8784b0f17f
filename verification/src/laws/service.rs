//! The writer's service: its start, its readings, its waits and its end.
use vstd::prelude::*;

use crate::control::coordinator::{fans_held, ControlCoordinator};
use crate::control::lease::{is_word, may_write, reads_only, DesktopProcess};
use crate::control::mux::MuxLifecycle;
use crate::control::plan::needed_reads;
use crate::control::recovery::RecoveryRecord;
use crate::control::run_loop::{
    admission, earlier, is_manual, level_of, spec_loop_wait, started_observed, Admission, RequestKind, StartReadings,
};
use crate::control::stamp::{with_gpu, with_rails, PpmReads};
use crate::domain::command::ControlCommand;
use crate::domain::evidence::Knob;
use crate::domain::policy::{GpuPlatformPolicy, PpmRail, WindowsPpmState};
use crate::domain::profile::PerformanceProfile;
use crate::domain::state::{Channel, ControlNotice, ObservedState, ObservedValue};
use crate::engine::{shutdown_order, Openings, Provider, Unavailable};
use crate::hardware_status::{vendor_executable_of, xtu_running, HardwareStatus, Service};
use crate::number::white;
use crate::text::{equal_ignoring_case, without_quotes};

verus! {

/// A value that was read is verified, at the moment and through the channel;
/// one that was not read stays as it was known.
pub open spec fn read_or_kept<T>(
    after: ObservedValue<T>,
    before: ObservedValue<T>,
    reading: Option<T>,
    now: u64,
    source: Channel,
) -> bool {
    &&& reading is Some ==> after == (ObservedValue::Verified { value: reading->Some_0, at: now, source })
    &&& reading is None ==> after == before
}

/// Every setting of the processor is stamped with its own reading, on its own
/// side, and no other setting is touched.
pub proof fn rails_are_stamped(o: ObservedState, ac: PpmRail, dc: PpmRail, now: u64)
    ensures
        ({
            let r = with_rails(o, ac, dc, now);
            &&& read_or_kept(r.epp_ac, o.epp_ac, ac.epp, now, Channel::Ppm(Knob::Epp))
            &&& read_or_kept(r.epp_dc, o.epp_dc, dc.epp, now, Channel::Ppm(Knob::Epp))
            &&& read_or_kept(r.epp1_ac, o.epp1_ac, ac.epp1, now, Channel::Ppm(Knob::Epp1))
            &&& read_or_kept(r.epp1_dc, o.epp1_dc, dc.epp1, now, Channel::Ppm(Knob::Epp1))
            &&& read_or_kept(r.max_freq_ac, o.max_freq_ac, ac.max_freq_mhz, now, Channel::Ppm(Knob::MaxFrequency))
            &&& read_or_kept(r.max_freq_dc, o.max_freq_dc, dc.max_freq_mhz, now, Channel::Ppm(Knob::MaxFrequency))
            &&& read_or_kept(r.boost_ac, o.boost_ac, ac.boost_policy, now, Channel::Ppm(Knob::Boost))
            &&& read_or_kept(r.boost_dc, o.boost_dc, dc.boost_policy, now, Channel::Ppm(Knob::Boost))
            &&& read_or_kept(
                r.min_performance_ac,
                o.min_performance_ac,
                ac.min_performance,
                now,
                Channel::Ppm(Knob::MinPerformance),
            )
            &&& read_or_kept(
                r.min_performance_dc,
                o.min_performance_dc,
                dc.min_performance,
                now,
                Channel::Ppm(Knob::MinPerformance),
            )
            &&& read_or_kept(
                r.max_performance_ac,
                o.max_performance_ac,
                ac.max_performance,
                now,
                Channel::Ppm(Knob::MaxPerformance),
            )
            &&& read_or_kept(
                r.max_performance_dc,
                o.max_performance_dc,
                dc.max_performance,
                now,
                Channel::Ppm(Knob::MaxPerformance),
            )
            &&& r.fan_mode == o.fan_mode && r.max_fan == o.max_fan && r.thermal_mode == o.thermal_mode
            &&& r.power_limits == o.power_limits && r.gpu_platform_policy == o.gpu_platform_policy && r.mux == o.mux
            &&& r.active_profile == o.active_profile && r.control_notice == o.control_notice
        }),
{
}

/// The first of a pair that was read is the value on mains, the second that on
/// battery.
pub proof fn pairs_are_split_by_side(r: PpmReads)
    ensures
        ({
            let ac = r.ac_rail();
            let dc = r.dc_rail();
            &&& r.epp is Some ==> ac.epp == Some(r.epp->Some_0.0) && dc.epp == Some(r.epp->Some_0.1)
            &&& r.epp is None ==> ac.epp is None && dc.epp is None
            &&& r.epp1 is Some ==> ac.epp1 == Some(r.epp1->Some_0.0) && dc.epp1 == Some(r.epp1->Some_0.1)
            &&& r.epp1 is None ==> ac.epp1 is None && dc.epp1 is None
            &&& r.max_freq_mhz is Some ==> ac.max_freq_mhz == Some(r.max_freq_mhz->Some_0.0) && dc.max_freq_mhz == Some(
                r.max_freq_mhz->Some_0.1,
            )
            &&& r.max_freq_mhz is None ==> ac.max_freq_mhz is None && dc.max_freq_mhz is None
            &&& r.boost_policy is Some ==> ac.boost_policy == Some(r.boost_policy->Some_0.0) && dc.boost_policy == Some(
                r.boost_policy->Some_0.1,
            )
            &&& r.boost_policy is None ==> ac.boost_policy is None && dc.boost_policy is None
            &&& r.min_performance is Some ==> ac.min_performance == Some(r.min_performance->Some_0.0)
                && dc.min_performance == Some(r.min_performance->Some_0.1)
            &&& r.min_performance is None ==> ac.min_performance is None && dc.min_performance is None
            &&& r.max_performance is Some ==> ac.max_performance == Some(r.max_performance->Some_0.0)
                && dc.max_performance == Some(r.max_performance->Some_0.1)
            &&& r.max_performance is None ==> ac.max_performance is None && dc.max_performance is None
        }),
{
}

/// A new reading of everything: the system's own table where it can be had,
/// else the two energy preferences; and the graphics policy where there is a
/// firmware.
pub proof fn refreshed_readings(
    c: ControlCoordinator,
    windows: Option<WindowsPpmState>,
    reads: PpmReads,
    gpu: Option<GpuPlatformPolicy>,
    now: u64,
)
    ensures
        ({
            let r = c.spec_refreshed(windows, reads, gpu, now);
            let o = r.observed;
            &&& windows is Some ==> r.windows_ppm == windows && read_or_kept(
                o.max_freq_ac,
                c.observed.max_freq_ac,
                windows->Some_0.ac.max_freq_mhz,
                now,
                Channel::Ppm(Knob::MaxFrequency),
            ) && read_or_kept(o.epp_ac, c.observed.epp_ac, windows->Some_0.ac.epp, now, Channel::Ppm(Knob::Epp))
                && read_or_kept(o.epp_dc, c.observed.epp_dc, windows->Some_0.dc.epp, now, Channel::Ppm(Knob::Epp))
            &&& windows is None ==> r.windows_ppm == c.windows_ppm && o.max_freq_ac == c.observed.max_freq_ac
                && o.max_freq_dc == c.observed.max_freq_dc && o.boost_ac == c.observed.boost_ac && o.min_performance_ac
                == c.observed.min_performance_ac && o.max_performance_ac == c.observed.max_performance_ac
            &&& windows is None && reads.epp is Some ==> read_or_kept(
                o.epp_ac,
                c.observed.epp_ac,
                Some(reads.epp->Some_0.0),
                now,
                Channel::Ppm(Knob::Epp),
            ) && read_or_kept(
                o.epp_dc,
                c.observed.epp_dc,
                Some(reads.epp->Some_0.1),
                now,
                Channel::Ppm(Knob::Epp),
            )
            &&& windows is None && reads.epp is None ==> o.epp_ac == c.observed.epp_ac && o.epp_dc == c.observed.epp_dc
            &&& c.hp_present ==> read_or_kept(
                o.gpu_platform_policy,
                c.observed.gpu_platform_policy,
                gpu,
                now,
                Channel::GpuPolicy,
            )
            &&& !c.hp_present ==> o.gpu_platform_policy == c.observed.gpu_platform_policy
            &&& r.desired == c.desired && r.safety == c.safety && r.keepalive == c.keepalive
            &&& r.scoped_session == c.scoped_session && r.fan_control_dirty == c.fan_control_dirty
        }),
{
}

/// An earlier session counts at the start if it left anything owed, and is
/// announced.
pub proof fn earlier_sessions_are_announced(
    ledger: Option<RecoveryRecord>,
    o: ObservedState,
    mux: MuxLifecycle,
    readings: StartReadings,
    now: u64,
)
    ensures
        ({
            let r = ledger->Some_0;
            let owed = ledger is Some && (r.fan || r.thermal || r.gpu is Some || r.power is Some || r.scoped is Some);
            earlier(ledger) == (if owed { ledger } else { None })
        }),
        ({
            let s = started_observed(o, mux, readings, now);
            &&& earlier(readings.ledger) is Some ==> s.control_notice == Some(ControlNotice::PreviousSession)
            &&& earlier(readings.ledger) is None ==> s.control_notice == o.control_notice
            &&& read_or_kept(s.mux, o.mux, readings.mux, now, Channel::Mux)
            &&& s.mux_status == Some(mux.status) && s.mux_write_verified == mux.writable
            &&& s == (ObservedState {
                control_notice: s.control_notice,
                mux: s.mux,
                mux_status: s.mux_status,
                mux_write_verified: s.mux_write_verified,
                ..o
            })
        }),
        read_or_kept(
            with_gpu(o, readings.gpu_policy, now).gpu_platform_policy,
            o.gpu_platform_policy,
            readings.gpu_policy,
            now,
            Channel::GpuPolicy,
        ),
{
}

/// Requests run while no plan does; else up to thirty-two wait. Beyond those a
/// command is answered as busy, new profiles are asked for again, and a
/// refresh is dropped. An end comes at once.
pub proof fn requests_are_admitted(plan_active: bool, queued: int)
    ensures
        admission(RequestKind::Shutdown, plan_active, queued) == Admission::StopNow,
        forall|kind: RequestKind|
            kind != RequestKind::Shutdown ==> (#[trigger] admission(kind, plan_active, queued) == Admission::Run <==> !plan_active)
                && (admission(kind, plan_active, queued) == Admission::Queue <==> plan_active && queued < 32),
        plan_active && queued >= 32 ==> admission(RequestKind::Dispatch, plan_active, queued) == Admission::AnswerBusy
            && admission(RequestKind::ReplaceProfiles, plan_active, queued) == Admission::AskAgain && admission(
            RequestKind::RefreshObserved,
            plan_active,
            queued,
        ) == Admission::Drop,
{
}

/// Every command is the user's but those of the rules.
pub proof fn rules_are_not_the_user(cmd: ControlCommand)
    ensures
        cmd is ApplyScopedProfile || cmd is RestoreScopedProfile <==> !is_manual(cmd),
{
}

/// Speeds come in levels of a hundred turns a minute, to the nearest.
pub proof fn speeds_come_in_levels(rpm: u32)
    ensures
        rpm < 6_553_550 ==> -50 <= rpm - 100 * level_of(rpm) < 50,
        rpm >= 6_553_550 ==> level_of(rpm) == 65_535,
{
}

/// The fans are held under a level, a curve, or full speed, by the user or by
/// an override.
pub proof fn fans_are_held(c: ControlCoordinator)
    ensures
        fans_held(c) <==> {
            ||| c.safety.override_saved is Some
            ||| c.observed.max_fan.known() == Some(true)
            ||| c.observed.fan_mode.known() is Some && (c.observed.fan_mode.known()->Some_0 is Manual
                || c.observed.fan_mode.known()->Some_0 is Curve)
        },
{
}

/// The writer sleeps until the first of what is due, and not a moment less:
/// the heartbeat or an hour, the safety cadence while the fans are held, the
/// next look at the temperatures, and the plan's readback.
pub proof fn waits_end_with_what_is_due(c: ControlCoordinator, next_safety: u64, plan_due: Option<u64>, now: u64)
    ensures
        ({
            let wait = spec_loop_wait(c, next_safety, plan_due, now);
            let until = |at: u64| if at >= now { at - now } else { 0 };
            let beat = match c.keepalive.next_due {
                Some(due) => until(due),
                None => 3_600_000,
            };
            &&& wait <= beat && wait <= until(next_safety)
            &&& fans_held(c) ==> wait <= c.safety_tick
            &&& plan_due is Some ==> wait <= until(plan_due->Some_0)
            &&& {
                ||| wait == beat
                ||| wait == until(next_safety)
                ||| fans_held(c) && wait == c.safety_tick
                ||| plan_due is Some && wait == until(plan_due->Some_0)
            }
        }),
{
}

/// Before a session exactly what its profile replaces is read, with the power
/// scheme; before a session ends, or is taken over, the scheme alone.
pub proof fn only_what_is_replaced_is_read(
    c: ControlCoordinator,
    cmd: ControlCommand,
    profile: String,
    session_id: u64,
    p: PerformanceProfile,
)
    requires
        c.previous_recovery is None,
    ensures
        c.scoped_session is None && c.profiles.lookup(profile@) == Some(p) ==> ({
            let n = needed_reads(c, ControlCommand::ApplyScopedProfile { profile, session_id });
            let t = p.cpu;
            &&& n.epp == (t.epp_ac is Some || t.epp_dc is Some)
            &&& n.epp1 == (t.epp1_ac is Some || t.epp1_dc is Some)
            &&& n.max_freq == (t.max_freq_mhz_ac is Some || t.max_freq_mhz_dc is Some)
            &&& n.min_performance == (t.min_performance_ac is Some || t.min_performance_dc is Some)
            &&& n.max_performance == (t.max_performance_ac is Some || t.max_performance_dc is Some)
            &&& n.boost == (t.boost_policy is Some || t.boost_policy_ac is Some || t.boost_policy_dc is Some)
            &&& n.gpu == (p.gpu_policy is Some && c.hp_present)
            &&& n.scheme
        }),
        !(cmd is ApplyScopedProfile) ==> ({
            let n = needed_reads(c, cmd);
            &&& !n.epp && !n.epp1 && !n.max_freq && !n.min_performance && !n.max_performance && !n.boost && !n.gpu
            &&& cmd is RestoreScopedProfile ==> n.scheme == (c.scoped_session is Some && c.scoped_session->Some_0.id
                == cmd->RestoreScopedProfile_session_id)
            &&& cmd is RestoreSession ==> !n.scheme
            &&& !(cmd is RestoreScopedProfile) && !(cmd is RestoreSession) ==> n.scheme == (c.scoped_session is Some)
        }),
{
}

/// Another program's process is a writer unless its command line says that it
/// only reads.
pub proof fn other_desktops_may_write(p: DesktopProcess, own: u32)
    ensures
        may_write(p, own) <==> p.process_id != own && (p.command_line is None || !reads_only(p.command_line->Some_0@)),
{
}

proof fn word_in_front(a: Seq<char>, c: char, b: Seq<char>, i: int, j: int)
    requires
        white(c),
    ensures
        is_word(a, i, j) ==> is_word(a.push(c) + b, i, j) && (a.push(c) + b).subrange(i, j) == a.subrange(i, j),
        is_word(a.push(c) + b, i, j) && i <= a.len() ==> is_word(a, i, j) && (a.push(c) + b).subrange(i, j)
            == a.subrange(i, j),
{
    let s = a.push(c) + b;
    assert forall|k: int| 0 <= k < a.len() implies #[trigger] s[k] == a[k] by {}
    assert(s[a.len() as int] == c);
    if is_word(a, i, j) {
        assert forall|k: int| i <= k < j implies !white(#[trigger] s[k]) by {
            assert(a[k] == s[k]);
        }
        assert(s.subrange(i, j) =~= a.subrange(i, j));
    }
    if is_word(s, i, j) && i <= a.len() {
        if j > a.len() {
            assert(!white(s[a.len() as int]));
        }
        assert forall|k: int| i <= k < j implies !white(#[trigger] a[k]) by {
            assert(s[k] == a[k]);
        }
        assert(s.subrange(i, j) =~= a.subrange(i, j));
    }
}

proof fn word_behind(a: Seq<char>, c: char, b: Seq<char>, i: int, j: int)
    requires
        white(c),
    ensures
        is_word(b, i, j) ==> is_word(a.push(c) + b, i + a.len() + 1, j + a.len() + 1) && (a.push(c) + b).subrange(
            i + a.len() + 1,
            j + a.len() + 1,
        ) == b.subrange(i, j),
        is_word(a.push(c) + b, i + a.len() + 1, j + a.len() + 1) && i >= 0 ==> is_word(b, i, j) && (a.push(c)
            + b).subrange(i + a.len() + 1, j + a.len() + 1) == b.subrange(i, j),
{
    let s = a.push(c) + b;
    let n = a.len() + 1;
    assert forall|k: int| 0 <= k < b.len() implies #[trigger] b[k] == s[k + n] by {}
    assert(s[a.len() as int] == c);
    if is_word(b, i, j) {
        assert forall|k: int| i + n <= k < j + n implies !white(#[trigger] s[k]) by {
            assert(b[k - n] == s[k]);
        }
        assert(s.subrange(i + n, j + n) =~= b.subrange(i, j));
    }
    if is_word(s, i + n, j + n) && i >= 0 {
        assert forall|k: int| i <= k < j implies !white(#[trigger] b[k]) by {
            assert(s[k + n] == b[k]);
        }
        assert(s.subrange(i + n, j + n) =~= b.subrange(i, j));
    }
}

/// A command line only reads if one of its words, without quotes, is
/// `--read-only`: white space parts the words, and a word stands for itself.
pub proof fn reading_is_told_by_a_word(a: Seq<char>, c: char, b: Seq<char>, word: Seq<char>)
    requires
        white(c),
        word.len() > 0,
        forall|k: int| 0 <= k < word.len() ==> !white(#[trigger] word[k]),
    ensures
        reads_only(a.push(c) + b) <==> reads_only(a) || reads_only(b),
        reads_only(word) <==> without_quotes(word) == "--read-only"@,
        !reads_only(Seq::empty()),
{
    let s = a.push(c) + b;
    let n = a.len() + 1;
    if reads_only(a) {
        let (i, j) = choose|i: int, j: int|
            #[trigger] is_word(a, i, j) && without_quotes(a.subrange(i, j)) == "--read-only"@;
        word_in_front(a, c, b, i, j);
        assert(is_word(s, i, j));
    }
    if reads_only(b) {
        let (i, j) = choose|i: int, j: int|
            #[trigger] is_word(b, i, j) && without_quotes(b.subrange(i, j)) == "--read-only"@;
        word_behind(a, c, b, i, j);
        assert(is_word(s, i + n, j + n));
    }
    if reads_only(s) {
        let (i, j) = choose|i: int, j: int|
            #[trigger] is_word(s, i, j) && without_quotes(s.subrange(i, j)) == "--read-only"@;
        if i <= a.len() {
            word_in_front(a, c, b, i, j);
        } else {
            word_behind(a, c, b, i - n, j - n);
            assert(is_word(b, i - n, j - n));
        }
    }
    let m = word.len() as int;
    assert(is_word(word, 0, m));
    assert(word.subrange(0, m) =~= word);
    if reads_only(word) {
        let (i, j) = choose|i: int, j: int|
            #[trigger] is_word(word, i, j) && without_quotes(word.subrange(i, j)) == "--read-only"@;
        if i > 0 {
            assert(!white(word[i - 1]));
        }
        if j < m {
            assert(!white(word[j]));
        }
    }
}

/// The tuning service runs if a service of its name, whatever the case, is
/// running; the vendor's program is that of the first service of its name.
pub proof fn services_are_found(services: Seq<Service>, s: Service)
    ensures
        !xtu_running(Seq::empty()),
        xtu_running(services.push(s)) <==> xtu_running(services) || (equal_ignoring_case(s.name@, "XTU3SERVICE"@)
            && s.state@ == "Running"@),
        vendor_executable_of(Seq::empty()) is None,
        s.name@ != "HPOmenCap"@ ==> vendor_executable_of(seq![s] + services) == vendor_executable_of(services),
        s.name@ == "HPOmenCap"@ && s.path_name is Some ==> vendor_executable_of(seq![s] + services) == Some(
            without_quotes(s.path_name->Some_0@),
        ),
        s.name@ == "HPOmenCap"@ && s.path_name is None ==> vendor_executable_of(seq![s] + services) is None,
{
    let all = services.push(s);
    if xtu_running(services) {
        let i = choose|i: int|
            0 <= i < services.len() && equal_ignoring_case((#[trigger] services[i]).name@, "XTU3SERVICE"@)
                && services[i].state@ == "Running"@;
        assert(all[i] == services[i]);
    }
    if equal_ignoring_case(s.name@, "XTU3SERVICE"@) && s.state@ == "Running"@ {
        assert(all[services.len() as int] == s);
    }
    if xtu_running(all) {
        let i = choose|i: int|
            0 <= i < all.len() && equal_ignoring_case((#[trigger] all[i]).name@, "XTU3SERVICE"@) && all[i].state@
                == "Running"@;
        if i < services.len() {
            assert(services[i] == all[i]);
        }
    }
    assert((seq![s] + services).drop_first() =~= services);
}

/// A provider that could not be opened is told with its reason, and no other.
pub proof fn missing_providers_are_told(o: Openings, u: Unavailable)
    ensures
        o.unavailable().contains(u) <==> {
            ||| u.provider is CpuSilicon && o.cpu_silicon is Failed && o.cpu_silicon->Failed_0 == u.why
            ||| u.provider is Gpu && o.gpu is Failed && o.gpu->Failed_0 == u.why
            ||| u.provider is WindowsCounters && o.windows_counters is Failed && o.windows_counters->Failed_0 == u.why
            ||| u.provider is Fans && o.fans is Failed && o.fans->Failed_0 == u.why
        },
{
    let a = crate::engine::missing(o.cpu_silicon, Provider::CpuSilicon);
    let b = crate::engine::missing(o.gpu, Provider::Gpu);
    let c = crate::engine::missing(o.windows_counters, Provider::WindowsCounters);
    let d = crate::engine::missing(o.fans, Provider::Fans);
    let all = o.unavailable();
    assert(all == a + b + c + d);
    assert(a.len() <= 1 && b.len() <= 1 && c.len() <= 1 && d.len() <= 1);
    let (la, lb, lc) = (a.len() as int, b.len() as int, c.len() as int);
    if a.len() == 1 {
        assert(all[0] == a[0]);
    }
    if b.len() == 1 {
        assert(all[la] == b[0]);
    }
    if c.len() == 1 {
        assert(all[la + lb] == c[0]);
    }
    if d.len() == 1 {
        assert(all[la + lb + lc] == d[0]);
    }
}

/// The stages of an end: the schedulers first, then the hand-back, then the
/// providers, each at most once, the hand-back and the firmware's only where
/// they are there.
pub proof fn everything_ends_in_order(has_control: bool, has_hp: bool)
    ensures
        ({
            let order = shutdown_order(has_control, has_hp);
            let c: int = if has_control { 1 } else { 0 };
            let h: int = if has_hp { 1 } else { 0 };
            &&& order.len() == 3 + c + h
            &&& order[0] is AutomaticScheduler && order[1] is OsPolicies && order[2 + c] is Telemetry
            &&& has_control ==> order[2] is Control
            &&& has_hp ==> order[3 + c] is HpActor
        }),
{
}

/// Nothing is known of the hardware at first; and no backend is there while
/// each of them is missing.
pub proof fn hardware_is_unknown_at_first(h: HardwareStatus)
    ensures
        h.no_backend() <==> !h.undervolt_backend && !h.cpu_overclock_backend && !h.memory_overclock_backend
            && !h.charge_limit_backend,
        h.blank() <==> h.xtu_service_running is None && h.oem_intel_sdk is None && h.vbs_status is None && h.no_backend()
            && h.notes@.len() == 0,
{
}

/// The periods and bounds that the programs keep, in milliseconds, bytes and
/// entries.
pub proof fn periods_and_bounds()
    ensures
        crate::app::coalesce::MIN_INTERVAL == 250 && crate::app::coalesce::BUSY_BACKOFF == 300,
        crate::app::coalesce::BUSY_TIMEOUT == 5_000,
        crate::app::runtime::BUSY_WAIT == 10 && crate::app::runtime::IDLE_WAIT == 100,
        crate::app::runtime::REFRESH_PERIOD == 2_000 && crate::app::runtime::REPROBE_PERIOD == 30_000,
        crate::app::runtime::SLOW_TURN == 2_000,
        crate::measurements::MAX_CAPTURE_BYTES == 128 * 1_048_576 && crate::measurements::MIN_FRAMES == 100,
        crate::control::coordinator::SAFETY_TICK == 1_000 && crate::control::coordinator::FAN_VERIFY_POLLS == 8,
        crate::control::coordinator::VERIFY_POLL_INTERVAL == 1_000,
        crate::control::journal::MAX_JOURNAL_BYTES == 8 * 1_048_576 && crate::control::journal::TAIL_BYTES == 512 * 1024,
        crate::control::journal::TAIL_ENTRIES == 100,
        crate::cli::gpuload::BATCH == 64 && crate::cli::control::DISPATCH_TIMEOUT == 30_000,
        crate::cli::control::HOLD_POLL == 200 && crate::cli::telemetry::MIN_INTERVAL_MS == 50,
        crate::automatic_scheduler::PROCESS_RECONCILE_INTERVAL == 2_000,
        crate::automatic_scheduler::POWER_REFRESH_INTERVAL == 10_000,
{
}

} // verus!
