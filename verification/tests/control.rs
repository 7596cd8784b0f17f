//! The parts of the control plane one by one: safety, heartbeat, curve, drift,
//! multiplexer, journal and lease.
use phelper_core::control::drift;
use phelper_core::control::fan_curve::{
    effective_temperature, level_delta, FanCurveController, TEMP_FRESH_FOR_CURVE,
};
use phelper_core::control::journal::{
    last_records, tail_start, ControlJournal, JournalEvent, JournalOrigin, NotText, MAX_JOURNAL_BYTES,
    TAIL_BYTES,
};
use phelper_core::control::keepalive::{KeepAliveService, ReAssert, PERIOD};
use phelper_core::control::lease::{other_writer, DesktopProcess};
use phelper_core::control::mux::{MuxLifecycle, MuxLoaded, MuxRecord};
use phelper_core::control::verification::{PendingVerification, Readback};
use phelper_core::control::safety::{SafetyAction, SafetySupervisor, ThermalFeed, SENSOR_STALE_AFTER};
use phelper_core::domain::capability::{CapabilitySet, FanScale, Support};
use phelper_core::domain::command::{
    weakest_verification, ControlCommand, ControlOutcome, ControlReceipt, ControlStatus, FirmwareReturn, Note, Step,
    StepOutcome, Verification,
};
use phelper_core::domain::error::{ControlError, HpWmiError, UnsafeReason};
use phelper_core::domain::evidence::{Evidence, FanSample, PowerSample, Sample, Target};
use phelper_core::domain::policy::{
    BoostPolicy, CpuPolicy, CpuPowerLimits, FanCurve, FanCurvePoint, FanLevels, FanMode, GpuPlatformPolicy,
    GpuPolicyPatch, MuxMode, ThermalMode, FINE, FINE_PER_MILLI,
};
use phelper_core::domain::profile::PerformanceProfile;
use phelper_core::domain::state::{ObservedState, ObservedValue};

const NOW: u64 = 1_000_000;

fn feed_at(temp_milli: i64, at: u64) -> ThermalFeed {
    ThermalFeed {
        pkg_temp: Some(Sample { value: temp_milli, at }),
        gpu_temp: None,
        fan_levels: Some(FanSample { levels: FanLevels::new(30, 30), at }),
        power_limits: Some(PowerSample { pl1_mw: 55_000, pl2_mw: 130_000, at: NOW }),
        pl4: None,
    }
}

fn fresh(temp_milli: i64) -> ThermalFeed {
    feed_at(temp_milli, NOW)
}

fn stale() -> ThermalFeed {
    feed_at(70_000, NOW - SENSOR_STALE_AFTER - 1_000)
}

fn caps_full() -> CapabilitySet {
    let mut c = CapabilitySet::default();
    c.known_board = true;
    c.thermal_mode = Support::Supported;
    c.fan_rpm_read = Support::Supported;
    c.fan_manual_level = Support::Supported;
    c.max_fan = Support::Supported;
    c.fan.scale = FanScale::Krpm;
    c.fan.clamp_min = Some(5);
    c.fan.clamp_max = Some(55);
    c.ppm.epp = Support::Supported;
    c.ppm.epp1 = Support::Supported;
    c.ppm.max_freq = Support::Supported;
    c.ppm.write_privileged = true;
    c.gpu_platform_policy = Support::Supported;
    c
}

fn observed_manual(levels: FanLevels) -> ObservedState {
    let mut o = ObservedState::default();
    o.fan_mode = ObservedValue::TrustedWrite { value: FanMode::Manual(levels), at: NOW };
    o
}

fn observed_max_fan() -> ObservedState {
    let mut o = ObservedState::default();
    o.max_fan = ObservedValue::TrustedWrite { value: true, at: NOW };
    o
}

fn validate(cmd: &ControlCommand, caps: &CapabilitySet) -> Result<(), ControlError> {
    SafetySupervisor::new().validate(cmd, caps, &fresh(70_000), &ObservedState::default(), NOW)
}

fn cpu(change: fn(&mut CpuPolicy)) -> ControlCommand {
    let mut p = CpuPolicy::default();
    change(&mut p);
    ControlCommand::SetCpuPolicy(p)
}

fn limits(pl1: u8, pl2: u8) -> CpuPowerLimits {
    CpuPowerLimits { pl1_w: pl1, pl2_w: pl2, pl4_w: 0, cpu_gpu_concurrent_w: 0 }
}

fn is_unsafe(r: Result<(), ControlError>) -> bool {
    matches!(r, Err(ControlError::UnsafeRequest { .. }))
}

#[test]
fn epp_over_100_rejected() {
    assert!(is_unsafe(validate(&cpu(|p| p.epp_ac = Some(101)), &caps_full())));
}

#[test]
fn epp1_over_100_rejected() {
    assert!(is_unsafe(validate(&cpu(|p| p.epp1_dc = Some(101)), &caps_full())));
}

#[test]
fn epp1_requires_capability() {
    let mut caps = caps_full();
    caps.ppm.epp1 = Support::Unsupported;
    let e = validate(&cpu(|p| p.epp1_ac = Some(20)), &caps).unwrap_err();
    assert_eq!(e, ControlError::Unsupported);
}

#[test]
fn power_limits_poisons_whole_command() {
    let cmd = cpu(|p| {
        p.epp_ac = Some(20);
        p.power_limits =
            Some(CpuPowerLimits { pl1_w: 55, pl2_w: 110, pl4_w: 215, cpu_gpu_concurrent_w: 0 });
    });
    assert_eq!(validate(&cmd, &caps_full()).unwrap_err(), ControlError::Unsupported);
}

fn gpu_policy() -> GpuPlatformPolicy {
    GpuPlatformPolicy { ctgp: true, ppab: true, dstate: 1, slowdown_temp_c: 87 }
}

#[test]
fn gpu_policy_allowed_with_capability() {
    validate(&ControlCommand::SetGpuPlatformPolicy(gpu_policy()), &caps_full()).unwrap();
}

#[test]
fn gpu_policy_requires_capability() {
    let mut caps = caps_full();
    caps.gpu_platform_policy = Support::Unsupported;
    let e = validate(&ControlCommand::SetGpuPlatformPolicy(gpu_policy()), &caps).unwrap_err();
    assert_eq!(e, ControlError::Unsupported);
}

#[test]
fn gpu_policy_bad_dstate_rejected() {
    let mut p = gpu_policy();
    p.dstate = 5;
    assert!(is_unsafe(validate(&ControlCommand::SetGpuPlatformPolicy(p), &caps_full())));
}

#[test]
fn gpu_policy_implausible_slowdown_rejected() {
    let mut p = gpu_policy();
    p.slowdown_temp_c = 200;
    assert!(is_unsafe(validate(&ControlCommand::SetGpuPlatformPolicy(p), &caps_full())));
}

#[test]
fn gpu_policy_slowdown_zero_is_preserve() {
    let mut p = gpu_policy();
    p.slowdown_temp_c = 0;
    validate(&ControlCommand::SetGpuPlatformPolicy(p), &caps_full()).unwrap();
}

#[test]
fn power_limits_rejected_without_feature() {
    let mut caps = caps_full();
    caps.power_limits = Support::Experimental;
    let e = validate(&ControlCommand::SetPowerLimits(limits(45, 90)), &caps).unwrap_err();
    assert_eq!(e, ControlError::Unsupported);
}

#[test]
fn power_limits_requires_experimental_caps() {
    let s = SafetySupervisor::with_experimental(true);
    let mut caps = caps_full();
    caps.power_limits = Support::Supported;
    let e = s
        .validate(
            &ControlCommand::SetPowerLimits(limits(45, 90)),
            &caps,
            &fresh(70_000),
            &ObservedState::default(),
            NOW,
        )
        .unwrap_err();
    assert_eq!(e, ControlError::Unsupported);
}

#[test]
fn power_limits_range_ladder() {
    let s = SafetySupervisor::with_experimental(true);
    let mut caps = caps_full();
    caps.power_limits = Support::Experimental;
    let f = fresh(70_000);
    let o = ObservedState::default();
    let check = |l: CpuPowerLimits| s.validate(&ControlCommand::SetPowerLimits(l), &caps, &f, &o, NOW);

    check(limits(45, 90)).unwrap();
    assert!(is_unsafe(check(limits(14, 90))));
    assert!(is_unsafe(check(limits(131, 140))));
    assert!(is_unsafe(check(limits(45, 158))));
    assert!(is_unsafe(check(limits(90, 45))));
    let mut bad = limits(45, 90);
    bad.pl4_w = 200;
    assert!(is_unsafe(check(bad)));
    bad = limits(45, 90);
    bad.cpu_gpu_concurrent_w = 65;
    assert!(is_unsafe(check(bad)));
}

#[test]
fn unelevated_ppm_write_denied() {
    let mut caps = caps_full();
    caps.ppm.write_privileged = false;
    let e = validate(&cpu(|p| p.epp_ac = Some(20)), &caps).unwrap_err();
    assert_eq!(e, ControlError::PermissionDenied);
}

#[test]
fn max_freq_sanity_band() {
    for bad in [1u32, 399, 6001] {
        let mut p = CpuPolicy::default();
        p.max_freq_mhz_dc = Some(bad);
        assert!(validate(&ControlCommand::SetCpuPolicy(p), &caps_full()).is_err());
    }
    for good in [0u32, 400, 2000, 6000] {
        let mut p = CpuPolicy::default();
        p.max_freq_mhz_dc = Some(good);
        assert!(validate(&ControlCommand::SetCpuPolicy(p), &caps_full()).is_ok());
    }
}

#[test]
fn boost_needs_elevation_only() {
    let cmd = cpu(|p| p.boost_policy = Some(BoostPolicy::EfficientAggressiveGuaranteed));
    assert!(validate(&cmd, &caps_full()).is_ok());
}

#[test]
fn performance_bounds_need_no_capability() {
    let cmd = cpu(|p| {
        p.min_performance_ac = Some(5);
        p.max_performance_dc = Some(150);
        p.boost_policy_ac = Some(BoostPolicy::Disabled);
    });
    assert!(validate(&cmd, &CapabilitySet::default()).is_ok());
    let boost = cpu(|p| p.boost_policy = Some(BoostPolicy::Disabled));
    assert_eq!(validate(&boost, &CapabilitySet::default()), Err(ControlError::PermissionDenied));
}

#[test]
fn manual_fan_outside_clamp_rejected() {
    for bad in [FanLevels::new(4, 30), FanLevels::new(30, 56)] {
        assert!(is_unsafe(validate(&ControlCommand::SetFanMode(FanMode::Manual(bad)), &caps_full())));
    }
}

#[test]
fn manual_fan_needs_fresh_temperature() {
    let feed = ThermalFeed { fan_levels: None, ..feed_at(70_000, NOW - 10_000) };
    let r = SafetySupervisor::new().validate(
        &ControlCommand::SetFanMode(FanMode::Manual(FanLevels::new(30, 30))),
        &caps_full(),
        &feed,
        &ObservedState::default(),
        NOW,
    );
    assert!(is_unsafe(r));
}

#[test]
fn max_to_manual_rejected_manual_to_max_allowed() {
    let s = SafetySupervisor::new();
    let r = s.validate(
        &ControlCommand::SetFanMode(FanMode::Manual(FanLevels::new(30, 30))),
        &caps_full(),
        &fresh(70_000),
        &observed_max_fan(),
        NOW,
    );
    assert!(is_unsafe(r));
    assert!(s
        .validate(
            &ControlCommand::SetFanMode(FanMode::Max),
            &caps_full(),
            &fresh(70_000),
            &observed_manual(FanLevels::new(30, 30)),
            NOW,
        )
        .is_ok());
}

#[test]
fn firmware_auto_always_allowed() {
    let mut caps = caps_full();
    caps.fan_manual_level = Support::Unsupported;
    caps.max_fan = Support::Unsupported;
    assert!(validate(&ControlCommand::SetFanMode(FanMode::FirmwareAuto), &caps).is_ok());
}

#[test]
fn experimental_is_not_writable_in_m2() {
    let mut caps = caps_full();
    caps.thermal_mode = Support::Experimental;
    let e = validate(&ControlCommand::SetThermalMode(ThermalMode::Performance), &caps).unwrap_err();
    assert_eq!(e, ControlError::Unsupported);
}

#[test]
fn m2_rejects_out_of_scope_commands() {
    for cmd in [
        ControlCommand::ApplyProfile { profile: "x".to_string() },
        ControlCommand::SetMuxMode(MuxMode::Discrete),
        ControlCommand::SetPowerLimits(CpuPowerLimits {
            pl1_w: 55,
            pl2_w: 110,
            pl4_w: 215,
            cpu_gpu_concurrent_w: 0,
        }),
    ] {
        assert_eq!(validate(&cmd, &caps_full()).unwrap_err(), ControlError::Unsupported);
    }
}

#[test]
fn hysteresis_engage_and_release() {
    let mut s = SafetySupervisor::new();
    let o = observed_manual(FanLevels::new(20, 20));
    assert_eq!(s.evaluate(&fresh(89_000), &o, NOW), None);
    assert!(!s.override_active());
    assert_eq!(s.evaluate(&fresh(90_000), &o, NOW), Some(SafetyAction::ForceMaxFan));
    assert!(s.override_active());
    assert_eq!(s.evaluate(&fresh(86_000), &o, NOW), None);
    assert_eq!(
        s.evaluate(&fresh(85_000), &o, NOW),
        Some(SafetyAction::ReleaseTo(FanMode::Manual(FanLevels::new(20, 20))))
    );
    assert!(!s.override_active());
}

#[test]
fn hysteresis_leaves_a_curve_to_itself() {
    let mut s = SafetySupervisor::new();
    let mut o = ObservedState::default();
    o.fan_mode = trusted(FanMode::Curve(curve()));
    assert_eq!(s.evaluate(&fresh(99_000), &o, NOW), None);
    assert!(!s.override_active());
    // At max fan the curve is what is released to.
    o.max_fan = trusted(true);
    assert_eq!(s.evaluate(&fresh(90_000), &o, NOW), Some(SafetyAction::ForceMaxFan));
    assert_eq!(s.evaluate(&fresh(85_000), &o, NOW), Some(SafetyAction::ReleaseTo(FanMode::Curve(curve()))));
    // Blind, the curve is handed back.
    o.max_fan = trusted(false);
    let later = NOW + SENSOR_STALE_AFTER + 1;
    assert_eq!(s.evaluate(&fresh(99_000), &o, later), Some(SafetyAction::WatchdogRestoreAuto));
}

#[test]
fn hysteresis_ignores_firmware_auto() {
    let mut s = SafetySupervisor::new();
    assert_eq!(s.evaluate(&fresh(95_000), &ObservedState::default(), NOW), None);
}

#[test]
fn watchdog_restores_auto_on_freeze_while_manual() {
    let mut s = SafetySupervisor::new();
    let o = observed_manual(FanLevels::new(30, 30));
    assert_eq!(s.evaluate(&stale(), &o, NOW), Some(SafetyAction::WatchdogRestoreAuto));
}

#[test]
fn watchdog_ignores_freeze_when_firmware_auto() {
    let mut s = SafetySupervisor::new();
    assert_eq!(s.evaluate(&stale(), &ObservedState::default(), NOW), None);
}

#[test]
fn invalid_curves_are_refused() {
    let curve = FanCurve::new([
        FanCurvePoint::new(60, 30, 30),
        FanCurvePoint::new(50, 40, 40),
        FanCurvePoint::new(70, 45, 45),
        FanCurvePoint::new(80, 50, 50),
    ]);
    let r = validate(&ControlCommand::SetFanMode(FanMode::Curve(curve)), &caps_full());
    assert_eq!(r, Err(ControlError::UnsafeRequest { reason: UnsafeReason::InvalidCurve }));
}

fn trusted<T>(value: T) -> ObservedValue<T> {
    ObservedValue::TrustedWrite { value, at: NOW }
}

#[test]
fn tracked_matrix() {
    let o = ObservedState::default();
    assert!(KeepAliveService::tracked_set(&o).is_empty());

    let mut o = ObservedState::default();
    o.thermal_mode = trusted(ThermalMode::Balanced);
    assert!(KeepAliveService::tracked_set(&o).is_empty());

    o.thermal_mode = trusted(ThermalMode::Performance);
    assert_eq!(KeepAliveService::tracked_set(&o), vec![ReAssert::ThermalMode]);

    let mut o = ObservedState::default();
    o.fan_mode = trusted(FanMode::Manual(FanLevels::new(30, 30)));
    assert_eq!(KeepAliveService::tracked_set(&o), vec![ReAssert::FanLevels]);
    o.fan_mode = trusted(FanMode::FirmwareAuto);
    assert!(KeepAliveService::tracked_set(&o).is_empty());

    o.fan_mode = trusted(FanMode::Curve(curve()));
    assert_eq!(KeepAliveService::tracked_set(&o), vec![ReAssert::FanLevels]);

    let mut o = ObservedState::default();
    o.max_fan = trusted(true);
    assert_eq!(KeepAliveService::tracked_set(&o), vec![ReAssert::MaxFan]);
    o.max_fan = trusted(false);
    assert!(KeepAliveService::tracked_set(&o).is_empty());

    let mut o = ObservedState::default();
    o.thermal_mode = trusted(ThermalMode::Performance);
    o.fan_mode = trusted(FanMode::Manual(FanLevels::new(30, 30)));
    o.max_fan = trusted(true);
    assert_eq!(
        KeepAliveService::tracked_set(&o),
        vec![ReAssert::ThermalMode, ReAssert::FanLevels, ReAssert::MaxFan]
    );
}

#[test]
fn reschedule_and_due_math() {
    let mut ka = KeepAliveService::new();
    let t0 = NOW;
    let mut o = ObservedState::default();
    o.max_fan = trusted(true);

    ka.reschedule(&o, t0);
    assert!(!ka.is_due(t0));
    assert!(ka.is_due(t0 + PERIOD));
    assert_eq!(ka.until_due(t0, 3_600_000), PERIOD);

    ka.reschedule(&ObservedState::default(), t0);
    assert_eq!(ka.until_due(t0, 3_600_000), 3_600_000);
    assert!(!ka.is_due(t0 + PERIOD));
}

#[test]
fn fail_closed_after_two_failures() {
    let mut ka = KeepAliveService::new();
    let t0 = NOW;
    assert!(!ka.record_failure(t0));
    assert!(ka.record_failure(t0));
    ka.record_success(t0);
    assert!(!ka.record_failure(t0));
}

#[test]
fn a_failed_heartbeat_is_retried_soon() {
    let mut ka = KeepAliveService::with_period(60_000);
    ka.record_failure(NOW);
    assert_eq!(ka.next_due, Some(NOW + 5_000));
    let mut quick = KeepAliveService::with_period(120);
    quick.record_failure(NOW);
    assert_eq!(quick.next_due, Some(NOW + 120));
}

fn curve() -> FanCurve {
    FanCurve::new([
        FanCurvePoint::new(40, 20, 20),
        FanCurvePoint::new(60, 30, 30),
        FanCurvePoint::new(75, 45, 42),
        FanCurvePoint::new(90, 55, 55),
    ])
}

fn sample(milli: i64, at: u64) -> Option<Sample> {
    Some(Sample { value: milli, at })
}

#[test]
fn uses_the_hottest_fresh_cpu_or_gpu_sample() {
    assert_eq!(
        effective_temperature(sample(55_000, NOW), sample(70_000, NOW), NOW),
        Some(70_000)
    );
    assert_eq!(
        effective_temperature(
            sample(55_000, NOW),
            sample(70_000, NOW - TEMP_FRESH_FOR_CURVE - 1),
            NOW
        ),
        Some(55_000)
    );
}

#[test]
fn rate_limits_and_smooths_curve_updates() {
    let mut controller = FanCurveController::new();
    controller.reset(FanLevels::new(20, 20), 40_000, NOW);
    assert!(controller
        .next_target(&curve(), sample(42_000, NOW), sample(42_000, NOW), NOW)
        .is_none());
    let later = NOW + 1_000;
    assert_eq!(controller.smoothed_temp, Some(41_000 * FINE_PER_MILLI));
    let update = controller.next_target(&curve(), sample(75_000, later), sample(75_000, later), later);
    assert_eq!(update.map(|(levels, _)| levels), Some(FanLevels::new(29, 29)));
    controller.record_write(FanLevels::new(29, 29), later);
    assert_eq!(controller.last_target(), Some(FanLevels::new(29, 29)));
}

#[test]
fn smoothing_keeps_fractions_of_a_millidegree() {
    let mut controller = FanCurveController::new();
    controller.reset(FanLevels::new(20, 20), 40_000, NOW);
    let next = sample(40_001, NOW);
    controller.next_target(&curve(), next, None, NOW);
    assert_eq!(controller.smoothed_temp, Some(40_000 * FINE_PER_MILLI + FINE_PER_MILLI / 2));
    controller.next_target(&curve(), next, None, NOW);
    assert_eq!(controller.smoothed_temp, Some(40_000 * FINE_PER_MILLI + FINE_PER_MILLI / 4 * 3));
    for _ in 0..60 {
        controller.next_target(&curve(), next, None, NOW);
    }
    assert_eq!(controller.smoothed_temp, Some(40_001 * FINE_PER_MILLI));
    // Downwards as upwards.
    for _ in 0..60 {
        controller.next_target(&curve(), sample(-3, NOW), None, NOW);
    }
    assert_eq!(controller.smoothed_temp, Some(-3 * FINE_PER_MILLI));
    // A level changes at the very fraction: half way between 20 and 21 levels.
    assert_eq!(curve().target_in(41 * FINE - 1, FINE), FanLevels::new(20, 20));
    assert_eq!(curve().target_in(41 * FINE, FINE), FanLevels::new(21, 21));
    assert_eq!(curve().target_at(41_000), FanLevels::new(21, 21));
}

#[test]
fn missing_cpu_sample_never_produces_a_target() {
    let mut controller = FanCurveController::new();
    assert!(controller.next_target(&curve(), None, sample(80_000, NOW), NOW).is_none());
}

#[test]
fn curve_interpolates_between_its_points() {
    assert_eq!(curve().target_at(30_000), FanLevels::new(20, 20));
    assert_eq!(curve().target_at(50_000), FanLevels::new(25, 25));
    assert_eq!(curve().target_at(60_000), FanLevels::new(30, 30));
    assert_eq!(curve().target_at(95_000), FanLevels::new(55, 55));
    assert_eq!(level_delta(20, 29), 9);
    assert_eq!(level_delta(29, 20), 9);
}

#[test]
fn unowned_dynamic_gpu_state_does_not_invalidate_profile() {
    let mut profile = PerformanceProfile::default();
    let mut patch = GpuPolicyPatch::default();
    patch.ctgp = Some(true);
    profile.gpu_policy = Some(patch);
    let mut observed = ObservedState::default();
    observed.gpu_platform_policy = trusted(GpuPlatformPolicy {
        ctgp: true,
        ppab: false,
        dstate: 9,
        slowdown_temp_c: 0,
    });
    assert!(drift::matches(&profile, &observed));
    observed.gpu_platform_policy = ObservedValue::Unknown;
    assert!(!drift::matches(&profile, &observed));
}

fn reopen(stored: &Option<MuxRecord>, bios: &str, actual: MuxMode, boot: &str) -> MuxLifecycle {
    let loaded = match stored {
        Some(record) => MuxLoaded::Found(record.clone()),
        None => MuxLoaded::Missing,
    };
    MuxLifecycle::open_with_boot(loaded, "8BAB", bios, Some(actual), Some(boot.to_string())).0
}

#[test]
fn same_boot_cannot_verify_and_both_directions_gate_desktop() {
    let mut stored = None;
    let mut first = reopen(&stored, "F.30", MuxMode::Hybrid, "boot1");
    let record = first.prepare(MuxMode::Hybrid, MuxMode::Discrete).unwrap();
    first.commit(record);
    stored = Some(first.record.clone());
    let same = reopen(&stored, "F.30", MuxMode::Discrete, "boot1");
    assert!(same.record.pending.is_some());
    assert!(!same.writable);
    let mut next = reopen(&stored, "F.30", MuxMode::Discrete, "boot2");
    assert!(next.record.pending.is_none());
    assert!(!next.writable);
    let record = next.prepare(MuxMode::Discrete, MuxMode::Hybrid).unwrap();
    next.commit(record);
    stored = Some(next.record.clone());
    let done = reopen(&stored, "F.30", MuxMode::Hybrid, "boot3");
    assert!(done.writable);
    stored = Some(done.record.clone());
    let reopened = reopen(&stored, "F.30", MuxMode::Hybrid, "boot3");
    assert!(reopened.writable);
    assert!(reopened.status.text().contains("已完成"));
    let changed = reopen(&stored, "F.31", MuxMode::Hybrid, "boot4");
    assert!(!changed.writable);
}

#[test]
fn the_selected_mux_mode_is_not_requested_again() {
    let life = reopen(&None, "F.30", MuxMode::Hybrid, "boot1");
    assert_eq!(
        life.prepare(MuxMode::Hybrid, MuxMode::Hybrid),
        Err(ControlError::UnsafeRequest { reason: UnsafeReason::MuxAlreadySelected })
    );
}

fn sample_outcome() -> ControlOutcome {
    ControlOutcome {
        receipt: ControlReceipt(7),
        command: ControlCommand::SetThermalMode(ThermalMode::Performance),
        status: ControlStatus::Applied { verification: Verification::TrustedNoReadback },
        steps: vec![StepOutcome {
            step: Step::SetThermalMode,
            firmware_return: FirmwareReturn::Accepted,
            before: Some(Note::ThermalTrusted(ThermalMode::Balanced)),
            after: None,
            verification: Verification::TrustedNoReadback,
        }],
        duration: 12,
    }
}

#[test]
fn entries_carry_the_board_and_the_outcome() {
    let j = ControlJournal::new("8BAB", "F.21");
    let e = j.new_entry(JournalEvent { origin: JournalOrigin::User, outcome: sample_outcome() }, 99);
    assert_eq!(e.schema_version, 1);
    assert_eq!(e.at_epoch_ms, 99);
    assert_eq!(e.board_id, "8BAB");
    assert_eq!(e.bios_version, "F.21");
    assert_eq!(e.origin, JournalOrigin::User);
    assert_eq!(e.outcome.receipt, ControlReceipt(7));
    assert_eq!(e.outcome.duration, 12);
    assert_eq!(e.outcome.steps[0].before, Some(Note::ThermalTrusted(ThermalMode::Balanced)));
    assert_eq!(JournalOrigin::Shutdown.label(), "shutdown");
}

#[test]
fn journal_rotates_from_its_limit_on() {
    assert!(ControlJournal::rotation_due(MAX_JOURNAL_BYTES + 1));
    assert!(ControlJournal::rotation_due(MAX_JOURNAL_BYTES));
    assert!(!ControlJournal::rotation_due(MAX_JOURNAL_BYTES - 1));
    assert_eq!(MAX_JOURNAL_BYTES, 8 * 1024 * 1024);
}

#[test]
fn journal_tail_hands_out_a_cut_record() {
    assert_eq!(tail_start(100), 0);
    assert_eq!(tail_start(TAIL_BYTES + 7), 7);
    let bytes = b"torn\"}\n{\"first\":1}\n{\"sec".to_vec();
    let records = last_records(&bytes, 7).unwrap();
    assert_eq!(records, vec![b"torn\"}".to_vec(), b"{\"first\":1}".to_vec(), b"{\"sec".to_vec()]);
    let parsed: Vec<bool> = records.iter().map(|r| serde_json::from_slice::<serde_json::Value>(r).is_ok()).collect();
    assert_eq!(parsed, vec![false, true, false]);
    // A cut inside a character leaves a record that does not parse, too.
    let cut = [&[0xa9, b'"', b'}', b'\n'][..], &b"{}\n"[..]].concat();
    let records = last_records(&cut, 7).unwrap();
    assert_eq!(records, vec![vec![0xa9, b'"', b'}'], b"{}".to_vec()]);
    assert!(serde_json::from_slice::<serde_json::Value>(&records[0]).is_err());
    assert!(serde_json::from_slice::<serde_json::Value>(&records[1]).is_ok());
    assert_eq!(last_records(&b"a\r\nb".to_vec(), 0).unwrap(), vec![b"a".to_vec(), b"b".to_vec()]);
    let mut long = Vec::new();
    for i in 0..150 {
        long.extend_from_slice(format!("{i}\n").as_bytes());
    }
    let kept = last_records(&long, 0).unwrap();
    assert_eq!(kept.len(), 100);
    assert_eq!(kept[0], b"50".to_vec());
    assert_eq!(kept[99], b"149".to_vec());
}

#[test]
fn a_whole_record_that_is_not_text_spoils_the_tail() {
    let bad = b"{}\n\"\xff\"\n{}\n".to_vec();
    assert_eq!(last_records(&bad, 0), Err(NotText));
    assert_eq!(last_records(&bad, 7), Err(NotText));
    assert_eq!(NotText.text(), "invalid utf-8 in a whole record");
    // The first record is cut where the reading does not start at the file's start.
    let cut = b"\"\xff\"\n{}\n".to_vec();
    assert_eq!(last_records(&cut, 0), Err(NotText));
    assert_eq!(last_records(&cut, 7), Ok(vec![b"\"\xff\"".to_vec(), b"{}".to_vec()]));
    // The last one is still being written.
    let torn = b"{}\n\"\xe4\xb8".to_vec();
    assert_eq!(last_records(&torn, 0), Ok(vec![b"{}".to_vec(), b"\"\xe4\xb8".to_vec()]));
    for text in ["\u{0}", "\u{7f}", "\u{80}", "\u{7ff}", "\u{800}", "\u{d7ff}", "\u{e000}", "\u{10000}", "\u{10ffff}"] {
        assert!(last_records(&format!("{text}\n").into_bytes(), 0).is_ok());
    }
    for bytes in [
        &b"\x80\n"[..],
        &b"\xc1\x81\n"[..],
        &b"\xe0\x9f\xbf\n"[..],
        &b"\xed\xa0\x80\n"[..],
        &b"\xf0\x8f\xbf\xbf\n"[..],
        &b"\xf4\x90\x80\x80\n"[..],
        &b"\xf8\x88\x80\x80\n"[..],
        &b"\xe4\xb8\n"[..],
    ] {
        assert!(std::str::from_utf8(bytes).is_err());
        assert_eq!(last_records(&bytes.to_vec(), 0), Err(NotText));
    }
}

fn desktop(pid: u32, line: Option<&str>) -> DesktopProcess {
    DesktopProcess { process_id: pid, command_line: line.map(|l| l.to_string()) }
}

#[test]
fn another_writer_refuses_the_lease() {
    assert_eq!(other_writer(&vec![desktop(7, Some("app.exe"))], 7), None);
    assert_eq!(other_writer(&vec![desktop(8, Some("app.exe"))], 7), Some(8));
    assert_eq!(other_writer(&vec![desktop(8, Some("app.exe --read-only"))], 7), None);
    assert_eq!(other_writer(&vec![desktop(8, Some("app.exe \"--read-only\" -v"))], 7), None);
    assert_eq!(other_writer(&vec![desktop(8, Some("app.exe --read-only-ish"))], 7), Some(8));
    assert_eq!(other_writer(&vec![desktop(8, None), desktop(9, None)], 7), Some(8));
    assert_eq!(
        other_writer(&vec![desktop(8, Some("--read-only")), desktop(9, Some(""))], 7),
        Some(9)
    );
}

#[test]
fn verdicts_combine_to_the_weakest() {
    let failed = Verification::Failed {
        expected: Evidence::Text("a".to_string()),
        actual: Evidence::Text("b".to_string()),
    };
    assert_eq!(weakest_verification(&Verification::Verified, &failed), failed);
    assert_eq!(
        weakest_verification(&Verification::TrustedNoReadback, &Verification::Verified),
        Verification::TrustedNoReadback
    );
}

#[test]
fn firmware_errors_have_words() {
    assert_eq!(HpWmiError::FirmwareReturnCode { code: 5 }.text(), "bios rc=5");
    assert_eq!(HpWmiError::Timeout.text(), "timeout");
}

#[test]
fn samples_from_before_the_write_never_verify_it() {
    let levels = FanLevels::new(30, 30);
    let mut check = PendingVerification::new(Target::Fan(levels), NOW, 2, 5);
    let old = Readback { fan: Some(FanSample { levels, at: NOW - 1 }), gpu: None };
    let verdict = check.poll(&old, &fresh(70_000), NOW + 5);
    assert!(!matches!(verdict, Some(Verification::Verified)));
    let mut check = PendingVerification::new(Target::Fan(levels), NOW, 2, 5);
    let new = Readback { fan: Some(FanSample { levels, at: NOW + 5 }), gpu: None };
    assert_eq!(check.poll(&new, &fresh(70_000), NOW + 5), Some(Verification::Verified));
}

#[test]
fn what_was_not_probed_is_unsupported() {
    let caps = CapabilitySet::default();
    for cmd in [
        ControlCommand::SetThermalMode(ThermalMode::Performance),
        ControlCommand::SetFanMode(FanMode::Max),
        ControlCommand::SetFanMode(FanMode::Manual(FanLevels::new(30, 30))),
        ControlCommand::SetGpuPlatformPolicy(gpu_policy()),
    ] {
        assert_eq!(validate(&cmd, &caps), Err(ControlError::Unsupported));
    }
}
