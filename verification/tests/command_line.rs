//! Arguments, plans and printed text.
use phelper_core::capability::{CapabilityService, PpmReadings};
use phelper_core::cli::control::{
    after_change, fmt_obs, fmt_verification, hold_deadline, hold_step, journal_tail, outcome_headline, plan, run,
    status_line, AfterChange, ControlArgs, ControlCmd, FanCmd, HoldStep, Plan, PlanError, RunAction, RunError,
};
use phelper_core::cli::gpuload::{buffer_bytes, buffer_words, check, GpuLoadArgs};
use phelper_core::cli::os_policy::{policy, suited_policy, target, ApplyArgs, CpuArg, NamedPolicy, PolicyError};
use phelper_core::cli::probe::{print_report, support_str, FanTable, FanTableEntry, SmokeRow};
use phelper_core::cli::profile::{plan_profile, ProfileCmd, ProfileCmdError, ProfilePlan};
use phelper_core::cli::telemetry::{
    fmt_age, fmt_provider, fmt_quality, fmt_value, human_bytes, metric_row, provider_row, shown, stats_window,
    table_step, TableStep, TelemetryArgs,
};
use phelper_core::domain::capability::Support;
use phelper_core::domain::command::{ControlCommand, ControlStatus, Verification};
use phelper_core::domain::error::ControlError;
use phelper_core::domain::evidence::Evidence;
use phelper_core::domain::identity::DeviceIdentity;
use phelper_core::domain::os_policy::{
    AffinityMask, CpuPlacement, OsPolicyTarget, OsSchedulingPolicy, ProcessorRef, QosLevel,
};
use phelper_core::domain::policy::{
    BoostPolicy, CpuPolicy, CpuPowerLimits, FanLevels, FanMode, GpuPlatformPolicy, GpuPolicyPatch, ThermalMode,
};
use phelper_core::domain::profile::{PerformanceProfile, ProfileRegistry};
use phelper_core::domain::state::{Channel, ObservedValue};
use phelper_core::domain::telemetry::{MetricQuality, MetricValue, ProviderStatus};
use phelper_core::number::{parse_u64, NumberError};

fn planned(cmd: ControlCmd) -> Result<Plan, PlanError> {
    plan(&ControlArgs { cmd })
}

#[test]
fn processor_settings_become_one_change() {
    let mut p = CpuPolicy::default();
    p.epp_ac = Some(20);
    assert_eq!(
        planned(ControlCmd::Epp { ac: Some(20), dc: None }),
        Ok(Plan::Change(ControlCommand::SetCpuPolicy(p)))
    );
    assert_eq!(planned(ControlCmd::Epp1 { ac: None, dc: None }), Err(PlanError::NoSide));
    assert_eq!(
        planned(ControlCmd::MaxFreq { ac: None, dc: Some(399) }),
        Err(PlanError::MaxFreq { battery: true, mhz: 399 })
    );
    assert!(planned(ControlCmd::MaxFreq { ac: Some(0), dc: Some(6000) }).is_ok());
    let mut p = CpuPolicy::default();
    p.boost_policy = Some(BoostPolicy::Disabled);
    assert_eq!(
        planned(ControlCmd::Boost { mode: BoostPolicy::Disabled }),
        Ok(Plan::Change(ControlCommand::SetCpuPolicy(p)))
    );
}

#[test]
fn fan_targets_count_hundreds() {
    assert_eq!(
        planned(ControlCmd::Fan { mode: FanCmd::Manual { cpu: 3000, gpu: 4200, hold: 7 } }),
        Ok(Plan::HpState(
            ControlCommand::SetFanMode(FanMode::Manual(FanLevels::new(30, 42))),
            7
        ))
    );
    assert_eq!(
        planned(ControlCmd::Fan { mode: FanCmd::Manual { cpu: 3050, gpu: 4200, hold: 7 } }),
        Err(PlanError::NotHundreds)
    );
    assert_eq!(
        planned(ControlCmd::Fan { mode: FanCmd::Manual { cpu: 0, gpu: 4200, hold: 7 } }),
        Err(PlanError::ZeroLevel)
    );
    assert_eq!(
        planned(ControlCmd::Fan { mode: FanCmd::Max { on: false, hold: 1 } }),
        Ok(Plan::HpState(ControlCommand::SetFanMode(FanMode::FirmwareAuto), 1))
    );
    assert_eq!(
        planned(ControlCmd::Fan { mode: FanCmd::Auto }),
        Ok(Plan::Change(ControlCommand::SetFanMode(FanMode::FirmwareAuto)))
    );
}

#[test]
fn power_limits_have_an_envelope() {
    let ask = |pl1, pl2, pl4| planned(ControlCmd::PowerLimits { pl1, pl2, pl4, hold: 120 });
    assert_eq!(
        ask(45, 90, None),
        Ok(Plan::HpState(
            ControlCommand::SetPowerLimits(CpuPowerLimits {
                pl1_w: 45,
                pl2_w: 90,
                pl4_w: 0,
                cpu_gpu_concurrent_w: 0
            }),
            120
        ))
    );
    assert_eq!(ask(14, 90, None), Err(PlanError::Pl1 { watts: 14 }));
    assert_eq!(ask(45, 158, None), Err(PlanError::Pl2 { watts: 158 }));
    assert_eq!(ask(90, 45, None), Err(PlanError::Pl2BelowPl1));
    assert_eq!(ask(45, 90, Some(29)), Err(PlanError::Pl4 { watts: 29 }));
    assert_eq!(
        PlanError::Pl4 { watts: 29 }.text(),
        "--pl4: 29W outside envelope 30..=200 (factory ceiling, SDD byte5)"
    );
}

fn patch(dstate: Option<u8>, slowdown: Option<u8>) -> GpuPolicyPatch {
    let mut p = GpuPolicyPatch::default();
    p.dstate = dstate;
    p.slowdown_temp_c = slowdown;
    p
}

#[test]
fn graphics_changes_merge_with_what_is_read() {
    let ask = |p| planned(ControlCmd::GpuPolicy { patch: p, hold: 9 });
    assert_eq!(ask(patch(None, None)), Err(PlanError::NoGpuField));
    assert_eq!(ask(patch(Some(5), None)), Err(PlanError::DState { dstate: 5 }));
    assert_eq!(ask(patch(None, Some(29))), Err(PlanError::SlowdownTemp { celsius: 29 }));
    let live = GpuPlatformPolicy { ctgp: true, ppab: false, dstate: 1, slowdown_temp_c: 87 };
    let seen = ObservedValue::Verified { value: live, at: 0, source: Channel::GpuPolicy };
    let merged = run(ask(patch(Some(3), None)).unwrap(), Some(seen));
    assert_eq!(
        merged,
        Ok(RunAction::HpState(
            ControlCommand::SetGpuPlatformPolicy(GpuPlatformPolicy { dstate: 3, ..live }),
            9
        ))
    );
    assert_eq!(
        run(ask(patch(Some(3), None)).unwrap(), Some(ObservedValue::Unknown)),
        Err(RunError::NoGpuReadback)
    );
    assert_eq!(run(ask(patch(Some(3), None)).unwrap(), None), Err(RunError::NoControl));
    assert_eq!(run(Plan::Status, None), Ok(RunAction::Status));
    let thermal = planned(ControlCmd::Thermal { mode: ThermalMode::Performance, hold: 1 }).unwrap();
    assert_eq!(run(thermal, None), Err(RunError::NoControl));
}

#[test]
fn a_heartbeat_state_needs_a_hold() {
    let limits = CpuPowerLimits { pl1_w: 45, pl2_w: 90, pl4_w: 0, cpu_gpu_concurrent_w: 0 };
    for cmd in [
        ControlCmd::Thermal { mode: ThermalMode::Performance, hold: 0 },
        ControlCmd::PowerLimits { pl1: limits.pl1_w, pl2: limits.pl2_w, pl4: None, hold: 0 },
        ControlCmd::GpuPolicy { patch: patch(Some(3), None), hold: 0 },
        ControlCmd::Fan { mode: FanCmd::Max { on: true, hold: 0 } },
        ControlCmd::Fan { mode: FanCmd::Max { on: false, hold: 0 } },
        ControlCmd::Fan { mode: FanCmd::Manual { cpu: 3000, gpu: 4200, hold: 0 } },
    ] {
        assert_eq!(planned(cmd), Err(PlanError::NoHold));
    }
    assert_eq!(
        PlanError::NoHold.text(),
        "--hold must be greater than zero: the heartbeat keeps this state, and its restore is never skipped"
    );
    assert_eq!(
        planned(ControlCmd::PowerLimits { pl1: 45, pl2: 90, pl4: None, hold: 1 }),
        Ok(Plan::HpState(ControlCommand::SetPowerLimits(limits), 1))
    );
}

#[test]
fn a_change_is_held_and_then_restored() {
    assert_eq!(after_change(true, 5), AfterChange::Hold(5));
    assert_eq!(after_change(false, 5), AfterChange::Restore);
    let deadline = hold_deadline(1_000, 2);
    assert_eq!(deadline, 3_000);
    assert_eq!(hold_step(false, 1_000, deadline), HoldStep::Sleep(200));
    assert_eq!(hold_step(false, 2_950, deadline), HoldStep::Sleep(50));
    assert_eq!(hold_step(false, 3_000, deadline), HoldStep::Elapsed);
    assert_eq!(hold_step(true, 3_000, deadline), HoldStep::Interrupted);
}

#[test]
fn evidence_is_printed_with_its_age() {
    let v = ObservedValue::Verified { value: 5u8, at: 1_000, source: Channel::Mux };
    assert_eq!(fmt_obs(&v, "5", 2_500), "VERIFIED 5 (via hp-wmi 0x52, 1.5s ago)");
    let t = ObservedValue::TrustedWrite { value: 5u8, at: 1_000 };
    assert_eq!(fmt_obs(&t, "5", 1_000), "trusted-write 5 (0.0s ago, keep-alive maintained)");
    assert_eq!(fmt_obs(&ObservedValue::<u8>::Unknown, "", 0), "unknown");
    assert_eq!(fmt_verification(&Verification::TrustedNoReadback), "trusted (no readback exists)");
    assert_eq!(
        fmt_verification(&Verification::Failed {
            expected: Evidence::Text("a".to_string()),
            actual: Evidence::Text("b".to_string())
        }),
        "FAILED (expected a, actual b)"
    );
    assert_eq!(
        status_line(&ControlStatus::Applied { verification: Verification::Verified }),
        "status: APPLIED (verified)"
    );
    assert_eq!(
        status_line(&ControlStatus::Rejected { error: ControlError::Timeout }),
        "status: REJECTED — 操作超时"
    );
    assert_eq!(outcome_headline(3, 12), "--- OUTCOME (receipt 3, 12 ms) ---");
}

#[test]
fn journal_tail_leaves_blank_lines_out() {
    let lines: Vec<String> = ["a", "", "b", " \t", "c"].iter().map(|s| s.to_string()).collect();
    assert_eq!(journal_tail(&lines, 2), (1, vec!["b".to_string(), "c".to_string()]));
    assert_eq!(journal_tail(&lines, 9).0, 0);
}

#[test]
fn masks_are_decimal_or_hexadecimal() {
    assert_eq!(parse_u64("255"), Ok(255));
    assert_eq!(parse_u64(" 0xFf "), Ok(255));
    assert_eq!(parse_u64("0X10"), Ok(16));
    assert_eq!(parse_u64("\t0XaB\u{3000}\n"), Ok(171));
    assert_eq!(parse_u64("  18446744073709551615 "), Ok(u64::MAX));
    assert_eq!(parse_u64(""), Err(NumberError::Empty));
    assert_eq!(parse_u64(" \n"), Err(NumberError::Empty));
    assert_eq!(parse_u64("0x10000000000000000"), Err(NumberError::TooLarge));
    assert_eq!(parse_u64("0x"), Err(NumberError::Empty));
    assert_eq!(parse_u64("xyz"), Err(NumberError::InvalidDigit));
    assert_eq!(parse_u64("18446744073709551616"), Err(NumberError::TooLarge));
    assert_eq!(parse_u64("0xffffffffffffffff"), Ok(u64::MAX));
}

fn no_args() -> ApplyArgs {
    ApplyArgs {
        pid: Some(4),
        tid: None,
        profile: None,
        cpu: None,
        cpu_set: None,
        affinity_group: None,
        affinity_mask: None,
        qos: None,
        process_priority: None,
        thread_priority: None,
        memory_priority: None,
        ideal_group: None,
        ideal_number: None,
        gpu: None,
        hold: 120,
    }
}

#[test]
fn exactly_one_target_is_named() {
    assert_eq!(target(Some(4), None), Ok(OsPolicyTarget::Process { pid: 4 }));
    assert_eq!(target(None, Some(5)), Ok(OsPolicyTarget::Thread { tid: 5 }));
    assert_eq!(target(None, None), Err(PolicyError::OneTarget));
    assert_eq!(target(Some(4), Some(5)), Err(PolicyError::OneTarget));
}

#[test]
fn policies_come_from_flags_or_a_profile() {
    let mut args = no_args();
    args.cpu = Some(CpuArg::Efficiency);
    args.qos = Some(QosLevel::Eco);
    args.affinity_group = Some(0);
    args.affinity_mask = Some(0xF);
    args.ideal_group = Some(1);
    args.ideal_number = Some(2);
    let p = policy(args, NamedPolicy::NoPolicy).unwrap();
    assert_eq!(p.cpu_placement, Some(CpuPlacement::Efficiency));
    assert_eq!(p.qos, Some(QosLevel::Eco));
    assert_eq!(p.affinity, Some(AffinityMask { group: 0, mask: 0xF }));
    assert_eq!(p.ideal_processor, Some(ProcessorRef { group: 1, number: 2 }));

    let mut args = no_args();
    args.cpu = Some(CpuArg::All);
    args.cpu_set = Some(vec![0, 2, 4]);
    let p = policy(args, NamedPolicy::NoPolicy).unwrap();
    assert_eq!(p.cpu_placement, Some(CpuPlacement::Custom(vec![0, 2, 4])));

    let mut args = no_args();
    args.affinity_group = Some(0);
    assert_eq!(policy(args, NamedPolicy::NoPolicy), Err(PolicyError::AffinityPair));
    let mut args = no_args();
    args.ideal_number = Some(0);
    assert_eq!(policy(args, NamedPolicy::NoPolicy), Err(PolicyError::IdealPair));

    let named = || {
        let mut args = no_args();
        args.profile = Some("p".to_string());
        args
    };
    assert_eq!(
        policy(named(), NamedPolicy::UnknownProfile),
        Err(PolicyError::UnknownProfile { name: "p".to_string() })
    );
    assert_eq!(policy(named(), NamedPolicy::NoPolicy), Err(PolicyError::NoPolicy));
    let mut stored = OsSchedulingPolicy::default();
    stored.qos = Some(QosLevel::High);
    assert_eq!(policy(named(), NamedPolicy::Policy(stored)).unwrap().qos, Some(QosLevel::High));
    assert_eq!(
        PolicyError::UnknownProfile { name: "p".to_string() }.text(),
        "unknown profile 'p'"
    );
}

#[test]
fn a_policy_has_to_suit_its_target() {
    let p = || policy(no_args(), NamedPolicy::NoPolicy).unwrap();
    assert_eq!(suited_policy(p(), Ok(())), Ok(p()));
    let refused = suited_policy(p(), Err("thread priority needs a thread".to_string())).unwrap_err();
    assert_eq!(refused, PolicyError::Unsuitable { reason: "thread priority needs a thread".to_string() });
    assert_eq!(refused.text(), "thread priority needs a thread");
}

#[test]
fn graphics_calls_are_judged_by_their_code() {
    assert!(check(0, "cuInit").is_ok());
    assert_eq!(check(-2, "cuInit"), Err("cuInit failed: CUresult=-2".to_string()));
    assert_eq!(check(100, "cuInit"), Err("cuInit failed: CUresult=100".to_string()));
    assert_eq!(GpuLoadArgs::default().mem_mib, 512);
    assert_eq!(buffer_bytes(512), 536_870_912);
    assert_eq!(buffer_words(512), 134_217_728);
}

#[test]
fn values_are_shown_in_their_unit() {
    let measured = |id, v| fmt_value(id, MetricValue::Measured { thousandths: v });
    assert_eq!(measured("cpu.pkg_temp_c", 71_250), "71.2");
    assert_eq!(measured("cpu.pkg_temp_c", -1_500), "-1.5");
    assert_eq!(measured("fan.left_rpm", 2_999_600), "3000");
    assert_eq!(measured("net.rx_bps", 2_048_000), "2.0 KiB/s");
    assert_eq!(fmt_value("cpu.msr_raw", MetricValue::Count(255)), "0xff");
    assert_eq!(fmt_value("mem.used_bytes", MetricValue::Count(1_572_864)), "1.5 MiB");
    assert_eq!(fmt_value("x.count", MetricValue::Count(7)), "7");
    assert_eq!(fmt_value("x.on", MetricValue::Flag(true)), "yes");
    assert_eq!(human_bytes(1_023_000), "1023.0 B");
    assert_eq!(human_bytes(-5_000_000), "-5000.0 B");
    assert_eq!(human_bytes(1000 * u64::MAX as i128), "16777216.0 TiB");
    assert_eq!(fmt_value("net_rx_bps", MetricValue::Measured { thousandths: -5_000_000 }), "-5000.0 B/s");
    assert_eq!(fmt_value("ram_bytes", MetricValue::Count(u64::MAX)), "16777216.0 TiB");
    assert_eq!(fmt_value("ram_bytes", MetricValue::Count(2 << 60)), "2097152.0 TiB");
    assert_eq!(human_bytes(1_024_000), "1.0 KiB");
    for v in [0u64, 1, 512, 1_023, 1_024, 1_100, 1_536, 1_048_575, 5_000_000_000, 3_000_000_000_000] {
        let mut scaled = v as f64;
        let mut unit = 0;
        while scaled >= 1024.0 && unit < 4 {
            scaled /= 1024.0;
            unit += 1;
        }
        let expected = format!("{scaled:.1} {}", ["B", "KiB", "MiB", "GiB", "TiB"][unit]);
        assert_eq!(fmt_value("m_bytes", MetricValue::Count(v)), expected);
    }
}

#[test]
fn rows_are_aligned() {
    assert_eq!(
        metric_row("a", "1.0", "", "0.1s", "Hp"),
        "a                                   1.0               0.1s  Hp\r\n"
    );
    assert_eq!(
        metric_row("a", "1.0", "", "0.1s", "Hp"),
        format!("{:<26}  {:>11}  {:<9}  {:>6}  {}\r\n", "a", "1.0", "", "0.1s", "Hp")
    );
    assert_eq!(
        provider_row("pdh", &ProviderStatus::Degraded("slow".to_string())),
        format!("  {:<20} {}\r\n", "pdh", "DEGRADED: slow")
    );
    assert_eq!(fmt_provider(&ProviderStatus::Healthy), "ok");
    assert_eq!(fmt_quality(MetricQuality::Fresh), "");
    assert_eq!(fmt_quality(MetricQuality::Stale), "stale");
    assert_eq!(fmt_age(1_500, 500), "1.5s");
    assert_eq!(fmt_age(1_501, 500), "1.5s STALE");
}

#[test]
fn the_table_runs_until_it_is_over() {
    let args = |interval_ms, duration, metrics: &[&str]| TelemetryArgs {
        interval_ms,
        duration,
        metrics: metrics.iter().map(|m| m.to_string()).collect(),
    };
    assert_eq!(table_step(&args(10, 0, &[]), false, 99_999_999), TableStep::Wait(50));
    assert_eq!(table_step(&args(500, 2, &[]), false, 2_000), TableStep::Over);
    assert_eq!(table_step(&args(500, 2, &[]), true, 2_000), TableStep::Interrupted);
    assert_eq!(stats_window(&args(500, 9, &[]), 100), 9);
    assert_eq!(stats_window(&args(500, 0, &[]), 0), 1);
    assert!(shown(&args(0, 0, &[]), "cpu.temp"));
    assert!(shown(&args(0, 0, &["fan", "temp"]), "cpu.temp"));
    assert!(!shown(&args(0, 0, &["fan"]), "cpu.temp"));
}

#[test]
fn the_report_names_every_section() {
    let ppm = PpmReadings { elevated: false, epp: Ok((33, 50)), epp1_failure: None, max_freq_mhz: Ok(0) };
    let report = CapabilityService::probe_runtime("8BAB".to_string(), None, ppm, None, 1);
    let id = DeviceIdentity {
        manufacturer: "HP".to_string(),
        product_name: "OMEN".to_string(),
        board_id: "8BAB".to_string(),
        bios_version: "F.30".to_string(),
        cpu: "i9".to_string(),
        gpus: vec!["RTX".to_string()],
    };
    let table = Some(FanTable {
        num_fans: 2,
        entries: vec![FanTableEntry { left: 20, right: 22, noise_db: 30 }],
        clamp: None,
    });
    let smoke = vec![SmokeRow { provider: "pdh".to_string(), status: "ok".to_string(), detail: None }];
    let lines = print_report(&id, &report, &table, &smoke);
    assert_eq!(lines[1], "-- identity --");
    assert_eq!(lines[3], "  board   : 8BAB (UNKNOWN — read-only)");
    assert_eq!(lines[6], "  gpu     : RTX");
    assert_eq!(lines[7], "  elevated: false");
    assert!(lines.contains(&"  thermal mode (0x1A)     : unsupported".to_string()));
    assert!(lines.contains(&"  fan: count=0 scale=Unknown clamp=None-None sw-declared=false".to_string()));
    assert!(lines.contains(&"    [0] left=20 right=22 noise=30dB".to_string()));
    assert!(lines.contains(&"  EPP: AC=33% DC=50% (0=max perf, 100=max efficiency)".to_string()));
    assert!(lines.contains(&"  max freq ceiling: unlimited".to_string()));
    assert!(lines.contains(&format!("  {:<18} {:<5} {}", "pdh", "ok", "")));
    assert_eq!(lines.last().unwrap(), "  * process is not elevated: PowrProf writes will be denied");
    assert_eq!(support_str(Support::Experimental), "EXPERIMENTAL");
}

#[test]
fn profiles_are_named_and_held() {
    let mut quiet = PerformanceProfile::default();
    quiet.description = "low fans".to_string();
    let mut registry = ProfileRegistry::empty();
    registry.insert_builtin("silent", quiet.clone());
    registry.insert("mine", PerformanceProfile::default());
    assert_eq!(
        plan_profile(ProfileCmd::List, &registry),
        Ok(ProfilePlan::Print(vec![
            "silent           built-in  low fans".to_string(),
            "mine             user      ".to_string()
        ]))
    );
    let silent = || "silent".to_string();
    assert_eq!(plan_profile(ProfileCmd::Show { name: silent() }, &registry), Ok(ProfilePlan::Show(quiet.clone())));
    assert_eq!(plan_profile(ProfileCmd::Export { name: silent() }, &registry), Ok(ProfilePlan::Export(quiet)));
    assert_eq!(
        plan_profile(ProfileCmd::Apply { name: silent(), hold: 120 }, &registry),
        Ok(ProfilePlan::Change(Plan::HpState(ControlCommand::ApplyProfile { profile: silent() }, 120)))
    );
    assert_eq!(
        plan_profile(ProfileCmd::Apply { name: silent(), hold: 0 }, &registry),
        Err(ProfileCmdError::Refused(PlanError::NoHold))
    );
    let unknown = plan_profile(ProfileCmd::Apply { name: "x".to_string(), hold: 1 }, &registry).unwrap_err();
    assert_eq!(unknown.text(), "unknown profile 'x'");
}
