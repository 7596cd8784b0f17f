//! The automatic scheduler and the automation rules.
use phelper_core::automatic_scheduler::{
    any_candidate, battery_policy, current_session, is_eligible, plan_apply, plan_release, ApplyResult,
    AutomaticWorker, ManagedAction, ManagedProcess, ProcessIdentity, RestoreAll, SchedulerError, Surroundings,
};
use phelper_core::automation::{ApplicationRule, AutomationConfig, AutomationError, AutomationWorker};
use phelper_core::domain::automatic::{AutomaticMode, AutomaticPhase, PowerContext, PowerSource};
use phelper_core::domain::command::ControlCommand;
use phelper_core::domain::os_policy::{CpuPlacement, ProcessInfo, QosLevel};
use phelper_core::domain::profile::{PerformanceProfile, ProfileRegistry};

const OWN_PID: u32 = 1;

fn process(name: &str, path: Option<&str>, session_id: Option<u32>) -> ProcessInfo {
    ProcessInfo {
        pid: 40_000,
        name: name.to_string(),
        executable: path.map(str::to_string),
        thread_count: 1,
        session_id,
        creation_time: Some(123),
    }
}

#[test]
fn battery_policy_only_contains_soft_efficiency_hints() {
    let policy = battery_policy();
    assert_eq!(policy.cpu_placement, Some(CpuPlacement::Efficiency));
    assert_eq!(policy.qos, Some(QosLevel::Eco));
    assert!(policy.affinity.is_none());
    assert!(policy.process_priority.is_none());
    assert!(policy.memory_priority.is_none());
}

#[test]
fn eligibility_requires_current_session_and_readable_non_system_path() {
    let allowed = process("editor.exe", Some(r"C:\Program Files\Editor\editor.exe"), Some(1));
    assert!(is_eligible(&allowed, OWN_PID, Some(1), r"C:\Windows"));

    let other_session = process("editor.exe", Some(r"C:\Program Files\Editor\editor.exe"), Some(0));
    assert!(!is_eligible(&other_session, OWN_PID, Some(1), r"C:\Windows"));

    let system_path = process("worker.exe", Some(r"C:\Windows\worker.exe"), Some(1));
    assert!(!is_eligible(&system_path, OWN_PID, Some(1), r"C:\Windows"));

    let no_path = process("worker.exe", None, Some(1));
    assert!(!is_eligible(&no_path, OWN_PID, Some(1), r"C:\Windows"));
}

#[test]
fn critical_processes_are_not_automatic_candidates() {
    for name in ["explorer.exe", "audiodg.exe", "svchost.exe", "dwm.exe"] {
        assert!(!is_eligible(
            &process(name, Some(r"C:\Program Files\x.exe"), Some(1)),
            OWN_PID,
            Some(1),
            r"C:\Windows"
        ));
    }
}

#[test]
fn the_own_process_is_no_candidate() {
    let own = process("editor.exe", Some(r"C:\Program Files\Editor\editor.exe"), Some(1));
    assert!(!is_eligible(&own, 40_000, Some(1), r"C:\Windows"));
}

#[test]
fn process_identity_rejects_creation_time_change() {
    let identity =
        ProcessIdentity { executable: r"C:\Tools\worker.exe".to_string(), creation_time: Some(123) };
    let mut replacement = process("worker.exe", Some(r"C:\Tools\worker.exe"), Some(1));
    assert!(identity.matches(&replacement));
    replacement.creation_time = Some(456);
    assert!(!identity.matches(&replacement));
}

fn rule(executable: &str, profile: &str) -> ApplicationRule {
    ApplicationRule { executable: executable.to_string(), profile: profile.to_string(), power: None }
}

#[test]
fn exact_paths_and_row_priority_require_process_identity() {
    let mut config = AutomationConfig::default();
    config.enabled = true;
    config.ac_profile = Some("balanced".to_string());
    config.applications = vec![rule("C:\\Games\\a.exe", "gaming"), rule("C:\\Games\\b.exe", "silent")];
    let mut process = ProcessInfo {
        pid: 42,
        name: "a.exe".to_string(),
        executable: Some("C:/Games/A.exe".to_string()),
        thread_count: 1,
        session_id: Some(1),
        creation_time: Some(5),
    };
    assert_eq!(
        config.resolve(PowerSource::Ac, &vec![process.clone()]).as_deref(),
        Some("gaming")
    );
    let mut second = process.clone();
    second.executable = Some("C:\\Games\\b.exe".to_string());
    assert_eq!(
        config.resolve(PowerSource::Ac, &vec![second, process.clone()]).as_deref(),
        Some("gaming")
    );
    process.creation_time = None;
    assert_eq!(
        config.resolve(PowerSource::Ac, &vec![process.clone()]).as_deref(),
        Some("balanced")
    );
    process.creation_time = Some(9);
    process.executable = Some("C:\\Other\\a.exe".to_string());
    assert_eq!(
        config.resolve(PowerSource::Ac, &vec![process]).as_deref(),
        Some("balanced")
    );
}

#[test]
fn unknown_power_and_disabled_rules_do_not_apply() {
    let mut config = AutomationConfig::default();
    config.enabled = true;
    config.ac_profile = Some("gaming".to_string());
    assert_eq!(config.resolve(PowerSource::Unknown, &Vec::new()), None);
    assert_eq!(config.resolve(PowerSource::Ac, &Vec::new()), Some("gaming".to_string()));
    config.enabled = false;
    assert_eq!(config.resolve(PowerSource::Ac, &Vec::new()), None);
}

#[test]
fn rules_name_known_profiles() {
    let mut registry = ProfileRegistry::empty();
    registry.insert("gaming", PerformanceProfile::default());
    let mut config = AutomationConfig::default();
    config.ac_profile = Some("nope".to_string());
    assert_eq!(
        config.validate(&registry),
        Err(AutomationError::UnknownProfile { name: "nope".to_string() })
    );
    config.ac_profile = Some("gaming".to_string());
    assert!(config.validate(&registry).is_ok());
}

#[test]
fn rules_name_full_executable_paths() {
    let mut registry = ProfileRegistry::empty();
    registry.insert("gaming", PerformanceProfile::default());
    let verdict = |executable: &str| {
        let mut config = AutomationConfig::default();
        config.applications.push(ApplicationRule {
            executable: executable.to_string(),
            profile: "gaming".to_string(),
            power: None,
        });
        config.validate(&registry)
    };
    for full in ["C:\\Games\\a.exe", "c:/games/A.EXE", "\\\\server\\share\\a.exe", "//server/share.exe"] {
        assert_eq!(verdict(full), Ok(()), "{full}");
    }
    for bad in [
        "a.exe",
        "\\Games\\a.exe",
        "C:a.exe",
        "C:\\Games\\a.bat",
        "\\\\a.exe",
        "\\\\server\\\\a.exe",
        "\\\\\\server\\a.exe",
    ] {
        assert_eq!(verdict(bad), Err(AutomationError::NotAnExecutable), "{bad}");
    }
}

#[test]
fn manual_commands_take_over_from_a_session() {
    let mut config = AutomationConfig::default();
    config.enabled = true;
    config.ac_profile = Some("gaming".to_string());
    let mut worker = AutomationWorker::new(0, None, 1_000);
    let processes = Vec::new();
    assert_eq!(worker.scan(&config, PowerSource::Ac, Some(&processes), 1_000_000), None);
    let command = worker.scan(&config, PowerSource::Ac, Some(&processes), 1_060_000);
    let Some(ControlCommand::ApplyScopedProfile { profile, session_id }) = command else {
        panic!("expected a session, got {command:?}");
    };
    assert_eq!(profile, "gaming");
    worker.dispatched(ControlCommand::ApplyScopedProfile { profile, session_id }, Ok(()));
    assert!(worker.pending.is_some());
    worker.notice_manual(1);
    assert!(worker.paused_by_manual);
    assert_eq!(worker.scheduler_mode(&config), AutomaticMode::Off);
}

fn at(pid: u32, created: u64) -> ProcessInfo {
    let mut p = process("editor.exe", Some(r"C:\Apps\editor.exe"), Some(1));
    p.pid = pid;
    p.creation_time = Some(created);
    p
}

fn managed(pid: u32, created: u64) -> ManagedProcess {
    ManagedProcess {
        pid,
        identity: ProcessIdentity {
            executable: r"C:\Apps\editor.exe".to_string(),
            creation_time: Some(created),
        },
    }
}

fn here() -> Surroundings {
    Surroundings { own_pid: OWN_PID, current_session: Some(1), windir: r"C:\Windows".to_string() }
}

#[test]
fn a_reused_pid_is_discarded_and_never_restored() {
    let processes = vec![at(10, 1), at(11, 99), at(12, 3)];
    let known = vec![managed(10, 1), managed(11, 2), managed(12, 3), managed(13, 4)];
    assert_eq!(
        plan_release(&known, &processes, &here(), &vec![10]),
        vec![
            ManagedAction::Keep,
            ManagedAction::Discard,
            ManagedAction::Restore,
            ManagedAction::Discard
        ]
    );
    assert_eq!(plan_apply(&processes, &vec![managed(10, 1)], &here()).len(), 2);
    assert!(any_candidate(&processes, &here()));
    assert!(!any_candidate(&Vec::new(), &here()));
    assert_eq!(current_session(&vec![process("self.exe", None, Some(4))], 40_000), Some(4));
}

#[test]
fn processes_are_walked_by_identifier() {
    let processes = vec![at(30, 1), at(10, 2), at(20, 3), at(10, 4)];
    assert_eq!(
        plan_apply(&processes, &vec![managed(20, 3)], &here()),
        vec![managed(10, 4), managed(30, 1)]
    );
    let mut w = AutomaticWorker::new(0);
    w.begin_reconcile();
    let mut known = vec![managed(20, 3)];
    let results = vec![ApplyResult::Taken, ApplyResult::Taken];
    w.settle_apply(&mut known, vec![managed(10, 4), managed(30, 1)], &results, true, 5);
    assert_eq!(known, vec![managed(10, 4), managed(20, 3), managed(30, 1)]);
    let shown = w.snapshot(&known);
    assert_eq!(shown.managed_processes, 3);
    assert_eq!(shown.phase, AutomaticPhase::Active);
    assert_eq!(shown.last_reconcile_at_epoch_ms, Some(5));
    assert_eq!(shown.last_error, None);
    w.listing_failed("denied".to_string());
    assert_eq!(w.snapshot(&known).last_error, Some("denied".to_string()));
}

fn power(source: PowerSource) -> PowerContext {
    PowerContext { source, battery_percent: Some(50) }
}

#[test]
fn processes_are_managed_on_battery_only() {
    let mut w = AutomaticWorker::new(0);
    w.change_mode(AutomaticMode::BatteryEfficiency, true);
    w.take_reading(&Ok(power(PowerSource::Ac)));
    w.weigh_source(PowerSource::Ac, true, 0);
    w.reconcile_if_needed(0);
    assert!(!w.take_reconcile(10_000));
    w.take_reading(&Ok(power(PowerSource::Battery)));
    w.weigh_source(PowerSource::Battery, false, 10_000);
    assert!(!w.confirm_due(10_249));
    assert!(w.confirm_due(10_250));
    w.confirm_power_source(Ok(power(PowerSource::Battery)), 10_250);
    assert_eq!(w.stable_source, PowerSource::Battery);
    w.power_announced(10_250);
    assert!(!w.take_power_refresh(20_249));
    assert!(w.take_power_refresh(20_250));
    assert!(w.take_reconcile(10_250));
    w.begin_reconcile();
    let mut known = Vec::new();
    w.settle_apply(
        &mut known,
        vec![managed(10, 1), managed(11, 2), managed(12, 3)],
        &vec![ApplyResult::Taken, ApplyResult::SkippedManual, ApplyResult::Failed],
        true,
        77,
    );
    assert_eq!(known, vec![managed(10, 1)]);
    assert_eq!(w.skipped_manual, 1);
    assert_eq!(w.phase, AutomaticPhase::Active);
    assert!(AutomaticWorker::needs_restore(&Ok(power(PowerSource::Ac)), &known));
    assert!(!AutomaticWorker::needs_restore(&Ok(power(PowerSource::Battery)), &known));
    assert!(AutomaticWorker::needs_restore(&Err("x".to_string()), &known));
}

#[test]
fn targets_that_stay_are_an_error() {
    let mut w = AutomaticWorker::new(0);
    let mut known = vec![managed(10, 1), managed(11, 2)];
    let restored = w.restore_automatic(&mut known, RestoreAll { error: None, remaining: vec![11] });
    assert!(!restored);
    assert_eq!(known, vec![managed(11, 2)]);
    assert_eq!(w.last_error, Some(SchedulerError::TargetsLeft));
    w.settle_off_again(&known, restored);
    assert_eq!(w.phase, AutomaticPhase::Error);
    let restored = w.restore_automatic(&mut known, RestoreAll { error: None, remaining: Vec::new() });
    assert!(restored && known.is_empty());
    w.settle_off_again(&known, restored);
    assert_eq!(w.phase, AutomaticPhase::Disabled);
    assert_eq!(
        SchedulerError::NoTargets { failures: 3 }.text(),
        "没有可接管的进程（3 个目标被系统拒绝或不支持）"
    );
}
