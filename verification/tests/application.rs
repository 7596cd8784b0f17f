//! The application layer: queue, wording, settings, read model, pump and
//! journal reader.
use phelper_core::app::coalesce::{BusyVerdict, Coalescer};
use phelper_core::app::fmt::{control_error_zh, fan_mode_zh, quality_zh, verification_zh};
use phelper_core::app::journal_tail::JournalTail;
use phelper_core::app::now_epoch_ms;
use phelper_core::app::runtime::{dispatch_gate, ExitStep, Pump, PumpAction, PumpExit, PumpMsg};
use phelper_core::app::settings::{SettingsWarning, StoredSettings, ThemePref, UiSettings};
use phelper_core::app::state::{profile_enabled, AppState, EngineStatus, KnobId, KnobStatus, ProfileBlock};
use phelper_core::app::validate::profile_apply_gate;
use phelper_core::automation::AutomationConfig;
use phelper_core::control::journal::{ControlJournal, JournalEntry, JournalEvent, JournalOrigin};
use phelper_core::domain::capability::{CapabilitySet, Support};
use phelper_core::domain::command::{
    ControlCommand, ControlOutcome, ControlReceipt, ControlStatus, Verification,
};
use phelper_core::domain::error::{ControlError, Missing, UnsafeReason};
use phelper_core::domain::evidence::Evidence;
use phelper_core::domain::policy::{
    CpuPowerLimits, FanLevels, FanMode, GpuPolicyPatch, MuxMode, ThermalMode,
};
use phelper_core::domain::profile::{PerformanceProfile, ProfileRegistry};
use phelper_core::domain::telemetry::{MetricQuality, MetricSample, MetricValue, TelemetrySnapshot};
use phelper_core::measurements::{CaptureReport, FrameStatistics};

fn profile(name: &str) -> ControlCommand {
    ControlCommand::ApplyProfile { profile: name.to_string() }
}

#[test]
fn profile_commands_are_serial() {
    let now = 1_000;
    let mut queue = Coalescer::with_intervals(0, 10, 1_000);
    queue.enqueue(KnobId::Profile, profile("balanced"));
    assert!(queue.poll(now).is_some());
    queue.note_dispatched(ControlReceipt(1), now);
    queue.enqueue(KnobId::Profile, profile("gaming"));
    assert!(queue.poll(now).is_none());
    queue.note_completed();
    assert_eq!(queue.poll(now), Some((KnobId::Profile, profile("gaming"))));
}

#[test]
fn busy_retry_is_bounded() {
    let now = 1_000;
    let mut queue = Coalescer::with_intervals(0, 10, 20);
    assert_eq!(queue.note_busy(KnobId::Profile, profile("balanced"), now), BusyVerdict::Retry);
    assert!(queue.poll(now + 9).is_none());
    assert!(queue.poll(now + 10).is_some());
    assert_eq!(
        queue.note_busy(KnobId::Profile, profile("balanced"), now + 20),
        BusyVerdict::TimedOut
    );
}

#[test]
fn the_latest_click_wins() {
    let mut queue = Coalescer::new();
    queue.enqueue(KnobId::Profile, profile("a"));
    queue.enqueue(KnobId::Profile, profile("b"));
    assert!(queue.has_work());
    assert_eq!(queue.poll(0), Some((KnobId::Profile, profile("b"))));
    assert!(!queue.has_work());
}

#[test]
fn healthy_and_degraded_metric_labels_are_distinct() {
    assert_eq!(quality_zh(MetricQuality::Fresh), "实时");
    assert_eq!(quality_zh(MetricQuality::Unavailable), "不可用");
}

#[test]
fn firmware_fan_mode_is_human_readable() {
    assert_eq!(fan_mode_zh(&FanMode::FirmwareAuto), "固件自动");
}

#[test]
fn states_and_errors_have_words() {
    assert_eq!(fan_mode_zh(&FanMode::Manual(FanLevels::new(30, 42))), "手动 3000 / 4200 RPM");
    assert_eq!(verification_zh(&Verification::Verified), "已回读验证");
    assert_eq!(
        control_error_zh(&ControlError::VerificationFailed {
            expected: Evidence::Text("a".to_string()),
            actual: Evidence::Text("b".to_string()),
        }),
        "写入后回读不符：期望 a，读回 b"
    );
    assert_eq!(
        control_error_zh(&ControlError::UnknownProfile { name: "x".to_string() }),
        "未知配置档：x"
    );
}

#[test]
fn default_is_dark() {
    assert_eq!(UiSettings::default().theme, ThemePref::Dark);
}

#[test]
fn missing_file_is_silent_default() {
    let (s, warn) = UiSettings::load(StoredSettings::Missing);
    assert_eq!(s, UiSettings::default());
    assert!(warn.is_none());
}

#[test]
fn roundtrip() {
    let s = UiSettings { theme: ThemePref::Light };
    let (back, warn) = UiSettings::load(StoredSettings::Found { theme: Some(s.save()) });
    assert_eq!(back, s);
    assert!(warn.is_none());
}

#[test]
fn broken_file_warns_and_defaults() {
    let (s, warn) = UiSettings::load(StoredSettings::Found { theme: Some("purple".to_string()) });
    assert_eq!(s, UiSettings::default());
    assert!(warn.is_some());
    let (s, warn) = UiSettings::load(StoredSettings::Broken { why: "e".to_string() });
    assert_eq!(s, UiSettings::default());
    assert_eq!(warn.unwrap().text("p"), "设置文件损坏，已回退默认（p）：e");
    let warn = UiSettings::load(StoredSettings::Unreadable { why: "e".to_string() }).1;
    assert_eq!(warn, Some(SettingsWarning::Unreadable { why: "e".to_string() }));
}

#[test]
fn system_variant_roundtrips() {
    let (s, _) = UiSettings::load(StoredSettings::Found { theme: Some("system".to_string()) });
    assert_eq!(s.theme, ThemePref::System);
}

#[test]
fn settings_stand_in_the_data_directory() {
    assert_eq!(UiSettings::path("/data"), "/data/settings.toml");
}

fn outcome(status: ControlStatus) -> ControlOutcome {
    ControlOutcome {
        receipt: ControlReceipt(1),
        command: ControlCommand::SetThermalMode(ThermalMode::Balanced),
        status,
        steps: Vec::new(),
        duration: 5,
    }
}

#[test]
fn outcome_sets_knob_status() {
    let mut s = AppState::default();
    s.apply_outcome(
        KnobId::Profile,
        outcome(ControlStatus::Applied { verification: Verification::TrustedNoReadback }),
        7,
    );
    assert!(matches!(
        s.knob_status(KnobId::Profile),
        KnobStatus::Applied { verification: Verification::TrustedNoReadback, .. }
    ));
    assert!(matches!(s.knob_status(KnobId::Fan), KnobStatus::Idle));
}

#[test]
fn rejected_outcome_records_error() {
    let mut s = AppState::default();
    s.apply_outcome(
        KnobId::Profile,
        outcome(ControlStatus::Rejected { error: ControlError::Busy }),
        7,
    );
    assert!(matches!(
        s.knob_status(KnobId::Profile),
        KnobStatus::Failed { error: ControlError::Busy, .. }
    ));
}

#[test]
fn failed_verification_is_not_presented_as_applied() {
    let mut s = AppState::default();
    s.apply_outcome(
        KnobId::Profile,
        outcome(ControlStatus::Applied {
            verification: Verification::Failed {
                expected: Evidence::Text("requested".to_string()),
                actual: Evidence::Text("unchanged".to_string()),
            },
        }),
        7,
    );
    assert!(matches!(
        s.knob_status(KnobId::Profile),
        KnobStatus::Failed {
            error: ControlError::VerificationFailed { expected, actual },
            ..
        } if expected.text() == "requested" && actual.text() == "unchanged"
    ));
}

#[test]
fn partial_outcome_is_shown_as_partial() {
    let mut s = AppState::default();
    s.apply_outcome(KnobId::Cpu, outcome(ControlStatus::Partial), 11);
    assert_eq!(*s.knob_status(KnobId::Cpu), KnobStatus::Partial { at_epoch_ms: 11 });
}

#[test]
fn profile_enabled_requires_known_board() {
    let mut caps = CapabilitySet::default();
    assert!(profile_enabled(&Some(caps)).is_err());
    caps.known_board = true;
    assert!(profile_enabled(&Some(caps)).is_ok());
    assert!(profile_enabled(&None).is_err());
    assert_eq!(profile_enabled(&None), Err(ProfileBlock::Preparing));
}

fn plain_profile() -> PerformanceProfile {
    let mut p = PerformanceProfile::default();
    p.description = "d".to_string();
    p.cpu.epp_ac = Some(80);
    p
}

fn limits_profile() -> PerformanceProfile {
    let mut p = PerformanceProfile::default();
    p.description = "d".to_string();
    p.power_limits = Some(CpuPowerLimits { pl1_w: 45, pl2_w: 90, pl4_w: 0, cpu_gpu_concurrent_w: 0 });
    p
}

#[test]
fn profile_summaries_keep_rendered_fields() {
    let mut reg = ProfileRegistry::empty();
    let mut p = plain_profile();
    let mut patch = GpuPolicyPatch::default();
    patch.ctgp = Some(true);
    p.gpu_policy = Some(patch);
    reg.insert("x", p.clone());
    let mut s = AppState::default();
    s.set_profiles(&reg);
    assert_eq!(s.profiles.len(), 1);
    let sum = &s.profiles[0];
    assert_eq!(sum.name, "x");
    assert_eq!(sum.description, "d");
    assert_eq!(sum.profile, p);
    assert!(!sum.builtin);
    let mut reg = ProfileRegistry::empty();
    for name in ["silent", "balanced", "gaming", "cpu-max"] {
        reg.insert_builtin(name, plain_profile());
    }
    s.set_profiles(&reg);
    assert!(s.profiles.len() >= 4);
    assert!(s.profiles.iter().all(|p| p.builtin));
}

#[test]
fn user_profiles_never_replace_builtin_ones() {
    let mut reg = ProfileRegistry::empty();
    reg.insert_builtin("silent", plain_profile());
    assert!(!reg.insert("silent", limits_profile()));
    assert_eq!(reg.get("silent"), Some(&plain_profile()));
    assert!(reg.insert("mine", limits_profile()));
    assert!(reg.insert("mine", plain_profile()));
    assert_eq!(reg.get("mine"), Some(&plain_profile()));
    assert_eq!(reg.entries.len(), 2);
    // A known name keeps its place, a new one comes last.
    assert!(reg.insert("third", limits_profile()));
    assert!(reg.insert("mine", limits_profile()));
    let names: Vec<&str> = reg.entries.iter().map(|e| e.name.as_str()).collect();
    assert_eq!(names, vec!["silent", "mine", "third"]);
}

#[test]
fn control_changed_ignores_telemetry_only_and_catches_every_field() {
    let changed = |a: &AppState, b: &AppState| a.clone().without_telemetry() != b.clone().without_telemetry();
    let a = AppState::default();
    let mut b = AppState::default();
    b.apply_snapshot(TelemetrySnapshot::default());
    assert_ne!(a, b);
    assert!(!changed(&a, &b));
    b.hardware.notes.push("x".to_string());
    assert!(changed(&a, &b));
    let mut d = AppState::default();
    d.capture_running = true;
    assert!(changed(&a, &d));
    let mut e = AppState::default();
    let mut f = AppState::default();
    e.capture_report = Some(capture_report("j"));
    f.capture_report = Some(capture_report("j"));
    assert!(!changed(&e, &f));
    f.capture_report = Some(capture_report("k"));
    assert!(changed(&e, &f));
}

fn capture_report(json_path: &str) -> CaptureReport {
    CaptureReport {
        schema_version: 1,
        label: "l".to_string(),
        executable: "e".to_string(),
        process_creation_time: 0,
        duration_s: 1.0f64.to_bits(),
        presentmon_version: "v".to_string(),
        frames: FrameStatistics {
            pid: 1,
            swap_chain: "s".to_string(),
            frames: 1,
            mean_fps: 60.0f64.to_bits(),
            one_percent_low_fps: 40.0f64.to_bits(),
            p95_ms: 10.0f64.to_bits(),
            p99_ms: 20.0f64.to_bits(),
            other_swap_chains: 0,
            rejected_rows: 0,
        },
        hardware: "[]".to_string(),
        csv_path: "c".to_string(),
        json_path: json_path.to_string(),
        context: "null".to_string(),
    }
}

#[test]
fn newest_samples_are_taken_over() {
    let mut state = AppState::default();
    let sample = MetricSample {
        id: "cpu_pkg_temp_c".to_string(),
        value: MetricValue::Measured { thousandths: 61_000 },
        quality: MetricQuality::Fresh,
        at: 5,
        source: "msr".to_string(),
    };
    state.apply_snapshot(TelemetrySnapshot::default());
    state.apply_snapshot(TelemetrySnapshot { samples: vec![sample.clone()] });
    assert_eq!(state.telemetry.unwrap().samples, vec![sample]);
}

#[test]
fn normal_profile_needs_no_experimental_gate() {
    assert!(profile_apply_gate(&plain_profile(), false, &None).is_ok());
}

#[test]
fn power_limit_profile_requires_both_gates() {
    let mut capabilities = CapabilitySet::default();
    capabilities.power_limits = Support::Experimental;
    let caps = Some(capabilities);
    assert!(profile_apply_gate(&limits_profile(), false, &caps).is_err());
    assert!(profile_apply_gate(&limits_profile(), true, &caps).is_ok());
    assert_eq!(
        profile_apply_gate(&limits_profile(), true, &None),
        Err(UnsafeReason::PowerLimitsNotExperimental)
    );
    assert_eq!(
        profile_apply_gate(&limits_profile(), false, &caps),
        Err(UnsafeReason::ExperimentalNotBuilt)
    );
}

#[test]
fn commands_are_gated_before_they_are_queued() {
    let mut reg = ProfileRegistry::empty();
    reg.insert("limits", limits_profile());
    let mut state = AppState::default();
    assert_eq!(
        dispatch_gate(&profile("x"), &reg, &state, false, true),
        Some(ControlError::BackendUnavailable { what: Missing::TelemetryOnly })
    );
    assert_eq!(dispatch_gate(&profile("unknown"), &reg, &state, true, false), None);
    assert_eq!(
        dispatch_gate(&profile("limits"), &reg, &state, true, false),
        Some(ControlError::UnsafeRequest { reason: UnsafeReason::ExperimentalNotBuilt })
    );
    let mux = ControlCommand::SetMuxMode(MuxMode::Discrete);
    assert_eq!(
        dispatch_gate(&mux, &reg, &state, true, false),
        Some(ControlError::UnsafeRequest { reason: UnsafeReason::MuxNotProven })
    );
    state.observed.mux_write_verified = true;
    assert_eq!(dispatch_gate(&mux, &reg, &state, true, false), None);
}

#[test]
fn a_command_goes_through_the_pump() {
    let mut state = AppState::default();
    let mut pump = Pump::new(ProfileRegistry::empty(), true, true, false, 100_000);
    assert_eq!(pump.ui_wait(), 100);
    let action = pump.handle_pump_msg(&mut state, PumpMsg::Dispatch(KnobId::Profile, profile("p")), 1);
    assert_eq!(action, PumpAction::Nothing);
    assert_eq!(*state.knob_status(KnobId::Profile), KnobStatus::Pending);
    assert_eq!(pump.ui_wait(), 10);
    let (knob, command) = pump.release(&mut state, 100_000, 2).unwrap();
    pump.dispatched(&mut state, knob, command, Ok(ControlReceipt(4)), 100_000, 2);
    assert_eq!(*state.knob_status(KnobId::Profile), KnobStatus::InFlight(ControlReceipt(4)));
    assert!(pump.release(&mut state, 200_000, 3).is_none());
    pump.finished(
        &mut state,
        Some(outcome(ControlStatus::Applied { verification: Verification::Verified })),
        3,
    );
    assert_eq!(
        *state.knob_status(KnobId::Profile),
        KnobStatus::Applied { verification: Verification::Verified, at_epoch_ms: 3 }
    );
    assert!(state.last_outcome.is_some());
    assert_eq!(pump.ui_wait(), 100);
}

#[test]
fn a_busy_writer_is_retried_and_then_given_up() {
    let mut state = AppState::default();
    let mut pump = Pump::new(ProfileRegistry::empty(), true, false, false, 100_000);
    pump.handle_pump_msg(&mut state, PumpMsg::Dispatch(KnobId::Profile, profile("p")), 1);
    let (knob, command) = pump.release(&mut state, 100_000, 2).unwrap();
    pump.dispatched(&mut state, knob, command, Err(ControlError::Busy), 100_000, 2);
    assert_eq!(*state.knob_status(KnobId::Profile), KnobStatus::Pending);
    assert!(pump.release(&mut state, 100_299, 2).is_none());
    let (knob, command) = pump.release(&mut state, 105_000, 3).unwrap();
    pump.dispatched(&mut state, knob, command, Err(ControlError::Busy), 105_000, 3);
    assert_eq!(
        *state.knob_status(KnobId::Profile),
        KnobStatus::Failed { error: ControlError::Busy, at_epoch_ms: 3 }
    );
}

#[test]
fn a_lost_writer_fails_the_command_under_way() {
    let mut state = AppState::default();
    let mut pump = Pump::new(ProfileRegistry::empty(), true, false, false, 100_000);
    pump.handle_pump_msg(&mut state, PumpMsg::Dispatch(KnobId::Fan, profile("p")), 1);
    let (knob, command) = pump.release(&mut state, 100_000, 2).unwrap();
    pump.dispatched(&mut state, knob, command, Ok(ControlReceipt(1)), 100_000, 2);
    pump.finished(&mut state, None, 9);
    assert_eq!(
        *state.knob_status(KnobId::Fan),
        KnobStatus::Failed {
            error: ControlError::BackendUnavailable { what: Missing::ChannelGone },
            at_epoch_ms: 9
        }
    );
}

#[test]
fn captures_run_one_at_a_time() {
    let mut state = AppState::default();
    let mut pump = Pump::new(ProfileRegistry::empty(), true, false, false, 0);
    let start = || PumpMsg::StartCapture { pid: 4, seconds: 10, label: "l".to_string() };
    let action = pump.handle_pump_msg(&mut state, start(), 0);
    assert_eq!(action, PumpAction::StartCapture { pid: 4, seconds: 10, label: "l".to_string() });
    assert!(state.capture_running);
    assert_eq!(pump.handle_pump_msg(&mut state, start(), 0), PumpAction::Nothing);
    state.capture_finished(Ok(capture_report("r.json")));
    assert!(!state.capture_running);
    assert_eq!(state.capture_notice.as_deref(), Some("采集完成：r.json"));
    pump.handle_pump_msg(&mut state, PumpMsg::UseCaptureBaseline, 0);
    assert_eq!(state.capture_baseline, Some(capture_report("r.json")));
    state.capture_finished(Err("bad".to_string()));
    assert_eq!(state.capture_notice.as_deref(), Some("bad"));
    assert_eq!(state.capture_report, Some(capture_report("r.json")));
}

#[test]
fn refreshes_come_at_their_cadence() {
    let mut pump = Pump::new(ProfileRegistry::empty(), true, false, false, 100_000);
    assert!(pump.refresh_due(100_000));
    assert!(!pump.refresh_due(101_999));
    assert!(pump.refresh_due(102_000));
    assert!(!pump.reprobe_due(129_999));
    assert!(pump.reprobe_due(130_000));
    let mut early = Pump::new(ProfileRegistry::empty(), true, false, false, 500);
    assert!(!early.refresh_due(500));
}

#[test]
fn the_engine_ends_before_the_page_is_answered() {
    let pump = Pump::new(ProfileRegistry::empty(), true, true, false, 0);
    assert_eq!(
        pump.exit_steps(PumpExit::Asked),
        vec![
            ExitStep::StopCapture,
            ExitStep::ShutDownAutomation,
            ExitStep::ShutDownEngine,
            ExitStep::Acknowledge
        ]
    );
    assert_eq!(
        pump.exit_steps(PumpExit::TelemetryLost).last(),
        Some(&ExitStep::ServeShutdownOnly)
    );
}

#[test]
fn starting_settles_with_or_without_a_writer() {
    let mut state = AppState::default();
    assert!(!state.writes_available());
    state.settle(None, &ProfileRegistry::empty());
    assert_eq!(state.engine, EngineStatus::TelemetryOnly);
    assert!(!state.writes_available());
    state.engine_failed("no".to_string());
    assert_eq!(state.engine, EngineStatus::Failed("no".to_string()));
    state.telemetry_lost();
    assert_eq!(state.engine, EngineStatus::Failed("遥测协调器意外断开".to_string()));
}

#[test]
fn without_a_writer_the_rules_are_only_shown() {
    let mut state = AppState::default();
    let mut config = AutomationConfig::default();
    config.enabled = true;
    state.rules_unavailable(config.clone());
    assert!(state.automation.initialized);
    assert_eq!(state.automation.config, config);
    assert_eq!(state.automation.message.as_deref(), Some("只读模式：规则不会运行或写入。"));
}

#[test]
fn missing_file_yields_nothing() {
    let mut t = JournalTail::new("missing.jsonl".to_string());
    assert_eq!(t.position(0), 0);
    assert!(t.poll(&Vec::new()).is_empty());
}

fn recorded(n: u64) -> ControlOutcome {
    ControlOutcome {
        receipt: ControlReceipt(n),
        command: ControlCommand::SetThermalMode(ThermalMode::Balanced),
        status: ControlStatus::Applied { verification: Verification::TrustedNoReadback },
        steps: Vec::new(),
        duration: 1,
    }
}

/// An entry as a line of the journal.
fn line_of(entry: &JournalEntry) -> Vec<u8> {
    let mut outcome = serde_json::Map::new();
    outcome.insert("receipt".to_string(), entry.outcome.receipt.0.into());
    outcome.insert("duration".to_string(), entry.outcome.duration.into());
    let mut fields = serde_json::Map::new();
    fields.insert("schema_version".to_string(), entry.schema_version.into());
    fields.insert("at_epoch_ms".to_string(), entry.at_epoch_ms.into());
    fields.insert("board_id".to_string(), entry.board_id.clone().into());
    fields.insert("bios_version".to_string(), entry.bios_version.clone().into());
    fields.insert("origin".to_string(), entry.origin.label().into());
    fields.insert("outcome".to_string(), outcome.into());
    serde_json::to_vec(&serde_json::Value::from(fields)).unwrap()
}

fn entry(origin: JournalOrigin, n: u64) -> Vec<u8> {
    let journal = ControlJournal::new("8BAB", "F.30");
    line_of(&journal.new_entry(JournalEvent { origin, outcome: recorded(n) }, 1_700_000_000_000))
}

/// One poll of a file with that content: the entries, with those that cannot
/// be parsed counted as skipped.
fn poll(t: &mut JournalTail, content: &[u8]) -> Vec<serde_json::Value> {
    let from = t.position(content.len() as u64) as usize;
    let parsed: Vec<Option<serde_json::Value>> = t
        .poll(&content[from..].to_vec())
        .iter()
        .map(|line| serde_json::from_slice(line).ok())
        .collect();
    t.note_parsed(&parsed.iter().map(|p| p.is_some()).collect());
    parsed.into_iter().flatten().collect()
}

fn with_newline(line: Vec<u8>) -> Vec<u8> {
    [line, b"\n".to_vec()].concat()
}

#[test]
fn reads_entries_written_by_real_journal() {
    let mut content = with_newline(entry(JournalOrigin::User, 1));
    let mut t = JournalTail::new("real.jsonl".to_string());
    let got = poll(&mut t, &content);
    assert_eq!(got.len(), 1);
    assert_eq!(got[0]["board_id"], "8BAB");
    assert_eq!(got[0]["bios_version"], "F.30");
    assert_eq!(got[0]["origin"], JournalOrigin::User.label());
    assert_eq!(got[0]["outcome"]["receipt"], 1);
    assert!(poll(&mut t, &content).is_empty());
    content.extend(with_newline(entry(JournalOrigin::Shutdown, 2)));
    content.extend(with_newline(entry(JournalOrigin::Safety, 3)));
    let got = poll(&mut t, &content);
    assert_eq!(got.len(), 2);
    assert_eq!(got[0]["origin"], JournalOrigin::Shutdown.label());
    assert_eq!(got[1]["origin"], JournalOrigin::Safety.label());
}

#[test]
fn torn_trailing_line_is_retried_not_lost() {
    let line = entry(JournalOrigin::User, 9);
    let cut = line.len() / 2;
    let mut t = JournalTail::new("journal.jsonl".to_string());
    assert!(poll(&mut t, &line[..cut]).is_empty(), "torn line must not parse");
    let got = poll(&mut t, &with_newline(line));
    assert_eq!(got.len(), 1);
    assert_eq!(got[0]["outcome"]["receipt"], 9);
    assert_eq!(t.skipped(), 0, "torn-then-completed is not corruption");
}

#[test]
fn broken_complete_line_is_skipped_not_fatal() {
    let good = with_newline(entry(JournalOrigin::User, 1));
    let content = [good.clone(), b"{this is not json at all\n".to_vec(), good].concat();
    let mut t = JournalTail::new("journal.jsonl".to_string());
    let got = poll(&mut t, &content);
    assert_eq!(got.len(), 2, "good lines on both sides survive");
    assert_eq!(t.skipped(), 1);
}

#[test]
fn cuts_into_polls_do_not_change_what_is_read() {
    let good = with_newline(entry(JournalOrigin::User, 1));
    let content = [good.clone(), b"{broken\n".to_vec(), b"\n  \r\n".to_vec(), good, b"{\"rest".to_vec()].concat();
    let mut whole = JournalTail::new("journal.jsonl".to_string());
    let at_once = poll(&mut whole, &content);
    assert_eq!(at_once.len(), 2, "blank lines are no entries");
    let mut bytewise = JournalTail::new("journal.jsonl".to_string());
    let mut joined = Vec::new();
    for n in 1..=content.len() {
        joined.extend(poll(&mut bytewise, &content[..n]));
    }
    assert_eq!(joined, at_once);
    assert_eq!(bytewise.skipped(), 1);
    assert_eq!(bytewise, whole);
}

#[test]
fn truncated_file_resets_offset() {
    let good = with_newline(entry(JournalOrigin::User, 1));
    let mut t = JournalTail::new("journal.jsonl".to_string());
    assert_eq!(poll(&mut t, &[good.clone(), good.clone()].concat()).len(), 2);
    assert_eq!(t.offset, 2 * good.len() as u64);
    assert_eq!(poll(&mut t, &good).len(), 1);
    assert_eq!(t.offset, good.len() as u64);
}

#[test]
fn the_default_journal_stands_in_the_state_directory() {
    let t = JournalTail::default_journal("/data");
    assert_eq!(t.path, "/data/state/control-journal.jsonl");
}

#[test]
fn clocks_before_the_epoch_read_zero() {
    assert_eq!(now_epoch_ms(None), 0);
    assert_eq!(now_epoch_ms(Some(1_700_000_000_123)), 1_700_000_000_123);
}
