//! Capability discovery, engine assembly, hardware status and stored files.
use phelper_core::capability::{
    has_board_profile, merge, rank, BoardProfile, CapabilityService, FanTableRange, HpReadings, LevelRange,
    PpmReadings, ProbeNote, Reading, SystemDesign, ThermalPolicyVersion,
};
use phelper_core::domain::capability::{FanScale, Support};
use phelper_core::domain::policy::{FanCurve, FanCurvePoint, FanLevels, GpuPlatformPolicy, MuxMode};
use phelper_core::engine::{
    assemble, may_start, shutdown, EngineError, Opened, Openings, Provider, ShutdownStage,
};
use phelper_core::hardware_status::{vendor_executable, HardwareStatus, Service};
use phelper_core::number::{parse_u32, NumberError};
use phelper_core::persistence::{
    config_path, data_dir, default_snapshot_path, fan_curve_path, load_fan_curve, probe_out_dir, save_fan_curve,
    CurveFault, StoredCurve,
};

fn board() -> BoardProfile {
    BoardProfile {
        supports_gpu_power_mode: true,
        supports_mux: true,
        power_limits: Support::Experimental,
        thermal_policy: ThermalPolicyVersion::V1,
        fan_count: 2,
        fan_scale: FanScale::Krpm,
        clamp_min: Some(20),
        clamp_max: Some(55),
    }
}

fn ppm() -> PpmReadings {
    PpmReadings { elevated: true, epp: Ok((33, 50)), epp1_failure: None, max_freq_mhz: Ok(0) }
}

fn readings() -> HpReadings {
    HpReadings {
        fan_count: Ok(2),
        design: Ok(SystemDesign {
            thermal_policy_version: 1,
            sw_fan_control: true,
            default_pl4_w: 200,
            mux_byte: 3,
            mux_supported: true,
        }),
        fan_table: Ok(FanTableRange { clamp: Some(LevelRange { lo: 22, hi: 58 }) }),
        fan_levels: Ok(FanLevels::new(25, 27)),
        gpu_policy: Ok(GpuPlatformPolicy { ctgp: true, ppab: true, dstate: 1, slowdown_temp_c: 87 }),
        mux: Some(Ok(MuxMode::Hybrid)),
        max_fan_diag: Ok(false),
    }
}

fn probe(profile: Option<BoardProfile>, hp: Option<HpReadings>) -> phelper_core::capability::ProbeReport {
    CapabilityService::probe_runtime("8BAB".to_string(), profile, ppm(), hp, 42)
}

#[test]
fn a_probe_only_lowers_the_ceiling() {
    assert_eq!(merge(Support::Unsupported, Support::Supported), Support::Unsupported);
    assert_eq!(merge(Support::Supported, Support::Experimental), Support::Experimental);
    assert_eq!(merge(Support::Experimental, Support::Supported), Support::Experimental);
    assert!(rank(Support::NotProbed) < rank(Support::Unsupported));
}

#[test]
fn a_known_board_with_every_reading_is_supported() {
    let r = probe(Some(board()), Some(readings()));
    let c = r.capabilities;
    assert!(c.known_board);
    for s in [c.thermal_mode, c.fan_rpm_read, c.fan_manual_level, c.max_fan, c.gpu_platform_policy, c.mux] {
        assert_eq!(s, Support::Supported);
    }
    assert_eq!(c.power_limits, Support::Experimental);
    assert_eq!((c.fan.clamp_min, c.fan.clamp_max), (Some(22), Some(58)));
    assert_eq!((r.epp_ac, r.epp_dc, r.max_freq_mhz), (Some(33), Some(50), Some(0)));
    assert_eq!(r.mux, Some(MuxMode::Hybrid));
    assert!(r.notes.is_empty());
    assert_eq!(r.taken_at_epoch_ms, 42);
    assert_eq!(r.schema_version, 1);
}

#[test]
fn an_unknown_board_cannot_be_written() {
    let r = probe(None, Some(readings()));
    let c = r.capabilities;
    for s in [c.thermal_mode, c.fan_rpm_read, c.fan_manual_level, c.max_fan, c.gpu_platform_policy, c.mux, c.power_limits]
    {
        assert_eq!(s, Support::Unsupported);
    }
    assert_eq!(
        r.notes[0].text(),
        "board '8BAB' has no profile: all write capabilities forced Unsupported"
    );
}

#[test]
fn failed_readings_lower_their_own_domain() {
    let mut hp = readings();
    hp.fan_count = Err("rc=5".to_string());
    let r = probe(Some(board()), Some(hp));
    assert_eq!(r.capabilities.fan_rpm_read, Support::Unsupported);
    assert_eq!(r.capabilities.fan_manual_level, Support::Unsupported);
    assert_eq!(r.capabilities.max_fan, Support::Unsupported);
    assert_eq!(r.capabilities.thermal_mode, Support::Supported);
    assert_eq!(
        r.notes,
        vec![ProbeNote::Failed { reading: Reading::FanCount, why: "rc=5".to_string() }]
    );
    assert_eq!(r.notes[0].text(), "fan count read failed: rc=5");

    let mut hp = readings();
    hp.fan_table = Ok(FanTableRange { clamp: None });
    let r = probe(Some(board()), Some(hp));
    assert_eq!((r.capabilities.fan.clamp_min, r.capabilities.fan.clamp_max), (Some(20), Some(55)));
    assert_eq!(r.notes, vec![ProbeNote::ImplausibleFanTable]);

    let mut hp = readings();
    hp.mux = Some(Err("x".to_string()));
    assert_eq!(probe(Some(board()), Some(hp)).capabilities.mux, Support::Unsupported);
}

#[test]
fn a_denied_switch_is_not_read() {
    let mut hp = readings();
    hp.design = Ok(SystemDesign {
        thermal_policy_version: 0,
        sw_fan_control: false,
        default_pl4_w: 200,
        mux_byte: 0,
        mux_supported: false,
    });
    hp.mux = None;
    let r = probe(Some(board()), Some(hp));
    assert_eq!(r.capabilities.mux, Support::Unsupported);
    assert_eq!(r.mux, None);
    assert_eq!(
        r.notes,
        vec![ProbeNote::PolicyVersion { found: 0 }, ProbeNote::NoSoftwareFanControl]
    );
}

#[test]
fn a_missing_connection_is_noted_last() {
    let mut p = ppm();
    p.elevated = false;
    p.epp1_failure = Some("denied".to_string());
    let r = CapabilityService::probe("8BAB".to_string(), Some(board()), p, Err("gone".to_string()), 0);
    assert_eq!(r.capabilities.thermal_mode, Support::Unsupported);
    assert_eq!(r.capabilities.power_limits, Support::Unsupported);
    let texts: Vec<String> = r.notes.iter().map(|n| n.text()).collect();
    assert_eq!(
        texts,
        vec![
            "process is not elevated: PowrProf writes will be denied",
            "EPP1 read failed: denied",
            "HP WMI transport unavailable: gone"
        ]
    );
    assert!(has_board_profile("8BAB"));
    assert!(!has_board_profile("8bab"));
}

#[test]
fn failing_providers_do_not_stop_the_engine() {
    let a = assemble(Openings {
        cpu_silicon: Opened::Failed("no driver".to_string()),
        gpu: Opened::NotBuilt,
        windows_counters: Opened::Yes,
        fans: Opened::Yes,
    });
    assert_eq!(
        a.collectors,
        vec![Provider::WindowsCounters, Provider::Battery, Provider::ProcessorSettings, Provider::Fans]
    );
    assert_eq!(a.unavailable.len(), 1);
    assert_eq!(a.unavailable[0].provider.label(), "pawnio/cpu-silicon");
    assert_eq!(a.unavailable[0].why, "no driver");
}

#[test]
fn only_a_known_board_starts() {
    assert_eq!(may_start(Ok("8BAB".to_string()), true, Ok(())), Ok("8BAB".to_string()));
    let e = may_start(Ok("1234".to_string()), false, Ok(())).unwrap_err();
    assert_eq!(e.text(), "no board profile for '1234' (this build targets 8BAB only)");
    assert_eq!(
        may_start(Err("wmi".to_string()), true, Ok(())),
        Err(EngineError::Identity { why: "wmi".to_string() })
    );
    assert_eq!(
        may_start(Ok("8BAB".to_string()), true, Err("t".to_string())),
        Err(EngineError::Telemetry { why: "t".to_string() })
    );
}

#[test]
fn the_hardware_is_handed_back_before_telemetry_ends() {
    assert_eq!(
        shutdown(true, true),
        vec![
            ShutdownStage::AutomaticScheduler,
            ShutdownStage::OsPolicies,
            ShutdownStage::Control,
            ShutdownStage::Telemetry,
            ShutdownStage::HpActor
        ]
    );
    assert_eq!(shutdown(false, false).len(), 3);
}

fn service(name: &str, state: &str, path: Option<&str>) -> Service {
    Service {
        name: name.to_string(),
        state: state.to_string(),
        path_name: path.map(|p| p.to_string()),
    }
}

#[test]
fn services_tell_of_the_tuning_stack() {
    let list = vec![
        service("xtu3service", "Running", None),
        service("HPOmenCap", "Stopped", Some("\"C:\\HP\\cap.exe\"")),
    ];
    assert_eq!(vendor_executable(&list).as_deref(), Some("C:\\HP\\cap.exe"));
    let s = HardwareStatus::probe(&Some(Ok(list)), None, Some(2));
    assert_eq!(s.xtu_service_running, Some(true));
    assert_eq!(s.vbs_status, Some(2));
    assert!(!s.undervolt_backend && !s.cpu_overclock_backend);
    assert_eq!(s.notes.len(), 1);
    let failed = HardwareStatus::probe(&Some(Err("denied".to_string())), None, None);
    assert_eq!(failed.xtu_service_running, None);
    assert_eq!(failed.notes[0], "服务状态无法读取：denied");
    let stopped = HardwareStatus::probe(
        &Some(Ok(vec![service("XTU3SERVICE", "Stopped", None)])),
        None,
        None,
    );
    assert_eq!(stopped.xtu_service_running, Some(false));
}

fn curve(first_left: u16) -> FanCurve {
    FanCurve::new([
        FanCurvePoint::new(35, first_left, 20),
        FanCurvePoint::new(55, 26, 26),
        FanCurvePoint::new(72, 40, 42),
        FanCurvePoint::new(85, 55, 55),
    ])
}

#[test]
fn fan_curve_roundtrips() {
    let saved = save_fan_curve(curve(20)).unwrap();
    assert_eq!(load_fan_curve(StoredCurve::Found(saved)), Ok(Some(curve(20))));
}

#[test]
fn missing_fan_curve_is_not_an_error() {
    assert_eq!(load_fan_curve(StoredCurve::Missing), Ok(None));
    assert_eq!(load_fan_curve(StoredCurve::Unreadable), Err(CurveFault::Unreadable));
}

#[test]
fn invalid_fan_curve_is_rejected() {
    assert!(load_fan_curve(StoredCurve::Found(curve(0))).is_err());
    assert_eq!(save_fan_curve(curve(0)), Err(CurveFault::Invalid));
}

#[test]
fn files_have_their_places() {
    assert_eq!(data_dir(Some("C:\\Users\\me\\AppData\\Local")), "C:\\Users\\me\\AppData\\Local/phelper");
    assert_eq!(data_dir(None), "./probe-out");
    assert_eq!(probe_out_dir(), "./probe-out");
    assert_eq!(fan_curve_path("/d"), "/d/state/fan_curve.toml");
    assert_eq!(config_path("/d/"), "/d/automation.toml");
    assert_eq!(default_snapshot_path("/d", 17), "/d/capability-17.json");
}

#[test]
fn numbers_parse_as_in_the_standard_library() {
    assert_eq!(parse_u32("42"), Ok(42));
    assert_eq!(parse_u32("+42"), Ok(42));
    assert_eq!(parse_u32(""), Err(NumberError::Empty));
    assert_eq!(parse_u32("+"), Err(NumberError::InvalidDigit));
    assert_eq!(parse_u32("-1"), Err(NumberError::InvalidDigit));
    assert_eq!(parse_u32("4294967295"), Ok(u32::MAX));
    assert_eq!(parse_u32("4294967296"), Err(NumberError::TooLarge));
    assert_eq!(parse_u32("99999999999x"), Err(NumberError::TooLarge));
    for text in ["42", "+42", "", "+", "-1", "4294967295", "4294967296", "99999999999x", " 7"] {
        assert_eq!(
            parse_u32(text).map_err(|e| e.text()),
            text.parse::<u32>().map_err(|e| e.to_string())
        );
    }
}
