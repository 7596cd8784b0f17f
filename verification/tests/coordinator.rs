//! The control plane end to end: commands against a mock firmware and a mock
//! operating system, on a clock of milliseconds that the tests advance.
use phelper_core::control::advance::{scope_saved, PlanProgress};
use phelper_core::control::coordinator::{ControlConfig, ControlCoordinator, QUEUE_DEPTH};
use phelper_core::control::exchange::{HpWrite, KnobRun, Progress, Reply, Request};
use phelper_core::control::exec::curve_tick::CurveRun;
use phelper_core::control::exec::heartbeat::HeartbeatRun;
use phelper_core::control::exec::knobs::{cpu_writes, CpuRun, KnobResult, KnobWrite};
use phelper_core::control::exec::protect::ProtectRun;
use phelper_core::control::exec::restore::RestoreRun;
use phelper_core::control::journal::{JournalEvent, JournalOrigin};
use phelper_core::control::mux::{MuxLifecycle, MuxLoaded, MuxRecord};
use phelper_core::control::plan::{begin_plan, scope_needs, ActivePlan, Begun};
use phelper_core::control::recovery::RecoveryRecord;
use phelper_core::control::run_loop::{
    begin_tick, blocking_result, decide_admission, end_tick, fan_sample, loop_wait, power_sample, tick_due, Admission, Awaited,
    Dispatcher, QueueState, RequestKind, StartReadings, TickWork,
};
use phelper_core::control::safety::ThermalFeed;
use phelper_core::control::scope::ScopeReads;
use phelper_core::control::stamp::PpmReads;
use phelper_core::control::verification::Readback;
use phelper_core::domain::capability::{CapabilitySet, FanScale, Support};
use phelper_core::domain::command::{
    ControlCommand, ControlOutcome, ControlReceipt, ControlStatus, Step, Verification,
};
use phelper_core::domain::error::{ControlError, HpWmiError, Missing, PlatformError, UnsafeReason};
use phelper_core::domain::evidence::{FanSample, Knob, KnobValue, Pl4Sample, PowerSample, Sample};
use phelper_core::domain::policy::{
    BoostPolicy, CpuPolicy, CpuPowerLimits, FanCurve, FanCurvePoint, FanLevels, FanMode, GpuPlatformPolicy,
    GpuPolicyPatch, MuxMode, ThermalMode,
};
use phelper_core::domain::profile::{PerformanceProfile, ProfileRegistry};
use phelper_core::domain::state::ControlNotice;

/// The firmware.
struct MockHp {
    fan_levels: FanLevels,
    fan_writes: Vec<FanLevels>,
    max_fan_writes: Vec<bool>,
    thermal_writes: Vec<ThermalMode>,
    fan_count_calls: u32,
    fail_next_thermal: bool,
    fail_fan_count: bool,
    fail_fan_writes: bool,
    /// Scripted fan readbacks; the last one repeats.
    readback_script: Vec<FanLevels>,
    gpu_policy: Option<GpuPlatformPolicy>,
    gpu_policy_writes: Vec<GpuPlatformPolicy>,
    /// What reads show instead of the last write.
    gpu_policy_pin: Option<GpuPlatformPolicy>,
    power_limits_writes: Vec<CpuPowerLimits>,
    mux: Result<MuxMode, HpWmiError>,
    mux_writes: Vec<MuxMode>,
    /// Whether a power write moves what the sensors show.
    linked: bool,
}

fn not_available() -> HpWmiError {
    HpWmiError::NotAvailable("mock".to_string())
}

impl MockHp {
    fn new() -> MockHp {
        MockHp {
            fan_levels: FanLevels::auto(),
            fan_writes: Vec::new(),
            max_fan_writes: Vec::new(),
            thermal_writes: Vec::new(),
            fan_count_calls: 0,
            fail_next_thermal: false,
            fail_fan_count: false,
            fail_fan_writes: false,
            readback_script: Vec::new(),
            gpu_policy: Some(GpuPlatformPolicy { ctgp: true, ppab: true, dstate: 1, slowdown_temp_c: 87 }),
            gpu_policy_writes: Vec::new(),
            gpu_policy_pin: None,
            power_limits_writes: Vec::new(),
            mux: Err(not_available()),
            mux_writes: Vec::new(),
            linked: false,
        }
    }

    fn read_levels(&mut self) -> FanLevels {
        if self.readback_script.len() > 1 {
            return self.readback_script.remove(0);
        }
        self.readback_script.first().copied().unwrap_or(self.fan_levels)
    }

    fn read_gpu(&self) -> Result<GpuPlatformPolicy, HpWmiError> {
        match (self.gpu_policy_pin, self.gpu_policy) {
            (Some(pin), _) => Ok(pin),
            (None, Some(p)) => Ok(p),
            (None, None) => Err(not_available()),
        }
    }
}

/// The operating system's processor settings.
#[derive(Clone, Copy)]
struct MockPpm {
    epp: (u8, u8),
    epp1: (u8, u8),
    max_freq: (u32, u32),
    boost: (BoostPolicy, BoostPolicy),
    min_perf: (u8, u8),
    max_perf: (u8, u8),
    /// A setting that refuses to be written.
    refuses: Option<Knob>,
}

impl MockPpm {
    fn new() -> MockPpm {
        MockPpm {
            epp: (50, 50),
            epp1: (50, 50),
            max_freq: (0, 0),
            boost: (BoostPolicy::Aggressive, BoostPolicy::Aggressive),
            min_perf: (0, 0),
            max_perf: (100, 100),
            refuses: None,
        }
    }
}

fn set_side<T: Copy>(refused: bool, pair: &mut (T, T), sides: (Option<T>, Option<T>)) -> KnobRun<T> {
    let before = *pair;
    if refused {
        return KnobRun { before: Ok(before), write: Err(PlatformError { what: "refused".to_string() }) };
    }
    if let Some(v) = sides.0 {
        pair.0 = v;
    }
    if let Some(v) = sides.1 {
        pair.1 = v;
    }
    KnobRun { before: Ok(before), write: Ok(Ok(*pair)) }
}

fn word(v: Option<KnobValue>) -> Option<u32> {
    v.map(|v| match v {
        KnobValue::Number(n) => n,
        KnobValue::Boost(_) => panic!("a number was expected"),
    })
}

fn byte(v: Option<KnobValue>) -> Option<u8> {
    word(v).map(|n| n as u8)
}

fn boost(v: Option<KnobValue>) -> Option<BoostPolicy> {
    v.map(|v| match v {
        KnobValue::Boost(b) => b,
        KnobValue::Number(_) => panic!("a boost policy was expected"),
    })
}

impl MockPpm {
    fn perform(&mut self, w: &KnobWrite) -> KnobResult {
        let bytes = || (byte(w.ac), byte(w.dc));
        let refused = self.refuses == Some(w.knob);
        match w.knob {
            Knob::Epp => KnobResult::Byte(set_side(refused, &mut self.epp, bytes())),
            Knob::Epp1 => KnobResult::Byte(set_side(refused, &mut self.epp1, bytes())),
            Knob::MaxFrequency => KnobResult::Word(set_side(refused, &mut self.max_freq, (word(w.ac), word(w.dc)))),
            Knob::MinPerformance => KnobResult::Byte(set_side(refused, &mut self.min_perf, bytes())),
            Knob::MaxPerformance => KnobResult::Byte(set_side(refused, &mut self.max_perf, bytes())),
            Knob::Boost => KnobResult::Boost(set_side(refused, &mut self.boost, (boost(w.ac), boost(w.dc)))),
        }
    }
}

fn caps_full() -> CapabilitySet {
    let mut c = CapabilitySet::default();
    c.known_board = true;
    c.thermal_mode = Support::Supported;
    c.fan_rpm_read = Support::Supported;
    c.fan_manual_level = Support::Supported;
    c.max_fan = Support::Supported;
    c.fan.scale = FanScale::Krpm;
    c.fan.clamp_min = Some(5);
    c.fan.clamp_max = Some(55);
    c.ppm.epp = Support::Supported;
    c.ppm.epp1 = Support::Supported;
    c.ppm.max_freq = Support::Supported;
    c.ppm.write_privileged = true;
    c.gpu_platform_policy = Support::Supported;
    c.power_limits = Support::Experimental;
    c
}

struct Setup {
    caps: CapabilitySet,
    experimental: bool,
    hp_present: bool,
    profiles: ProfileRegistry,
    verify_poll_interval: u64,
    keepalive_period: u64,
    safety_tick: u64,
    ledger: Option<RecoveryRecord>,
    mux: MuxLifecycle,
}

fn quiet_mux() -> MuxLifecycle {
    MuxLifecycle::open_with_boot(MuxLoaded::Missing, "8BAB", "F.21", None, Some("boot-1".to_string())).0
}

impl Setup {
    fn new() -> Setup {
        Setup {
            caps: caps_full(),
            experimental: false,
            hp_present: true,
            profiles: ProfileRegistry::empty(),
            verify_poll_interval: 5,
            keepalive_period: 120,
            safety_tick: 20,
            ledger: None,
            mux: quiet_mux(),
        }
    }
}

struct Rig {
    c: ControlCoordinator,
    hp: MockHp,
    ppm: MockPpm,
    now: u64,
    next_safety: u64,
    temp_milli: i64,
    /// Package temperature older than the clock by so much.
    temp_age: u64,
    power_mw: Option<(u64, u64)>,
    pl4_mw: Option<u64>,
    dispatcher: Dispatcher,
    journal: Vec<JournalEvent>,
    saved: Vec<RecoveryRecord>,
    saved_mux: Vec<MuxRecord>,
    fail_saves: bool,
}

impl Rig {
    fn with(setup: Setup, hp: MockHp) -> Rig {
        let ppm = MockPpm::new();
        let mut config =
            ControlConfig::new(setup.caps, setup.hp_present, "8BAB".to_string(), "F.21".to_string());
        config.experimental_power_limits = setup.experimental;
        config.profiles = setup.profiles;
        config.verify_poll_interval = setup.verify_poll_interval;
        config.keepalive_period = setup.keepalive_period;
        config.safety_tick = setup.safety_tick;
        let readings = StartReadings {
            windows_ppm: None,
            ppm: ppm_reads(&ppm),
            gpu_policy: hp.read_gpu().ok(),
            mux: hp.mux.clone().ok(),
            saved_curve: None,
            ledger: setup.ledger,
        };
        let now = 1_000_000;
        let c = ControlCoordinator::start(config, setup.mux, readings, now);
        Rig {
            c,
            hp,
            ppm,
            now,
            next_safety: now,
            temp_milli: 70_000,
            temp_age: 0,
            power_mw: Some((55_000, 130_000)),
            pl4_mw: None,
            dispatcher: Dispatcher::new(),
            journal: Vec::new(),
            saved: Vec::new(),
            saved_mux: Vec::new(),
            fail_saves: false,
        }
    }

    fn start() -> Rig {
        Rig::with(Setup::new(), MockHp::new())
    }

    fn start_with(hp: MockHp, profiles: ProfileRegistry) -> Rig {
        let mut setup = Setup::new();
        setup.profiles = profiles;
        Rig::with(setup, hp)
    }

    fn feed(&self) -> ThermalFeed {
        ThermalFeed {
            pkg_temp: Some(Sample { value: self.temp_milli, at: self.now - self.temp_age }),
            gpu_temp: None,
            fan_levels: Some(FanSample { levels: FanLevels::new(30, 30), at: self.now }),
            power_limits: self.power_mw.map(|p| PowerSample { pl1_mw: p.0, pl2_mw: p.1, at: self.now }),
            pl4: self.pl4_mw.map(|p| Pl4Sample { pl4_mw: p, at: self.now }),
        }
    }

    fn write(&mut self, w: HpWrite) -> Result<(), HpWmiError> {
        match w {
            HpWrite::Thermal(mode) => {
                self.hp.thermal_writes.push(mode);
                if self.hp.fail_next_thermal {
                    self.hp.fail_next_thermal = false;
                    return Err(HpWmiError::FirmwareReturnCode { code: 5 });
                }
            }
            HpWrite::FanLevels(levels) => {
                self.hp.fan_writes.push(levels);
                if self.hp.fail_fan_writes {
                    return Err(HpWmiError::Timeout);
                }
                self.hp.fan_levels = levels;
            }
            HpWrite::MaxFan(on) => self.hp.max_fan_writes.push(on),
            HpWrite::GpuPolicy(p) => {
                self.hp.gpu_policy_writes.push(p);
                self.hp.gpu_policy = Some(p);
            }
            HpWrite::PowerLimits(l) => {
                self.hp.power_limits_writes.push(l);
                if self.hp.linked {
                    self.power_mw = Some((l.pl1_w as u64 * 1000, l.pl2_w as u64 * 1000));
                    if l.pl4_w != 0 && self.pl4_mw.is_some() {
                        self.pl4_mw = Some(l.pl4_w as u64 * 1000);
                    }
                }
            }
            HpWrite::Mux(mode) => self.hp.mux_writes.push(mode),
        }
        Ok(())
    }

    fn readback(&mut self) -> Readback {
        // A millisecond passes before anything written can be read back.
        self.now += 1;
        Readback {
            fan: Some(FanSample { levels: self.hp.read_levels(), at: self.now }),
            gpu: self.hp.read_gpu().ok(),
        }
    }

    fn perform(&mut self, request: Request) -> Reply {
        match request {
            Request::SaveLedger(record) => {
                if self.fail_saves {
                    return Reply::Saved(Err(ControlError::BackendUnavailable {
                        what: Missing::RecoveryLedger { cause: "disk full".to_string() },
                    }));
                }
                self.saved.push(record);
                Reply::Saved(Ok(()))
            }
            Request::SaveMux(record) => {
                self.saved_mux.push(record);
                Reply::Saved(Ok(()))
            }
            Request::Write(w) => Reply::Written(self.write(w)),
            Request::CountFans => {
                self.hp.fan_count_calls += 1;
                Reply::Written(if self.hp.fail_fan_count { Err(HpWmiError::Timeout) } else { Ok(()) })
            }
            Request::ReadGpu => Reply::Gpu(self.hp.read_gpu()),
            Request::ReadMux => Reply::Mux(self.hp.mux.clone()),
            Request::ReadPpm => Reply::Ppm(None),
            Request::ApplyCpu(p) => {
                let mut run = CpuRun::start(p);
                while let Some(w) = run.next() {
                    run.record(self.ppm.perform(&w));
                }
                Reply::Cpu(run.finish(None))
            }
            Request::Poll { due } => {
                if due > self.now {
                    self.now = due;
                }
                Reply::Polled(self.readback())
            }
        }
    }

    fn tick(&mut self) {
        let mut steps = Vec::new();
        let mut scratch = Vec::new();
        let mut out = Vec::new();
        let feed = self.feed();
        match begin_tick(&mut self.c, &feed, self.now) {
            TickWork::Protect(action) => {
                let (mut run, mut request) =
                    ProtectRun::start(&mut self.c, &mut steps, &mut scratch, &mut out, action, self.now);
                while let Some(r) = request {
                    let reply = self.perform(r);
                    let feed = self.feed();
                    let turn = run.resume(
                        &mut self.c,
                        &mut steps,
                        &mut scratch,
                        &mut out,
                        reply,
                        &feed,
                        self.now,
                    );
                    run = turn.0;
                    request = turn.1;
                }
            }
            TickWork::Curve => {
                let (mut run, mut request) = CurveRun::start(&mut self.c, &mut scratch, &feed, self.now);
                while let Some(r) = request {
                    let reply = self.perform(r);
                    let feed = self.feed();
                    let turn = run.resume(&mut self.c, &mut scratch, &mut out, reply, &feed, self.now);
                    run = turn.0;
                    request = turn.1;
                }
            }
            TickWork::Rest => {}
        }
        end_tick(&mut self.c);
        if self.c.keepalive.is_due(self.now) {
            let (mut run, mut request) = HeartbeatRun::start(&mut self.c, self.now);
            while let Some(r) = request {
                let reply = self.perform(r);
                let feed = self.feed();
                request = run.resume(&mut self.c, &mut scratch, &mut out, reply, &feed, self.now);
            }
        }
        self.journal.append(&mut out);
        self.next_safety = self.now + self.c.safety_tick;
    }

    /// Lets time pass, with everything that falls due meanwhile.
    fn run_until(&mut self, until: u64) {
        loop {
            if tick_due(&self.c, self.next_safety, self.now) {
                self.tick();
            }
            if self.now >= until {
                return;
            }
            let wait = loop_wait(&self.c, self.next_safety, Some(until), self.now);
            self.now += wait.max(1);
        }
    }

    fn pass(&mut self, ms: u64) {
        self.run_until(self.now + ms);
    }

    fn drive(&mut self, mut plan: ActivePlan) -> ControlOutcome {
        let feed = self.feed();
        let mut progress = plan.advance(&mut self.c, &feed, self.now);
        loop {
            progress = match progress {
                PlanProgress::Ask(request) => {
                    let reply = self.perform(request);
                    let feed = self.feed();
                    let mut out = Vec::new();
                    let p = plan.resume(&mut self.c, &mut out, reply, &feed, self.now);
                    self.journal.append(&mut out);
                    p
                }
                PlanProgress::Wait { due } => {
                    self.run_until(due);
                    let read = self.readback();
                    let feed = self.feed();
                    plan.polled(&mut self.c, &read, &feed, self.now)
                }
                PlanProgress::More => {
                    let feed = self.feed();
                    plan.advance(&mut self.c, &feed, self.now)
                }
                PlanProgress::Done(outcome) => return outcome,
            };
        }
    }

    fn begin(&mut self, receipt: ControlReceipt, cmd: ControlCommand) -> Result<ActivePlan, ControlOutcome> {
        let needs = scope_needs(&self.c, &cmd);
        let unread = || PlatformError { what: "not read".to_string() };
        let reads = ScopeReads {
            epp: if needs.epp { Ok(self.ppm.epp) } else { Err(unread()) },
            epp1: if needs.epp1 { Ok(self.ppm.epp1) } else { Err(unread()) },
            max_freq: if needs.max_freq { Ok(self.ppm.max_freq) } else { Err(unread()) },
            min_performance: if needs.min_performance { Ok(self.ppm.min_perf) } else { Err(unread()) },
            max_performance: if needs.max_performance { Ok(self.ppm.max_perf) } else { Err(unread()) },
            boost: if needs.boost { Ok(self.ppm.boost) } else { Err(unread()) },
            gpu: if needs.gpu { self.hp.read_gpu() } else { Err(not_available()) },
        };
        let feed = self.feed();
        match begin_plan(&mut self.c, receipt, cmd, &reads, None, &feed, self.now, self.now) {
            Begun::Answered(outcome) => Err(outcome),
            Begun::Rejected(outcome) => {
                self.journal.push(JournalEvent { origin: JournalOrigin::User, outcome: outcome.clone() });
                Err(outcome)
            }
            Begun::Started(plan) => Ok(plan),
            Begun::Saving(plan, record) => {
                let Reply::Saved(result) = self.perform(Request::SaveLedger(record)) else {
                    unreachable!()
                };
                scope_saved(&mut self.c, plan, result, self.now)
            }
        }
    }

    fn block(&mut self, cmd: ControlCommand) -> ControlOutcome {
        let receipt = self.dispatcher.dispatch(&cmd, QueueState::Open).unwrap();
        match self.begin(receipt, cmd) {
            Err(outcome) => outcome,
            Ok(plan) => {
                let outcome = self.drive(plan);
                self.journal.push(JournalEvent { origin: JournalOrigin::User, outcome: outcome.clone() });
                outcome
            }
        }
    }

    fn refresh_observed(&mut self) {
        let gpu = self.hp.read_gpu().ok();
        let reads = ppm_reads(&self.ppm);
        self.c.refresh_observed(None, &reads, gpu, self.now);
        self.c.reconcile_profile();
    }

    fn shutdown(&mut self) -> ControlStatus {
        let mut steps = Vec::new();
        let mut out = Vec::new();
        let (mut run, mut progress) = RestoreRun::start(&mut self.c, JournalOrigin::Shutdown, self.now);
        loop {
            progress = match progress {
                Progress::Ask(request) => {
                    let reply = self.perform(request);
                    let feed = self.feed();
                    let turn = run.resume(&mut self.c, &mut steps, &mut out, reply, &feed, self.now);
                    run = turn.0;
                    turn.1
                }
                Progress::Done(status) | Progress::HandBack(status) => {
                    self.journal.append(&mut out);
                    return status;
                }
            };
        }
    }

    fn journaled(&self, origin: JournalOrigin) -> bool {
        self.journal.iter().any(|e| e.origin == origin)
    }
}

fn ppm_reads(ppm: &MockPpm) -> PpmReads {
    PpmReads {
        epp: Some(ppm.epp),
        epp1: Some(ppm.epp1),
        max_freq_mhz: Some(ppm.max_freq),
        boost_policy: Some(ppm.boost),
        min_performance: Some(ppm.min_perf),
        max_performance: Some(ppm.max_perf),
    }
}

fn is_verified(o: &ControlOutcome) -> bool {
    matches!(o.status, ControlStatus::Applied { verification: Verification::Verified })
}

fn is_trusted(o: &ControlOutcome) -> bool {
    matches!(o.status, ControlStatus::Applied { verification: Verification::TrustedNoReadback })
}

fn is_failed(o: &ControlOutcome) -> bool {
    matches!(o.status, ControlStatus::Applied { verification: Verification::Failed { .. } })
}

fn thermal(mode: ThermalMode) -> ControlCommand {
    ControlCommand::SetThermalMode(mode)
}

fn fan(mode: FanMode) -> ControlCommand {
    ControlCommand::SetFanMode(mode)
}

fn manual(left: u16, right: u16) -> ControlCommand {
    fan(FanMode::Manual(FanLevels::new(left, right)))
}

fn registry_with(name: &str, p: PerformanceProfile) -> ProfileRegistry {
    let mut r = ProfileRegistry::empty();
    r.insert(name, p);
    r
}

fn apply(name: &str) -> ControlCommand {
    ControlCommand::ApplyProfile { profile: name.to_string() }
}

fn gpu_patch(ctgp: Option<bool>) -> GpuPolicyPatch {
    let mut p = GpuPolicyPatch::default();
    p.ctgp = ctgp;
    p
}

#[test]
fn fifo_order_and_receipts() {
    let mut rig = Rig::start();
    let o1 = rig.block(thermal(ThermalMode::Performance));
    let o2 = rig.block(thermal(ThermalMode::Balanced));
    let o3 = rig.block(fan(FanMode::Max));
    assert_eq!(o1.receipt, ControlReceipt(1));
    assert_eq!(o2.receipt, ControlReceipt(2));
    assert_eq!(o3.receipt, ControlReceipt(3));
    assert!(matches!(o1.status, ControlStatus::Applied { .. }));
    assert_eq!(rig.c.observed.fan_mode.value(), Some(&FanMode::Max));
    rig.shutdown();
}

#[test]
fn manual_fan_happy_path_verified() {
    let mut rig = Rig::start();
    rig.hp.readback_script = vec![FanLevels::new(12, 12), FanLevels::new(30, 30)];
    let o = rig.block(manual(30, 30));
    assert!(is_verified(&o));
    assert_eq!(rig.hp.fan_writes, vec![FanLevels::new(30, 30)]);
    assert!(rig.c.observed.fan_mode.is_verified());
    assert_eq!(rig.c.observed.fan_mode.value(), Some(&FanMode::Manual(FanLevels::new(30, 30))));
    assert!(rig.journaled(JournalOrigin::User));
    assert!(!o.steps.is_empty());
    rig.shutdown();
}

#[test]
fn max_fan_preserves_manual_target_without_auto_reset() {
    let mut rig = Rig::start();
    let target = FanLevels::new(30, 30);
    rig.hp.readback_script = vec![target];
    assert!(is_verified(&rig.block(manual(30, 30))));
    let fan_writes_before_max = rig.hp.fan_writes.len();
    let max = rig.block(fan(FanMode::Max));
    assert!(is_trusted(&max));
    assert_eq!(rig.hp.fan_writes.len(), fan_writes_before_max);
    assert_eq!(rig.hp.max_fan_writes, vec![true]);
    assert_eq!(rig.c.observed.fan_mode.value(), Some(&FanMode::Max));
    rig.shutdown();
}

#[test]
fn max_fan_switches_directly_to_manual() {
    let mut rig = Rig::start();
    rig.block(fan(FanMode::Max));
    let target = FanLevels::new(30, 30);
    rig.hp.readback_script = vec![target];
    let outcome = rig.block(manual(30, 30));
    assert!(is_verified(&outcome));
    assert_eq!(rig.hp.max_fan_writes, vec![true, false]);
    assert_eq!(rig.c.observed.fan_mode.value(), Some(&FanMode::Manual(target)));
    rig.shutdown();
}

fn some_curve() -> FanCurve {
    FanCurve::new([
        FanCurvePoint::new(45, 22, 22),
        FanCurvePoint::new(60, 30, 30),
        FanCurvePoint::new(75, 42, 42),
        FanCurvePoint::new(88, 55, 55),
    ])
}

#[test]
fn fan_curve_activation_writes_one_initial_target_without_blocking_readback() {
    let mut rig = Rig::start();
    let curve = some_curve();
    let expected = curve.target_at(70_000);
    assert_eq!(expected, FanLevels::new(38, 38));
    let o = rig.block(fan(FanMode::Curve(curve)));
    assert!(is_trusted(&o));
    assert_eq!(rig.hp.fan_writes, vec![expected]);
    assert_eq!(rig.c.observed.fan_mode.value(), Some(&FanMode::Curve(curve)));
    assert_eq!(rig.c.last_saved_fan_curve, Some(curve));
    rig.shutdown();
}

#[test]
fn verification_failure_records_actual() {
    let mut rig = Rig::start();
    rig.hp.readback_script = vec![FanLevels::new(10, 10)];
    let o = rig.block(manual(50, 50));
    let ControlStatus::Applied { verification } = o.status else {
        panic!("expected Applied, got {:?}", o.status);
    };
    let Verification::Failed { expected, actual } = verification else {
        panic!("expected Failed");
    };
    assert!(expected.text().contains("50"));
    assert!(actual.text().contains("10"));
    assert!(!rig.c.observed.fan_mode.is_verified());
    assert!(rig.c.observed.fan_mode.value().is_some());
    rig.shutdown();
}

#[test]
fn firmware_rejection_leaves_state_untouched() {
    let mut rig = Rig::start();
    rig.hp.fail_next_thermal = true;
    let o = rig.block(thermal(ThermalMode::Performance));
    let ControlStatus::Rejected { error } = o.status else {
        panic!("expected Rejected, got {:?}", o.status);
    };
    assert!(matches!(error, ControlError::FirmwareRejected { .. }));
    assert!(rig.c.observed.thermal_mode.value().is_none());
    assert!(rig.c.desired.thermal_mode.is_none());
    rig.shutdown();
}

#[test]
fn keepalive_reasserts_tracked_writes() {
    let mut rig = Rig::start();
    rig.block(thermal(ThermalMode::Performance));
    let writes_before = rig.hp.thermal_writes.len();
    let beats_before = rig.hp.fan_count_calls;
    rig.pass(400);
    let beats = rig.hp.fan_count_calls - beats_before;
    let reasserts = rig.hp.thermal_writes.len() - writes_before;
    assert!(beats >= 2, "expected >=2 heartbeats, got {beats}");
    assert!(reasserts >= 2, "expected >=2 thermal re-assertions, got {reasserts}");
    rig.shutdown();
}

#[test]
fn restore_auto_on_shutdown() {
    let mut rig = Rig::start();
    rig.block(fan(FanMode::Max));
    rig.block(thermal(ThermalMode::Performance));
    rig.shutdown();
    assert!(rig.hp.fan_writes.contains(&FanLevels::auto()));
    assert!(rig.hp.max_fan_writes.contains(&false));
    assert_eq!(rig.hp.thermal_writes.last(), Some(&ThermalMode::Balanced));
    assert!(rig.journaled(JournalOrigin::Shutdown));
}

#[test]
fn read_only_shutdown_does_not_touch_fan_or_thermal_registers() {
    let mut rig = Rig::start();
    rig.shutdown();
    assert!(rig.hp.fan_writes.is_empty());
    assert!(rig.hp.max_fan_writes.is_empty());
    assert!(rig.hp.thermal_writes.is_empty());
    assert!(!rig.journaled(JournalOrigin::Shutdown));
}

#[test]
fn queue_full_reports_busy() {
    let mut rig = Rig::start();
    rig.hp.readback_script = vec![FanLevels::new(10, 10)];
    let r1 = rig.dispatcher.dispatch(&manual(50, 50), QueueState::Open).unwrap();
    assert_eq!(r1, ControlReceipt(1));
    let plan = rig.begin(r1, manual(50, 50));
    assert!(plan.is_ok());
    let mut busy = false;
    let mut queued = 0;
    for _ in 0..(QUEUE_DEPTH + 4) {
        match decide_admission(RequestKind::Dispatch, true, queued) {
            Admission::Queue => queued += 1,
            Admission::AnswerBusy => busy = true,
            other => panic!("unexpected admission {other:?}"),
        }
    }
    assert!(busy, "queue never reported Busy");
    assert_eq!(queued, QUEUE_DEPTH);
    assert_eq!(
        rig.dispatcher.dispatch(&fan(FanMode::Max), QueueState::Full),
        Err(ControlError::Busy)
    );
    rig.shutdown();
}

#[test]
fn empty_cpu_policy_is_noop_applied() {
    let mut rig = Rig::start();
    let o = rig.block(ControlCommand::SetCpuPolicy(CpuPolicy::default()));
    assert!(matches!(o.status, ControlStatus::Applied { verification: Verification::Skipped }));
    rig.shutdown();
}

#[test]
fn epp_write_readback_verified() {
    let mut rig = Rig::start();
    let mut p = CpuPolicy::default();
    p.epp_ac = Some(20);
    let o = rig.block(ControlCommand::SetCpuPolicy(p));
    assert!(is_verified(&o));
    assert_eq!(rig.c.observed.epp_ac.value(), Some(&20));
    assert!(rig.c.observed.epp_ac.is_verified());
    rig.shutdown();
}

#[test]
fn epp1_write_readback_verified() {
    let mut rig = Rig::start();
    let mut p = CpuPolicy::default();
    p.epp1_ac = Some(30);
    p.epp1_dc = Some(50);
    let o = rig.block(ControlCommand::SetCpuPolicy(p));
    assert!(is_verified(&o));
    assert_eq!(rig.c.observed.epp1_ac.value(), Some(&30));
    assert_eq!(rig.c.observed.epp1_dc.value(), Some(&50));
    assert!(rig.c.observed.epp1_ac.is_verified());
    rig.shutdown();
}

#[test]
fn cpu_policy_bounds_and_boost_keep_ac_dc_independent() {
    let mut rig = Rig::start();
    let mut p = CpuPolicy::default();
    p.min_performance_ac = Some(20);
    p.max_performance_dc = Some(80);
    p.boost_policy_ac = Some(BoostPolicy::EfficientAggressive);
    let o = rig.block(ControlCommand::SetCpuPolicy(p));
    assert!(is_verified(&o));
    let observed = &rig.c.observed;
    assert_eq!(observed.min_performance_ac.value(), Some(&20));
    assert_eq!(observed.min_performance_dc.value(), Some(&0));
    assert_eq!(observed.max_performance_ac.value(), Some(&100));
    assert_eq!(observed.max_performance_dc.value(), Some(&80));
    assert_eq!(observed.boost_ac.value(), Some(&BoostPolicy::EfficientAggressive));
    assert_eq!(observed.boost_dc.value(), Some(&BoostPolicy::Aggressive));
    rig.shutdown();
}

#[test]
fn performance_bounds_are_taken_as_they_come() {
    let mut rig = Rig::start();
    let mut p = CpuPolicy::default();
    p.min_performance_ac = Some(150);
    let o = rig.block(ControlCommand::SetCpuPolicy(p));
    assert!(is_verified(&o));
    assert_eq!(rig.ppm.min_perf, (150, 0));
    rig.shutdown();
}

#[test]
fn writes_of_a_policy_have_a_fixed_order() {
    let mut p = CpuPolicy::default();
    p.boost_policy_dc = Some(BoostPolicy::Disabled);
    p.max_performance_ac = Some(90);
    p.max_freq_mhz_ac = Some(3000);
    p.max_freq_mhz_dc = Some(0);
    p.epp1_dc = Some(70);
    assert_eq!(
        cpu_writes(&p),
        vec![
            KnobWrite { knob: Knob::Epp1, ac: None, dc: Some(KnobValue::Number(70)) },
            KnobWrite {
                knob: Knob::MaxFrequency,
                ac: Some(KnobValue::Number(3000)),
                dc: Some(KnobValue::Number(0))
            },
            KnobWrite { knob: Knob::MaxPerformance, ac: Some(KnobValue::Number(90)), dc: None },
            KnobWrite { knob: Knob::Boost, ac: None, dc: Some(KnobValue::Boost(BoostPolicy::Disabled)) },
        ]
    );
    assert_eq!(cpu_writes(&CpuPolicy::default()), Vec::<KnobWrite>::new());
}

#[test]
fn settings_behind_a_refused_one_are_still_written() {
    let mut rig = Rig::start();
    rig.ppm.refuses = Some(Knob::Epp);
    let mut p = CpuPolicy::default();
    p.epp_ac = Some(20);
    p.max_freq_mhz_ac = Some(3000);
    p.boost_policy = Some(BoostPolicy::Disabled);
    let o = rig.block(ControlCommand::SetCpuPolicy(p));
    assert_eq!(o.status, ControlStatus::Partial);
    let steps: Vec<&Step> = o.steps.iter().map(|s| &s.step).collect();
    assert_eq!(
        steps,
        vec![
            &Step::WriteKnob(Knob::Epp),
            &Step::WriteKnob(Knob::MaxFrequency),
            &Step::WriteKnob(Knob::Boost)
        ]
    );
    assert_eq!(rig.ppm.epp, (50, 50));
    assert_eq!(rig.ppm.max_freq, (3000, 0));
    assert_eq!(rig.ppm.boost, (BoostPolicy::Disabled, BoostPolicy::Disabled));
    rig.shutdown();
}

#[test]
fn only_what_a_session_replaces_is_read() {
    let mut rig = Rig::start();
    let mut p = CpuPolicy::default();
    p.epp_ac = Some(20);
    let needs = scope_needs(&rig.c, &ControlCommand::SetCpuPolicy(p));
    assert!(!needs.epp && !needs.gpu && !needs.scheme);
    let unknown = ControlCommand::ApplyScopedProfile { profile: "none".to_string(), session_id: 1 };
    assert!(!scope_needs(&rig.c, &unknown).scheme);
    rig.shutdown();
}

#[test]
fn rejected_outcome_tells_how_long_it_took() {
    let mut rig = Rig::start();
    let reads = ScopeReads {
        epp: Ok((0, 0)),
        epp1: Ok((0, 0)),
        max_freq: Ok((0, 0)),
        min_performance: Ok((0, 0)),
        max_performance: Ok((0, 0)),
        boost: Ok((BoostPolicy::Disabled, BoostPolicy::Disabled)),
        gpu: Err(not_available()),
    };
    let cmd = ControlCommand::ApplyProfile { profile: "none".to_string() };
    let feed = rig.feed();
    match begin_plan(&mut rig.c, ControlReceipt(7), cmd, &reads, None, &feed, 100, 142) {
        Begun::Rejected(o) => assert_eq!(o.duration, 42),
        _ => panic!("an unknown profile is rejected"),
    }
    rig.shutdown();
}

#[test]
fn gpu_policy_write_readback_verified() {
    let mut rig = Rig::start();
    let target = GpuPlatformPolicy { ctgp: false, ppab: true, dstate: 2, slowdown_temp_c: 87 };
    let o = rig.block(ControlCommand::SetGpuPlatformPolicy(target));
    assert!(is_verified(&o));
    assert_eq!(rig.c.observed.gpu_platform_policy.value(), Some(&target));
    assert!(rig.c.observed.gpu_platform_policy.is_verified());
    assert_eq!(rig.hp.gpu_policy_writes, vec![target]);
    rig.shutdown();
}

#[test]
fn gpu_policy_readback_mismatch_is_honest_failure() {
    let mut rig = Rig::start();
    rig.hp.gpu_policy_pin = rig.hp.gpu_policy;
    let target = GpuPlatformPolicy { ctgp: false, ppab: false, dstate: 3, slowdown_temp_c: 87 };
    let o = rig.block(ControlCommand::SetGpuPlatformPolicy(target));
    assert!(is_failed(&o));
    assert_eq!(rig.c.observed.gpu_platform_policy.value(), Some(&target));
    assert!(!rig.c.observed.gpu_platform_policy.is_verified());
    rig.shutdown();
}

#[test]
fn gpu_policy_patch_merges_over_fresh_read() {
    let mut rig = Rig::start();
    rig.hp.gpu_policy = Some(GpuPlatformPolicy { ctgp: true, ppab: false, dstate: 3, slowdown_temp_c: 0 });
    let o = rig.block(ControlCommand::SetGpuPlatformPolicyPatch(gpu_patch(Some(false))));
    assert!(is_verified(&o));
    let merged = GpuPlatformPolicy { ctgp: false, ppab: false, dstate: 3, slowdown_temp_c: 0 };
    assert_eq!(rig.hp.gpu_policy_writes, vec![merged]);
    assert_eq!(rig.c.observed.gpu_platform_policy.value(), Some(&merged));
    assert!(rig.c.observed.gpu_platform_policy.is_verified());
    assert_eq!(rig.c.desired.gpu_platform_policy, Some(merged));
    rig.shutdown();
}

#[test]
fn gpu_policy_patch_empty_rejected_pre_write() {
    let mut rig = Rig::start();
    let o = rig.block(ControlCommand::SetGpuPlatformPolicyPatch(GpuPolicyPatch::default()));
    assert!(matches!(o.status, ControlStatus::Rejected { .. }));
    assert!(rig.hp.gpu_policy_writes.is_empty());
    rig.shutdown();
}

#[test]
fn refresh_observed_restamps_drifted_readbacks() {
    let mut rig = Rig::start();
    let drifted = GpuPlatformPolicy { ctgp: false, ppab: false, dstate: 3, slowdown_temp_c: 0 };
    rig.hp.gpu_policy_pin = Some(drifted);
    rig.refresh_observed();
    assert_eq!(rig.c.observed.gpu_platform_policy.value(), Some(&drifted));
    assert!(rig.c.observed.gpu_platform_policy.is_verified());
    assert!(rig.hp.gpu_policy_writes.is_empty());
    assert!(rig.journal.is_empty());
    rig.shutdown();
}

#[test]
fn shutdown_restores_startup_gpu_policy() {
    let mut rig = Rig::start();
    let startup = rig.hp.gpu_policy;
    let target = GpuPlatformPolicy { ctgp: false, ppab: true, dstate: 2, slowdown_temp_c: 87 };
    let o = rig.block(ControlCommand::SetGpuPlatformPolicy(target));
    assert!(is_verified(&o));
    rig.shutdown();
    assert_eq!(rig.hp.gpu_policy_writes.len(), 2);
    assert_eq!(rig.hp.gpu_policy_writes[1], startup.unwrap());
}

fn pl(pl1: u8, pl2: u8) -> CpuPowerLimits {
    CpuPowerLimits { pl1_w: pl1, pl2_w: pl2, pl4_w: 0, cpu_gpu_concurrent_w: 0 }
}

fn pl4(pl1: u8, pl2: u8, pl4: u8) -> CpuPowerLimits {
    CpuPowerLimits { pl4_w: pl4, ..pl(pl1, pl2) }
}

fn start_pl_rig(linked: bool, has_pl4: bool) -> Rig {
    let mut setup = Setup::new();
    setup.experimental = true;
    let mut hp = MockHp::new();
    hp.linked = linked;
    let mut rig = Rig::with(setup, hp);
    rig.pl4_mw = if has_pl4 { Some(200_000) } else { None };
    rig
}

#[test]
fn power_limits_write_verified_via_0610_feed() {
    let mut rig = start_pl_rig(true, true);
    let o = rig.block(ControlCommand::SetPowerLimits(pl(45, 90)));
    assert!(is_verified(&o));
    assert_eq!(rig.c.observed.power_limits.value(), Some(&pl(45, 90)));
    assert!(rig.c.observed.power_limits.is_verified());
    assert_eq!(rig.hp.power_limits_writes, vec![pl(45, 90)]);
    rig.shutdown();
}

#[test]
fn power_limits_no_convergence_is_honest_failure() {
    let mut rig = start_pl_rig(false, true);
    let o = rig.block(ControlCommand::SetPowerLimits(pl(45, 90)));
    assert!(is_failed(&o));
    assert_eq!(rig.c.observed.power_limits.value(), Some(&pl(45, 90)));
    assert!(!rig.c.observed.power_limits.is_verified());
    rig.shutdown();
    assert_eq!(rig.hp.power_limits_writes.len(), 2);
    assert_eq!(rig.hp.power_limits_writes[1], pl4(55, 130, 200));
}

#[test]
fn shutdown_restores_power_limits_baseline() {
    let mut rig = start_pl_rig(true, true);
    let o = rig.block(ControlCommand::SetPowerLimits(pl(45, 90)));
    assert!(is_verified(&o));
    rig.shutdown();
    assert_eq!(rig.hp.power_limits_writes.len(), 2);
    assert_eq!(rig.hp.power_limits_writes[1], pl4(55, 130, 200));
    assert_eq!(rig.power_mw, Some((55_000, 130_000)));
    assert_eq!(rig.pl4_mw, Some(200_000));
}

#[test]
fn keepalive_reasserts_power_limits() {
    let mut rig = start_pl_rig(true, true);
    let o = rig.block(ControlCommand::SetPowerLimits(pl(45, 90)));
    assert!(is_verified(&o));
    rig.pass(400);
    let n = rig.hp.power_limits_writes.len();
    rig.shutdown();
    assert!(n >= 2, "expected keepalive re-asserts, got {n} writes");
}

#[test]
fn power_limits_pl4_write_verified_via_mchbar_feed() {
    let mut rig = start_pl_rig(true, true);
    let o = rig.block(ControlCommand::SetPowerLimits(pl4(45, 90, 150)));
    assert!(is_verified(&o));
    assert_eq!(rig.c.observed.power_limits.value(), Some(&pl4(45, 90, 150)));
    assert!(rig.c.observed.power_limits.is_verified());
    assert_eq!(rig.hp.power_limits_writes, vec![pl4(45, 90, 150)]);
    rig.pass(400);
    let n = rig.hp.power_limits_writes.len();
    let last = rig.hp.power_limits_writes.last().copied();
    rig.shutdown();
    assert!(n >= 2, "expected keepalive re-asserts, got {n} writes");
    assert_eq!(last, Some(pl4(45, 90, 150)));
    assert_eq!(rig.hp.power_limits_writes.last(), Some(&pl4(55, 130, 200)));
    assert_eq!(rig.power_mw, Some((55_000, 130_000)));
    assert_eq!(rig.pl4_mw, Some(200_000));
}

#[test]
fn power_limits_pl4_without_mchbar_feed_rejected_pre_write() {
    let mut rig = start_pl_rig(true, false);
    let o = rig.block(ControlCommand::SetPowerLimits(pl4(45, 90, 150)));
    assert!(matches!(
        o.status,
        ControlStatus::Rejected { error: ControlError::UnsafeRequest { .. } }
    ));
    rig.shutdown();
    assert!(rig.hp.power_limits_writes.is_empty());
}

#[test]
fn power_limits_rejected_when_readback_feed_absent() {
    let mut rig = start_pl_rig(true, false);
    rig.power_mw = None;
    let o = rig.block(ControlCommand::SetPowerLimits(pl(45, 90)));
    assert!(matches!(
        o.status,
        ControlStatus::Rejected { error: ControlError::UnsafeRequest { .. } }
    ));
    rig.shutdown();
    assert!(rig.hp.power_limits_writes.is_empty());
}

#[test]
fn shutdown_restore_leaves_pl4_untouched_when_baseline_unknown() {
    let mut rig = start_pl_rig(true, false);
    let o = rig.block(ControlCommand::SetPowerLimits(pl(45, 90)));
    assert!(is_verified(&o));
    rig.shutdown();
    assert_eq!(rig.hp.power_limits_writes.len(), 2);
    assert_eq!(rig.hp.power_limits_writes[1], pl(55, 130));
}

#[test]
fn hysteresis_release_clears_max_fan_first() {
    let mut rig = Rig::start();
    rig.hp.readback_script = vec![FanLevels::new(20, 20)];
    let o = rig.block(manual(20, 20));
    assert!(matches!(o.status, ControlStatus::Applied { .. }));
    rig.temp_milli = 92_000;
    rig.pass(300);
    assert!(rig.hp.max_fan_writes.contains(&true), "ForceMaxFan never wrote 0x27-on");
    rig.temp_milli = 80_000;
    rig.pass(400);
    let writes = &rig.hp.max_fan_writes;
    let on = writes.iter().position(|w| *w).expect("0x27-on missing");
    let off_after = writes.iter().skip(on + 1).any(|w| !*w);
    assert!(off_after, "release never wrote 0x27-off (writes: {writes:?})");
    assert_eq!(rig.c.observed.max_fan.value(), Some(&false));
    assert!(rig
        .journal
        .iter()
        .any(|e| e.outcome.steps.iter().any(|s| s.step.label().contains("SAFETY max-fan off"))));
    rig.shutdown();
}

#[test]
fn hysteresis_release_restores_max_user_mode() {
    let mut rig = Rig::start();
    let o = rig.block(fan(FanMode::Max));
    assert!(matches!(o.status, ControlStatus::Applied { .. }));
    assert_eq!(rig.c.observed.fan_mode.value(), Some(&FanMode::Max));
    rig.temp_milli = 92_000;
    rig.pass(300);
    rig.temp_milli = 80_000;
    rig.pass(400);
    let writes = &rig.hp.max_fan_writes;
    let first_on = writes.iter().position(|w| *w).expect("0x27-on missing");
    assert!(writes.iter().skip(first_on + 1).all(|on| *on), "off → on detour: {writes:?}");
    assert_eq!(rig.c.observed.fan_mode.value(), Some(&FanMode::Max));
    assert_eq!(rig.c.observed.max_fan.value(), Some(&true));
    rig.shutdown();
}

#[test]
fn profile_apply_expands_and_runs_all_steps_in_order() {
    let mut p = PerformanceProfile::default();
    p.cpu.epp_ac = Some(33);
    p.gpu_policy = Some(gpu_patch(Some(false)));
    p.thermal_mode = Some(ThermalMode::Performance);
    p.fan = Some(FanMode::Max);
    let mut rig = Rig::start_with(MockHp::new(), registry_with("mix", p));
    let o = rig.block(apply("mix"));
    assert!(is_trusted(&o));
    let step_names: Vec<&str> = o.steps.iter().map(|s| s.step.label()).collect();
    let pos = |needle: &str| {
        step_names
            .iter()
            .position(|s| s.contains(needle))
            .unwrap_or_else(|| panic!("step '{needle}' missing: {step_names:?}"))
    };
    assert!(pos("EPP") < pos("gpu policy (0x21)"));
    assert!(pos("gpu policy (0x21)") < pos("set_thermal_mode"));
    assert!(pos("set_thermal_mode") < step_names.len() - 1);
    assert_eq!(rig.hp.thermal_writes, vec![ThermalMode::Performance]);
    assert_eq!(rig.hp.max_fan_writes, vec![true]);
    assert_eq!(rig.hp.gpu_policy_writes.len(), 1);
    assert!(!rig.hp.gpu_policy_writes[0].ctgp, "patch must merge over live 0x21");
    assert!(rig.hp.gpu_policy_writes[0].ppab, "unset fields preserve live 0x21");
    assert_eq!(rig.c.observed.epp_ac.value(), Some(&33));
    assert_eq!(rig.c.observed.max_fan.value(), Some(&true));
    assert_eq!(rig.c.desired.profile.as_deref(), Some("mix"));
    rig.shutdown();
}

#[test]
fn profile_unknown_name_rejects_without_writes() {
    let mut rig = Rig::start();
    let o = rig.block(apply("nope"));
    assert!(matches!(
        o.status,
        ControlStatus::Rejected { error: ControlError::UnknownProfile { .. } }
    ));
    assert!(rig.hp.thermal_writes.is_empty() && rig.hp.max_fan_writes.is_empty());
    rig.shutdown();
}

#[test]
fn profile_partial_failure_stops_at_failing_step() {
    let mut hp = MockHp::new();
    hp.fail_next_thermal = true;
    let mut p = PerformanceProfile::default();
    p.cpu.epp_ac = Some(21);
    p.thermal_mode = Some(ThermalMode::Performance);
    p.fan = Some(FanMode::Max);
    let mut rig = Rig::start_with(hp, registry_with("boom", p));
    let o = rig.block(apply("boom"));
    assert!(matches!(o.status, ControlStatus::Partial));
    assert!(rig.hp.max_fan_writes.is_empty(), "steps after the failure must not run");
    assert_eq!(rig.c.observed.epp_ac.value(), Some(&21));
    assert_eq!(rig.c.desired.profile, None);
    rig.shutdown();
}

#[test]
fn profile_verification_failure_stops_later_writes() {
    let mut hp = MockHp::new();
    let startup = hp.gpu_policy.unwrap();
    hp.gpu_policy_pin = Some(startup);
    let mut p = PerformanceProfile::default();
    p.gpu_policy = Some(gpu_patch(Some(!startup.ctgp)));
    p.thermal_mode = Some(ThermalMode::Performance);
    p.fan = Some(FanMode::Max);
    let mut rig = Rig::start_with(hp, registry_with("drift", p));
    let outcome = rig.block(apply("drift"));
    assert!(matches!(outcome.status, ControlStatus::Partial));
    assert_eq!(rig.hp.gpu_policy_writes.len(), 1);
    assert!(rig.hp.thermal_writes.is_empty());
    assert!(rig.hp.max_fan_writes.is_empty());
    assert_eq!(rig.c.desired.profile, None);
    rig.shutdown();
}

#[test]
fn profile_field_failing_safety_rejects_whole_pre_write() {
    let mut p = PerformanceProfile::default();
    p.cpu.epp_ac = Some(101);
    p.thermal_mode = Some(ThermalMode::Performance);
    let mut rig = Rig::start_with(MockHp::new(), registry_with("bad", p));
    let o = rig.block(apply("bad"));
    assert!(matches!(
        o.status,
        ControlStatus::Rejected { error: ControlError::UnsafeRequest { .. } }
    ));
    assert!(o.steps.is_empty(), "rejected pre-write: no steps may run");
    assert!(rig.hp.thermal_writes.is_empty());
    rig.shutdown();
}

fn thermal_profile() -> PerformanceProfile {
    let mut p = PerformanceProfile::default();
    p.thermal_mode = Some(ThermalMode::Performance);
    p
}

#[test]
fn direct_knob_change_clears_profile_stamp() {
    let mut rig = Rig::start_with(MockHp::new(), registry_with("t", thermal_profile()));
    rig.block(apply("t"));
    assert_eq!(rig.c.desired.profile.as_deref(), Some("t"));
    rig.block(thermal(ThermalMode::Balanced));
    assert_eq!(rig.c.desired.profile, None);
    rig.shutdown();
}

#[test]
fn single_step_profile_failed_verification_not_stamped() {
    let mut hp = MockHp::new();
    let startup = hp.gpu_policy.unwrap();
    hp.gpu_policy_pin = Some(startup);
    let mut p = PerformanceProfile::default();
    p.gpu_policy = Some(gpu_patch(Some(!startup.ctgp)));
    let mut rig = Rig::start_with(hp, registry_with("solo", p));
    let o = rig.block(apply("solo"));
    assert!(is_failed(&o));
    assert_eq!(rig.c.desired.profile, None);
    rig.shutdown();
}

#[test]
fn direct_command_failed_verification_clears_stamp_and_records_intent() {
    let mut rig = Rig::start_with(MockHp::new(), registry_with("t", thermal_profile()));
    rig.block(apply("t"));
    assert_eq!(rig.c.desired.profile.as_deref(), Some("t"));
    let startup = rig.hp.gpu_policy.unwrap();
    rig.hp.gpu_policy_pin = Some(startup);
    let target = GpuPlatformPolicy { ctgp: !startup.ctgp, ..startup };
    let o = rig.block(ControlCommand::SetGpuPlatformPolicy(target));
    assert!(is_failed(&o));
    assert_eq!(rig.c.desired.profile, None);
    assert_eq!(rig.c.desired.gpu_platform_policy, Some(target));
    rig.shutdown();
}

#[test]
fn gpu_policy_patch_tolerates_dstate_drift_when_not_requested() {
    let mut rig = Rig::start();
    let startup = rig.hp.gpu_policy.unwrap();
    rig.hp.gpu_policy_pin = Some(GpuPlatformPolicy { ctgp: !startup.ctgp, dstate: 3, ..startup });
    let o = rig.block(ControlCommand::SetGpuPlatformPolicyPatch(gpu_patch(Some(!startup.ctgp))));
    assert!(is_verified(&o));
    rig.shutdown();
}

#[test]
fn gpu_policy_full_struct_dstate_stays_strict() {
    let mut rig = Rig::start();
    let startup = rig.hp.gpu_policy.unwrap();
    rig.hp.gpu_policy_pin = Some(GpuPlatformPolicy { dstate: 3, ..startup });
    let o = rig.block(ControlCommand::SetGpuPlatformPolicy(startup));
    assert!(is_failed(&o));
    rig.shutdown();
}

#[test]
fn profile_with_power_limits_rejected_in_stable_build() {
    let mut p = PerformanceProfile::default();
    p.cpu.epp_ac = Some(33);
    p.power_limits = Some(pl(45, 90));
    let mut rig = Rig::start_with(MockHp::new(), registry_with("x", p));
    let o = rig.block(apply("x"));
    assert!(matches!(o.status, ControlStatus::Rejected { error: ControlError::Unsupported }));
    assert_eq!(rig.c.observed.epp_ac.value(), Some(&50));
    rig.shutdown();
}

#[test]
fn profile_with_power_limits_applies_in_experimental_build() {
    let mut p = PerformanceProfile::default();
    p.cpu.epp_ac = Some(33);
    p.power_limits = Some(pl4(45, 90, 150));
    p.thermal_mode = Some(ThermalMode::Performance);
    let mut setup = Setup::new();
    setup.experimental = true;
    setup.profiles = registry_with("x", p);
    let mut hp = MockHp::new();
    hp.linked = true;
    let mut rig = Rig::with(setup, hp);
    rig.pl4_mw = Some(200_000);
    let o = rig.block(apply("x"));
    assert!(matches!(o.status, ControlStatus::Applied { .. }), "expected Applied, got {:?}", o.status);
    assert_eq!(rig.c.observed.epp_ac.value(), Some(&33));
    assert!(rig.c.observed.power_limits.is_verified());
    assert_eq!(rig.c.desired.profile.as_deref(), Some("x"));
    rig.shutdown();
    assert!(rig.hp.power_limits_writes.len() >= 2);
    assert_eq!(rig.hp.power_limits_writes.last(), Some(&pl4(55, 130, 200)));
}

#[test]
fn gpu_baseline_is_captured_when_startup_probe_recovers() {
    let mut hp = MockHp::new();
    hp.gpu_policy = None;
    let mut rig = Rig::with(Setup::new(), hp);
    let baseline = GpuPlatformPolicy { ctgp: true, ppab: true, dstate: 3, slowdown_temp_c: 0 };
    rig.hp.gpu_policy = Some(baseline);
    let outcome = rig.block(ControlCommand::SetGpuPlatformPolicyPatch(gpu_patch(Some(false))));
    assert!(is_verified(&outcome));
    rig.shutdown();
    assert_eq!(rig.hp.gpu_policy_writes.last(), Some(&baseline));
}

#[test]
fn failed_gpu_patch_records_intent_and_failed_restore_stays_pending() {
    let mut rig = Rig::start();
    let baseline = rig.hp.gpu_policy.unwrap();
    rig.hp.gpu_policy_pin = Some(baseline);
    rig.block(ControlCommand::SetGpuPlatformPolicyPatch(gpu_patch(Some(false))));
    assert!(!rig.c.desired.gpu_platform_policy.unwrap().ctgp);
    rig.hp.gpu_policy_pin = Some(GpuPlatformPolicy { ctgp: false, ..baseline });
    let outcome = rig.block(ControlCommand::RestoreSession);
    assert!(matches!(outcome.status, ControlStatus::Partial));
    let ledger = rig.saved.last().unwrap();
    assert!(ledger.gpu.is_some(), "rc=0 without matching readback cannot clear recovery");
    rig.hp.gpu_policy_pin = None;
    rig.shutdown();
}

#[test]
fn heartbeat_runs_while_a_gpu_readback_is_waiting() {
    let mut setup = Setup::new();
    setup.verify_poll_interval = 40;
    setup.keepalive_period = 60;
    setup.safety_tick = 10;
    let mut rig = Rig::with(setup, MockHp::new());
    rig.block(thermal(ThermalMode::Performance));
    rig.hp.gpu_policy_pin = rig.hp.gpu_policy;
    let outcome = rig.block(ControlCommand::SetGpuPlatformPolicyPatch(gpu_patch(Some(false))));
    assert!(is_failed(&outcome));
    assert!(rig.hp.fan_count_calls >= 2, "readback polling must not block heartbeats");
    rig.hp.gpu_policy_pin = None;
    rig.shutdown();
}

fn epp_profile(ac: Option<u8>, dc: Option<u8>) -> PerformanceProfile {
    let mut p = PerformanceProfile::default();
    p.cpu.epp_ac = ac;
    p.cpu.epp_dc = dc;
    p
}

#[test]
fn automatic_profile_restores_only_owned_ppm_fields() {
    let mut rig = Rig::start_with(MockHp::new(), registry_with("auto", epp_profile(Some(85), None)));
    let before = rig.c.observed.epp_ac.value().copied();
    let outcome =
        rig.block(ControlCommand::ApplyScopedProfile { profile: "auto".to_string(), session_id: 9 });
    assert!(matches!(outcome.status, ControlStatus::Applied { .. }));
    assert_eq!(rig.c.observed.epp_ac.value(), Some(&85));
    let outcome = rig.block(ControlCommand::RestoreScopedProfile { session_id: 9 });
    assert!(matches!(outcome.status, ControlStatus::Applied { .. }));
    assert_eq!(rig.c.observed.epp_ac.value().copied(), before);
    rig.shutdown();
}

#[test]
fn readback_drift_clears_active_profile_but_preserves_user_intent() {
    let mut rig = Rig::start_with(MockHp::new(), registry_with("cpu-only", epp_profile(Some(85), None)));
    rig.block(apply("cpu-only"));
    assert_eq!(rig.c.observed.active_profile.as_deref(), Some("cpu-only"));
    rig.ppm.epp.0 = 30;
    rig.refresh_observed();
    assert!(rig.c.observed.active_profile.is_none());
    assert_eq!(rig.c.desired.profile.as_deref(), Some("cpu-only"));
    rig.shutdown();
}

#[test]
fn manual_override_restores_automatic_scope_before_applying() {
    let mut rig = Rig::start_with(MockHp::new(), registry_with("auto", epp_profile(Some(85), Some(95))));
    let before_dc = rig.c.observed.epp_dc.value().copied();
    rig.block(ControlCommand::ApplyScopedProfile { profile: "auto".to_string(), session_id: 1 });
    let mut p = CpuPolicy::default();
    p.epp_ac = Some(30);
    rig.block(ControlCommand::SetCpuPolicy(p));
    assert_eq!(rig.c.observed.epp_ac.value(), Some(&30));
    assert_eq!(rig.c.observed.epp_dc.value().copied(), before_dc);
    rig.block(ControlCommand::RestoreScopedProfile { session_id: 1 });
    assert_eq!(
        rig.c.observed.epp_ac.value(),
        Some(&30),
        "late automatic cleanup must not overwrite manual intent"
    );
    rig.shutdown();
}

#[test]
fn two_failed_heartbeats_hand_the_machine_back() {
    let mut rig = Rig::start();
    rig.block(thermal(ThermalMode::Performance));
    rig.hp.fail_fan_count = true;
    rig.pass(20_000);
    assert_eq!(rig.hp.thermal_writes.last(), Some(&ThermalMode::Balanced));
    assert!(rig.journaled(JournalOrigin::Keepalive));
    assert!(rig.c.keepalive.next_due.is_none());
}

#[test]
fn frozen_sensors_hand_manual_fans_back() {
    let mut rig = Rig::start();
    rig.hp.readback_script = vec![FanLevels::new(20, 20)];
    rig.block(manual(20, 20));
    rig.temp_age = 100_000;
    rig.pass(100);
    assert_eq!(rig.hp.fan_writes.last(), Some(&FanLevels::auto()));
    assert_eq!(rig.c.observed.fan_mode.value(), Some(&FanMode::FirmwareAuto));
    assert!(rig.journaled(JournalOrigin::Safety));
}

#[test]
fn curve_follows_the_temperature() {
    let mut rig = Rig::start();
    let curve = some_curve();
    rig.block(fan(FanMode::Curve(curve)));
    rig.temp_milli = 86_000;
    rig.pass(60_000);
    let last = *rig.hp.fan_writes.last().unwrap();
    assert!(last.left > 38, "curve never rose: {last:?}");
    assert!(last.left <= 55);
    assert_eq!(rig.c.observed.fan_mode.value(), Some(&FanMode::Curve(curve)));
    rig.shutdown();
    assert_eq!(rig.hp.fan_writes.last(), Some(&FanLevels::auto()));
}

#[test]
fn ledger_is_saved_before_the_first_write_and_cleared_after_restore() {
    let mut rig = Rig::start();
    rig.block(fan(FanMode::Max));
    assert!(rig.saved.first().unwrap().fan);
    assert!(rig.saved.first().unwrap().pending());
    rig.shutdown();
    assert!(!rig.saved.last().unwrap().pending());
}

#[test]
fn nothing_is_written_while_the_ledger_cannot_be_saved() {
    let mut rig = Rig::start();
    rig.fail_saves = true;
    let o = rig.block(fan(FanMode::Max));
    assert!(matches!(
        o.status,
        ControlStatus::Rejected {
            error: ControlError::BackendUnavailable { what: Missing::RecoveryLedger { .. } }
        }
    ));
    assert!(rig.hp.max_fan_writes.is_empty());
    assert!(rig.hp.fan_writes.is_empty());
}

#[test]
fn unfinished_session_blocks_new_writes_until_restored() {
    let mut setup = Setup::new();
    setup.ledger = Some(RecoveryRecord {
        board: "8BAB".to_string(),
        bios: "F.21".to_string(),
        fan: true,
        thermal: false,
        gpu: None,
        power: None,
        scoped: None,
    });
    let mut rig = Rig::with(setup, MockHp::new());
    assert!(matches!(rig.c.observed.control_notice, Some(ControlNotice::PreviousSession)));
    let o = rig.block(thermal(ThermalMode::Performance));
    assert!(matches!(
        o.status,
        ControlStatus::Rejected { error: ControlError::UnsafeRequest { reason: UnsafeReason::SessionNotRestored } }
    ));
    let o = rig.block(ControlCommand::RestoreSession);
    assert!(matches!(o.status, ControlStatus::Applied { .. }), "{:?}", o.status);
    assert!(rig.hp.fan_writes.contains(&FanLevels::auto()));
    let o = rig.block(thermal(ThermalMode::Performance));
    assert!(matches!(o.status, ControlStatus::Applied { .. }));
}

#[test]
fn mux_is_written_only_after_both_directions_are_proven() {
    let mut hp = MockHp::new();
    hp.mux = Ok(MuxMode::Hybrid);
    let mut setup = Setup::new();
    setup.caps.mux = Support::Supported;
    let mut rig = Rig::with(setup, hp);
    let o = rig.block(ControlCommand::SetMuxMode(MuxMode::Discrete));
    assert!(matches!(o.status, ControlStatus::Rejected { .. }));
    assert!(rig.hp.mux_writes.is_empty());
}

#[test]
fn waiting_for_an_outcome_has_three_ends() {
    assert_eq!(blocking_result(Awaited::TimedOut), Err(ControlError::Timeout));
    assert_eq!(
        blocking_result(Awaited::Gone),
        Err(ControlError::BackendUnavailable { what: Missing::Coordinator })
    );
    let mut rig = Rig::start();
    let o = rig.block(thermal(ThermalMode::Balanced));
    assert_eq!(blocking_result(Awaited::Outcome(o.clone())), Ok(o));
}

#[test]
fn only_manual_commands_count_as_user_intent() {
    let mut d = Dispatcher::new();
    let scoped = ControlCommand::ApplyScopedProfile { profile: "a".to_string(), session_id: 1 };
    assert_eq!(d.dispatch(&scoped, QueueState::Open), Ok(ControlReceipt(1)));
    assert_eq!(d.manual_generation, 0);
    assert_eq!(d.dispatch(&fan(FanMode::Max), QueueState::Open), Ok(ControlReceipt(2)));
    assert_eq!(d.manual_generation, 1);
    assert_eq!(d.dispatch(&fan(FanMode::Max), QueueState::Full), Err(ControlError::Busy));
    assert_eq!(d.manual_generation, 1);
    assert_eq!(
        d.dispatch(&fan(FanMode::Max), QueueState::Gone),
        Err(ControlError::BackendUnavailable { what: Missing::Coordinator })
    );
    assert_eq!(d.receipt_next, 5);
}

#[test]
fn requests_wait_run_or_are_answered() {
    assert_eq!(decide_admission(RequestKind::Dispatch, false, 0), Admission::Run);
    assert_eq!(decide_admission(RequestKind::RefreshObserved, true, 3), Admission::Queue);
    assert_eq!(decide_admission(RequestKind::RefreshObserved, true, QUEUE_DEPTH), Admission::Drop);
    assert_eq!(decide_admission(RequestKind::ReplaceProfiles, true, QUEUE_DEPTH), Admission::AskAgain);
    assert_eq!(decide_admission(RequestKind::Shutdown, true, QUEUE_DEPTH), Admission::StopNow);
}

#[test]
fn paired_readings_are_as_fresh_as_the_older_one() {
    let s = fan_sample(2_949, 7, 3_050, 9);
    assert_eq!(s.levels, FanLevels::new(29, 31));
    assert_eq!(s.at, 7);
    let p = power_sample(55_000, 9, 130_000, 4);
    assert_eq!(p, PowerSample { pl1_mw: 55_000, pl2_mw: 130_000, at: 4 });
}

#[test]
fn steps_carry_their_label_and_backend() {
    let mut rig = Rig::start();
    let o = rig.block(thermal(ThermalMode::Performance));
    assert_eq!(o.steps.len(), 1);
    assert_eq!(o.steps[0].step.label(), "set_thermal_mode");
    assert_eq!(o.steps[0].step.backend(), "hp-wmi 0x1A");
    assert_ne!(o.steps[0].step, Step::SafetyMaxFanOn);
}

#[test]
fn a_failed_hand_over_forces_max_fan() {
    let mut rig = Rig::start();
    rig.hp.readback_script = vec![FanLevels::new(20, 20)];
    rig.block(manual(20, 20));
    rig.hp.fail_fan_writes = true;
    rig.shutdown();
    assert_eq!(rig.hp.max_fan_writes.last(), Some(&true));
    assert!(rig.saved.last().unwrap().fan, "the fans are still owed");
}

#[test]
fn a_failed_release_forces_max_fan_again() {
    let mut rig = Rig::start();
    rig.hp.readback_script = vec![FanLevels::new(20, 20)];
    rig.block(manual(20, 20));
    rig.temp_milli = 92_000;
    rig.pass(50);
    assert_eq!(rig.hp.max_fan_writes, vec![true]);
    rig.hp.fail_fan_writes = true;
    rig.temp_milli = 80_000;
    rig.pass(50);
    assert_eq!(rig.hp.max_fan_writes.last(), Some(&true));
    assert!(rig.hp.max_fan_writes.contains(&false));
}

#[test]
fn an_override_blocks_user_levels_until_it_is_released() {
    let mut rig = Rig::start();
    rig.hp.readback_script = vec![FanLevels::new(20, 20)];
    rig.block(manual(20, 20));
    rig.temp_milli = 92_000;
    rig.pass(50);
    let o = rig.block(manual(30, 30));
    assert_eq!(
        o.status,
        ControlStatus::Rejected {
            error: ControlError::UnsafeRequest { reason: UnsafeReason::ThermalOverrideActive }
        }
    );
    rig.temp_milli = 80_000;
    rig.pass(200);
    rig.hp.readback_script = vec![FanLevels::new(30, 30)];
    assert!(is_verified(&rig.block(manual(30, 30))));
}

#[test]
fn without_firmware_only_processor_settings_are_written() {
    let mut setup = Setup::new();
    setup.hp_present = false;
    let mut rig = Rig::with(setup, MockHp::new());
    let o = rig.block(thermal(ThermalMode::Performance));
    assert!(matches!(
        o.status,
        ControlStatus::Rejected { error: ControlError::BackendUnavailable { what: Missing::HpPlatform } }
    ));
    let mut p = CpuPolicy::default();
    p.epp_ac = Some(20);
    assert!(is_verified(&rig.block(ControlCommand::SetCpuPolicy(p))));
    assert!(rig.hp.thermal_writes.is_empty());
}

#[test]
fn a_ledger_of_another_device_is_left_alone() {
    let mut setup = Setup::new();
    setup.ledger = Some(RecoveryRecord {
        board: "OTHER".to_string(),
        bios: "F.21".to_string(),
        fan: true,
        thermal: false,
        gpu: None,
        power: None,
        scoped: None,
    });
    let mut rig = Rig::with(setup, MockHp::new());
    let o = rig.block(ControlCommand::RestoreSession);
    assert_eq!(
        o.status,
        ControlStatus::Rejected {
            error: ControlError::UnsafeRequest { reason: UnsafeReason::LedgerOfOtherDevice }
        }
    );
    assert!(rig.hp.fan_writes.is_empty());
}

#[test]
fn an_expired_session_is_not_restored() {
    let mut rig = Rig::start_with(MockHp::new(), registry_with("auto", epp_profile(Some(85), None)));
    rig.block(ControlCommand::ApplyScopedProfile { profile: "auto".to_string(), session_id: 9 });
    let o = rig.block(ControlCommand::RestoreScopedProfile { session_id: 8 });
    assert_eq!(
        o.status,
        ControlStatus::Rejected { error: ControlError::UnsafeRequest { reason: UnsafeReason::ScopeExpired } }
    );
    let o = rig.block(ControlCommand::ApplyScopedProfile { profile: "auto".to_string(), session_id: 10 });
    assert_eq!(o.status, ControlStatus::Rejected { error: ControlError::Busy });
    rig.shutdown();
    assert_eq!(rig.ppm.epp.0, 50, "shutdown restores what the session owned");
}

#[test]
fn an_empty_profile_is_refused() {
    let mut rig = Rig::start_with(MockHp::new(), registry_with("empty", PerformanceProfile::default()));
    let o = rig.block(apply("empty"));
    assert!(matches!(
        o.status,
        ControlStatus::Rejected {
            error: ControlError::UnsafeRequest { reason: UnsafeReason::EmptyProfile { .. } }
        }
    ));
}

#[test]
fn the_loop_sleeps_to_the_first_thing_due() {
    let mut rig = Rig::start();
    assert_eq!(rig.c.keepalive.next_due, None);
    assert_eq!(loop_wait(&rig.c, u64::MAX, None, 1_000), 3_600_000);
    assert_eq!(loop_wait(&rig.c, 1_400, None, 1_000), 400);
    assert_eq!(loop_wait(&rig.c, 1_400, Some(1_250), 1_000), 250);
    assert_eq!(loop_wait(&rig.c, 1_400, Some(900), 1_000), 0);
    assert_eq!(loop_wait(&rig.c, 900, Some(1_250), 1_000), 0);
    rig.shutdown();
}
