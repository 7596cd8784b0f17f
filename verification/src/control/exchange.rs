//! The conversation with the outside: what the control plane asks the
//! program around it to do, and what comes back.
use vstd::pervasive::unreached;
use vstd::prelude::*;

use super::coordinator::ControlCoordinator;
use super::mux::MuxRecord;
use super::recovery::RecoveryRecord;
use super::verification::Readback;
use crate::domain::command::{ControlStatus, StepOutcome};
use crate::domain::error::{ControlError, HpWmiError, PlatformError};
use crate::domain::policy::{
    BoostPolicy, CpuPolicy, CpuPowerLimits, FanLevels, GpuPlatformPolicy, MuxMode, ThermalMode, WindowsPpmState,
};

verus! {

/// One firmware write.
#[derive(Clone, Copy, Debug, PartialEq, Eq, Structural)]
pub enum HpWrite {
    /// 0x1A
    Thermal(ThermalMode),
    /// 0x2E
    FanLevels(FanLevels),
    /// 0x27
    MaxFan(bool),
    /// 0x22
    GpuPolicy(GpuPlatformPolicy),
    /// 0x29
    PowerLimits(CpuPowerLimits),
    /// 0x52
    Mux(MuxMode),
}

/// One thing to do outside.
#[derive(Debug, PartialEq)]
pub enum Request {
    /// Save the recovery ledger durably.
    SaveLedger(RecoveryRecord),
    /// Save the multiplexer record durably.
    SaveMux(MuxRecord),
    /// Perform a firmware write.
    Write(HpWrite),
    /// Ask the firmware for its fan count (0x10), the heartbeat.
    CountFans,
    /// Read the GPU platform policy (0x21).
    ReadGpu,
    /// Read the multiplexer selection (0x52).
    ReadMux,
    /// Read the Windows processor state.
    ReadPpm,
    /// Perform each setting that the policy names, as a processor run asks for
    /// them, then read the Windows processor state.
    ApplyCpu(CpuPolicy),
    /// Wait until the moment, then read fans and GPU policy back.
    Poll { due: u64 },
}

/// What one processor setting answered: before the write, and to the write.
/// Only a write that succeeded is read back, and holds what was read.
#[derive(Debug, PartialEq)]
pub struct KnobRun<T> {
    pub before: Result<(T, T), PlatformError>,
    pub write: Result<Result<(T, T), PlatformError>, PlatformError>,
}

/// What the processor settings of a policy answered.
#[derive(Debug, PartialEq)]
pub struct CpuResults {
    pub epp: Option<KnobRun<u8>>,
    pub epp1: Option<KnobRun<u8>>,
    pub max_freq: Option<KnobRun<u32>>,
    pub min_performance: Option<KnobRun<u8>>,
    pub max_performance: Option<KnobRun<u8>>,
    pub boost: Option<KnobRun<BoostPolicy>>,
    /// The Windows processor state afterwards, where it could be read.
    pub windows_ppm: Option<WindowsPpmState>,
}

impl CpuResults {
    /// Every setting that the policy names has been performed.
    pub open spec fn covers(self, p: CpuPolicy) -> bool {
        &&& (p.epp_ac is Some || p.epp_dc is Some) ==> self.epp is Some
        &&& (p.epp1_ac is Some || p.epp1_dc is Some) ==> self.epp1 is Some
        &&& (p.max_freq_mhz_ac is Some || p.max_freq_mhz_dc is Some) ==> self.max_freq is Some
        &&& (p.min_performance_ac is Some || p.min_performance_dc is Some) ==> self.min_performance is Some
        &&& (p.max_performance_ac is Some || p.max_performance_dc is Some) ==> self.max_performance is Some
        &&& (p.spec_boost_ac() is Some || p.spec_boost_dc() is Some) ==> self.boost is Some
    }
}

/// What came back.
#[derive(Debug, PartialEq)]
pub enum Reply {
    Saved(Result<(), ControlError>),
    Written(Result<(), HpWmiError>),
    Gpu(Result<GpuPlatformPolicy, HpWmiError>),
    Mux(Result<MuxMode, HpWmiError>),
    Ppm(Option<WindowsPpmState>),
    Cpu(CpuResults),
    Polled(Readback),
}

/// The reply answers the request.
pub open spec fn answers(request: Request, reply: Reply) -> bool {
    match request {
        Request::SaveLedger(_) => reply is Saved,
        Request::SaveMux(_) => reply is Saved,
        Request::Write(_) => reply is Written,
        Request::CountFans => reply is Written,
        Request::ReadGpu => reply is Gpu,
        Request::ReadMux => reply is Mux,
        Request::ReadPpm => reply is Ppm,
        Request::ApplyCpu(policy) => reply matches Reply::Cpu(results) && results.covers(policy),
        Request::Poll { .. } => reply is Polled,
    }
}

/// What an operation does next: ask for something, end, or hand the machine
/// back to firmware and then end.
#[derive(Debug, PartialEq)]
pub enum Progress {
    Ask(Request),
    Done(ControlStatus),
    HandBack(ControlStatus),
}

/// The request that an operation asks for.
pub open spec fn request_of(progress: Progress) -> Option<Request> {
    match progress {
        Progress::Ask(request) => Some(request),
        _ => None,
    }
}

/// The request that an operation asks for.
pub fn asked(progress: Progress) -> (r: Option<Request>)
    ensures
        r == request_of(progress),
{
    match progress {
        Progress::Ask(request) => Some(request),
        _ => None,
    }
}

/// One turn of an operation: where it stands afterwards, the writer's state,
/// the evidence it adds, and what it does next.
pub ghost struct Turn<R, C, S, P> {
    pub run: R,
    pub coordinator: C,
    pub steps: S,
    pub progress: P,
}

/// A turn of the operation `R`.
pub type OpTurn<R> = Turn<R, ControlCoordinator, Seq<StepOutcome>, Progress>;

/// The result that a save came back with.
pub fn saved_result(reply: Reply) -> (r: Result<(), ControlError>)
    requires
        reply is Saved,
    ensures
        reply == Reply::Saved(r),
{
    match reply {
        Reply::Saved(r) => r,
        _ => unreached(),
    }
}

/// The result that a firmware write came back with.
pub fn written_result(reply: Reply) -> (r: Result<(), HpWmiError>)
    requires
        reply is Written,
    ensures
        reply == Reply::Written(r),
{
    match reply {
        Reply::Written(r) => r,
        _ => unreached(),
    }
}

} // verus!
