//! Assembly of the engine: which providers take part, whether there is a
//! writer, and in which order everything ends.
//!
//! Every provider is opened by itself, and one that fails is reported instead
//! of ending the engine. Only an unknown board does.
use vstd::prelude::*;

use crate::format::cat3;

verus! {

/// A provider of telemetry.
#[derive(Clone, Copy, Debug, PartialEq, Eq, Structural)]
pub enum Provider {
    CpuSilicon,
    Gpu,
    WindowsCounters,
    Battery,
    ProcessorSettings,
    Fans,
}

impl Provider {
    pub open spec fn spec_label(self) -> Seq<char> {
        match self {
            Provider::CpuSilicon => "pawnio/cpu-silicon"@,
            Provider::Gpu => "nvapi/gpu"@,
            Provider::WindowsCounters => "windows/pdh"@,
            Provider::Battery => "windows/battery"@,
            Provider::ProcessorSettings => "windows/ppm"@,
            Provider::Fans => "hp-wmi/fans"@,
        }
    }

    /// The provider's name.
    pub fn label(&self) -> (r: &'static str)
        ensures
            r@ == self.spec_label(),
    {
        match *self {
            Provider::CpuSilicon => "pawnio/cpu-silicon",
            Provider::Gpu => "nvapi/gpu",
            Provider::WindowsCounters => "windows/pdh",
            Provider::Battery => "windows/battery",
            Provider::ProcessorSettings => "windows/ppm",
            Provider::Fans => "hp-wmi/fans",
        }
    }
}

/// How opening a provider went.
#[derive(Debug, PartialEq)]
pub enum Opened {
    /// This build does not have the provider.
    NotBuilt,
    Yes,
    Failed(String),
}

/// How opening the providers that can fail went.
#[derive(Debug, PartialEq)]
pub struct Openings {
    pub cpu_silicon: Opened,
    pub gpu: Opened,
    pub windows_counters: Opened,
    pub fans: Opened,
}

/// A provider that is not there, and why.
#[derive(Debug, PartialEq)]
pub struct Unavailable {
    pub provider: Provider,
    pub why: String,
}

/// The providers that take part, and those that do not.
#[derive(Debug, PartialEq)]
pub struct Assembly {
    pub collectors: Vec<Provider>,
    pub unavailable: Vec<Unavailable>,
}

pub open spec fn taking_part(o: Opened, p: Provider) -> Seq<Provider> {
    if o is Yes { seq![p] } else { Seq::empty() }
}

pub open spec fn missing(o: Opened, p: Provider) -> Seq<Unavailable> {
    match o {
        Opened::Failed(why) => seq![Unavailable { provider: p, why }],
        _ => Seq::empty(),
    }
}

impl Openings {
    /// The providers that take part, in order: battery and processor settings
    /// always do.
    pub open spec fn collectors(self) -> Seq<Provider> {
        taking_part(self.cpu_silicon, Provider::CpuSilicon) + taking_part(self.gpu, Provider::Gpu) + taking_part(
            self.windows_counters,
            Provider::WindowsCounters,
        ) + seq![Provider::Battery, Provider::ProcessorSettings] + taking_part(self.fans, Provider::Fans)
    }

    /// The providers that failed, in order.
    pub open spec fn unavailable(self) -> Seq<Unavailable> {
        missing(self.cpu_silicon, Provider::CpuSilicon) + missing(self.gpu, Provider::Gpu) + missing(
            self.windows_counters,
            Provider::WindowsCounters,
        ) + missing(self.fans, Provider::Fans)
    }
}

fn enlist(a: &mut Assembly, o: Opened, provider: Provider)
    ensures
        final(a).collectors@ == old(a).collectors@ + taking_part(o, provider),
        final(a).unavailable@ == old(a).unavailable@ + missing(o, provider),
{
    match o {
        Opened::NotBuilt => {},
        Opened::Yes => {
            a.collectors.push(provider);
        },
        Opened::Failed(why) => {
            a.unavailable.push(Unavailable { provider, why });
        },
    }
    assert(a.collectors@ =~= old(a).collectors@ + taking_part(o, provider));
    assert(a.unavailable@ =~= old(a).unavailable@ + missing(o, provider));
}

/// Puts the providers together.
pub fn assemble(openings: Openings) -> (r: Assembly)
    ensures
        r.collectors@ == openings.collectors(),
        r.unavailable@ == openings.unavailable(),
{
    let mut a = Assembly { collectors: Vec::new(), unavailable: Vec::new() };
    enlist(&mut a, openings.cpu_silicon, Provider::CpuSilicon);
    assert(a.collectors@ =~= taking_part(openings.cpu_silicon, Provider::CpuSilicon));
    assert(a.unavailable@ =~= missing(openings.cpu_silicon, Provider::CpuSilicon));
    enlist(&mut a, openings.gpu, Provider::Gpu);
    enlist(&mut a, openings.windows_counters, Provider::WindowsCounters);
    let ghost before = a.collectors@;
    a.collectors.push(Provider::Battery);
    a.collectors.push(Provider::ProcessorSettings);
    assert(a.collectors@ =~= before + seq![Provider::Battery, Provider::ProcessorSettings]);
    enlist(&mut a, openings.fans, Provider::Fans);
    a
}

/// Why the engine does not start.
#[derive(Debug, PartialEq)]
pub enum EngineError {
    UnknownBoard { board_id: String },
    Identity { why: String },
    Telemetry { why: String },
}

impl EngineError {
    pub open spec fn spec_text(self) -> Seq<char> {
        match self {
            EngineError::UnknownBoard { board_id } => "no board profile for '"@ + board_id@
                + "' (this build targets 8BAB only)"@,
            EngineError::Identity { why } => why@,
            EngineError::Telemetry { why } => why@,
        }
    }

    /// The error in words.
    pub fn text(&self) -> (r: String)
        ensures
            r@ == self.spec_text(),
    {
        match self {
            EngineError::UnknownBoard { board_id } => cat3(
                "no board profile for '",
                board_id.as_str(),
                "' (this build targets 8BAB only)",
            ),
            EngineError::Identity { why } => why.clone(),
            EngineError::Telemetry { why } => why.clone(),
        }
    }
}

/// Whether the engine starts: the machine must say who it is, its board must
/// be known, and telemetry must run. A writer is not needed.
pub fn may_start(identity: Result<String, String>, known_board: bool, telemetry: Result<(), String>) -> (r: Result<
    String,
    EngineError,
>)
    ensures
        r == (match identity {
            Err(why) => Err::<String, EngineError>(EngineError::Identity { why }),
            Ok(board_id) => if !known_board {
                Err(EngineError::UnknownBoard { board_id })
            } else {
                match telemetry {
                    Err(why) => Err(EngineError::Telemetry { why }),
                    Ok(_) => Ok(board_id),
                }
            },
        }),
{
    match identity {
        Err(why) => Err(EngineError::Identity { why }),
        Ok(board_id) => if !known_board {
            Err(EngineError::UnknownBoard { board_id })
        } else {
            match telemetry {
                Err(why) => Err(EngineError::Telemetry { why }),
                Ok(_) => Ok(board_id),
            }
        },
    }
}

/// A step of shutting the engine down.
#[derive(Clone, Copy, Debug, PartialEq, Eq, Structural)]
pub enum ShutdownStage {
    AutomaticScheduler,
    OsPolicies,
    /// Hands the hardware back to firmware.
    Control,
    Telemetry,
    HpActor,
}

/// The steps of shutting down: what was written by the scheduler first, then
/// other process policies, then the hardware, and the providers last.
pub open spec fn shutdown_order(has_control: bool, has_hp: bool) -> Seq<ShutdownStage> {
    seq![ShutdownStage::AutomaticScheduler, ShutdownStage::OsPolicies] + (if has_control {
        seq![ShutdownStage::Control]
    } else {
        Seq::empty()
    }) + seq![ShutdownStage::Telemetry] + (if has_hp { seq![ShutdownStage::HpActor] } else { Seq::empty() })
}

/// The steps of shutting down, in order.
pub fn shutdown(has_control: bool, has_hp: bool) -> (r: Vec<ShutdownStage>)
    ensures
        r@ == shutdown_order(has_control, has_hp),
{
    let mut stages: Vec<ShutdownStage> = Vec::new();
    stages.push(ShutdownStage::AutomaticScheduler);
    stages.push(ShutdownStage::OsPolicies);
    if has_control {
        stages.push(ShutdownStage::Control);
    }
    stages.push(ShutdownStage::Telemetry);
    if has_hp {
        stages.push(ShutdownStage::HpActor);
    }
    assert(stages@ =~= shutdown_order(has_control, has_hp));
    stages
}

/// The hardware is handed back while the sensors and the firmware connection
/// that the hand-back needs are still there.
pub proof fn hand_back_comes_before_the_providers_end(has_hp: bool)
    ensures
        ({
            let order = shutdown_order(true, has_hp);
            forall|i: int, j: int|
                0 <= i < order.len() && 0 <= j < order.len() && (#[trigger] order[i]) is Control && ((
                #[trigger] order[j]) is Telemetry || order[j] is HpActor) ==> i < j
        }),
        shutdown_order(true, has_hp).contains(ShutdownStage::Control),
{
    assert(shutdown_order(true, has_hp)[2] is Control);
}

/// A provider takes part exactly if it was opened, whatever became of the
/// others; battery and processor settings always do.
pub proof fn providers_are_independent(o: Openings, p: Provider)
    ensures
        o.collectors().contains(p) == (match p {
            Provider::CpuSilicon => o.cpu_silicon is Yes,
            Provider::Gpu => o.gpu is Yes,
            Provider::WindowsCounters => o.windows_counters is Yes,
            Provider::Battery => true,
            Provider::ProcessorSettings => true,
            Provider::Fans => o.fans is Yes,
        }),
{
    let all = o.collectors();
    let gpu = if o.cpu_silicon is Yes { 1int } else { 0int };
    let counters = gpu + if o.gpu is Yes { 1int } else { 0int };
    let battery = counters + if o.windows_counters is Yes { 1int } else { 0int };
    assert(o.cpu_silicon is Yes ==> all[0] == Provider::CpuSilicon);
    assert(o.gpu is Yes ==> all[gpu] == Provider::Gpu);
    assert(o.windows_counters is Yes ==> all[counters] == Provider::WindowsCounters);
    assert(all[battery] == Provider::Battery);
    assert(all[battery + 1] == Provider::ProcessorSettings);
    assert(o.fans is Yes ==> all[battery + 2] == Provider::Fans);
}

} // verus!
