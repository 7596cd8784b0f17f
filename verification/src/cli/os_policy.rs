//! Scheduling policies from the command line.
use vstd::prelude::*;

use crate::domain::os_policy::{
    AffinityMask, CpuPlacement, GpuPreference, MemoryPriority, OsPolicyTarget, OsSchedulingPolicy, ProcessPriority,
    ProcessorRef, QosLevel, ThreadPriority,
};
use crate::format::cat3;

verus! {

/// What is asked for.
#[derive(Debug, PartialEq)]
pub enum OsPolicyCmd {
    Topology,
    Processes,
    Apply(ApplyArgs),
    AutoStatus,
    /// Runs the battery mode for so many seconds; zero waits for an interrupt.
    AutoBattery { hold: u64 },
}

#[derive(Debug, PartialEq)]
pub struct OsPolicyArgs {
    pub cmd: OsPolicyCmd,
}

/// Where a target may run, by kind of processor.
#[derive(Clone, Copy, Debug, PartialEq, Eq, Structural)]
pub enum CpuArg {
    All,
    Performance,
    Efficiency,
}

/// A policy for one process or thread.
#[derive(Debug, PartialEq)]
pub struct ApplyArgs {
    pub pid: Option<u32>,
    pub tid: Option<u32>,
    /// Takes the policy of a profile instead of the settings below.
    pub profile: Option<String>,
    pub cpu: Option<CpuArg>,
    pub cpu_set: Option<Vec<u32>>,
    pub affinity_group: Option<u16>,
    pub affinity_mask: Option<u64>,
    pub qos: Option<QosLevel>,
    pub process_priority: Option<ProcessPriority>,
    pub thread_priority: Option<ThreadPriority>,
    pub memory_priority: Option<MemoryPriority>,
    pub ideal_group: Option<u16>,
    pub ideal_number: Option<u8>,
    pub gpu: Option<GpuPreference>,
    /// Seconds to keep the policy; zero waits for an interrupt.
    pub hold: u64,
}

/// What a profile of that name has to say on scheduling.
#[derive(Debug, PartialEq)]
pub enum NamedPolicy {
    /// There is no such profile.
    UnknownProfile,
    /// The profile has no scheduling policy.
    NoPolicy,
    Policy(OsSchedulingPolicy),
}

/// Why there is no policy to apply.
#[derive(Debug, PartialEq)]
pub enum PolicyError {
    OneTarget,
    AffinityPair,
    IdealPair,
    UnknownProfile { name: String },
    NoPolicy,
    /// The policy does not suit its target.
    Unsuitable { reason: String },
}

impl PolicyError {
    pub open spec fn spec_text(self) -> Seq<char> {
        match self {
            PolicyError::OneTarget => "exactly one of --pid/--tid is required"@,
            PolicyError::AffinityPair => "--affinity-group and --affinity-mask must be provided together"@,
            PolicyError::IdealPair => "--ideal-group and --ideal-number must be provided together"@,
            PolicyError::UnknownProfile { name } => "unknown profile '"@ + name@ + "'"@,
            PolicyError::NoPolicy => "该配置档没有 os_policy 表"@,
            PolicyError::Unsuitable { reason } => reason@,
        }
    }

    /// The error in words.
    pub fn text(&self) -> (r: String)
        ensures
            r@ == self.spec_text(),
    {
        match self {
            PolicyError::OneTarget => String::from_str("exactly one of --pid/--tid is required"),
            PolicyError::AffinityPair => String::from_str(
                "--affinity-group and --affinity-mask must be provided together",
            ),
            PolicyError::IdealPair => String::from_str("--ideal-group and --ideal-number must be provided together"),
            PolicyError::UnknownProfile { name } => cat3("unknown profile '", name.as_str(), "'"),
            PolicyError::NoPolicy => String::from_str("该配置档没有 os_policy 表"),
            PolicyError::Unsuitable { reason } => reason.clone(),
        }
    }
}

/// The target that the arguments name: exactly one process or thread.
pub fn target(pid: Option<u32>, tid: Option<u32>) -> (r: Result<OsPolicyTarget, PolicyError>)
    ensures
        r == (match (pid, tid) {
            (Some(pid), None) => Ok::<OsPolicyTarget, PolicyError>(OsPolicyTarget::Process { pid }),
            (None, Some(tid)) => Ok(OsPolicyTarget::Thread { tid }),
            _ => Err(PolicyError::OneTarget),
        }),
{
    match (pid, tid) {
        (Some(pid), None) => Ok(OsPolicyTarget::Process { pid }),
        (None, Some(tid)) => Ok(OsPolicyTarget::Thread { tid }),
        _ => Err(PolicyError::OneTarget),
    }
}

/// The policy that the single settings make up: explicit sets go before a kind
/// of processor, and what is not given is left alone.
pub open spec fn given_policy(args: ApplyArgs) -> OsSchedulingPolicy {
    OsSchedulingPolicy {
        cpu_placement: match args.cpu_set {
            Some(ids) => Some(CpuPlacement::Custom(ids)),
            None => match args.cpu {
                Some(CpuArg::All) => Some(CpuPlacement::All),
                Some(CpuArg::Performance) => Some(CpuPlacement::Performance),
                Some(CpuArg::Efficiency) => Some(CpuPlacement::Efficiency),
                None => None,
            },
        },
        affinity: match (args.affinity_group, args.affinity_mask) {
            (Some(group), Some(mask)) => Some(AffinityMask { group, mask }),
            _ => None,
        },
        qos: args.qos,
        process_priority: args.process_priority,
        thread_priority: args.thread_priority,
        memory_priority: args.memory_priority,
        ideal_processor: match (args.ideal_group, args.ideal_number) {
            (Some(group), Some(number)) => Some(ProcessorRef { group, number }),
            _ => None,
        },
        gpu_preference: args.gpu,
    }
}

/// The policy that the arguments ask for. Settings that belong together must
/// come together; a profile goes before single settings.
pub open spec fn asked_policy(args: ApplyArgs, named: NamedPolicy) -> Result<OsSchedulingPolicy, PolicyError> {
    if args.affinity_group is Some != args.affinity_mask is Some {
        Err(PolicyError::AffinityPair)
    } else if args.ideal_group is Some != args.ideal_number is Some {
        Err(PolicyError::IdealPair)
    } else {
        match args.profile {
            None => Ok(given_policy(args)),
            Some(name) => match named {
                NamedPolicy::UnknownProfile => Err(PolicyError::UnknownProfile { name }),
                NamedPolicy::NoPolicy => Err(PolicyError::NoPolicy),
                NamedPolicy::Policy(p) => Ok(p),
            },
        }
    }
}

/// The policy that the arguments ask for, before it is held against its
/// target. `named` is what the profile has to say, where one is named.
pub fn policy(args: ApplyArgs, named: NamedPolicy) -> (r: Result<OsSchedulingPolicy, PolicyError>)
    ensures
        r == asked_policy(args, named),
{
    if args.affinity_group.is_some() != args.affinity_mask.is_some() {
        return Err(PolicyError::AffinityPair);
    }
    if args.ideal_group.is_some() != args.ideal_number.is_some() {
        return Err(PolicyError::IdealPair);
    }
    if let Some(name) = args.profile {
        return match named {
            NamedPolicy::UnknownProfile => Err(PolicyError::UnknownProfile { name }),
            NamedPolicy::NoPolicy => Err(PolicyError::NoPolicy),
            NamedPolicy::Policy(p) => Ok(p),
        };
    }
    let mut p = OsSchedulingPolicy::default();
    p.cpu_placement =
    match args.cpu {
        Some(CpuArg::All) => Some(CpuPlacement::All),
        Some(CpuArg::Performance) => Some(CpuPlacement::Performance),
        Some(CpuArg::Efficiency) => Some(CpuPlacement::Efficiency),
        None => None,
    };
    if let Some(ids) = args.cpu_set {
        p.cpu_placement = Some(CpuPlacement::Custom(ids));
    }
    p.affinity =
    match (args.affinity_group, args.affinity_mask) {
        (Some(group), Some(mask)) => Some(AffinityMask { group, mask }),
        _ => None,
    };
    p.qos = args.qos;
    p.process_priority = args.process_priority;
    p.thread_priority = args.thread_priority;
    p.memory_priority = args.memory_priority;
    p.ideal_processor =
    match (args.ideal_group, args.ideal_number) {
        (Some(group), Some(number)) => Some(ProcessorRef { group, number }),
        _ => None,
    };
    p.gpu_preference = args.gpu;
    Ok(p)
}

/// The policy to apply: one that does not suit its target is refused, with the
/// reason that the validation of the pair gave.
pub fn suited_policy(policy: OsSchedulingPolicy, verdict: Result<(), String>) -> (r: Result<
    OsSchedulingPolicy,
    PolicyError,
>)
    ensures
        r == (match verdict {
            Ok(_) => Ok::<OsSchedulingPolicy, PolicyError>(policy),
            Err(reason) => Err(PolicyError::Unsuitable { reason }),
        }),
{
    match verdict {
        Ok(()) => Ok(policy),
        Err(reason) => Err(PolicyError::Unsuitable { reason }),
    }
}

} // verus!
