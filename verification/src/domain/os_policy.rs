//! Operating-system scheduling: processes, targets and policies.
use vstd::prelude::*;

verus! {

/// A running process. Protected processes may hide path and creation time.
#[derive(Debug, PartialEq)]
pub struct ProcessInfo {
    pub pid: u32,
    pub name: String,
    pub executable: Option<String>,
    pub thread_count: u32,
    pub session_id: Option<u32>,
    pub creation_time: Option<u64>,
}

impl Clone for ProcessInfo {
    fn clone(&self) -> (r: Self)
        ensures
            r == *self,
    {
        ProcessInfo {
            pid: self.pid,
            name: self.name.clone(),
            executable: self.executable.clone(),
            thread_count: self.thread_count,
            session_id: self.session_id,
            creation_time: self.creation_time,
        }
    }
}

/// What a policy applies to.
#[derive(Clone, Copy, Debug, PartialEq, Eq, Structural)]
pub enum OsPolicyTarget {
    Process { pid: u32 },
    Thread { tid: u32 },
}

/// Which processors a target may use.
#[derive(Debug, PartialEq)]
pub enum CpuPlacement {
    All,
    Performance,
    Efficiency,
    /// Explicit CPU Set identifiers.
    Custom(Vec<u32>),
}

/// A processor group and the processors allowed in it.
#[derive(Clone, Copy, Debug, PartialEq, Eq, Structural)]
pub struct AffinityMask {
    pub group: u16,
    pub mask: u64,
}

/// One logical processor.
#[derive(Clone, Copy, Debug, PartialEq, Eq, Structural)]
pub struct ProcessorRef {
    pub group: u16,
    pub number: u8,
}

#[derive(Clone, Copy, Debug, PartialEq, Eq, Structural)]
pub enum QosLevel {
    System,
    High,
    Eco,
}

#[derive(Clone, Copy, Debug, PartialEq, Eq, Structural)]
pub enum ProcessPriority {
    Idle,
    BelowNormal,
    Normal,
    AboveNormal,
    High,
}

#[derive(Clone, Copy, Debug, PartialEq, Eq, Structural)]
pub enum ThreadPriority {
    Idle,
    Lowest,
    BelowNormal,
    Normal,
    AboveNormal,
    Highest,
}

#[derive(Clone, Copy, Debug, PartialEq, Eq, Structural)]
pub enum MemoryPriority {
    VeryLow,
    Low,
    Medium,
    BelowNormal,
    Normal,
}

#[derive(Clone, Copy, Debug, PartialEq, Eq, Structural)]
pub enum GpuPreference {
    System,
    PowerSaving,
    HighPerformance,
}

/// A scheduling policy; `None` leaves a setting alone.
#[derive(Debug, PartialEq)]
pub struct OsSchedulingPolicy {
    pub cpu_placement: Option<CpuPlacement>,
    pub affinity: Option<AffinityMask>,
    pub qos: Option<QosLevel>,
    pub process_priority: Option<ProcessPriority>,
    pub thread_priority: Option<ThreadPriority>,
    pub memory_priority: Option<MemoryPriority>,
    pub ideal_processor: Option<ProcessorRef>,
    pub gpu_preference: Option<GpuPreference>,
}

impl OsSchedulingPolicy {
    /// The policy that asks for nothing.
    pub open spec fn spec_empty() -> OsSchedulingPolicy {
        OsSchedulingPolicy {
            cpu_placement: None,
            affinity: None,
            qos: None,
            process_priority: None,
            thread_priority: None,
            memory_priority: None,
            ideal_processor: None,
            gpu_preference: None,
        }
    }
}

impl Default for OsSchedulingPolicy {
    fn default() -> (r: OsSchedulingPolicy)
        ensures
            r == OsSchedulingPolicy::spec_empty(),
    {
        OsSchedulingPolicy {
            cpu_placement: None,
            affinity: None,
            qos: None,
            process_priority: None,
            thread_priority: None,
            memory_priority: None,
            ideal_processor: None,
            gpu_preference: None,
        }
    }
}

} // verus!
