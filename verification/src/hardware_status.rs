//! Read-only prerequisites of functions that have no backend yet. Finding a
//! vendor library is neither permission nor proof that it can be called.
use vstd::prelude::*;

use crate::text::{equal_ignoring_case, same_ignoring_case, same_text, unquoted, without_quotes};

verus! {

/// What is known of the hardware's tuning interfaces.
#[derive(Clone, Debug, PartialEq)]
pub struct HardwareStatus {
    pub xtu_service_running: Option<bool>,
    pub oem_intel_sdk: Option<String>,
    pub vbs_status: Option<u32>,
    pub undervolt_backend: bool,
    pub cpu_overclock_backend: bool,
    pub memory_overclock_backend: bool,
    pub charge_limit_backend: bool,
    pub notes: Vec<String>,
}

impl HardwareStatus {
    /// Nothing is known.
    pub open spec fn blank(self) -> bool {
        &&& self.xtu_service_running is None
        &&& self.oem_intel_sdk is None
        &&& self.vbs_status is None
        &&& self.no_backend()
        &&& self.notes@.len() == 0
    }

    /// No tuning interface can be written.
    pub open spec fn no_backend(self) -> bool {
        &&& !self.undervolt_backend
        &&& !self.cpu_overclock_backend
        &&& !self.memory_overclock_backend
        &&& !self.charge_limit_backend
    }
}

impl Default for HardwareStatus {
    fn default() -> (r: HardwareStatus)
        ensures
            r.blank(),
    {
        HardwareStatus {
            xtu_service_running: None,
            oem_intel_sdk: None,
            vbs_status: None,
            undervolt_backend: false,
            cpu_overclock_backend: false,
            memory_overclock_backend: false,
            charge_limit_backend: false,
            notes: Vec::new(),
        }
    }
}

/// A service as the operating system lists it.
#[derive(Debug, PartialEq)]
pub struct Service {
    pub name: String,
    pub state: String,
    pub path_name: Option<String>,
}

/// The tuning service runs.
pub open spec fn xtu_running(services: Seq<Service>) -> bool {
    exists|i: int|
        0 <= i < services.len() && equal_ignoring_case((#[trigger] services[i]).name@, "XTU3SERVICE"@)
            && services[i].state@ == "Running"@
}

fn is_xtu_running(services: &Vec<Service>) -> (r: bool)
    ensures
        r == xtu_running(services@),
{
    let mut i: usize = 0;
    while i < services.len()
        invariant
            i <= services@.len(),
            forall|k: int|
                0 <= k < i ==> !(equal_ignoring_case((#[trigger] services@[k]).name@, "XTU3SERVICE"@)
                    && services@[k].state@ == "Running"@),
        decreases services@.len() - i,
    {
        if same_ignoring_case(services[i].name.as_str(), "XTU3SERVICE") && same_text(
            services[i].state.as_str(),
            "Running",
        ) {
            return true;
        }
        i = i + 1;
    }
    false
}

/// The executable of the first vendor service, without quotes around it.
pub open spec fn vendor_executable_of(services: Seq<Service>) -> Option<Seq<char>>
    decreases services.len(),
{
    if services.len() == 0 {
        None
    } else if services[0].name@ == "HPOmenCap"@ {
        match services[0].path_name {
            Some(p) => Some(without_quotes(p@)),
            None => None,
        }
    } else {
        vendor_executable_of(services.drop_first())
    }
}

/// Where the vendor service's executable is; the vendor library is looked for
/// beside it.
pub fn vendor_executable(services: &Vec<Service>) -> (r: Option<String>)
    ensures
        match vendor_executable_of(services@) {
            Some(p) => r matches Some(s) && s@ == p,
            None => r is None,
        },
{
    let mut i: usize = 0;
    assert(services@.skip(0) =~= services@);
    while i < services.len()
        invariant
            i <= services@.len(),
            vendor_executable_of(services@) == vendor_executable_of(services@.skip(i as int)),
        decreases services@.len() - i,
    {
        assert(services@.skip(i as int)[0] == services@[i as int]);
        assert(services@.skip(i as int).drop_first() =~= services@.skip(i + 1));
        if same_text(services[i].name.as_str(), "HPOmenCap") {
            return match &services[i].path_name {
                Some(p) => Some(unquoted(p.as_str())),
                None => None,
            };
        }
        i = i + 1;
    }
    None
}

impl HardwareStatus {
    /// What is always to be said: no interface is offered, and why.
    pub open spec fn standing_note() -> Seq<char> {
        "电池充电上限与内存超频：本机固件未暴露接口（hpqBIntM 两组命令空间 0x00–0x5F 已实测 + hpCpsPub 串行通道穷尽）。CPU 降压：runtime 路径被 UVP+VBS 双锁（HP BIOS 不暴露 UVP 开关，无解），BIOS 预启动路径需重启生效——已裁决搁置（2026-09-23）；超频同通道，实用部分由功耗墙覆盖。"@
    }

    /// Draws up the status from what was read: the services, where they could
    /// be asked for; the vendor library's path, where it exists; and the state
    /// of virtualization-based security. No backend is ever claimed.
    pub fn probe(
        services: &Option<Result<Vec<Service>, String>>,
        oem_intel_sdk: Option<String>,
        vbs_status: Option<u32>,
    ) -> (r: HardwareStatus)
        ensures
            r.no_backend(),
            r.vbs_status == vbs_status,
            match *services {
                Some(Ok(list)) => {
                    &&& r.xtu_service_running == Some(xtu_running(list@))
                    &&& r.oem_intel_sdk == oem_intel_sdk
                    &&& r.notes@.len() == 1
                },
                Some(Err(e)) => {
                    &&& r.xtu_service_running is None
                    &&& r.oem_intel_sdk is None
                    &&& r.notes@.len() == 2
                    &&& r.notes@[0]@ == "服务状态无法读取："@ + e@
                },
                None => {
                    &&& r.xtu_service_running is None
                    &&& r.oem_intel_sdk is None
                    &&& r.notes@.len() == 1
                },
            },
            r.notes@.last()@ == HardwareStatus::standing_note(),
    {
        let mut result = HardwareStatus::default();
        match services {
            Some(Ok(list)) => {
                result.xtu_service_running = Some(is_xtu_running(list));
                result.oem_intel_sdk = oem_intel_sdk;
            },
            Some(Err(e)) => {
                let mut note = String::from_str("服务状态无法读取：");
                note.append(e.as_str());
                result.notes.push(note);
            },
            None => {},
        }
        result.vbs_status = vbs_status;
        result.notes.push(
            String::from_str(
                "电池充电上限与内存超频：本机固件未暴露接口（hpqBIntM 两组命令空间 0x00–0x5F 已实测 + hpCpsPub 串行通道穷尽）。CPU 降压：runtime 路径被 UVP+VBS 双锁（HP BIOS 不暴露 UVP 开关，无解），BIOS 预启动路径需重启生效——已裁决搁置（2026-09-23）；超频同通道，实用部分由功耗墙覆盖。",
            ),
        );
        result
    }
}

} // verus!
