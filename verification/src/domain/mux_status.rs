//! Where a change of the graphics multiplexer stands.
use vstd::prelude::*;

use super::policy::MuxMode;
use crate::text::{decimal, decimal_text};

verus! {

/// Where the lifecycle stands.
#[derive(Debug, PartialEq)]
pub enum MuxStatus {
    Unverified,
    ForeignRecord,
    Unreadable { cause: String },
    Confirmed { mode: MuxMode },
    Mismatch { requested: MuxMode, reported: Option<MuxMode>, previous: MuxMode },
    WaitingForReboot { requested: MuxMode, previous: MuxMode },
    BothVerified,
    Recorded { target: MuxMode, previous: MuxMode },
    SaveFailed { cause: String },
}

pub open spec fn mode_text(m: MuxMode) -> Seq<char> {
    match m {
        MuxMode::Hybrid => "Hybrid"@,
        MuxMode::Discrete => "Discrete"@,
        MuxMode::Other(n) => "Other("@ + decimal(n as nat) + ")"@,
    }
}

fn mode_string(m: MuxMode) -> (r: String)
    ensures
        r@ == mode_text(m),
{
    match m {
        MuxMode::Hybrid => String::from_str("Hybrid"),
        MuxMode::Discrete => String::from_str("Discrete"),
        MuxMode::Other(n) => {
            let mut s = String::from_str("Other(");
            s.append(decimal_text(n as u64).as_str());
            s.append(")");
            s
        },
    }
}

pub open spec fn reported_text(m: Option<MuxMode>) -> Seq<char> {
    match m {
        Some(m) => "Some("@ + mode_text(m) + ")"@,
        None => "None"@,
    }
}

fn reported_string(m: Option<MuxMode>) -> (r: String)
    ensures
        r@ == reported_text(m),
{
    match m {
        Some(m) => {
            let mut s = String::from_str("Some(");
            s.append(mode_string(m).as_str());
            s.append(")");
            s
        },
        None => String::from_str("None"),
    }
}

impl Clone for MuxStatus {
    fn clone(&self) -> (r: Self)
        ensures
            r == *self,
    {
        match self {
            MuxStatus::Unverified => MuxStatus::Unverified,
            MuxStatus::ForeignRecord => MuxStatus::ForeignRecord,
            MuxStatus::Unreadable { cause } => MuxStatus::Unreadable { cause: cause.clone() },
            MuxStatus::Confirmed { mode } => MuxStatus::Confirmed { mode: *mode },
            MuxStatus::Mismatch { requested, reported, previous } => MuxStatus::Mismatch {
                requested: *requested,
                reported: *reported,
                previous: *previous,
            },
            MuxStatus::WaitingForReboot { requested, previous } => MuxStatus::WaitingForReboot {
                requested: *requested,
                previous: *previous,
            },
            MuxStatus::BothVerified => MuxStatus::BothVerified,
            MuxStatus::Recorded { target, previous } => MuxStatus::Recorded { target: *target, previous: *previous },
            MuxStatus::SaveFailed { cause } => MuxStatus::SaveFailed { cause: cause.clone() },
        }
    }
}

impl MuxStatus {
    pub open spec fn spec_text(self) -> Seq<char> {
        match self {
            MuxStatus::Unverified => "尚未完成本机双向切换与重启验证；完成开发验证后再开放写入。"@,
            MuxStatus::ForeignRecord => "待验证记录的主板或 BIOS 已改变，请人工核验显卡模式。"@,
            MuxStatus::Unreadable { cause } => "显卡切换记录无法读取："@ + cause@,
            MuxStatus::Confirmed { mode } => "已在重启后确认："@ + mode_text(mode),
            MuxStatus::Mismatch { requested, reported, previous } =>
                "重启后未匹配目标 "@ + mode_text(requested) + "；固件报告 "@ + reported_text(reported)
                    + "，可申请恢复 "@ + mode_text(previous) + "。"@,
            MuxStatus::WaitingForReboot { requested, previous } =>
                "已请求 "@ + mode_text(requested) + "，等待重启后核验；原选择 "@ + mode_text(previous) + "。"@,
            MuxStatus::BothVerified => "本机混合/独显双向重启验证已完成。"@,
            MuxStatus::Recorded { target, previous } =>
                "已记录 "@ + mode_text(target) + " 请求；需要重启后核验。原选择 "@ + mode_text(previous) + "。"@,
            MuxStatus::SaveFailed { cause } => cause@,
        }
    }

    /// The status in words.
    pub fn text(&self) -> (r: String)
        ensures
            r@ == self.spec_text(),
    {
        match self {
            MuxStatus::Unverified => String::from_str("尚未完成本机双向切换与重启验证；完成开发验证后再开放写入。"),
            MuxStatus::ForeignRecord => String::from_str("待验证记录的主板或 BIOS 已改变，请人工核验显卡模式。"),
            MuxStatus::Unreadable { cause } => {
                let mut s = String::from_str("显卡切换记录无法读取：");
                s.append(cause.as_str());
                s
            },
            MuxStatus::Confirmed { mode } => {
                let mut s = String::from_str("已在重启后确认：");
                s.append(mode_string(*mode).as_str());
                s
            },
            MuxStatus::Mismatch { requested, reported, previous } => {
                let mut s = String::from_str("重启后未匹配目标 ");
                s.append(mode_string(*requested).as_str());
                s.append("；固件报告 ");
                s.append(reported_string(*reported).as_str());
                s.append("，可申请恢复 ");
                s.append(mode_string(*previous).as_str());
                s.append("。");
                s
            },
            MuxStatus::WaitingForReboot { requested, previous } => {
                let mut s = String::from_str("已请求 ");
                s.append(mode_string(*requested).as_str());
                s.append("，等待重启后核验；原选择 ");
                s.append(mode_string(*previous).as_str());
                s.append("。");
                s
            },
            MuxStatus::BothVerified => String::from_str("本机混合/独显双向重启验证已完成。"),
            MuxStatus::Recorded { target, previous } => {
                let mut s = String::from_str("已记录 ");
                s.append(mode_string(*target).as_str());
                s.append(" 请求；需要重启后核验。原选择 ");
                s.append(mode_string(*previous).as_str());
                s.append("。");
                s
            },
            MuxStatus::SaveFailed { cause } => cause.clone(),
        }
    }
}

} // verus!
