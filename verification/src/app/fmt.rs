//! Chinese wording of errors, verdicts and states.
use vstd::prelude::*;

use crate::domain::command::Verification;
use crate::domain::error::ControlError;
use crate::domain::policy::FanMode;
use crate::domain::telemetry::MetricQuality;
use crate::text::{decimal, decimal_text};

verus! {

fn worded(head: &str, tail: String) -> (r: String)
    ensures
        r@ == head@ + tail@,
{
    let mut s = String::from_str(head);
    s.append(tail.as_str());
    s
}

fn compared(head: &str, expected: String, actual: String) -> (r: String)
    ensures
        r@ == head@ + expected@ + "，读回 "@ + actual@,
{
    let mut s = String::from_str(head);
    s.append(expected.as_str());
    s.append("，读回 ");
    s.append(actual.as_str());
    s
}

/// A control error in words.
pub open spec fn control_error_text(error: ControlError) -> Seq<char> {
    match error {
        ControlError::Unsupported => "本机不支持该功能"@,
        ControlError::UnsafeRequest { reason } => "安全校验拒绝："@ + reason.spec_text(),
        ControlError::PermissionDenied => "权限不足——需要以管理员身份运行"@,
        ControlError::DriverUnavailable { what } => "驱动不可用："@ + what@,
        ControlError::FirmwareRejected { detail } => "固件拒绝了请求："@ + detail.spec_text(),
        ControlError::VerificationFailed { expected, actual } => "写入后回读不符：期望 "@ + expected.spec_text()
            + "，读回 "@ + actual.spec_text(),
        ControlError::Timeout => "操作超时"@,
        ControlError::BackendUnavailable { what } => "后端不可用："@ + what.spec_text(),
        ControlError::Busy => "另一条控制操作正在进行中"@,
        ControlError::UnknownProfile { name } => "未知配置档："@ + name@,
    }
}

/// A control error in words.
pub fn control_error_zh(error: &ControlError) -> (r: String)
    ensures
        r@ == control_error_text(*error),
{
    match error {
        ControlError::Unsupported => String::from_str("本机不支持该功能"),
        ControlError::UnsafeRequest { reason } => worded("安全校验拒绝：", reason.text()),
        ControlError::PermissionDenied => String::from_str("权限不足——需要以管理员身份运行"),
        ControlError::DriverUnavailable { what } => worded("驱动不可用：", what.clone()),
        ControlError::FirmwareRejected { detail } => worded("固件拒绝了请求：", detail.text()),
        ControlError::VerificationFailed { expected, actual } => compared(
            "写入后回读不符：期望 ",
            expected.text(),
            actual.text(),
        ),
        ControlError::Timeout => String::from_str("操作超时"),
        ControlError::BackendUnavailable { what } => worded("后端不可用：", what.text()),
        ControlError::Busy => String::from_str("另一条控制操作正在进行中"),
        ControlError::UnknownProfile { name } => worded("未知配置档：", name.clone()),
    }
}

/// A verdict in words.
pub open spec fn verification_text(v: Verification) -> Seq<char> {
    match v {
        Verification::Verified => "已回读验证"@,
        Verification::TrustedNoReadback => "信任写入（无回读通道，心跳维持）"@,
        Verification::Failed { expected, actual } => "验证失败：期望 "@ + expected.spec_text() + "，读回 "@
            + actual.spec_text(),
        Verification::Skipped => "未验证（已跳过）"@,
    }
}

/// A verdict in words.
pub fn verification_zh(verification: &Verification) -> (r: String)
    ensures
        r@ == verification_text(*verification),
{
    match verification {
        Verification::Verified => String::from_str("已回读验证"),
        Verification::TrustedNoReadback => String::from_str("信任写入（无回读通道，心跳维持）"),
        Verification::Failed { expected, actual } => compared("验证失败：期望 ", expected.text(), actual.text()),
        Verification::Skipped => String::from_str("未验证（已跳过）"),
    }
}

/// A sample's quality in words.
pub open spec fn quality_text(q: MetricQuality) -> Seq<char> {
    match q {
        MetricQuality::Fresh => "实时"@,
        MetricQuality::Estimated => "估算"@,
        MetricQuality::Stale => "陈旧"@,
        MetricQuality::Unavailable => "不可用"@,
        MetricQuality::Unsupported => "不支持"@,
    }
}

/// A sample's quality in words.
pub fn quality_zh(quality: MetricQuality) -> (r: &'static str)
    ensures
        r@ == quality_text(quality),
{
    match quality {
        MetricQuality::Fresh => "实时",
        MetricQuality::Estimated => "估算",
        MetricQuality::Stale => "陈旧",
        MetricQuality::Unavailable => "不可用",
        MetricQuality::Unsupported => "不支持",
    }
}

/// A fan mode in words; levels count hundreds of revolutions.
pub open spec fn fan_mode_text(mode: FanMode) -> Seq<char> {
    match mode {
        FanMode::FirmwareAuto => "固件自动"@,
        FanMode::Max => "最大转速"@,
        FanMode::Manual(level) => "手动 "@ + decimal((level.left * 100) as nat) + " / "@ + decimal(
            (level.right * 100) as nat,
        ) + " RPM"@,
        FanMode::Curve(_) => "温度曲线"@,
    }
}

/// A fan mode in words.
pub fn fan_mode_zh(mode: &FanMode) -> (r: String)
    ensures
        r@ == fan_mode_text(*mode),
{
    match mode {
        FanMode::FirmwareAuto => String::from_str("固件自动"),
        FanMode::Max => String::from_str("最大转速"),
        FanMode::Manual(level) => {
            let mut s = String::from_str("手动 ");
            s.append(decimal_text(level.left_rpm() as u64).as_str());
            s.append(" / ");
            s.append(decimal_text(level.right_rpm() as u64).as_str());
            s.append(" RPM");
            s
        },
        FanMode::Curve(_) => String::from_str("温度曲线"),
    }
}

} // verus!
