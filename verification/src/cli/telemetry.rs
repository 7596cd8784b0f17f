//! The live metric table.
use vstd::prelude::*;

use crate::domain::telemetry::{MetricQuality, MetricValue, ProviderStatus};
use crate::format::{
    align_left, align_right, cat2, cat3, cat5, ends_in, holds, left_aligned, nearest, nearest_of, nearest_wide,
    right_aligned, seconds, seconds_text, tenths, tenths_text, text_ends_in, text_holds,
};
use crate::text::{decimal, decimal_text, hex_text, numeral};

verus! {

/// What to show, how often and for how long.
#[derive(Debug, PartialEq)]
pub struct TelemetryArgs {
    pub interval_ms: u64,
    /// Seconds until the end; zero runs until an interrupt.
    pub duration: u64,
    /// Parts of metric names; none shows every metric.
    pub metrics: Vec<String>,
}

/// The shortest refresh interval, in milliseconds.
pub const MIN_INTERVAL_MS: u64 = 50;

/// How long the table waits between two refreshes.
pub fn refresh_interval(args: &TelemetryArgs) -> (r: u64)
    ensures
        r == (if args.interval_ms > MIN_INTERVAL_MS { args.interval_ms } else { MIN_INTERVAL_MS }),
{
    if args.interval_ms > MIN_INTERVAL_MS { args.interval_ms } else { MIN_INTERVAL_MS }
}

/// What the table does after a refresh.
#[derive(Clone, Copy, Debug, PartialEq, Eq, Structural)]
pub enum TableStep {
    Interrupted,
    Over,
    Wait(u64),
}

/// Decides what the table does after a refresh.
pub fn table_step(args: &TelemetryArgs, stop: bool, elapsed_ms: u64) -> (r: TableStep)
    ensures
        r == (if stop {
            TableStep::Interrupted
        } else if args.duration > 0 && elapsed_ms >= args.duration * 1000 {
            TableStep::Over
        } else {
            TableStep::Wait(
                if args.interval_ms > MIN_INTERVAL_MS { args.interval_ms } else { MIN_INTERVAL_MS },
            )
        }),
{
    if stop {
        return TableStep::Interrupted;
    }
    if args.duration > 0 && elapsed_ms as u128 >= args.duration as u128 * 1000 {
        return TableStep::Over;
    }
    TableStep::Wait(refresh_interval(args))
}

/// The window of the final statistics, in seconds: the asked duration, else
/// the time that has passed, and one second at least.
pub fn stats_window(args: &TelemetryArgs, elapsed_s: u64) -> (r: u64)
    ensures
        r == (if args.duration > 0 {
            args.duration
        } else if elapsed_s > 1 {
            elapsed_s
        } else {
            1
        }),
{
    if args.duration > 0 {
        args.duration
    } else if elapsed_s > 1 {
        elapsed_s
    } else {
        1
    }
}

/// A metric is shown if no name is asked for or its own holds one of them.
pub open spec fn is_shown(filters: Seq<String>, id: Seq<char>) -> bool {
    filters.len() == 0 || exists|i: int| 0 <= i < filters.len() && holds(id, (#[trigger] filters[i])@)
}

/// Whether a metric is shown.
pub fn shown(args: &TelemetryArgs, id: &str) -> (r: bool)
    ensures
        r == is_shown(args.metrics@, id@),
{
    if args.metrics.len() == 0 {
        return true;
    }
    let mut i: usize = 0;
    while i < args.metrics.len()
        invariant
            i <= args.metrics@.len(),
            forall|k: int| 0 <= k < i ==> !holds(id@, (#[trigger] args.metrics@[k])@),
        decreases args.metrics@.len() - i,
    {
        if text_holds(id, args.metrics[i].as_str()) {
            return true;
        }
        i = i + 1;
    }
    false
}

/// One row of the table.
pub fn metric_row(id: &str, value: &str, quality: &str, age: &str, owner: &str) -> (r: String)
    ensures
        r@ == left_aligned(id@, 26) + "  "@ + right_aligned(value@, 11) + "  "@ + left_aligned(quality@, 9) + "  "@
            + right_aligned(age@, 6) + "  "@ + owner@ + "\r\n"@,
{
    let mut s = cat5(
        align_left(id, 26).as_str(),
        "  ",
        align_right(value, 11).as_str(),
        "  ",
        align_left(quality, 9).as_str(),
    );
    s.append("  ");
    s.append(align_right(age, 6).as_str());
    s.append("  ");
    s.append(owner);
    s.append("\r\n");
    s
}

/// One row of the provider list.
pub fn provider_row(name: &str, status: &ProviderStatus) -> (r: String)
    ensures
        r@ == "  "@ + left_aligned(name@, 20) + " "@ + provider_text(*status) + "\r\n"@,
{
    cat5("  ", align_left(name, 20).as_str(), " ", fmt_provider(status).as_str(), "\r\n")
}

/// The largest power of 1024, up to the fourth, that the amount reaches; a
/// negative amount reaches none.
pub open spec fn unit_of(thousandths: int) -> int {
    if thousandths < 1_024_000 {
        0
    } else if thousandths < 1_048_576_000 {
        1
    } else if thousandths < 1_073_741_824_000 {
        2
    } else if thousandths < 1_099_511_627_776_000 {
        3
    } else {
        4
    }
}

pub open spec fn unit_size(unit: int) -> int {
    if unit == 0 {
        1
    } else if unit == 1 {
        1024
    } else if unit == 2 {
        1_048_576
    } else if unit == 3 {
        1_073_741_824
    } else {
        1_099_511_627_776
    }
}

pub open spec fn unit_name(unit: int) -> Seq<char> {
    if unit == 0 {
        " B"@
    } else if unit == 1 {
        " KiB"@
    } else if unit == 2 {
        " MiB"@
    } else if unit == 3 {
        " GiB"@
    } else {
        " TiB"@
    }
}

/// An amount of bytes, given in thousandths, in the unit that fits it.
pub open spec fn bytes_text(thousandths: int) -> Seq<char> {
    let unit = unit_of(thousandths);
    let amount = if thousandths < 0 { -thousandths } else { thousandths };
    (if thousandths < 0 { "-"@ } else { ""@ }) + tenths(nearest(amount, 100 * unit_size(unit)) as nat) + unit_name(unit)
}

/// Formats an amount of bytes, given in thousandths: any measured one, and
/// any count of bytes.
pub fn human_bytes(thousandths: i128) -> (r: String)
    requires
        i64::MIN <= thousandths <= 1000 * u64::MAX,
    ensures
        r@ == bytes_text(thousandths as int),
{
    let (divisor, name) = if thousandths < 1_024_000 {
        (100u64, " B")
    } else if thousandths < 1_048_576_000 {
        (102_400u64, " KiB")
    } else if thousandths < 1_073_741_824_000 {
        (104_857_600u64, " MiB")
    } else if thousandths < 1_099_511_627_776_000 {
        (107_374_182_400u64, " GiB")
    } else {
        (109_951_162_777_600u64, " TiB")
    };
    let amount: u128 = if thousandths < 0 {
        (-thousandths) as u128
    } else {
        thousandths as u128
    };
    proof {
        if divisor == 100 {
            assert(amount / 100 < u64::MAX);
        } else {
            assert(amount / (divisor as u128) <= amount / 100) by (nonlinear_arith)
                requires
                    divisor > 100,
            ;
            assert(divisor == 109_951_162_777_600 ==> amount / 109_951_162_777_600 < u64::MAX);
        }
    }
    cat3(
        if thousandths < 0 {
            "-"
        } else {
            ""
        },
        tenths_text(nearest_wide(amount, divisor)).as_str(),
        name,
    )
}

pub open spec fn magnitude(v: i64) -> u64 {
    if v < 0 { (-v) as u64 } else { v as u64 }
}

/// The sign of a rounded amount.
pub open spec fn sign(v: i64) -> Seq<char> {
    if v < 0 { "-"@ } else { ""@ }
}

/// A value as the table shows it; the metric's name decides the unit.
pub open spec fn value_text(id: Seq<char>, value: MetricValue) -> Seq<char> {
    match value {
        MetricValue::Measured { thousandths } => if ends_in(id, "_bytes"@) {
            bytes_text(thousandths as int)
        } else if ends_in(id, "_bps"@) {
            bytes_text(thousandths as int) + "/s"@
        } else if ends_in(id, "_rpm"@) || ends_in(id, "_mhz"@) || ends_in(id, "_percent"@) {
            sign(thousandths) + decimal(nearest(magnitude(thousandths) as int, 1000) as nat)
        } else {
            sign(thousandths) + tenths(nearest(magnitude(thousandths) as int, 100) as nat)
        },
        MetricValue::Count(v) => if ends_in(id, "_raw"@) {
            "0x"@ + numeral(v as nat, 16)
        } else if ends_in(id, "_bytes"@) {
            bytes_text(1000 * v)
        } else {
            decimal(v as nat)
        },
        MetricValue::Flag(b) => if b { "yes"@ } else { "no"@ },
    }
}

/// Formats a value; the metric's name decides the unit.
pub fn fmt_value(id: &str, value: MetricValue) -> (r: String)
    ensures
        r@ == value_text(id@, value),
{
    match value {
        MetricValue::Measured { thousandths } => {
            let amount: u64 = if thousandths < 0 {
                (-(thousandths as i128)) as u64
            } else {
                thousandths as u64
            };
            let sign = if thousandths < 0 { "-" } else { "" };
            if text_ends_in(id, "_bytes") {
                human_bytes(thousandths as i128)
            } else if text_ends_in(id, "_bps") {
                cat2(human_bytes(thousandths as i128).as_str(), "/s")
            } else if text_ends_in(id, "_rpm") || text_ends_in(id, "_mhz") || text_ends_in(id, "_percent") {
                cat2(sign, decimal_text(nearest_of(amount, 1000)).as_str())
            } else {
                cat2(sign, tenths_text(nearest_of(amount, 100)).as_str())
            }
        },
        MetricValue::Count(v) => if text_ends_in(id, "_raw") {
            cat2("0x", hex_text(v).as_str())
        } else if text_ends_in(id, "_bytes") {
            human_bytes(v as i128 * 1000)
        } else {
            decimal_text(v)
        },
        MetricValue::Flag(b) => String::from_str(
            if b {
                "yes"
            } else {
                "no"
            },
        ),
    }
}

/// A quality as the table shows it: nothing for a fresh sample.
pub open spec fn quality_word(q: MetricQuality) -> Seq<char> {
    match q {
        MetricQuality::Fresh => ""@,
        MetricQuality::Estimated => "estimated"@,
        MetricQuality::Stale => "stale"@,
        MetricQuality::Unavailable => "unavailable"@,
        MetricQuality::Unsupported => "unsupported"@,
    }
}

/// Formats a quality.
pub fn fmt_quality(q: MetricQuality) -> (r: &'static str)
    ensures
        r@ == quality_word(q),
{
    match q {
        MetricQuality::Fresh => "",
        MetricQuality::Estimated => "estimated",
        MetricQuality::Stale => "stale",
        MetricQuality::Unavailable => "unavailable",
        MetricQuality::Unsupported => "unsupported",
    }
}

/// Formats a sample's age; a sample older than three periods is stale.
pub fn fmt_age(age_ms: u64, cadence_ms: u64) -> (r: String)
    ensures
        r@ == seconds(age_ms) + "s"@ + (if age_ms > cadence_ms * 3 { " STALE"@ } else { ""@ }),
{
    let stale = age_ms as u128 > cadence_ms as u128 * 3;
    cat3(
        seconds_text(age_ms).as_str(),
        "s",
        if stale {
            " STALE"
        } else {
            ""
        },
    )
}

/// A provider's state in words.
pub open spec fn provider_text(status: ProviderStatus) -> Seq<char> {
    match status {
        ProviderStatus::Healthy => "ok"@,
        ProviderStatus::Degraded(d) => "DEGRADED: "@ + d@,
        ProviderStatus::Unavailable(d) => "UNAVAILABLE: "@ + d@,
        ProviderStatus::Unsupported(d) => "UNSUPPORTED: "@ + d@,
    }
}

/// Formats a provider's state.
pub fn fmt_provider(status: &ProviderStatus) -> (r: String)
    ensures
        r@ == provider_text(*status),
{
    match status {
        ProviderStatus::Healthy => String::from_str("ok"),
        ProviderStatus::Degraded(d) => cat2("DEGRADED: ", d.as_str()),
        ProviderStatus::Unavailable(d) => cat2("UNAVAILABLE: ", d.as_str()),
        ProviderStatus::Unsupported(d) => cat2("UNSUPPORTED: ", d.as_str()),
    }
}

} // verus!
