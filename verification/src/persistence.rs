//! Where settings and state are kept, one file for each responsibility, and
//! when a stored fan curve counts.
use vstd::prelude::*;

use crate::domain::policy::FanCurve;
use crate::text::{chars_of, decimal, decimal_text};

verus! {

/// A path ends in a separator.
pub open spec fn ends_in_separator(s: Seq<char>) -> bool {
    s.len() > 0 && (s.last() == '/' || s.last() == '\\')
}

/// A name below a directory.
pub open spec fn joined(base: Seq<char>, name: Seq<char>) -> Seq<char> {
    if base.len() == 0 || ends_in_separator(base) { base + name } else { base + "/"@ + name }
}

/// The path of a name below a directory.
pub fn join(base: &str, name: &str) -> (r: String)
    ensures
        r@ == joined(base@, name@),
{
    let chars = chars_of(base);
    let mut s = String::from_str(base);
    if chars.len() > 0 {
        let last = chars[chars.len() - 1];
        if last != '/' && last != '\\' {
            s.append("/");
        }
    }
    s.append(name);
    s
}

/// The directory of runtime data: below the user's local application data, or
/// the development directory where there is none.
pub fn data_dir(local_app_data: Option<&str>) -> (r: String)
    ensures
        r@ == (match local_app_data {
            Some(p) => joined(p@, "phelper"@),
            None => "./probe-out"@,
        }),
{
    match local_app_data {
        Some(p) => join(p, "phelper"),
        None => probe_out_dir(),
    }
}

/// The development directory of probe results.
pub fn probe_out_dir() -> (r: String)
    ensures
        r@ == "./probe-out"@,
{
    String::from_str("./probe-out")
}

/// The file of the last software curve that was applied.
pub fn fan_curve_path(data_dir: &str) -> (r: String)
    ensures
        r@ == joined(joined(data_dir@, "state"@), "fan_curve.toml"@),
{
    join(join(data_dir, "state").as_str(), "fan_curve.toml")
}

/// The file of the automation settings.
pub fn config_path(data_dir: &str) -> (r: String)
    ensures
        r@ == joined(data_dir@, "automation.toml"@),
{
    join(data_dir, "automation.toml")
}

/// The file of the control journal.
pub fn journal_path(data_dir: &str) -> (r: String)
    ensures
        r@ == joined(joined(data_dir@, "state"@), "control-journal.jsonl"@),
{
    join(join(data_dir, "state").as_str(), "control-journal.jsonl")
}

/// The file of a capability snapshot.
pub fn default_snapshot_path(base: &str, epoch_ms: u64) -> (r: String)
    ensures
        r@ == joined(base@, "capability-"@ + decimal(epoch_ms as nat) + ".json"@),
{
    let mut name = String::from_str("capability-");
    name.append(decimal_text(epoch_ms).as_str());
    name.append(".json");
    join(base, name.as_str())
}

/// Why a stored curve is not used.
#[derive(Clone, Copy, Debug, PartialEq, Eq, Structural)]
pub enum CurveFault {
    /// The file could not be read or understood.
    Unreadable,
    /// The curve is no curve.
    Invalid,
}

/// What reading the curve file gave.
#[derive(Clone, Copy, Debug, PartialEq)]
pub enum StoredCurve {
    /// There is no file.
    Missing,
    Unreadable,
    Found(FanCurve),
}

/// Decides what a curve file stands for: none where there is no file, and an
/// error where the curve in it is not valid.
pub fn load_fan_curve(stored: StoredCurve) -> (r: Result<Option<FanCurve>, CurveFault>)
    ensures
        r == (match stored {
            StoredCurve::Missing => Ok::<Option<FanCurve>, CurveFault>(None),
            StoredCurve::Unreadable => Err(CurveFault::Unreadable),
            StoredCurve::Found(c) => if c.valid() { Ok(Some(c)) } else { Err(CurveFault::Invalid) },
        }),
{
    match stored {
        StoredCurve::Missing => Ok(None),
        StoredCurve::Unreadable => Err(CurveFault::Unreadable),
        StoredCurve::Found(c) => if c.validate() {
            Ok(Some(c))
        } else {
            Err(CurveFault::Invalid)
        },
    }
}

/// Decides what is stored of a curve: the curve itself, if it is valid.
pub fn save_fan_curve(curve: FanCurve) -> (r: Result<FanCurve, CurveFault>)
    ensures
        r == (if curve.valid() { Ok::<FanCurve, CurveFault>(curve) } else { Err(CurveFault::Invalid) }),
{
    if curve.validate() {
        Ok(curve)
    } else {
        Err(CurveFault::Invalid)
    }
}

/// What is saved is what is loaded.
pub proof fn saved_curve_loads(curve: FanCurve, saved: Result<FanCurve, CurveFault>, loaded: Result<Option<FanCurve>, CurveFault>)
    requires
        call_ensures(save_fan_curve, (curve,), saved),
        saved is Ok,
        call_ensures(load_fan_curve, (StoredCurve::Found(saved->Ok_0),), loaded),
    ensures
        loaded == Ok::<Option<FanCurve>, CurveFault>(Some(curve)),
{
}

} // verus!
