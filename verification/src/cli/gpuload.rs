//! The graphics load generator, a means of verification.
use vstd::prelude::*;

use crate::format::cat4;
use crate::text::{decimal, decimal_text};

verus! {

/// How long to load the graphics processor, and with how much memory.
#[derive(Clone, Copy, Debug, PartialEq, Eq, Structural)]
pub struct GpuLoadArgs {
    pub seconds: u64,
    pub mem_mib: u64,
}

impl Default for GpuLoadArgs {
    fn default() -> (r: GpuLoadArgs)
        ensures
            r == (GpuLoadArgs { seconds: 30, mem_mib: 512 }),
    {
        GpuLoadArgs { seconds: 30, mem_mib: 512 }
    }
}

/// Memory sets that are queued before the queue is waited for.
pub const BATCH: u64 = 64;

/// The bytes of so many mebibytes, as far as an address reaches.
pub open spec fn buffer_bytes_of(mem_mib: u64) -> int {
    (mem_mib * 0x10_0000) % 0x1_0000_0000_0000_0000
}

/// The bytes of so many mebibytes, as far as an address reaches.
pub fn buffer_bytes(mem_mib: u64) -> (r: u64)
    ensures
        r == buffer_bytes_of(mem_mib),
{
    ((mem_mib as u128 * 0x10_0000) % 0x1_0000_0000_0000_0000) as u64
}

/// The four-byte words of so many mebibytes.
pub fn buffer_words(mem_mib: u64) -> (r: u64)
    ensures
        r == buffer_bytes_of(mem_mib) / 4,
{
    buffer_bytes(mem_mib) / 4
}

/// A signed number in decimal.
pub open spec fn signed(n: i32) -> Seq<char> {
    if n < 0 { "-"@ + decimal((-n) as nat) } else { ""@ + decimal(n as nat) }
}

/// The message of a failed call.
pub open spec fn failure_text(rc: i32, what: Seq<char>) -> Seq<char> {
    what + " failed: CUresult="@ + signed(rc)
}

/// Judges a call by its return code: zero is success.
pub fn check(rc: i32, what: &str) -> (r: Result<(), String>)
    ensures
        rc == 0 ==> r is Ok,
        rc != 0 ==> (r matches Err(e) && e@ == failure_text(rc, what@)),
{
    if rc == 0 {
        return Ok(());
    }
    let wide: i64 = rc as i64;
    let magnitude: u64 = if wide < 0 { (-wide) as u64 } else { wide as u64 };
    let sign = if rc < 0 { "-" } else { "" };
    let e = cat4(what, " failed: CUresult=", sign, decimal_text(magnitude).as_str());
    assert(e@ =~= failure_text(rc, what@));
    Err(e)
}

} // verus!
