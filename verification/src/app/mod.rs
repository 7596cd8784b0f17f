//! The application layer: the read model that pages are drawn from, and the
//! pump between the pages and the engine.

pub mod coalesce;
pub mod fmt;
pub mod journal_tail;
pub mod runtime;
pub mod settings;
pub mod state;
pub mod validate;

use vstd::prelude::*;

verus! {

/// Milliseconds since the epoch, of a clock that reads so many; a clock that
/// stands before the epoch reads zero.
pub fn now_epoch_ms(since_epoch: Option<u128>) -> (r: u64)
    ensures
        r == (match since_epoch {
            Some(ms) => ms % 0x1_0000_0000_0000_0000,
            None => 0,
        }),
{
    match since_epoch {
        Some(ms) => (ms % 0x1_0000_0000_0000_0000) as u64,
        None => 0,
    }
}

} // verus!
