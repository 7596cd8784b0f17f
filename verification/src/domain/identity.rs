//! Who the machine is.
use vstd::prelude::*;

verus! {

/// What the machine calls itself.
#[derive(Clone, Debug, PartialEq)]
pub struct DeviceIdentity {
    pub manufacturer: String,
    pub product_name: String,
    pub board_id: String,
    pub bios_version: String,
    pub cpu: String,
    pub gpus: Vec<String>,
}

} // verus!
