//! Descriptions of remote devices, as the pairing flow reports them.

use vstd::prelude::*;

verus! {

/// One known remote device: its advertised name, its MAC address, the
/// vendor derived from that address (when known), and whether it is bonded.
#[derive(Debug, Clone)]
pub struct DeviceInfo {
    pub name: String,
    pub address: String,
    pub vendor: Option<String>,
    pub bonded: bool,
}

} // verus!
