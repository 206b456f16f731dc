use vstd::prelude::*;

use crate::device::BluetoothDeviceInfo;

verus! {

/// What the pairing workflow is configured with: the address of the device
/// to pair.
#[derive(Debug, Clone, Copy, PartialEq, Eq, Structural)]
pub struct Settings {
    pub procon_address: u64,
}

impl Settings {
    /// The settings that name the device at `index` of `devices`, where
    /// there is one.
    pub fn from_index(devices: &Vec<BluetoothDeviceInfo>, index: u32) -> (r: Option<Settings>)
        ensures
            (index as int) < devices@.len() ==> r == Some(
                Settings { procon_address: devices@[index as int]@.address },
            ),
            (index as int) >= devices@.len() ==> r is None,
    {
        if (index as usize) < devices.len() {
            Some(Settings { procon_address: devices[index as usize].address() })
        } else {
            None
        }
    }
}

} // verus!
