use vstd::prelude::*;

use crate::enumerator::SearchHandle;
use crate::radio::BluetoothRadioHandle;
use crate::device::BluetoothDeviceSearchParams;

verus! {

/// The identifier of the Human Interface Device service.
pub const HID_SERVICE_ID: u128 = 0x0000_1124_0000_1000_8000_0080_5F9B_34FB;

/// A call the OS boundary is to make on the library's behalf. Raw handles
/// are those of radios and searches the boundary opened.
#[allow(inconsistent_fields)]
pub enum OsCall {
    /// Open a radio search and fetch its first radio.
    FindFirstRadio,
    /// Open a device search under these parameters and fetch its first device.
    FindFirstDevice(BluetoothDeviceSearchParams),
    /// Fetch the next device of the open device search.
    FindNextDevice(usize),
    /// Remove the device with this address from the host's pairing records.
    RemoveDevice(u64),
    /// Pair with the device at `address` through `radio` (the system's
    /// default radio where `None`), submitting `pin` as UTF-16 code units.
    AuthenticateDevice { radio: Option<usize>, address: u64, pin: Vec<u16> },
    /// Count the services the OS associates with the device at this address.
    CountInstalledServices(u64),
    /// Enable the service `service` for the device at `address` through `radio`.
    EnableService { radio: usize, address: u64, service: u128 },
}

/// A handle that its holder gives up: the OS boundary closes it with the
/// close call of its kind. A failed close is a lifecycle bug, not a runtime
/// condition: the boundary stops the program on it.
pub enum Release {
    /// Close with the radio-search close call.
    RadioSearch(SearchHandle),
    /// Close with the device-search close call.
    DeviceSearch(SearchHandle),
    /// Close with the generic handle-close call.
    Radio(BluetoothRadioHandle),
}

} // verus!
