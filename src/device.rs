use vstd::prelude::*;

use crate::enumerator::{reply_item, Enumerator, FindReply, SearchCall, SearchHandle, SearchState};
use crate::error::{Error, ERROR_NO_MORE_ITEMS, ERROR_SUCCESS};
use crate::os::{OsCall, HID_SERVICE_ID};
use crate::radio::BluetoothRadioHandle;
use crate::text::{decimal, decimal_string, decode_lossy, encode_utf16, utf16_lossy};
use vstd::string::*;

verus! {

/// The timeout multiplier a new search scope starts with.
pub const DEFAULT_TIMEOUT_MULTIPLIER: u8 = 10;

/// The filters and options of a device search. Built before the search and
/// never changed during it.
#[derive(Debug, Clone, Copy, PartialEq, Eq, Structural)]
pub struct BluetoothDeviceSearchParams {
    pub return_authenticated: bool,
    pub return_remembered: bool,
    pub return_unknown: bool,
    pub return_connected: bool,
    pub issue_inquiry: bool,
    /// The raw handle of the radio the search is confined to; the system's
    /// default radio where `None`.
    pub radio: Option<usize>,
    pub timeout_multiplier: u8,
}

impl BluetoothDeviceSearchParams {
    /// A scope with every filter off, no inquiry, the default timeout
    /// multiplier, confined to `handle` where one is given.
    pub fn new(handle: Option<&BluetoothRadioHandle>) -> (r: Self)
        ensures
            !r.return_authenticated,
            !r.return_remembered,
            !r.return_unknown,
            !r.return_connected,
            !r.issue_inquiry,
            r.timeout_multiplier == DEFAULT_TIMEOUT_MULTIPLIER,
            r.radio == (match handle {
                Some(h) => Some(h.0),
                None => None::<usize>,
            }),
    {
        let radio = match handle {
            Some(h) => Some(h.0),
            None => None,
        };
        BluetoothDeviceSearchParams {
            return_authenticated: false,
            return_remembered: false,
            return_unknown: false,
            return_connected: false,
            issue_inquiry: false,
            radio,
            timeout_multiplier: DEFAULT_TIMEOUT_MULTIPLIER,
        }
    }

    /// This scope, returning devices in every pairing and connection state.
    pub fn with_return_all(self) -> (r: Self)
        ensures
            r == (BluetoothDeviceSearchParams {
                return_authenticated: true,
                return_remembered: true,
                return_unknown: true,
                return_connected: true,
                ..self
            }),
    {
        BluetoothDeviceSearchParams {
            return_authenticated: true,
            return_remembered: true,
            return_unknown: true,
            return_connected: true,
            ..self
        }
    }

    pub fn with_timeout_multiplier(self, mult: u8) -> (r: Self)
        ensures
            r == (BluetoothDeviceSearchParams { timeout_multiplier: mult, ..self }),
    {
        BluetoothDeviceSearchParams { timeout_multiplier: mult, ..self }
    }

    pub fn with_return_authenticated(self) -> (r: Self)
        ensures
            r == (BluetoothDeviceSearchParams { return_authenticated: true, ..self }),
    {
        BluetoothDeviceSearchParams { return_authenticated: true, ..self }
    }

    pub fn with_return_remembered(self) -> (r: Self)
        ensures
            r == (BluetoothDeviceSearchParams { return_remembered: true, ..self }),
    {
        BluetoothDeviceSearchParams { return_remembered: true, ..self }
    }

    pub fn with_return_unknown(self) -> (r: Self)
        ensures
            r == (BluetoothDeviceSearchParams { return_unknown: true, ..self }),
    {
        BluetoothDeviceSearchParams { return_unknown: true, ..self }
    }

    pub fn with_return_connected(self) -> (r: Self)
        ensures
            r == (BluetoothDeviceSearchParams { return_connected: true, ..self }),
    {
        BluetoothDeviceSearchParams { return_connected: true, ..self }
    }

    pub fn with_issue_inquiry(self) -> (r: Self)
        ensures
            r == (BluetoothDeviceSearchParams { issue_inquiry: true, ..self }),
    {
        BluetoothDeviceSearchParams { issue_inquiry: true, ..self }
    }
}

/// The PIN submitted when pairing: "0000" as UTF-16 code units.
pub open spec fn pin_units() -> Seq<u16> {
    seq![0x30u16, 0x30u16, 0x30u16, 0x30u16]
}

/// `b` as text.
pub open spec fn flag_text(b: bool) -> Seq<char> {
    if b {
        "true"@
    } else {
        "false"@
    }
}

/// The summary of a device for display: its name, address and flags, one per line.
pub open spec fn summary_text(d: DeviceModel) -> Seq<char> {
    "Name: "@ + utf16_lossy(d.name) + "\nAddress: "@ + decimal(d.address as nat) + "\nConnected: "@
        + flag_text(d.connected) + "\nRemembered: "@ + flag_text(d.remembered)
        + "\nAuthenticated: "@ + flag_text(d.authenticated) + "\n"@
}

fn append_flag(out: &mut String, b: bool)
    ensures
        final(out)@ == old(out)@ + flag_text(b),
{
    if b {
        out.append("true");
    } else {
        out.append("false");
    }
}

/// What a record holds once the OS removed its device: a full unpair.
pub open spec fn removed(d: DeviceModel) -> DeviceModel {
    DeviceModel { connected: false, remembered: false, authenticated: false, ..d }
}

/// After a removal the OS confirmed, the record reports the device as neither
/// connected, remembered nor authenticated, without a fresh query; it is
/// still the same device.
pub proof fn lemma_removal_clears_flags(before: BluetoothDeviceInfo, after: BluetoothDeviceInfo)
    requires
        after@ == removed(before@),
    ensures
        !after@.connected,
        !after@.remembered,
        !after@.authenticated,
        after@.address == before@.address,
        after@.name == before@.name,
{
}

/// What a record holds.
pub ghost struct DeviceModel {
    pub address: u64,
    pub class_of_device: u32,
    pub connected: bool,
    pub remembered: bool,
    pub authenticated: bool,
    /// The name as the OS holds it: UTF-16 code units, nulls included.
    pub name: Seq<u16>,
}

/// A snapshot of one remote device, identified by its hardware address.
///
/// The flags are the OS's as of the last query; the operations that change
/// them on the OS change them here too.
pub struct BluetoothDeviceInfo {
    address: u64,
    class_of_device: u32,
    connected: bool,
    remembered: bool,
    authenticated: bool,
    name: Vec<u16>,
}

impl View for BluetoothDeviceInfo {
    type V = DeviceModel;

    closed spec fn view(&self) -> DeviceModel {
        DeviceModel {
            address: self.address,
            class_of_device: self.class_of_device,
            connected: self.connected,
            remembered: self.remembered,
            authenticated: self.authenticated,
            name: self.name@,
        }
    }
}

impl BluetoothDeviceInfo {
    /// A record of what the OS reported of a device.
    pub fn new(
        address: u64,
        class_of_device: u32,
        connected: bool,
        remembered: bool,
        authenticated: bool,
        name: Vec<u16>,
    ) -> (r: Self)
        ensures
            r@ == (DeviceModel {
                address,
                class_of_device,
                connected,
                remembered,
                authenticated,
                name: name@,
            }),
    {
        BluetoothDeviceInfo { address, class_of_device, connected, remembered, authenticated, name }
    }

    pub fn is_connected(&self) -> (r: bool)
        ensures
            r == self@.connected,
    {
        self.connected
    }

    pub fn is_remembered(&self) -> (r: bool)
        ensures
            r == self@.remembered,
    {
        self.remembered
    }

    pub fn is_authenticated(&self) -> (r: bool)
        ensures
            r == self@.authenticated,
    {
        self.authenticated
    }

    pub fn address(&self) -> (r: u64)
        ensures
            r == self@.address,
    {
        self.address
    }

    pub fn class_of_device(&self) -> (r: u32)
        ensures
            r == self@.class_of_device,
    {
        self.class_of_device
    }

    /// The raw UTF-16 code units of the name.
    pub fn name_units(&self) -> (r: &[u16])
        ensures
            r@ == self@.name,
    {
        self.name.as_slice()
    }

    /// The name, decoded from UTF-16 with unpaired surrogates replaced.
    pub fn name(&self) -> (r: String)
        ensures
            r@ == utf16_lossy(self@.name),
    {
        decode_lossy(self.name.as_slice())
    }

    /// The name, address and flags of the device, one per line.
    pub fn summary(&self) -> (r: String)
        ensures
            r@ == summary_text(self@),
    {
        let mut out = String::from_str("Name: ");
        out.append(self.name().as_str());
        out.append("\nAddress: ");
        out.append(decimal_string(self.address).as_str());
        out.append("\nConnected: ");
        append_flag(&mut out, self.connected);
        out.append("\nRemembered: ");
        append_flag(&mut out, self.remembered);
        out.append("\nAuthenticated: ");
        append_flag(&mut out, self.authenticated);
        out.append("\n");
        out
    }

    /// The OS call that removes the device, which applies only to a
    /// remembered device: any other is refused with `InvalidState`, and no
    /// call is to be made. The answer goes to [`Self::device_removed`].
    pub fn remove_device(&self) -> (r: Result<OsCall, Error>)
        ensures
            !self@.remembered ==> r == Err::<OsCall, Error>(Error::InvalidState),
            self@.remembered ==> r == Ok::<OsCall, Error>(OsCall::RemoveDevice(self@.address)),
    {
        if self.remembered {
            Ok(OsCall::RemoveDevice(self.address))
        } else {
            Err(Error::InvalidState)
        }
    }

    /// Takes the status of the removal: on success the device is no longer
    /// connected, remembered or authenticated; on failure nothing changes.
    pub fn device_removed(&mut self, status: u32) -> (r: Result<(), Error>)
        ensures
            status == ERROR_SUCCESS ==> r == Ok::<(), Error>(()) && final(self)@ == removed(old(self)@),
            status != ERROR_SUCCESS ==> r == Err::<(), Error>(Error::System(status))
                && final(self)@ == old(self)@,
    {
        if status == ERROR_SUCCESS {
            self.connected = false;
            self.remembered = false;
            self.authenticated = false;
            Ok(())
        } else {
            Err(Error::System(status))
        }
    }

    /// The OS call that pairs with the device through `radio` (the system's
    /// default radio where `None`) with the PIN "0000". An authenticated
    /// device is refused with `InvalidState`, and no call is to be made. The
    /// answer goes to [`Self::device_authenticated`].
    pub fn authenticate_device(&self, radio: Option<&BluetoothRadioHandle>) -> (r: Result<OsCall, Error>)
        ensures
            self@.authenticated ==> r == Err::<OsCall, Error>(Error::InvalidState),
            !self@.authenticated ==> (r matches Ok(OsCall::AuthenticateDevice { radio: rr, address, pin })
                && address == self@.address && pin@ == pin_units() && rr == (match radio {
                Some(h) => Some(h.0),
                None => None::<usize>,
            })),
    {
        if self.authenticated {
            Err(Error::InvalidState)
        } else {
            proof {
                reveal_strlit("0000");
            }
            let pin = encode_utf16("0000");
            assert(pin@ =~= pin_units());
            let rr = match radio {
                Some(h) => Some(h.0),
                None => None,
            };
            Ok(OsCall::AuthenticateDevice { radio: rr, address: self.address, pin })
        }
    }

    /// Takes the status of the pairing: on success the device is
    /// authenticated; on failure nothing changes.
    pub fn device_authenticated(&mut self, status: u32) -> (r: Result<(), Error>)
        ensures
            status == ERROR_SUCCESS ==> r == Ok::<(), Error>(()) && final(self)@ == (DeviceModel {
                authenticated: true,
                ..old(self)@
            }),
            status != ERROR_SUCCESS ==> r == Err::<(), Error>(Error::System(status))
                && final(self)@ == old(self)@,
    {
        if status == ERROR_SUCCESS {
            self.authenticated = true;
            Ok(())
        } else {
            Err(Error::System(status))
        }
    }

    /// The OS call that counts the services installed for the device. The
    /// answer goes to [`services_counted`].
    pub fn count_installed_services(&self) -> (r: OsCall)
        ensures
            r == OsCall::CountInstalledServices(self@.address),
    {
        OsCall::CountInstalledServices(self.address)
    }

    /// The OS call that enables the Human Interface Device service for the
    /// device through `radio`. Its status maps as [`crate::status_result`] says.
    pub fn enable_hid_service(&self, radio: &BluetoothRadioHandle) -> (r: OsCall)
        ensures
            r == (OsCall::EnableService { radio: radio.0, address: self@.address, service: HID_SERVICE_ID }),
    {
        OsCall::EnableService { radio: radio.0, address: self.address, service: HID_SERVICE_ID }
    }
}

/// The count of installed services, from the status and the count the OS
/// answered.
pub fn services_counted(status: u32, count: u32) -> (r: Result<u32, Error>)
    ensures
        status == ERROR_SUCCESS ==> r == Ok::<u32, Error>(count),
        status != ERROR_SUCCESS ==> r == Err::<u32, Error>(Error::System(status)),
{
    if status == ERROR_SUCCESS {
        Ok(count)
    } else {
        Err(Error::System(status))
    }
}

/// Where a scan for one address stands after a step.
pub enum ScanStep {
    /// The item was another device: the scan goes on.
    Searching,
    /// The target device; the search has ended.
    Found(BluetoothDeviceInfo),
    /// The search ended without the target.
    Absent,
    /// The search failed.
    Failed(Error),
}

/// The search over the devices a scope admits.
pub struct BluetoothDeviceSearch {
    params: BluetoothDeviceSearchParams,
    search: Enumerator,
}

impl BluetoothDeviceSearch {
    /// The search underneath.
    pub closed spec fn search(&self) -> Enumerator {
        self.search
    }

    pub closed spec fn params_spec(&self) -> BluetoothDeviceSearchParams {
        self.params
    }

    pub open spec fn wf(&self) -> bool {
        self.search().wf()
    }

    /// A search under `params` that has not yet called the OS.
    pub fn new(params: BluetoothDeviceSearchParams) -> (r: BluetoothDeviceSearch)
        ensures
            r.wf(),
            r.params_spec() == params,
            r.search().state() == SearchState::Unopened,
            r.search().replies() == 0,
            r.search().opened() is None,
            r.search().released() == 0,
            r.search().yielded() == 0,
    {
        BluetoothDeviceSearch { params, search: Enumerator::new() }
    }

    /// The scope of the search, which find-first takes.
    pub fn params(&self) -> (r: BluetoothDeviceSearchParams)
        ensures
            r == self.params_spec(),
    {
        self.params
    }

    /// The OS call the next step needs.
    pub fn call(&self) -> (r: SearchCall)
        requires
            self.wf(),
        ensures
            r == self.search().call_spec(),
    {
        self.search.call()
    }

    /// Whether `reply` answers the call the next step needs.
    pub fn accepts(&self, reply: &FindReply<BluetoothDeviceInfo>) -> (r: bool)
        requires
            self.wf(),
        ensures
            r == self.search().answers(*reply),
    {
        self.search.accepts(reply)
    }

    /// The next device, or `NotFound` once the OS has no (more) devices; see
    /// [`Enumerator::find_next`].
    pub fn find_next(&mut self, reply: FindReply<BluetoothDeviceInfo>) -> (r: (
        Result<BluetoothDeviceInfo, Error>,
        Option<SearchHandle>,
    ))
        requires
            old(self).wf(),
            old(self).search().answers(reply),
        ensures
            Enumerator::stepped(old(self).search(), final(self).search(), reply, r.0, r.1),
            final(self).params_spec() == old(self).params_spec(),
    {
        self.search.find_next(reply)
    }

    /// The next device, as an iterator gives it; see [`Enumerator::next`].
    pub fn next(&mut self, reply: FindReply<BluetoothDeviceInfo>) -> (r: (
        Option<Result<BluetoothDeviceInfo, Error>>,
        Option<SearchHandle>,
    ))
        requires
            old(self).wf(),
            old(self).search().answers(reply),
        ensures
            Enumerator::stepped_item(old(self).search(), final(self).search(), reply, r.0, r.1),
            final(self).params_spec() == old(self).params_spec(),
    {
        self.search.next(reply)
    }

    /// Ends the search early; see [`Enumerator::abandon`].
    pub fn abandon(&mut self) -> (r: Option<SearchHandle>)
        requires
            old(self).wf(),
        ensures
            final(self).wf(),
            final(self).params_spec() == old(self).params_spec(),
            final(self).search().state() == SearchState::Finished,
            final(self).search().opened() == old(self).search().opened(),
            (old(self).search().state() == SearchState::Open) == (r is Some),
            r matches Some(h) ==> old(self).search().opened() == Some(h.0),
            final(self).search().released() == old(self).search().released() + (if old(self).search().state()
                == SearchState::Open {
                1nat
            } else {
                0nat
            }),
    {
        self.search.abandon()
    }

    /// One step of a linear scan for the device at `target`: takes the OS's
    /// answer to [`Self::call`] and says whether the scan goes on, found the
    /// device, or ended without it or on a failure. A scan that ends hands back
    /// the open search's handle to be closed.
    pub fn find_by_address(&mut self, target: u64, reply: FindReply<BluetoothDeviceInfo>) -> (r: (
        ScanStep,
        Option<SearchHandle>,
    ))
        requires
            old(self).wf(),
            old(self).search().answers(reply),
        ensures
            final(self).wf(),
            final(self).params_spec() == old(self).params_spec(),
            final(self).search().replies() == old(self).search().replies() + 1,
            (r.1 is Some) == ((old(self).search().state() == SearchState::Open
                && final(self).search().state() == SearchState::Finished) || (old(self).search().state()
                == SearchState::Unopened && reply is First && r.0 is Found)),
            r.1 matches Some(h) ==> final(self).search().opened() == Some(h.0),
            match reply {
                FindReply::First(_, t) | FindReply::Next(t) => {
                    if t@.address == target {
                        r.0 == ScanStep::Found(t) && final(self).search().state()
                            == SearchState::Finished
                    } else {
                        r.0 == ScanStep::Searching && final(self).search().state()
                            == SearchState::Open
                    }
                },
                FindReply::Failed(status) => {
                    &&& final(self).search().state() == SearchState::Finished
                    &&& status == ERROR_NO_MORE_ITEMS ==> r.0 == ScanStep::Absent
                    &&& status != ERROR_NO_MORE_ITEMS ==> r.0 == ScanStep::Failed(
                        Error::System(status),
                    )
                },
            },
    {
        let (item, closing) = self.search.find_next(reply);
        match item {
            Ok(device) => {
                if device.address == target {
                    let handle = self.search.abandon();
                    (ScanStep::Found(device), handle)
                } else {
                    (ScanStep::Searching, closing)
                }
            },
            Err(Error::NotFound) => (ScanStep::Absent, closing),
            Err(e) => (ScanStep::Failed(e), closing),
        }
    }

    /// One step of listing every device the search yields: takes the OS's
    /// answer to [`Self::call`] and appends the device it carries to `found`.
    /// Returns whether the sequence has ended, and the open search's handle
    /// to be closed where it has.
    pub fn find_devices(&mut self, reply: FindReply<BluetoothDeviceInfo>, found: &mut Vec<BluetoothDeviceInfo>) -> (r: (
        bool,
        Option<SearchHandle>,
    ))
        requires
            old(self).wf(),
            old(self).search().answers(reply),
        ensures
            Enumerator::stepped(old(self).search(), final(self).search(), reply, reply_item(reply), r.1),
            final(self).params_spec() == old(self).params_spec(),
            r.0 == (final(self).search().state() == SearchState::Finished),
            match reply {
                FindReply::First(_, t) | FindReply::Next(t) => final(found)@ == old(found)@.push(t),
                FindReply::Failed(_) => final(found)@ == old(found)@,
            },
    {
        let (item, closing) = self.search.find_next(reply);
        match item {
            Ok(device) => {
                found.push(device);
                (false, closing)
            },
            Err(_) => (true, closing),
        }
    }
}

} // verus!