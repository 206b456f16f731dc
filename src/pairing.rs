use vstd::prelude::*;

use crate::device::{
    pin_units, removed, services_counted, BluetoothDeviceInfo, BluetoothDeviceSearch,
    BluetoothDeviceSearchParams, DeviceModel, ScanStep, DEFAULT_TIMEOUT_MULTIPLIER,
};
use crate::enumerator::{search_error, Enumerator, FindReply, SearchCall, SearchHandle, SearchState};
use crate::error::{status_result, Error, ERROR_SUCCESS};
use crate::os::{OsCall, Release, HID_SERVICE_ID};
use crate::radio::{BluetoothRadioHandle, BluetoothRadioSearch};

verus! {

/// Takes the first radio of a fresh radio search, from the OS's answer to
/// find-first, and ends the search: its handle comes back to be closed.
pub fn get_radio(search: &mut BluetoothRadioSearch, reply: FindReply<BluetoothRadioHandle>) -> (r: (
    Result<BluetoothRadioHandle, Error>,
    Option<SearchHandle>,
))
    requires
        old(search).wf(),
        old(search).search().state() == SearchState::Unopened,
        !(reply is Next),
    ensures
        final(search).wf(),
        final(search).search().state() == SearchState::Finished,
        match reply {
            FindReply::First(h, radio) => r.0 == Ok::<BluetoothRadioHandle, Error>(radio) && r.1
                == Some(h) && final(search).search().opened() == Some(h.0),
            FindReply::Failed(status) => r.0 == Err::<BluetoothRadioHandle, Error>(
                search_error(status),
            ) && r.1 is None,
            FindReply::Next(_) => false,
        },
{
    let (first, closing) = search.find_next(reply);
    match first {
        Ok(radio) => {
            let handle = search.abandon();
            (Ok(radio), handle)
        },
        Err(e) => (Err(e), closing),
    }
}

/// The step of the pairing workflow that failed.
#[derive(Debug, Clone, Copy, PartialEq, Eq, Structural)]
pub enum FailedStep {
    /// No radio could be had.
    NoAdapter,
    /// The scan did not produce the target device.
    DeviceNotFound,
    Remove,
    Authenticate,
    CountServices,
    EnableService,
}

/// How a pairing run failed: the step and the error it met.
#[derive(Debug, Clone, Copy, PartialEq, Eq, Structural)]
pub struct Failure {
    pub step: FailedStep,
    pub error: Error,
}

/// How a pairing run succeeded.
#[derive(Debug, Clone, Copy, PartialEq, Eq, Structural)]
pub enum Outcome {
    /// The device was connected already; nothing was done.
    AlreadyConnected,
    /// The device was paired and already had services installed.
    Paired,
    /// The device was paired and the Human Interface Device service enabled.
    PairedServiceEnabled,
}

/// Where a pairing run stands: the answer of which call it awaits.
#[derive(Debug, Clone, Copy, PartialEq, Eq, Structural)]
pub enum Stage {
    Start,
    FindRadio,
    FindDevice,
    Remove,
    Authenticate,
    CountServices,
    EnableService,
    Done,
}

/// What the OS boundary answered to the last call of a run.
pub enum Reply {
    /// The start of the run: no call was made yet.
    Begin,
    /// The answer to a radio search call.
    Radio(FindReply<BluetoothRadioHandle>),
    /// The answer to a device search call.
    Device(FindReply<BluetoothDeviceInfo>),
    /// The status of a removal, a pairing or a service change.
    Status(u32),
    /// The status of a service count, and the count.
    Count(u32, u32),
}

/// What the OS boundary is to do next: close the handles in `releases`, then
/// make `call`, whose answer goes to the next step. A run without a call is over.
pub struct Turn {
    pub releases: Vec<Release>,
    pub call: Option<OsCall>,
}

/// The scope of the scan for the target: every device the radio knows.
pub open spec fn scan_params(radio: usize) -> BluetoothDeviceSearchParams {
    BluetoothDeviceSearchParams {
        return_authenticated: true,
        return_remembered: true,
        return_unknown: true,
        return_connected: true,
        issue_inquiry: false,
        radio: Some(radio),
        timeout_multiplier: DEFAULT_TIMEOUT_MULTIPLIER,
    }
}

/// Whether `call` pairs with the device at `address` through `radio`, with
/// the fixed PIN.
pub open spec fn is_authenticate_call(call: Option<OsCall>, radio: usize, address: u64) -> bool {
    call matches Some(OsCall::AuthenticateDevice { radio: r, address: a, pin }) && r == Some(radio)
        && a == address && pin@ == pin_units()
}

/// The handles an answer hands over: a radio search's first answer brings
/// its search and a radio, a device search's first answer its search.
pub open spec fn handles_in(reply: Reply) -> nat {
    match reply {
        Reply::Radio(FindReply::First(..)) => 2,
        Reply::Device(FindReply::First(..)) => 1,
        _ => 0,
    }
}

/// The pairing workflow for the device at one address: find a radio, scan
/// for the device, stop if it is connected, remove it if remembered, pair
/// with it, and enable the Human Interface Device service where it has no
/// services. No step is retried; the first failure ends the run.
///
/// Each [`Pairing::step`] takes the answer to the last call and gives the
/// next call, with the handles to close first.
pub struct Pairing {
    target: u64,
    stage: Stage,
    radios: BluetoothRadioSearch,
    radio: Option<BluetoothRadioHandle>,
    devices: BluetoothDeviceSearch,
    device: Option<BluetoothDeviceInfo>,
    result: Option<Result<Outcome, Failure>>,
    /// How many handles the OS boundary handed over.
    acquired: Ghost<nat>,
    /// How many handles were handed back to be closed.
    released: Ghost<nat>,
}

impl Pairing {
    pub closed spec fn target(&self) -> u64 {
        self.target
    }

    pub closed spec fn stage(&self) -> Stage {
        self.stage
    }

    /// The raw handle of the radio the run holds, if it holds one.
    pub closed spec fn radio_raw(&self) -> Option<usize> {
        match self.radio {
            Some(h) => Some(h.0),
            None => None,
        }
    }

    /// The scan for the target device.
    pub closed spec fn device_search(&self) -> Enumerator {
        self.devices.search()
    }

    /// The target device's record, once the scan found it.
    pub closed spec fn device(&self) -> Option<DeviceModel> {
        match self.device {
            Some(d) => Some(d@),
            None => None,
        }
    }

    /// How the run ended, once it has.
    pub closed spec fn result(&self) -> Option<Result<Outcome, Failure>> {
        self.result
    }

    /// How many handles the OS boundary handed over to the run.
    pub closed spec fn acquired(&self) -> nat {
        self.acquired@
    }

    /// How many handles the run handed back to be closed.
    pub closed spec fn released(&self) -> nat {
        self.released@
    }

    /// How many handles the run holds.
    pub closed spec fn held(&self) -> nat {
        (if self.radios.search().state() == SearchState::Open {
            1nat
        } else {
            0nat
        }) + (if self.radio is Some {
            1nat
        } else {
            0nat
        }) + (if self.devices.search().state() == SearchState::Open {
            1nat
        } else {
            0nat
        })
    }

    pub closed spec fn wf(&self) -> bool {
        &&& self.radios.wf()
        &&& self.devices.wf()
        &&& self.acquired@ == self.released@ + self.held()
        &&& (self.stage == Stage::Done) == (self.result is Some)
        &&& match self.stage {
            Stage::Start | Stage::FindRadio => {
                &&& self.radios.search().state() == SearchState::Unopened
                &&& self.radio is None
                &&& self.devices.search().state() == SearchState::Unopened
                &&& self.device is None
                &&& self.stage == Stage::Start ==> self.acquired@ == 0
            },
            Stage::FindDevice => {
                &&& self.radios.search().state() == SearchState::Finished
                &&& self.radio is Some
                &&& self.devices.search().state() != SearchState::Finished
                &&& self.device is None
            },
            Stage::Done => {
                &&& self.radios.search().state() != SearchState::Open
                &&& self.radio is None
                &&& self.devices.search().state() != SearchState::Open
            },
            _ => {
                &&& self.radios.search().state() == SearchState::Finished
                &&& self.radio is Some
                &&& self.devices.search().state() == SearchState::Finished
                &&& self.device is Some
            },
        }
    }

    /// Whether `reply` answers the last call of the run.
    pub open spec fn answers(&self, reply: Reply) -> bool {
        match self.stage() {
            Stage::Start => reply is Begin,
            Stage::FindRadio => reply matches Reply::Radio(fr) && !(fr is Next),
            Stage::FindDevice => reply matches Reply::Device(fr) && self.device_search().answers(fr),
            Stage::Remove | Stage::Authenticate | Stage::EnableService => reply is Status,
            Stage::CountServices => reply is Count,
            Stage::Done => false,
        }
    }

    /// A run for the device at `target` that has not yet called the OS.
    pub fn new(target: u64) -> (r: Pairing)
        ensures
            r.wf(),
            r.target() == target,
            r.stage() == Stage::Start,
            r.result() is None,
            r.acquired() == 0,
            r.released() == 0,
    {
        Pairing {
            target,
            stage: Stage::Start,
            radios: BluetoothRadioSearch::new(),
            radio: None,
            devices: BluetoothDeviceSearch::new(BluetoothDeviceSearchParams::new(None)),
            device: None,
            result: None,
            acquired: Ghost(0),
            released: Ghost(0),
        }
    }

    /// `post` ended the run with `result`, making no call.
    pub open spec fn ends_with(post: Pairing, result: Result<Outcome, Failure>, call: Option<OsCall>) -> bool {
        &&& post.stage() == Stage::Done
        &&& post.result() == Some(result)
        &&& call is None
    }

    /// `post` goes on to pair with the device `d`: it asks for the pairing
    /// call, or fails with `InvalidState` where `d` is authenticated already.
    pub open spec fn authenticating(pre: Pairing, post: Pairing, d: DeviceModel, call: Option<OsCall>) -> bool {
        if d.authenticated {
            Self::ends_with(
                post,
                Err(Failure { step: FailedStep::Authenticate, error: Error::InvalidState }),
                call,
            )
        } else {
            post.stage() == Stage::Authenticate && is_authenticate_call(
                call,
                pre.radio_raw().unwrap(),
                d.address,
            )
        }
    }

    /// `post` found the target `d` and judged it: stop if it is connected,
    /// remove it if it is remembered, pair with it otherwise.
    pub open spec fn evaluated(pre: Pairing, post: Pairing, d: DeviceModel, call: Option<OsCall>) -> bool {
        &&& post.device() == Some(d)
        &&& if d.connected {
            Self::ends_with(post, Ok(Outcome::AlreadyConnected), call)
        } else if d.remembered {
            post.stage() == Stage::Remove && call == Some(OsCall::RemoveDevice(d.address))
        } else {
            Self::authenticating(pre, post, d, call)
        }
    }

    /// `post` ended the run on `step` failing with the status `status`.
    pub open spec fn failed_on(post: Pairing, step: FailedStep, status: u32, call: Option<OsCall>) -> bool {
        Self::ends_with(post, Err(Failure { step, error: Error::System(status) }), call)
    }

    /// What one step of the run does with the answer `reply`: the stage it
    /// moves to, the call it asks for, and how the run ends where it does.
    pub open spec fn transition(pre: Pairing, post: Pairing, reply: Reply, call: Option<OsCall>) -> bool {
        let d = pre.device().unwrap();
        match pre.stage() {
            Stage::Start => post.stage() == Stage::FindRadio && call == Some(OsCall::FindFirstRadio),
            Stage::FindRadio => match reply {
                Reply::Radio(FindReply::First(_, radio)) => {
                    &&& post.stage() == Stage::FindDevice
                    &&& post.radio_raw() == Some(radio.0)
                    &&& post.device_search().state() == SearchState::Unopened
                    &&& call == Some(OsCall::FindFirstDevice(scan_params(radio.0)))
                },
                Reply::Radio(FindReply::Failed(status)) => Self::ends_with(
                    post,
                    Err(Failure { step: FailedStep::NoAdapter, error: search_error(status) }),
                    call,
                ),
                _ => false,
            },
            Stage::FindDevice => match reply {
                Reply::Device(FindReply::First(_, t)) | Reply::Device(FindReply::Next(t)) => {
                    if t@.address == pre.target() {
                        Self::evaluated(pre, post, t@, call)
                    } else {
                        &&& post.stage() == Stage::FindDevice
                        &&& post.device_search().state() == SearchState::Open
                        &&& call == Some(
                            OsCall::FindNextDevice(post.device_search().opened().unwrap()),
                        )
                    }
                },
                Reply::Device(FindReply::Failed(status)) => Self::ends_with(
                    post,
                    Err(Failure { step: FailedStep::DeviceNotFound, error: search_error(status) }),
                    call,
                ),
                _ => false,
            },
            Stage::Remove => match reply {
                Reply::Status(status) => if status == ERROR_SUCCESS {
                    let cleared = removed(d);
                    post.device() == Some(cleared) && Self::authenticating(pre, post, cleared, call)
                } else {
                    Self::failed_on(post, FailedStep::Remove, status, call)
                },
                _ => false,
            },
            Stage::Authenticate => match reply {
                Reply::Status(status) => if status == ERROR_SUCCESS {
                    &&& post.stage() == Stage::CountServices
                    &&& post.device() == Some(DeviceModel { authenticated: true, ..d })
                    &&& call == Some(OsCall::CountInstalledServices(d.address))
                } else {
                    Self::failed_on(post, FailedStep::Authenticate, status, call)
                },
                _ => false,
            },
            Stage::CountServices => match reply {
                Reply::Count(status, count) => if status != ERROR_SUCCESS {
                    Self::failed_on(post, FailedStep::CountServices, status, call)
                } else if count == 0 {
                    &&& post.stage() == Stage::EnableService
                    &&& call == Some(
                        OsCall::EnableService {
                            radio: pre.radio_raw().unwrap(),
                            address: d.address,
                            service: HID_SERVICE_ID,
                        },
                    )
                } else {
                    Self::ends_with(post, Ok(Outcome::Paired), call)
                },
                _ => false,
            },
            Stage::EnableService => match reply {
                Reply::Status(status) => if status == ERROR_SUCCESS {
                    Self::ends_with(post, Ok(Outcome::PairedServiceEnabled), call)
                } else {
                    Self::failed_on(post, FailedStep::EnableService, status, call)
                },
                _ => false,
            },
            Stage::Done => false,
        }
    }

    /// Whether `reply` answers the last call of the run.
    pub fn accepts(&self, reply: &Reply) -> (r: bool)
        requires
            self.wf(),
        ensures
            r == self.answers(*reply),
    {
        match (self.stage, reply) {
            (Stage::Start, Reply::Begin) => true,
            (Stage::FindRadio, Reply::Radio(FindReply::Next(_))) => false,
            (Stage::FindRadio, Reply::Radio(_)) => true,
            (Stage::FindDevice, Reply::Device(fr)) => self.devices.accepts(fr),
            (Stage::Remove, Reply::Status(_)) => true,
            (Stage::Authenticate, Reply::Status(_)) => true,
            (Stage::EnableService, Reply::Status(_)) => true,
            (Stage::CountServices, Reply::Count(..)) => true,
            _ => false,
        }
    }

    /// How the run ended, once it has.
    pub fn outcome(&self) -> (r: Option<Result<Outcome, Failure>>)
        ensures
            r == self.result(),
    {
        self.result
    }

    /// The target device's record, once the scan found it.
    pub fn found_device(&self) -> (r: Option<&BluetoothDeviceInfo>)
        ensures
            r matches Some(d) ==> self.device() == Some(d@),
            r is None ==> self.device() is None,
    {
        match &self.device {
            Some(d) => Some(d),
            None => None,
        }
    }

    /// Takes the answer to the last call (`Begin` at the start) and says what
    /// the OS boundary is to do next: which handles to close, then which call
    /// to make. A turn without a call ends the run; [`Pairing::outcome`] then
    /// says how.
    pub fn step(&mut self, reply: Reply) -> (r: Turn)
        requires
            old(self).wf(),
            old(self).answers(reply),
        ensures
            final(self).wf(),
            final(self).target() == old(self).target(),
            Self::transition(*old(self), *final(self), reply, r.call),
            final(self).acquired() == old(self).acquired() + handles_in(reply),
            old(self).stage() != Stage::FindRadio && final(self).stage() != Stage::Done
                ==> final(self).radio_raw() == old(self).radio_raw(),
            old(self).stage() == Stage::CountServices || old(self).stage() == Stage::EnableService
                ==> final(self).device() == old(self).device(),
            final(self).released() == old(self).released() + r.releases@.len(),
    {
        let mut releases: Vec<Release> = Vec::new();
        let call = match reply {
            Reply::Begin => {
                self.stage = Stage::FindRadio;
                Some(OsCall::FindFirstRadio)
            },
            Reply::Radio(fr) => {
                proof {
                    if fr is First {
                        self.acquired@ = self.acquired@ + 2;
                    }
                }
                let (first, closing) = get_radio(&mut self.radios, fr);
                if let Some(h) = closing {
                    releases.push(Release::RadioSearch(h));
                    proof {
                        self.released@ = self.released@ + 1;
                    }
                }
                match first {
                    Ok(radio) => {
                        let params = BluetoothDeviceSearchParams::new(Some(&radio)).with_return_all();
                        self.devices = BluetoothDeviceSearch::new(params);
                        self.radio = Some(radio);
                        self.stage = Stage::FindDevice;
                        Some(OsCall::FindFirstDevice(params))
                    },
                    Err(e) => {
                        self.finish(Err(Failure { step: FailedStep::NoAdapter, error: e }), &mut releases);
                        None
                    },
                }
            },
            Reply::Device(fr) => {
                proof {
                    if fr is First {
                        self.acquired@ = self.acquired@ + 1;
                    }
                }
                let (scan, closing) = self.devices.find_by_address(self.target, fr);
                if let Some(h) = closing {
                    releases.push(Release::DeviceSearch(h));
                    proof {
                        self.released@ = self.released@ + 1;
                    }
                }
                match scan {
                    ScanStep::Searching => match self.devices.call() {
                        SearchCall::FindNext(raw) => Some(OsCall::FindNextDevice(raw)),
                        _ => None,
                    },
                    ScanStep::Found(d) => {
                        let connected = d.is_connected();
                        let remembered = d.is_remembered();
                        let address = d.address();
                        self.device = Some(d);
                        if connected {
                            self.finish(Ok(Outcome::AlreadyConnected), &mut releases);
                            None
                        } else if remembered {
                            self.stage = Stage::Remove;
                            Some(OsCall::RemoveDevice(address))
                        } else {
                            self.authenticate(&mut releases)
                        }
                    },
                    ScanStep::Absent => {
                        let failure = Failure { step: FailedStep::DeviceNotFound, error: Error::NotFound };
                        self.finish(Err(failure), &mut releases);
                        None
                    },
                    ScanStep::Failed(e) => {
                        self.finish(Err(Failure { step: FailedStep::DeviceNotFound, error: e }), &mut releases);
                        None
                    },
                }
            },
            Reply::Status(status) => {
                if self.stage == Stage::Remove {
                    let removed = match &mut self.device {
                        Some(d) => d.device_removed(status),
                        None => Err(Error::InvalidState),
                    };
                    match removed {
                        Ok(()) => self.authenticate(&mut releases),
                        Err(e) => {
                            self.finish(Err(Failure { step: FailedStep::Remove, error: e }), &mut releases);
                            None
                        },
                    }
                } else if self.stage == Stage::Authenticate {
                    let authenticated = match &mut self.device {
                        Some(d) => d.device_authenticated(status),
                        None => Err(Error::InvalidState),
                    };
                    match (authenticated, &self.device) {
                        (Ok(()), Some(d)) => {
                            self.stage = Stage::CountServices;
                            Some(d.count_installed_services())
                        },
                        (Err(e), _) => {
                            let failure = Failure { step: FailedStep::Authenticate, error: e };
                            self.finish(Err(failure), &mut releases);
                            None
                        },
                        _ => None,
                    }
                } else {
                    match status_result(status) {
                        Ok(()) => {
                            self.finish(Ok(Outcome::PairedServiceEnabled), &mut releases);
                            None
                        },
                        Err(e) => {
                            let failure = Failure { step: FailedStep::EnableService, error: e };
                            self.finish(Err(failure), &mut releases);
                            None
                        },
                    }
                }
            },
            Reply::Count(status, count) => {
                match services_counted(status, count) {
                    Ok(0) => {
                        self.stage = Stage::EnableService;
                        match (&self.device, &self.radio) {
                            (Some(d), Some(radio)) => Some(d.enable_hid_service(radio)),
                            _ => None,
                        }
                    },
                    Ok(_) => {
                        self.finish(Ok(Outcome::Paired), &mut releases);
                        None
                    },
                    Err(e) => {
                        let failure = Failure { step: FailedStep::CountServices, error: e };
                        self.finish(Err(failure), &mut releases);
                        None
                    },
                }
            },
        };
        Turn { releases, call }
    }

    /// Ends the run with `result`, handing back the radio to be closed.
    fn finish(&mut self, result: Result<Outcome, Failure>, releases: &mut Vec<Release>)
        requires
            old(self).radios.wf(),
            old(self).devices.wf(),
            old(self).radios.search().state() != SearchState::Open,
            old(self).devices.search().state() != SearchState::Open,
            old(self).acquired@ == old(self).released@ + old(self).held(),
        ensures
            final(self).wf(),
            Self::ends_with(*final(self), result, None),
            final(self).target == old(self).target,
            final(self).device == old(self).device,
            final(self).acquired == old(self).acquired,
            final(self).released@ + old(releases)@.len() == old(self).released@ + final(releases)@.len(),
    {
        let mut radio = None;
        core::mem::swap(&mut self.radio, &mut radio);
        if let Some(h) = radio {
            releases.push(Release::Radio(h));
            proof {
                self.released@ = self.released@ + 1;
            }
        }
        self.stage = Stage::Done;
        self.result = Some(result);
    }

    /// Asks for the pairing call for the target device, or ends the run
    /// where the device is authenticated already.
    fn authenticate(&mut self, releases: &mut Vec<Release>) -> (call: Option<OsCall>)
        requires
            old(self).radios.wf(),
            old(self).devices.wf(),
            old(self).acquired@ == old(self).released@ + old(self).held(),
            old(self).result is None,
            old(self).radio is Some,
            old(self).device is Some,
            old(self).radios.search().state() == SearchState::Finished,
            old(self).devices.search().state() == SearchState::Finished,
        ensures
            final(self).wf(),
            Self::authenticating(*old(self), *final(self), old(self).device()->0, call),
            final(self).stage != Stage::Done ==> final(self).radio == old(self).radio,
            final(self).target == old(self).target,
            final(self).device == old(self).device,
            final(self).acquired == old(self).acquired,
            final(self).released@ + old(releases)@.len() == old(self).released@ + final(releases)@.len(),
    {
        let result = match (&self.device, &self.radio) {
            (Some(d), Some(radio)) => d.authenticate_device(Some(radio)),
            _ => Err(Error::InvalidState),
        };
        match result {
            Ok(call) => {
                self.stage = Stage::Authenticate;
                Some(call)
            },
            Err(e) => {
                self.finish(Err(Failure { step: FailedStep::Authenticate, error: e }), releases);
                None
            },
        }
    }
}

/// A run that has ended holds no handle: it handed back every handle the OS
/// boundary handed over, each once, whichever step ended it.
pub proof fn lemma_run_releases_all(p: Pairing)
    requires
        p.wf(),
        p.stage() == Stage::Done,
    ensures
        p.released() == p.acquired(),
        p.held() == 0,
        p.radio_raw() is None,
{
}

} // verus!
