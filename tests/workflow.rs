use winapi_bluetooth::device::BluetoothDeviceInfo;
use winapi_bluetooth::enumerator::{FindReply, SearchHandle};
use winapi_bluetooth::error::{Error, ERROR_NO_MORE_ITEMS};
use winapi_bluetooth::os::{OsCall, Release, HID_SERVICE_ID};
use winapi_bluetooth::pairing::{FailedStep, Failure, Outcome, Pairing, Reply, Stage};

const TARGET: u64 = 0xA4C1381F2233;

/// A device as the fake OS reports it: address, connected, remembered, authenticated.
type Fake = (u64, bool, bool, bool);

/// An OS boundary that answers from fixed data and records every call.
struct FakeOs {
    radios: Vec<usize>,
    radio_status: u32,
    devices: Vec<Fake>,
    scan_fails_at: Option<(usize, u32)>,
    next_device: usize,
    remove_status: u32,
    auth_status: u32,
    count: (u32, u32),
    enable_status: u32,
    calls: Vec<String>,
    opened: u32,
    closed: u32,
}

impl FakeOs {
    fn new(radios: Vec<usize>, devices: Vec<Fake>) -> FakeOs {
        FakeOs {
            radios,
            radio_status: ERROR_NO_MORE_ITEMS,
            devices,
            scan_fails_at: None,
            next_device: 0,
            remove_status: 0,
            auth_status: 0,
            count: (0, 0),
            enable_status: 0,
            calls: Vec::new(),
            opened: 0,
            closed: 0,
        }
    }

    fn record(&self, i: usize) -> BluetoothDeviceInfo {
        let (a, c, r, au) = self.devices[i];
        BluetoothDeviceInfo::new(a, 0x2508, c, r, au, vec![0x50, 0x72, 0x6F])
    }

    fn device_reply(&mut self, first: bool) -> Reply {
        let i = self.next_device;
        if let Some((at, status)) = self.scan_fails_at {
            if at == i {
                return Reply::Device(FindReply::Failed(status));
            }
        }
        if i >= self.devices.len() {
            return Reply::Device(FindReply::Failed(ERROR_NO_MORE_ITEMS));
        }
        self.next_device += 1;
        let record = self.record(i);
        if first {
            self.opened += 1;
            Reply::Device(FindReply::First(SearchHandle(200), record))
        } else {
            Reply::Device(FindReply::Next(record))
        }
    }

    fn perform(&mut self, call: OsCall) -> Reply {
        match call {
            OsCall::FindFirstRadio => {
                self.calls.push("find_first_radio".to_string());
                if self.radios.is_empty() {
                    Reply::Radio(FindReply::Failed(self.radio_status))
                } else {
                    self.opened += 2;
                    let radio = winapi_bluetooth::radio::BluetoothRadioHandle(self.radios[0]);
                    Reply::Radio(FindReply::First(SearchHandle(100), radio))
                }
            }
            OsCall::FindFirstDevice(params) => {
                self.calls.push("find_first_device".to_string());
                assert!(params.return_authenticated && params.return_remembered);
                assert!(params.return_unknown && params.return_connected);
                assert_eq!(params.radio, Some(self.radios[0]));
                self.device_reply(true)
            }
            OsCall::FindNextDevice(raw) => {
                self.calls.push("find_next_device".to_string());
                assert_eq!(raw, 200);
                self.device_reply(false)
            }
            OsCall::RemoveDevice(address) => {
                self.calls.push("remove".to_string());
                assert_eq!(address, TARGET);
                Reply::Status(self.remove_status)
            }
            OsCall::AuthenticateDevice { radio, address, pin } => {
                self.calls.push("authenticate".to_string());
                assert_eq!(radio, Some(self.radios[0]));
                assert_eq!(address, TARGET);
                assert_eq!(pin, vec![0x30u16, 0x30, 0x30, 0x30]);
                Reply::Status(self.auth_status)
            }
            OsCall::CountInstalledServices(address) => {
                self.calls.push("count".to_string());
                assert_eq!(address, TARGET);
                Reply::Count(self.count.0, self.count.1)
            }
            OsCall::EnableService { radio, address, service } => {
                self.calls.push("enable".to_string());
                assert_eq!(radio, self.radios[0]);
                assert_eq!(address, TARGET);
                assert_eq!(service, HID_SERVICE_ID);
                Reply::Status(self.enable_status)
            }
        }
    }

    fn release(&mut self, release: Release) {
        self.closed += 1;
        let name = match release {
            Release::RadioSearch(h) => format!("close_radio_search {}", h.0),
            Release::DeviceSearch(h) => format!("close_device_search {}", h.0),
            Release::Radio(h) => format!("close_radio {}", h.0),
        };
        self.calls.push(name);
    }
}

fn run(os: &mut FakeOs) -> Result<Outcome, Failure> {
    let mut pairing = Pairing::new(TARGET);
    let mut reply = Reply::Begin;
    loop {
        assert!(pairing.accepts(&reply));
        let turn = pairing.step(reply);
        for release in turn.releases {
            os.release(release);
        }
        match turn.call {
            Some(call) => reply = os.perform(call),
            None => break,
        }
    }
    assert!(!pairing.accepts(&Reply::Begin));
    pairing.outcome().expect("a run without a call has ended")
}

fn only(calls: &[String], names: &[&str]) -> Vec<String> {
    calls.iter().filter(|c| names.contains(&c.as_str())).cloned().collect()
}

const DEVICE_CALLS: [&str; 4] = ["remove", "authenticate", "count", "enable"];

#[test]
fn no_radio_reports_no_adapter() {
    let mut os = FakeOs::new(vec![], vec![(TARGET, false, false, false)]);
    let result = run(&mut os);
    assert_eq!(result, Err(Failure { step: FailedStep::NoAdapter, error: Error::NotFound }));
    assert_eq!(os.calls, vec!["find_first_radio".to_string()]);
    assert_eq!(os.opened, 0);
    assert_eq!(os.closed, 0);
}

#[test]
fn radio_search_failure_reports_no_adapter_with_code() {
    let mut os = FakeOs::new(vec![], vec![]);
    os.radio_status = 5;
    let result = run(&mut os);
    assert_eq!(result, Err(Failure { step: FailedStep::NoAdapter, error: Error::System(5) }));
}

#[test]
fn three_other_devices_report_device_not_found() {
    let mut os = FakeOs::new(
        vec![7],
        vec![(0x1111, false, false, false), (0x2222, true, true, true), (0x3333, false, true, false)],
    );
    let result = run(&mut os);
    assert_eq!(result, Err(Failure { step: FailedStep::DeviceNotFound, error: Error::NotFound }));
    assert!(only(&os.calls, &DEVICE_CALLS).is_empty());
    assert_eq!(
        only(&os.calls, &["find_first_device", "find_next_device"]).len(),
        4,
        "three items and one end of the sequence"
    );
    assert_eq!(os.opened, os.closed);
    assert_eq!(os.opened, 3);
}

#[test]
fn scan_failure_is_reported_with_its_code() {
    let mut os = FakeOs::new(vec![7], vec![(0x1111, false, false, false), (TARGET, false, false, false)]);
    os.scan_fails_at = Some((1, 31));
    let result = run(&mut os);
    assert_eq!(result, Err(Failure { step: FailedStep::DeviceNotFound, error: Error::System(31) }));
    assert_eq!(os.opened, os.closed);
}

#[test]
fn connected_device_ends_early() {
    let mut os = FakeOs::new(vec![7], vec![(TARGET, true, true, true)]);
    let result = run(&mut os);
    assert_eq!(result, Ok(Outcome::AlreadyConnected));
    assert!(only(&os.calls, &DEVICE_CALLS).is_empty());
    assert_eq!(os.opened, os.closed);
}

#[test]
fn remembered_device_is_removed_then_paired_and_enabled() {
    let mut os = FakeOs::new(
        vec![7],
        vec![(0x1111, false, false, false), (TARGET, false, true, true), (0x3333, false, false, false)],
    );
    let result = run(&mut os);
    assert_eq!(result, Ok(Outcome::PairedServiceEnabled));
    assert_eq!(only(&os.calls, &DEVICE_CALLS), vec!["remove", "authenticate", "count", "enable"]);
    assert_eq!(
        os.calls,
        vec![
            "find_first_radio",
            "close_radio_search 100",
            "find_first_device",
            "find_next_device",
            "close_device_search 200",
            "remove",
            "authenticate",
            "count",
            "enable",
            "close_radio 7",
        ]
    );
    assert_eq!(os.opened, 3);
    assert_eq!(os.closed, 3);
}

#[test]
fn installed_services_skip_enabling() {
    let mut os = FakeOs::new(vec![7], vec![(TARGET, false, true, false)]);
    os.count = (0, 2);
    let result = run(&mut os);
    assert_eq!(result, Ok(Outcome::Paired));
    assert_eq!(only(&os.calls, &DEVICE_CALLS), vec!["remove", "authenticate", "count"]);
    assert_eq!(os.opened, os.closed);
}

#[test]
fn unknown_device_is_paired_without_removal() {
    let mut os = FakeOs::new(vec![7], vec![(TARGET, false, false, false)]);
    let result = run(&mut os);
    assert_eq!(result, Ok(Outcome::PairedServiceEnabled));
    assert_eq!(only(&os.calls, &DEVICE_CALLS), vec!["authenticate", "count", "enable"]);
}

#[test]
fn authenticated_unremembered_device_fails_invalid_state() {
    let mut os = FakeOs::new(vec![7], vec![(TARGET, false, false, true)]);
    let result = run(&mut os);
    assert_eq!(result, Err(Failure { step: FailedStep::Authenticate, error: Error::InvalidState }));
    assert!(only(&os.calls, &DEVICE_CALLS).is_empty());
    assert_eq!(os.opened, os.closed);
}

#[test]
fn removal_failure_is_fatal() {
    let mut os = FakeOs::new(vec![7], vec![(TARGET, false, true, false)]);
    os.remove_status = 1168;
    let result = run(&mut os);
    assert_eq!(result, Err(Failure { step: FailedStep::Remove, error: Error::System(1168) }));
    assert_eq!(only(&os.calls, &DEVICE_CALLS), vec!["remove"]);
    assert_eq!(os.opened, os.closed);
}

#[test]
fn authentication_failure_is_fatal() {
    let mut os = FakeOs::new(vec![7], vec![(TARGET, false, false, false)]);
    os.auth_status = 1244;
    let result = run(&mut os);
    assert_eq!(result, Err(Failure { step: FailedStep::Authenticate, error: Error::System(1244) }));
    assert_eq!(only(&os.calls, &DEVICE_CALLS), vec!["authenticate"]);
    assert_eq!(os.opened, os.closed);
}

#[test]
fn count_failure_is_fatal() {
    let mut os = FakeOs::new(vec![7], vec![(TARGET, false, false, false)]);
    os.count = (87, 0);
    let result = run(&mut os);
    assert_eq!(result, Err(Failure { step: FailedStep::CountServices, error: Error::System(87) }));
    assert_eq!(only(&os.calls, &DEVICE_CALLS), vec!["authenticate", "count"]);
}

#[test]
fn enable_failure_is_fatal() {
    let mut os = FakeOs::new(vec![7], vec![(TARGET, false, false, false)]);
    os.enable_status = 1060;
    let result = run(&mut os);
    assert_eq!(result, Err(Failure { step: FailedStep::EnableService, error: Error::System(1060) }));
    assert_eq!(os.opened, os.closed);
}

#[test]
fn step_accepts_only_the_answer_awaited() {
    let mut pairing = Pairing::new(TARGET);
    assert!(!pairing.accepts(&Reply::Status(0)));
    let turn = pairing.step(Reply::Begin);
    assert!(matches!(turn.call, Some(OsCall::FindFirstRadio)));
    assert!(turn.releases.is_empty());
    assert!(!pairing.accepts(&Reply::Begin));
    assert!(!pairing.accepts(&Reply::Radio(FindReply::Next(
        winapi_bluetooth::radio::BluetoothRadioHandle(1)
    ))));
    assert!(pairing.accepts(&Reply::Radio(FindReply::Failed(ERROR_NO_MORE_ITEMS))));
    assert!(pairing.found_device().is_none());
    assert_eq!(pairing.outcome(), None);
    let _ = Stage::Start;
}
