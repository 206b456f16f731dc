use vstd::prelude::*;

use crate::enumerator::{Enumerator, FindReply, SearchCall, SearchHandle, SearchState};
use crate::error::Error;
use crate::text::{decode_lossy, utf16_lossy};

verus! {

/// A local Bluetooth radio, opened by a radio search. It is never copied:
/// whoever holds it hands it to the OS boundary's handle-close call, once.
pub struct BluetoothRadioHandle(pub usize);

/// A snapshot of a radio's attributes.
pub struct BluetoothRadioInfo {
    pub address: u64,
    pub class_of_device: u32,
    /// The radio's name as the OS holds it: UTF-16 code units, nulls included.
    pub name: Vec<u16>,
}

impl BluetoothRadioInfo {
    /// The radio's name, decoded from UTF-16 with unpaired surrogates replaced.
    pub fn name(&self) -> (r: String)
        ensures
            r@ == utf16_lossy(self.name@),
    {
        decode_lossy(self.name.as_slice())
    }
}

impl BluetoothRadioHandle {
    /// The radio's attributes, from the status and the snapshot that the OS's
    /// radio-info query gave for this handle.
    pub fn get_radio_info(&self, status: u32, info: BluetoothRadioInfo) -> (r: Result<BluetoothRadioInfo, Error>)
        ensures
            status == 0 ==> r == Ok::<BluetoothRadioInfo, Error>(info),
            status != 0 ==> r == Err::<BluetoothRadioInfo, Error>(Error::System(status)),
    {
        if status == 0 {
            Ok(info)
        } else {
            Err(Error::System(status))
        }
    }
}

/// The search over the host's radios. It takes no filters.
pub struct BluetoothRadioSearch {
    search: Enumerator,
}

impl BluetoothRadioSearch {
    /// The search underneath.
    pub closed spec fn search(&self) -> Enumerator {
        self.search
    }

    pub open spec fn wf(&self) -> bool {
        self.search().wf()
    }

    /// A search that has not yet called the OS.
    pub fn new() -> (r: BluetoothRadioSearch)
        ensures
            r.wf(),
            r.search().state() == SearchState::Unopened,
            r.search().replies() == 0,
            r.search().opened() is None,
            r.search().released() == 0,
            r.search().yielded() == 0,
    {
        BluetoothRadioSearch { search: Enumerator::new() }
    }

    /// The OS call the next step needs.
    pub fn call(&self) -> (r: SearchCall)
        requires
            self.wf(),
        ensures
            r == self.search().call_spec(),
    {
        self.search.call()
    }

    /// Whether `reply` answers the call the next step needs.
    pub fn accepts(&self, reply: &FindReply<BluetoothRadioHandle>) -> (r: bool)
        requires
            self.wf(),
        ensures
            r == self.search().answers(*reply),
    {
        self.search.accepts(reply)
    }

    /// The next radio, or `NotFound` once the OS has no (more) radios; see
    /// [`Enumerator::find_next`].
    pub fn find_next(&mut self, reply: FindReply<BluetoothRadioHandle>) -> (r: (
        Result<BluetoothRadioHandle, Error>,
        Option<SearchHandle>,
    ))
        requires
            old(self).wf(),
            old(self).search().answers(reply),
        ensures
            Enumerator::stepped(old(self).search(), final(self).search(), reply, r.0, r.1),
    {
        self.search.find_next(reply)
    }

    /// The next radio, as an iterator gives it; see [`Enumerator::next`].
    pub fn next(&mut self, reply: FindReply<BluetoothRadioHandle>) -> (r: (
        Option<Result<BluetoothRadioHandle, Error>>,
        Option<SearchHandle>,
    ))
        requires
            old(self).wf(),
            old(self).search().answers(reply),
        ensures
            Enumerator::stepped_item(old(self).search(), final(self).search(), reply, r.0, r.1),
    {
        self.search.next(reply)
    }

    /// Ends the search early; see [`Enumerator::abandon`].
    pub fn abandon(&mut self) -> (r: Option<SearchHandle>)
        requires
            old(self).wf(),
        ensures
            final(self).wf(),
            final(self).search().state() == SearchState::Finished,
            final(self).search().opened() == old(self).search().opened(),
            (old(self).search().state() == SearchState::Open) == (r is Some),
            r matches Some(h) ==> old(self).search().opened() == Some(h.0),
            final(self).search().released() == old(self).search().released() + (if old(self).search().state()
                == SearchState::Open {
                1nat
            } else {
                0nat
            }),
    {
        self.search.abandon()
    }
}

} // verus!
