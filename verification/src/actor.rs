//! The registrar actor's state and per-request behaviour: the sole owner of
//! the registry, answering one request at a time over its one-shot reply
//! channel, and terminating once the inbound channel has no senders left.

use vstd::prelude::*;

use drmem_api::{device, driver};
use tokio::sync::{broadcast, oneshot};

use crate::channels::reply_send;
use crate::registry::{step_table, DeviceKind, DeviceMap};

verus! {

/// The errors this core can report to a driver. Registration fails only
/// when the requested device name is already defined.
#[derive(Debug, PartialEq, Eq)]
pub enum DrMemError {
    DeviceDefined(String),
}

/// Holds when `r` is the failure that names device `n` as already defined.
pub open spec fn is_device_defined_err<T>(r: Result<T, DrMemError>, n: Seq<char>) -> bool {
    match r {
        Result::Err(DrMemError::DeviceDefined(s)) => s@ == n,
        _ => false,
    }
}

/// The requests drivers send to the registrar actor. Each carries the full
/// name of the device to register and the one-shot channel on which exactly
/// this request is answered.
pub enum Request {
    /// Registers a read-only device: on success the driver receives the
    /// send half of the device's value-broadcast channel.
    AddReadonlyDevice {
        dev_name: String,
        rpy_chan: oneshot::Sender<Result<broadcast::Sender<device::Value>, DrMemError>>,
    },
    /// Registers a read-write device: on success the driver receives the
    /// send half of the value-broadcast channel together with the receive
    /// half of the device's setting queue.
    AddReadWriteDevice {
        dev_name: String,
        rpy_chan: oneshot::Sender<
            Result<(broadcast::Sender<device::Value>, driver::RxDeviceSetting), DrMemError>,
        >,
    },
}

impl Request {
    /// The name of the device the request asks to register.
    pub open spec fn spec_dev_name(&self) -> Seq<char> {
        match self {
            Request::AddReadonlyDevice { dev_name, .. } => dev_name@,
            Request::AddReadWriteDevice { dev_name, .. } => dev_name@,
        }
    }

    /// The kind of device the request asks to register.
    pub open spec fn spec_kind(&self) -> DeviceKind {
        match self {
            Request::AddReadonlyDevice { .. } => DeviceKind::ReadOnly,
            Request::AddReadWriteDevice { .. } => DeviceKind::ReadWrite,
        }
    }
}

/// Holds the state of the core task: the table of active devices, owned
/// exclusively by the registrar actor.
pub struct State {
    devices: DeviceMap,
}

impl View for State {
    type V = Map<Seq<char>, DeviceKind>;

    closed spec fn view(&self) -> Map<Seq<char>, DeviceKind> {
        self.devices@
    }
}

impl State {
    /// The registry's names are pairwise distinct.
    pub closed spec fn wf(&self) -> bool {
        self.devices.wf()
    }

    /// Creates an initialized state for the core task: no device is
    /// registered yet.
    pub fn create() -> (s: State)
        ensures
            s@ == Map::<Seq<char>, DeviceKind>::empty(),
            s.wf(),
    {
        State { devices: DeviceMap::new() }
    }

    /// The reply a driver receives for its registration request: the
    /// endpoints when the registry produced them, and the failure naming the
    /// device as already defined when it did not.
    pub fn make_reply<T>(dev_name: &str, val: Option<T>) -> (r: Result<T, DrMemError>)
        ensures
            r is Ok <==> val is Some,
            (match val {
                Option::Some(v) => r == Result::<T, DrMemError>::Ok(v),
                Option::None => is_device_defined_err(r, dev_name@),
            }),
    {
        match val {
            Option::Some(v) => Result::Ok(v),
            Option::None => Result::Err(
                DrMemError::DeviceDefined(String::from_str(dev_name)),
            ),
        }
    }

    /// Registers `dev_name` as a read-only device and builds the reply its
    /// driver receives: on a fresh name, the send half of the new device's
    /// value-broadcast channel; on an already-defined name, the failure
    /// naming the device, with the whole state left exactly as it was.
    pub fn register_readonly(
        &mut self,
        dev_name: String,
    ) -> (r: Result<broadcast::Sender<device::Value>, DrMemError>)
        ensures
            final(self)@ == step_table(old(self)@, dev_name@, DeviceKind::ReadOnly),
            r is Ok <==> !old(self)@.dom().contains(dev_name@),
            old(self)@.dom().contains(dev_name@) ==> *final(self) == *old(self)
                && is_device_defined_err(r, dev_name@),
            old(self).wf() ==> final(self).wf(),
    {
        let result = self.devices.insert_ro_device(dev_name.clone());

        Self::make_reply(dev_name.as_str(), result)
    }

    /// Registers `dev_name` as a read-write device and builds the reply its
    /// driver receives: on a fresh name, the send half of the value-broadcast
    /// channel together with the receive half of the setting queue, both in
    /// the one reply; on an already-defined name, the failure naming the
    /// device, with the whole state left exactly as it was.
    pub fn register_readwrite(
        &mut self,
        dev_name: String,
    ) -> (r: Result<(broadcast::Sender<device::Value>, driver::RxDeviceSetting), DrMemError>)
        ensures
            final(self)@ == step_table(old(self)@, dev_name@, DeviceKind::ReadWrite),
            r is Ok <==> !old(self)@.dom().contains(dev_name@),
            old(self)@.dom().contains(dev_name@) ==> *final(self) == *old(self)
                && is_device_defined_err(r, dev_name@),
            old(self).wf() ==> final(self).wf(),
    {
        let result = self.devices.insert_rw_device(dev_name.clone());

        Self::make_reply(dev_name.as_str(), result)
    }

    /// Answers one request on its one-shot channel. A requester that has
    /// already gone away makes the delivery fail; that is ignored here, as
    /// it must never affect the registry or the requests that follow.
    fn send_reply<T>(
        rpy_chan: oneshot::Sender<Result<T, DrMemError>>,
        reply: Result<T, DrMemError>,
    ) {
        let _delivered = reply_send(rpy_chan, reply);
    }

    /// Serves one registration request: the registry decides it, and exactly
    /// one reply is sent on the request's own channel. The device table
    /// changes by one step of `step_table`: the requested name is added with
    /// the requested kind when it is new, and on an already-defined name the
    /// state, the prior entry included, stays exactly as it was.
    pub fn handle_driver_request(&mut self, req: Request)
        ensures
            final(self)@ == step_table(old(self)@, req.spec_dev_name(), req.spec_kind()),
            old(self)@.dom().contains(req.spec_dev_name()) ==> *final(self) == *old(self),
            old(self).wf() ==> final(self).wf(),
    {
        match req {
            Request::AddReadonlyDevice { dev_name, rpy_chan } => {
                let reply = self.register_readonly(dev_name);

                Self::send_reply(rpy_chan, reply)
            },
            Request::AddReadWriteDevice { dev_name, rpy_chan } => {
                let reply = self.register_readwrite(dev_name);

                Self::send_reply(rpy_chan, reply)
            },
        }
    }

    /// One step of the actor's receive loop, from the one non-terminal
    /// state, Running. A received request is served and answered, and the
    /// actor keeps running; the closed inbound channel (every sender handle
    /// dropped, `None` from the receive) is the only termination trigger and
    /// moves the actor to Terminated with a success result, the registry
    /// untouched.
    pub fn run_step(&mut self, event: Option<Request>) -> (r: Option<Result<(), DrMemError>>)
        ensures
            (match event {
                Option::Some(req) => r is None && final(self)@ == step_table(
                    old(self)@,
                    req.spec_dev_name(),
                    req.spec_kind(),
                ) && (old(self)@.dom().contains(req.spec_dev_name())
                    ==> *final(self) == *old(self)),
                Option::None => r == Option::Some(Result::<(), DrMemError>::Ok(()))
                    && *final(self) == *old(self),
            }),
            old(self).wf() ==> final(self).wf(),
    {
        match event {
            Option::Some(req) => {
                self.handle_driver_request(req);
                Option::None
            },
            Option::None => Option::Some(Result::Ok(())),
        }
    }
}

} // verus!


