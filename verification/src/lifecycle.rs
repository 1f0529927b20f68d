//! The device lifecycle state machine.
//!
//! A device moves along `Uninit → Opened → Connected → Started` and back.
//! Calling a transition from the wrong state is a contract violation, not a
//! runtime condition: every operation requires its listed precondition state.
//! On destruction the device is unwound from whatever state it is in back
//! toward `Uninit` by chaining the reverse operations, discarding any error
//! from that best-effort unwind.

use vstd::prelude::*;

use crate::discovery::DeviceInfo;
use crate::status::{err_of, err_spec, Error};

verus! {

/// The wrapper-enforced lifecycle state of a device.
#[derive(Clone, Copy, Debug, PartialEq, Eq, Structural)]
pub enum DeviceStatus {
    Uninit,
    Opened,
    Connected,
    Started,
}

/// Live device status as reported by the vendor's state query, which encodes
/// state only through its error channel.
#[derive(Clone, Copy, Debug, PartialEq, Eq, Structural)]
pub enum DeviceState {
    Idle,
    Connecting,
    Connected,
    Starting,
    Running,
    Stopping,
    Disconnecting,
}

/// One lifecycle transition.
#[derive(Clone, Copy, Debug, PartialEq, Eq, Structural)]
pub enum LifecycleOp {
    Open,
    Close,
    Connect,
    Disconnect,
    Start,
    Stop,
}

/// The transition table: the state an operation leads to, or `None` where the
/// operation is illegal in the given state.
pub open spec fn lifecycle_next(s: DeviceStatus, op: LifecycleOp) -> Option<DeviceStatus> {
    match (op, s) {
        (LifecycleOp::Open, DeviceStatus::Uninit) => Some(DeviceStatus::Opened),
        (LifecycleOp::Close, DeviceStatus::Opened) => Some(DeviceStatus::Uninit),
        (LifecycleOp::Connect, DeviceStatus::Opened) => Some(DeviceStatus::Connected),
        (LifecycleOp::Disconnect, DeviceStatus::Connected) => Some(DeviceStatus::Opened),
        (LifecycleOp::Start, DeviceStatus::Connected) => Some(DeviceStatus::Started),
        (LifecycleOp::Stop, DeviceStatus::Started) => Some(DeviceStatus::Connected),
        _ => None,
    }
}

/// The state a sequence of lifecycle operations leads to, or `None` as soon
/// as one of them is attempted from a state its table row does not list.
pub open spec fn lifecycle_run(s: DeviceStatus, ops: Seq<LifecycleOp>) -> Option<DeviceStatus>
    decreases ops.len(),
{
    if ops.len() == 0 {
        Some(s)
    } else {
        match lifecycle_next(s, ops[0]) {
            Some(s1) => lifecycle_run(s1, ops.drop_first()),
            None => None,
        }
    }
}

/// The state in which a best-effort unwind leaves a device, given the status
/// codes of the (up to three) vendor calls it chains: the chain stops at the
/// first failing step, leaving the state that step would have left.
pub open spec fn unwind_result(
    s: DeviceStatus,
    stop_code: u32,
    disconnect_code: u32,
    close_code: u32,
) -> DeviceStatus {
    match s {
        DeviceStatus::Uninit => DeviceStatus::Uninit,
        DeviceStatus::Opened => if close_code == 0 {
            DeviceStatus::Uninit
        } else {
            DeviceStatus::Opened
        },
        DeviceStatus::Connected => if disconnect_code != 0 {
            DeviceStatus::Connected
        } else if close_code != 0 {
            DeviceStatus::Opened
        } else {
            DeviceStatus::Uninit
        },
        DeviceStatus::Started => if stop_code != 0 {
            DeviceStatus::Started
        } else if disconnect_code != 0 {
            DeviceStatus::Connected
        } else if close_code != 0 {
            DeviceStatus::Opened
        } else {
            DeviceStatus::Uninit
        },
    }
}

/// A device: its wrapper-enforced lifecycle state and the serial of the
/// discovered hardware it was created for (a raw wide-character buffer as the
/// vendor reported it).
///
/// The opaque vendor device token lives with the shell that performs the
/// foreign calls; each operation here takes the status code of its one vendor
/// call and decides result and successor state.
pub struct Device {
    pub status: DeviceStatus,
    pub serial: Vec<u32>,
}

impl Device {
    /// A device handle for discovered hardware starts out uninitialized.
    pub fn new(info: &DeviceInfo) -> (r: Device)
        ensures
            r.status == DeviceStatus::Uninit,
            r.serial@ == info.serial_raw@,
    {
        Device { status: DeviceStatus::Uninit, serial: info.serial_raw.clone() }
    }

    /// Opens the device for exclusive use (allocates device-side structures;
    /// does not touch hardware).  `code` is the status of the vendor open
    /// call: on success the device is `Opened`, on failure the mapped error
    /// comes back and the state is unchanged.
    pub fn open(&mut self, code: u32) -> (r: Result<(), Error>)
        requires
            old(self).status == DeviceStatus::Uninit,
        ensures
            final(self).serial@ == old(self).serial@,
            r is Ok <==> code == 0,
            code == 0 ==> final(self).status == DeviceStatus::Opened,
            code == 0 ==> Some(final(self).status) == lifecycle_next(
                old(self).status,
                LifecycleOp::Open,
            ),
            code != 0 ==> r == Err::<(), Error>(err_spec(code)) && final(self).status == old(
                self,
            ).status,
    {
        self.transition(code, DeviceStatus::Opened)
    }

    /// Closes the device, releasing device-side structures.
    pub fn close(&mut self, code: u32) -> (r: Result<(), Error>)
        requires
            old(self).status == DeviceStatus::Opened,
        ensures
            final(self).serial@ == old(self).serial@,
            r is Ok <==> code == 0,
            code == 0 ==> final(self).status == DeviceStatus::Uninit,
            code == 0 ==> Some(final(self).status) == lifecycle_next(
                old(self).status,
                LifecycleOp::Close,
            ),
            code != 0 ==> r == Err::<(), Error>(err_spec(code)) && final(self).status == old(
                self,
            ).status,
    {
        self.transition(code, DeviceStatus::Uninit)
    }

    /// Establishes the physical link to the device.
    pub fn connect(&mut self, code: u32) -> (r: Result<(), Error>)
        requires
            old(self).status == DeviceStatus::Opened,
        ensures
            final(self).serial@ == old(self).serial@,
            r is Ok <==> code == 0,
            code == 0 ==> final(self).status == DeviceStatus::Connected,
            code == 0 ==> Some(final(self).status) == lifecycle_next(
                old(self).status,
                LifecycleOp::Connect,
            ),
            code != 0 ==> r == Err::<(), Error>(err_spec(code)) && final(self).status == old(
                self,
            ).status,
    {
        self.transition(code, DeviceStatus::Connected)
    }

    /// Tears the physical link down again.
    pub fn disconnect(&mut self, code: u32) -> (r: Result<(), Error>)
        requires
            old(self).status == DeviceStatus::Connected,
        ensures
            final(self).serial@ == old(self).serial@,
            r is Ok <==> code == 0,
            code == 0 ==> final(self).status == DeviceStatus::Opened,
            code == 0 ==> Some(final(self).status) == lifecycle_next(
                old(self).status,
                LifecycleOp::Disconnect,
            ),
            code != 0 ==> r == Err::<(), Error>(err_spec(code)) && final(self).status == old(
                self,
            ).status,
    {
        self.transition(code, DeviceStatus::Opened)
    }

    /// Begins data acquisition/transmission.
    pub fn start(&mut self, code: u32) -> (r: Result<(), Error>)
        requires
            old(self).status == DeviceStatus::Connected,
        ensures
            final(self).serial@ == old(self).serial@,
            r is Ok <==> code == 0,
            code == 0 ==> final(self).status == DeviceStatus::Started,
            code == 0 ==> Some(final(self).status) == lifecycle_next(
                old(self).status,
                LifecycleOp::Start,
            ),
            code != 0 ==> r == Err::<(), Error>(err_spec(code)) && final(self).status == old(
                self,
            ).status,
    {
        self.transition(code, DeviceStatus::Started)
    }

    /// Halts data acquisition/transmission.
    pub fn stop(&mut self, code: u32) -> (r: Result<(), Error>)
        requires
            old(self).status == DeviceStatus::Started,
        ensures
            final(self).serial@ == old(self).serial@,
            r is Ok <==> code == 0,
            code == 0 ==> final(self).status == DeviceStatus::Connected,
            code == 0 ==> Some(final(self).status) == lifecycle_next(
                old(self).status,
                LifecycleOp::Stop,
            ),
            code != 0 ==> r == Err::<(), Error>(err_spec(code)) && final(self).status == old(
                self,
            ).status,
    {
        self.transition(code, DeviceStatus::Connected)
    }

    /// Shared body of the six transitions: a successful vendor call moves the
    /// device to the target state, a failing one leaves it where it was.
    fn transition(&mut self, code: u32, next: DeviceStatus) -> (r: Result<(), Error>)
        ensures
            final(self).serial@ == old(self).serial@,
            r is Ok <==> code == 0,
            code == 0 ==> final(self).status == next,
            code != 0 ==> r == Err::<(), Error>(err_spec(code)) && final(self).status == old(
                self,
            ).status,
    {
        if code != 0 {
            return Err(err_of(code));
        }
        self.status = next;
        Ok(())
    }

    /// Best-effort unwind toward `Uninit`, run on destruction: depending on
    /// the current state it chains stop → disconnect → close (or a suffix of
    /// that), stopping at the first failing step.  The caller never observes
    /// an error, whatever the three status codes are; each code is consulted
    /// only if the unwind reaches its step.
    pub fn unwind(&mut self, stop_code: u32, disconnect_code: u32, close_code: u32)
        ensures
            final(self).serial@ == old(self).serial@,
            final(self).status == unwind_result(
                old(self).status,
                stop_code,
                disconnect_code,
                close_code,
            ),
    {
        if self.status == DeviceStatus::Started {
            if self.stop(stop_code).is_err() {
                return ;
            }
        }
        if self.status == DeviceStatus::Connected {
            if self.disconnect(disconnect_code).is_err() {
                return ;
            }
        }
        if self.status == DeviceStatus::Opened {
            let _ = self.close(close_code);
        }
    }
}

impl Error {
    /// The device state a state-code error stands for: each of the seven
    /// state codes maps to its state, every other error comes back unchanged.
    pub open spec fn try_into_state_spec(self) -> Result<DeviceState, Error> {
        match self {
            Error::Idle => Ok(DeviceState::Idle),
            Error::Connecting => Ok(DeviceState::Connecting),
            Error::Connected => Ok(DeviceState::Connected),
            Error::Starting => Ok(DeviceState::Starting),
            Error::Running => Ok(DeviceState::Running),
            Error::Stopping => Ok(DeviceState::Stopping),
            Error::Disconnecting => Ok(DeviceState::Disconnecting),
            x => Err(x),
        }
    }

    /// Maps the vendor state query's error channel onto the descriptive
    /// device-state enumeration; an error outside the state-code range comes
    /// back unchanged.
    pub fn try_into_state(self) -> (r: Result<DeviceState, Error>)
        ensures
            r == self.try_into_state_spec(),
    {
        match self {
            Error::Idle => Ok(DeviceState::Idle),
            Error::Connecting => Ok(DeviceState::Connecting),
            Error::Connected => Ok(DeviceState::Connected),
            Error::Starting => Ok(DeviceState::Starting),
            Error::Running => Ok(DeviceState::Running),
            Error::Stopping => Ok(DeviceState::Stopping),
            Error::Disconnecting => Ok(DeviceState::Disconnecting),
            x => Err(x),
        }
    }
}

/// The outcome of the live state query for a given vendor status code.  The
/// query reports state through its error channel, so a plain success is
/// itself anomalous and maps to the generic hard error.
pub fn state_of_code(code: u32) -> (r: Result<DeviceState, Error>)
    ensures
        code == 0 ==> r == Err::<DeviceState, Error>(Error::Error),
        code != 0 ==> r == err_spec(code).try_into_state_spec(),
{
    match crate::status::res(code) {
        Ok(_) => Err(Error::Error),
        Err(e) => e.try_into_state(),
    }
}

/// The transition table row by row: each operation is legal exactly in its
/// listed precondition state and leads exactly to its listed result state.
pub proof fn lemma_lifecycle_matches_table()
    ensures
        forall|s: DeviceStatus|
            lifecycle_next(s, LifecycleOp::Open) is Some <==> s == DeviceStatus::Uninit,
        forall|s: DeviceStatus|
            lifecycle_next(s, LifecycleOp::Close) is Some <==> s == DeviceStatus::Opened,
        forall|s: DeviceStatus|
            lifecycle_next(s, LifecycleOp::Connect) is Some <==> s == DeviceStatus::Opened,
        forall|s: DeviceStatus|
            lifecycle_next(s, LifecycleOp::Disconnect) is Some <==> s == DeviceStatus::Connected,
        forall|s: DeviceStatus|
            lifecycle_next(s, LifecycleOp::Start) is Some <==> s == DeviceStatus::Connected,
        forall|s: DeviceStatus|
            lifecycle_next(s, LifecycleOp::Stop) is Some <==> s == DeviceStatus::Started,
        lifecycle_next(DeviceStatus::Uninit, LifecycleOp::Open) == Some(DeviceStatus::Opened),
        lifecycle_next(DeviceStatus::Opened, LifecycleOp::Close) == Some(DeviceStatus::Uninit),
        lifecycle_next(DeviceStatus::Opened, LifecycleOp::Connect) == Some(DeviceStatus::Connected),
        lifecycle_next(DeviceStatus::Connected, LifecycleOp::Disconnect) == Some(
            DeviceStatus::Opened,
        ),
        lifecycle_next(DeviceStatus::Connected, LifecycleOp::Start) == Some(DeviceStatus::Started),
        lifecycle_next(DeviceStatus::Started, LifecycleOp::Stop) == Some(DeviceStatus::Connected),
{
}

/// The full forward-and-back tour is legal and returns to `Uninit`.
pub proof fn lemma_lifecycle_round_trip()
    ensures
        lifecycle_run(
            DeviceStatus::Uninit,
            seq![
                LifecycleOp::Open,
                LifecycleOp::Connect,
                LifecycleOp::Start,
                LifecycleOp::Stop,
                LifecycleOp::Disconnect,
                LifecycleOp::Close,
            ],
        ) == Some(DeviceStatus::Uninit),
{
    reveal_with_fuel(lifecycle_run, 8);
}

/// A device destroyed in any state unwinds to `Uninit` when every sub-step
/// succeeds, and the unwind itself can never be observed to fail.
pub proof fn lemma_unwind_reaches_uninit()
    ensures
        forall|s: DeviceStatus| unwind_result(s, 0, 0, 0) == DeviceStatus::Uninit,
{
}

} // verus!
