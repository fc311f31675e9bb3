//! The session controller: discovery, connect, read loop start and stop,
//! and the session's current status.
//!
//! The controller owns the state machine
//! `Idle -> Discovering -> { DeviceFound -> Connected -> Reading } | NotFound`,
//! where `Connected` and `Reading` can still move to `ReadError` (terminal
//! for the session: recovery takes a fresh discover-and-connect cycle) or to
//! `Closed` (explicit teardown). The outside work — enumerating devices,
//! the operating-system open call, the reads themselves — is performed by
//! the embedding and handed in as plain values; every decision about it is
//! made, and verified, here. Repeated `connect` or `start` calls while
//! already connected or reading are deliberate no-ops, so a caller that
//! polls on every redraw tick cannot open a second handle.

use vstd::prelude::*;
use crate::connection::{baud_for_class, spec_baud_for_class, ConnectionError, ConnectionHandle,
    PortOpenReply};
use crate::discovery::{device_class, select_preferred, spec_device_class, spec_select_preferred,
    DeviceDescriptor, DiscoveryError};

verus! {

/// Where the session stands.
pub enum SessionStatus {
    /// Nothing has happened yet.
    Idle,
    /// Enumeration results are being examined.
    Discovering,
    /// Discovery ran and no preferred device was found.
    NotFound,
    /// A preferred device was found and selected.
    DeviceFound(DeviceDescriptor),
    /// The device is open.
    Connected(ConnectionHandle),
    /// The read loop is running against the open device.
    Reading(ConnectionHandle),
    /// A read or open failure ended the session, with the reason.
    ReadError(String),
    /// The session was torn down on request.
    Closed,
}

/// The session controller. All fields are mutated only through the methods
/// below; consumers read them freely.
pub struct SessionController {
    pub status: SessionStatus,
    /// The configured USB vendor string that marks the preferred device.
    pub target_vendor: String,
    /// Whether discovery has found the preferred device.
    pub serial_port_found: bool,
    /// The port name recorded when the preferred device was found.
    pub selected_port: String,
    /// The cooperative stop signal for the read loop.
    pub stop_requested: bool,
}

impl SessionController {
    /// A fresh session, idle, looking for the given vendor.
    pub fn new(target_vendor: String) -> (r: SessionController)
        ensures
            r.status is Idle,
            r.target_vendor@ == target_vendor@,
            !r.serial_port_found,
            r.selected_port@ == Seq::<char>::empty(),
            !r.stop_requested,
    {
        SessionController {
            status: SessionStatus::Idle,
            target_vendor,
            serial_port_found: false,
            selected_port: String::new(),
            stop_requested: false,
        }
    }

    /// Runs discovery over the enumeration's result. A failed enumeration is
    /// propagated and leaves the session idle. Otherwise the first device
    /// that is a candidate and carries the target vendor becomes the
    /// selected target, its port name is recorded and the status moves to
    /// `DeviceFound`; with no such device the status is `NotFound`. Returns
    /// whether a device was found.
    pub fn discover_and_select(&mut self, enumerated: Result<Vec<DeviceDescriptor>, DiscoveryError>)
        -> (r: Result<bool, DiscoveryError>)
        ensures
            final(self).target_vendor == old(self).target_vendor,
            final(self).stop_requested == old(self).stop_requested,
            enumerated matches Err(DiscoveryError::EnumerationFailed(m)) ==> {
                &&& r matches Err(DiscoveryError::EnumerationFailed(e)) && e@ == m@
                &&& final(self).status is Idle
                &&& !final(self).serial_port_found
                &&& final(self).selected_port == old(self).selected_port
            },
            enumerated matches Ok(devices) ==> match spec_select_preferred(
                devices@,
                old(self).target_vendor@,
            ) {
                Some(i) => {
                    &&& r matches Ok(found) && found
                    &&& final(self).status matches SessionStatus::DeviceFound(d) && d
                        == devices@[i]
                    &&& final(self).serial_port_found
                    &&& final(self).selected_port@ == devices@[i].port_name@
                },
                None => {
                    &&& r matches Ok(found) && !found
                    &&& final(self).status is NotFound
                    &&& !final(self).serial_port_found
                    &&& final(self).selected_port == old(self).selected_port
                },
            },
    {
        self.status = SessionStatus::Discovering;
        match enumerated {
            Err(e) => {
                self.status = SessionStatus::Idle;
                self.serial_port_found = false;
                Err(e)
            },
            Ok(mut devices) => {
                match select_preferred(&devices, self.target_vendor.as_str()) {
                    Some(i) => {
                        let d = devices.remove(i);
                        self.selected_port = d.port_name.clone();
                        self.serial_port_found = true;
                        self.status = SessionStatus::DeviceFound(d);
                        Ok(true)
                    },
                    None => {
                        self.serial_port_found = false;
                        self.status = SessionStatus::NotFound;
                        Ok(false)
                    },
                }
            },
        }
    }

    /// The open request implied by the current status: the selected port at
    /// the baud rate its device class calls for, and nothing when no open is
    /// due — in particular none while already connected or reading, so no
    /// second handle is ever requested.
    pub fn pending_open(&self) -> (r: Option<(String, u32)>)
        ensures
            self.status matches SessionStatus::DeviceFound(d) ==> r matches Some(p) && p.0@
                == d.port_name@ && p.1 == spec_baud_for_class(spec_device_class(d.port_name@)),
            !(self.status is DeviceFound) ==> r is None,
    {
        match &self.status {
            SessionStatus::DeviceFound(d) => {
                let baud = baud_for_class(device_class(d.port_name.as_str()));
                Some((d.port_name.clone(), baud))
            },
            _ => None,
        }
    }

    /// Applies the answer to the open request. While already `Connected` or
    /// `Reading` this is a no-op that leaves the session exactly as it was:
    /// repeated calls are harmless. From `DeviceFound`, a granted reply
    /// moves the session to `Connected` with a handle on the selected port
    /// at its class's baud rate; a denied reply surfaces `OpenFailed` and
    /// moves the session to `ReadError`. In any other state nothing is due
    /// and nothing changes.
    pub fn connect(&mut self, reply: PortOpenReply) -> (r: Result<(), ConnectionError>)
        ensures
            final(self).target_vendor == old(self).target_vendor,
            final(self).serial_port_found == old(self).serial_port_found,
            final(self).selected_port == old(self).selected_port,
            final(self).stop_requested == old(self).stop_requested,
            old(self).status is Connected || old(self).status is Reading ==> *final(self)
                == *old(self) && r is Ok,
            old(self).status matches SessionStatus::DeviceFound(d) ==> match reply {
                PortOpenReply::Granted(h) => {
                    &&& r is Ok
                    &&& final(self).status matches SessionStatus::Connected(c)
                    &&& c.port_name@ == d.port_name@
                    &&& c.baud_rate == spec_baud_for_class(spec_device_class(d.port_name@))
                    &&& c.os_handle == h
                },
                PortOpenReply::Denied(m) => {
                    &&& r matches Err(ConnectionError::OpenFailed(e)) && e@ == m@
                    &&& final(self).status matches SessionStatus::ReadError(reason) && reason@
                        == m@
                },
            },
            !(old(self).status is DeviceFound || old(self).status is Connected || old(
                self,
            ).status is Reading) ==> *final(self) == *old(self) && r is Ok,
    {
        match &self.status {
            SessionStatus::Connected(_) => Ok(()),
            SessionStatus::Reading(_) => Ok(()),
            SessionStatus::DeviceFound(d) => {
                match reply {
                    PortOpenReply::Granted(h) => {
                        let baud = baud_for_class(device_class(d.port_name.as_str()));
                        let handle = ConnectionHandle {
                            port_name: d.port_name.clone(),
                            baud_rate: baud,
                            os_handle: h,
                        };
                        self.status = SessionStatus::Connected(handle);
                        Ok(())
                    },
                    PortOpenReply::Denied(m) => {
                        let reason = m.clone();
                        self.status = SessionStatus::ReadError(reason);
                        Err(ConnectionError::OpenFailed(m))
                    },
                }
            },
            _ => Ok(()),
        }
    }

    /// Starts the read loop: from `Connected` the session moves to `Reading`
    /// over the same handle and the stop signal is reset. While already
    /// `Reading` this is a no-op, so a polling caller cannot start a second
    /// loop. In any other state nothing changes.
    pub fn start(&mut self)
        ensures
            final(self).target_vendor == old(self).target_vendor,
            final(self).serial_port_found == old(self).serial_port_found,
            final(self).selected_port == old(self).selected_port,
            old(self).status matches SessionStatus::Connected(h) ==> {
                &&& final(self).status matches SessionStatus::Reading(h2)
                &&& h2.port_name@ == h.port_name@
                &&& h2.baud_rate == h.baud_rate
                &&& h2.os_handle == h.os_handle
                &&& !final(self).stop_requested
            },
            !(old(self).status is Connected) ==> *final(self) == *old(self),
    {
        match &self.status {
            SessionStatus::Connected(h) => {
                let handle = ConnectionHandle {
                    port_name: h.port_name.clone(),
                    baud_rate: h.baud_rate,
                    os_handle: h.os_handle,
                };
                self.stop_requested = false;
                self.status = SessionStatus::Reading(handle);
            },
            _ => {},
        }
    }

    /// Tears the session down: raises the stop signal for the read loop —
    /// which it observes at its next iteration boundary — and marks the
    /// session `Closed`; the embedding then closes the underlying handle.
    pub fn stop(&mut self)
        ensures
            final(self).target_vendor == old(self).target_vendor,
            final(self).serial_port_found == old(self).serial_port_found,
            final(self).selected_port == old(self).selected_port,
            final(self).stop_requested,
            final(self).status is Closed,
    {
        self.stop_requested = true;
        self.status = SessionStatus::Closed;
    }

    /// Records a read failure reported by the loop: from `Reading` the
    /// session moves to `ReadError` with the reason, never silently; in any
    /// other state the report is stale and nothing changes.
    pub fn report_read_error(&mut self, reason: String)
        ensures
            final(self).target_vendor == old(self).target_vendor,
            final(self).serial_port_found == old(self).serial_port_found,
            final(self).selected_port == old(self).selected_port,
            final(self).stop_requested == old(self).stop_requested,
            old(self).status is Reading ==> (final(self).status
                matches SessionStatus::ReadError(m) && m@ == reason@),
            !(old(self).status is Reading) ==> *final(self) == *old(self),
    {
        match &self.status {
            SessionStatus::Reading(_) => {
                self.status = SessionStatus::ReadError(reason);
            },
            _ => {},
        }
    }
}

} // verus!
