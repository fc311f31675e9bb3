//! The serial connection model: one open device handle, the baud-rate
//! policy, and the open/close protocol.
//!
//! Opening a port is an operating-system call that the embedding performs;
//! its answer comes back here as a [`PortOpenReply`]. This module decides
//! what the answer means: a granted reply yields a handle that records the
//! device name, the baud rate and the underlying descriptor; a denied reply
//! becomes [`ConnectionError::OpenFailed`], surfaced to the caller and never
//! retried here.

use vstd::prelude::*;
use crate::discovery::DeviceClass;

verus! {

/// Opening the device failed: the operating system denied access (port
/// busy, missing permissions, nonexistent device), with its reason.
#[derive(Debug)]
pub enum ConnectionError {
    OpenFailed(String),
}

/// The operating system's answer to one "open serial port" request,
/// supplied by the embedding that made the call.
pub enum PortOpenReply {
    /// The port was opened; the value identifies the underlying handle.
    Granted(u64),
    /// The port could not be opened, with the reported reason.
    Denied(String),
}

/// One open serial device.
pub struct ConnectionHandle {
    pub port_name: String,
    pub baud_rate: u32,
    pub os_handle: u64,
}

/// A cloned read endpoint of an open connection: the read loop holds one of
/// these while the handle itself stays with its owner.
pub struct ReaderEndpoint {
    pub os_handle: u64,
}

/// The configured baud rate for a device class: the higher rate for
/// serial-over-USB devices, a conservative default for generic ports.
pub open spec fn spec_baud_for_class(c: DeviceClass) -> u32 {
    match c {
        DeviceClass::UsbSerial => 115200,
        DeviceClass::UsbAcm => 115200,
        DeviceClass::Generic => 9600,
    }
}

/// The baud-rate configuration table.
pub fn baud_for_class(c: DeviceClass) -> (r: u32)
    ensures
        r == spec_baud_for_class(c),
{
    match c {
        DeviceClass::UsbSerial => 115200,
        DeviceClass::UsbAcm => 115200,
        DeviceClass::Generic => 9600,
    }
}

impl ConnectionHandle {
    /// Interprets the answer to an open request on `port_name` at
    /// `baud_rate`: a handle exactly when the system granted the open, and
    /// `OpenFailed` with the system's reason exactly when it denied it.
    pub fn open(port_name: String, baud_rate: u32, reply: PortOpenReply) -> (r: Result<
        ConnectionHandle,
        ConnectionError,
    >)
        ensures
            reply matches PortOpenReply::Granted(h) ==> r matches Ok(c) && c.port_name@
                == port_name@ && c.baud_rate == baud_rate && c.os_handle == h,
            reply matches PortOpenReply::Denied(m) ==> r matches Err(
                ConnectionError::OpenFailed(e),
            ) && e@ == m@,
    {
        match reply {
            PortOpenReply::Granted(h) => Ok(
                ConnectionHandle { port_name, baud_rate, os_handle: h },
            ),
            PortOpenReply::Denied(m) => Err(ConnectionError::OpenFailed(m)),
        }
    }

    /// An independent read endpoint onto the same underlying handle, so a
    /// background task can read while the handle stays owned here.
    pub fn reader(&self) -> (r: ReaderEndpoint)
        ensures
            r.os_handle == self.os_handle,
    {
        ReaderEndpoint { os_handle: self.os_handle }
    }
}

} // verus!
