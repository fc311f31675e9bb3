//! Device discovery: deciding, from an enumerated list of serial devices,
//! which ones are plausible targets and which single one is preferred.
//!
//! Enumeration itself is an operating-system call made by the embedding; this
//! module holds the filtering policy. A device is a *candidate* when its port
//! name contains a known device-class marker (a USB-serial or USB-ACM class
//! path), and the *preferred* target is the first candidate whose USB vendor
//! string equals the configured target vendor. Nothing here opens a port.

use vstd::prelude::*;
use crate::text::{contains_seq, str_contains, str_eq};

verus! {

/// How a device is attached, as far as enumeration can tell.
#[derive(Clone, Copy, PartialEq, Eq, Structural, Debug)]
pub enum TransportHint {
    Usb,
    Pci,
    Bluetooth,
    Unknown,
}

/// Immutable snapshot of one enumerated serial device.
pub struct DeviceDescriptor {
    pub port_name: String,
    pub vendor: Option<String>,
    pub product: Option<String>,
    pub serial_number: Option<String>,
    pub vendor_id: Option<u16>,
    pub product_id: Option<u16>,
    pub transport_hint: TransportHint,
}

/// Enumerating the devices failed; safe to retry later.
#[derive(Debug)]
pub enum DiscoveryError {
    EnumerationFailed(String),
}

/// The device class a port name indicates.
#[derive(Clone, Copy, PartialEq, Eq, Structural, Debug)]
pub enum DeviceClass {
    UsbSerial,
    UsbAcm,
    Generic,
}

/// Class of a port name: a USB-serial class path, a USB-ACM class path, or
/// neither.
pub open spec fn spec_device_class(port: Seq<char>) -> DeviceClass {
    if contains_seq(port, "ttyUSB"@) {
        DeviceClass::UsbSerial
    } else if contains_seq(port, "ttyACM"@) {
        DeviceClass::UsbAcm
    } else {
        DeviceClass::Generic
    }
}

/// A candidate's port name names a known device class.
pub open spec fn spec_is_candidate(port: Seq<char>) -> bool {
    spec_device_class(port) != DeviceClass::Generic
}

/// The preferred target: a candidate whose vendor string equals the
/// configured target vendor.
pub open spec fn spec_is_preferred(d: DeviceDescriptor, target_vendor: Seq<char>) -> bool {
    &&& spec_is_candidate(d.port_name@)
    &&& match d.vendor {
        Some(v) => v@ == target_vendor,
        None => false,
    }
}

/// Classifies a port name by the device-class marker it contains.
pub fn device_class(port: &str) -> (c: DeviceClass)
    ensures
        c == spec_device_class(port@),
{
    if str_contains(port, "ttyUSB") {
        DeviceClass::UsbSerial
    } else if str_contains(port, "ttyACM") {
        DeviceClass::UsbAcm
    } else {
        DeviceClass::Generic
    }
}

/// Whether one device is a candidate.
pub fn is_candidate(d: &DeviceDescriptor) -> (r: bool)
    ensures
        r == spec_is_candidate(d.port_name@),
{
    let c = device_class(d.port_name.as_str());
    match c {
        DeviceClass::Generic => false,
        _ => true,
    }
}

/// Whether one device is the preferred target for `target_vendor`.
pub fn is_preferred(d: &DeviceDescriptor, target_vendor: &str) -> (r: bool)
    ensures
        r == spec_is_preferred(*d, target_vendor@),
{
    if !is_candidate(d) {
        return false;
    }
    match &d.vendor {
        Some(v) => str_eq(v.as_str(), target_vendor),
        None => false,
    }
}

/// The candidates of `devices`, in enumeration order.
pub open spec fn spec_candidates(devices: Seq<DeviceDescriptor>) -> Seq<DeviceDescriptor>
    decreases devices.len(),
{
    if devices.len() == 0 {
        Seq::empty()
    } else if spec_is_candidate(devices.last().port_name@) {
        spec_candidates(devices.drop_last()) + seq![devices.last()]
    } else {
        spec_candidates(devices.drop_last())
    }
}

proof fn lemma_candidates_step(all: Seq<DeviceDescriptor>, i: int)
    requires
        0 <= i < all.len(),
    ensures
        spec_candidates(all.subrange(0, i + 1)) == if spec_is_candidate(all[i].port_name@) {
            spec_candidates(all.subrange(0, i)) + seq![all[i]]
        } else {
            spec_candidates(all.subrange(0, i))
        },
{
    let ext = all.subrange(0, i + 1);
    assert(ext.drop_last() =~= all.subrange(0, i));
    assert(ext.last() == all[i]);
}

/// Keeps exactly the candidate devices, in enumeration order.
pub fn filter_candidates(devices: Vec<DeviceDescriptor>) -> (r: Vec<DeviceDescriptor>)
    ensures
        r@ == spec_candidates(devices@),
{
    let ghost all = devices@;
    let n = devices.len();
    let mut out: Vec<DeviceDescriptor> = Vec::new();
    let mut rest = devices;
    let mut i: usize = 0;
    // Walk front to back, consuming the input so descriptors move, not copy.
    while i < n
        invariant
            i <= n,
            n == all.len(),
            rest@ =~= all.subrange(i as int, n as int),
            out@ == spec_candidates(all.subrange(0, i as int)),
        decreases n - i,
    {
        let d = rest.remove(0);
        proof {
            assert(d == all[i as int]);
            lemma_candidates_step(all, i as int);
            assert(rest@ =~= all.subrange(i + 1, n as int));
        }
        if is_candidate(&d) {
            out.push(d);
        }
        i += 1;
    }
    proof {
        assert(all.subrange(0, n as int) =~= all);
    }
    out
}

/// Index of the first preferred device at or after position `i`.
pub open spec fn first_preferred_from(
    devices: Seq<DeviceDescriptor>,
    target_vendor: Seq<char>,
    i: int,
) -> Option<int>
    decreases devices.len() - i,
{
    if i < 0 || i >= devices.len() {
        None
    } else if spec_is_preferred(devices[i], target_vendor) {
        Some(i)
    } else {
        first_preferred_from(devices, target_vendor, i + 1)
    }
}

/// Index of the first preferred device, if any.
pub open spec fn spec_select_preferred(
    devices: Seq<DeviceDescriptor>,
    target_vendor: Seq<char>,
) -> Option<int> {
    first_preferred_from(devices, target_vendor, 0)
}

/// Finds the preferred target: the first candidate whose vendor equals
/// `target_vendor`. Returns its index, or `None` when no device matches.
pub fn select_preferred(devices: &Vec<DeviceDescriptor>, target_vendor: &str) -> (r: Option<
    usize,
>)
    ensures
        match r {
            Some(i) => i < devices@.len() && spec_select_preferred(devices@, target_vendor@)
                == Some(i as int),
            None => spec_select_preferred(devices@, target_vendor@) is None,
        },
{
    let n = devices.len();
    let mut i: usize = 0;
    while i < n
        invariant
            i <= n,
            n == devices@.len(),
            first_preferred_from(devices@, target_vendor@, 0) == first_preferred_from(
                devices@,
                target_vendor@,
                i as int,
            ),
        decreases n - i,
    {
        if is_preferred(&devices[i], target_vendor) {
            return Some(i);
        }
        i += 1;
    }
    None
}

/// What `first_preferred_from` returns is a preferred device, and nothing
/// before it is one.
pub proof fn lemma_first_preferred_sound(
    devices: Seq<DeviceDescriptor>,
    target_vendor: Seq<char>,
    i: int,
    k: int,
)
    requires
        0 <= i,
        first_preferred_from(devices, target_vendor, i) == Some(k),
    ensures
        i <= k < devices.len(),
        spec_is_preferred(devices[k], target_vendor),
        forall|j: int| i <= j < k ==> !spec_is_preferred(devices[j], target_vendor),
    decreases devices.len() - i,
{
    if i < devices.len() && !spec_is_preferred(devices[i], target_vendor) {
        lemma_first_preferred_sound(devices, target_vendor, i + 1, k);
    }
}

proof fn lemma_unique_preferred_from(
    devices: Seq<DeviceDescriptor>,
    target_vendor: Seq<char>,
    i: int,
    k: int,
)
    requires
        0 <= i <= k < devices.len(),
        spec_is_preferred(devices[k], target_vendor),
        forall|j: int| i <= j < devices.len() && j != k ==> !spec_is_preferred(
            devices[j],
            target_vendor,
        ),
    ensures
        first_preferred_from(devices, target_vendor, i) == Some(k),
    decreases k - i,
{
    if i < k {
        lemma_unique_preferred_from(devices, target_vendor, i + 1, k);
    }
}

/// Filtering law: when exactly one device of the list is preferred — a
/// candidate whose vendor equals the configured target vendor — selection
/// picks that device and no other.
pub proof fn lemma_unique_preferred_selected(
    devices: Seq<DeviceDescriptor>,
    target_vendor: Seq<char>,
    k: int,
)
    requires
        0 <= k < devices.len(),
        spec_is_preferred(devices[k], target_vendor),
        forall|j: int| 0 <= j < devices.len() && j != k ==> !spec_is_preferred(
            devices[j],
            target_vendor,
        ),
    ensures
        spec_select_preferred(devices, target_vendor) == Some(k),
{
    lemma_unique_preferred_from(devices, target_vendor, 0, k);
}

} // verus!
