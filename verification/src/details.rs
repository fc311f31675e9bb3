//! Host details: what the machine reports about itself, rendered into the
//! fixed text block that the terminal's `system` command prints.
//!
//! The queries go through the `sysinfo` and `local-ip-address` crates and
//! depend on the machine, so nothing is promised of the raw values; the
//! rendering of those values — memory in hundredths of a gigabyte, the CPU
//! clock in hundredths of a gigahertz, and the labelled report block — is
//! verified exactly.

use vstd::prelude::*;
use vstd::string::*;
use crate::text::{hundredths_to_string, spec_decimal, spec_hundredths, u64_to_string};

verus! {

/// Declares sysinfo::System, the machine snapshot the queries below read;
/// the value is opaque here and only carried between those queries.
#[verifier::external_type_specification]
#[verifier::external_body]
pub struct ExSystem(sysinfo::System);

/// Relies on sysinfo::System::new_all: a snapshot with every collector
/// filled in.
#[verifier::external_body]
fn system_new_all() -> sysinfo::System {
    sysinfo::System::new_all()
}

/// Relies on sysinfo::System::refresh_all: refreshes the snapshot in place.
#[verifier::external_body]
fn system_refresh_all(sys: &mut sysinfo::System) {
    sys.refresh_all();
}

/// Relies on sysinfo::System::name: the OS name, when known.
#[verifier::external_body]
fn system_name() -> Option<String> {
    sysinfo::System::name()
}

/// Relies on sysinfo::System::kernel_version: the kernel version, when
/// known.
#[verifier::external_body]
fn system_kernel_version() -> Option<String> {
    sysinfo::System::kernel_version()
}

/// Relies on sysinfo::System::os_version: the OS version, when known.
#[verifier::external_body]
fn system_os_version() -> Option<String> {
    sysinfo::System::os_version()
}

/// Relies on sysinfo::System::host_name: the host name, when known.
#[verifier::external_body]
fn system_host_name() -> Option<String> {
    sysinfo::System::host_name()
}

/// Relies on sysinfo::System::physical_core_count: the number of physical
/// cores, when known.
#[verifier::external_body]
fn system_physical_core_count() -> Option<usize> {
    sysinfo::System::physical_core_count()
}

/// Relies on sysinfo::System::cpus: the number of logical CPUs the snapshot
/// holds.
#[verifier::external_body]
fn system_cpu_count(sys: &sysinfo::System) -> usize {
    sys.cpus().len()
}

/// Relies on sysinfo::System::total_memory: total RAM in bytes.
#[verifier::external_body]
fn system_total_memory(sys: &sysinfo::System) -> u64 {
    sys.total_memory()
}

/// Relies on sysinfo::System::available_memory: available RAM in bytes.
#[verifier::external_body]
fn system_available_memory(sys: &sysinfo::System) -> u64 {
    sys.available_memory()
}

/// Relies on sysinfo::System::used_memory: used RAM in bytes.
#[verifier::external_body]
fn system_used_memory(sys: &sysinfo::System) -> u64 {
    sys.used_memory()
}

/// Relies on sysinfo::Cpu::brand: the brand string of the last listed CPU.
#[verifier::external_body]
fn system_last_cpu_brand(sys: &sysinfo::System) -> Option<String> {
    sys.cpus().last().map(|cpu| cpu.brand().to_owned())
}

/// Relies on sysinfo::Cpu::frequency: the clock of the last listed CPU in
/// megahertz.
#[verifier::external_body]
fn system_last_cpu_frequency_mhz(sys: &sysinfo::System) -> Option<u64> {
    sys.cpus().last().map(|cpu| cpu.frequency())
}

/// Relies on local_ip_address::local_ip: the machine's local IP address, or
/// that crate's error; either is rendered to text.
#[verifier::external_body]
fn query_local_ip() -> Result<String, String> {
    match local_ip_address::local_ip() {
        Ok(ip) => Ok(format!("{}", ip)),
        Err(e) => Err(format!("{}", e)),
    }
}

/// Bytes rendered as gigabytes with two decimal places, rounded to the
/// nearest hundredth.
pub open spec fn spec_gb(bytes: u64) -> Seq<char> {
    spec_hundredths(((bytes + 5_000_000) / 10_000_000) as nat) + " GB"@
}

/// Megahertz rendered as gigahertz with two decimal places, rounded to the
/// nearest hundredth.
pub open spec fn spec_ghz(mhz: u64) -> Seq<char> {
    spec_hundredths(((mhz + 5) / 10) as nat) + " GHz"@
}

/// Renders a byte count as gigabytes.
pub fn gb_string(bytes: u64) -> (s: String)
    ensures
        s@ == spec_gb(bytes),
{
    let wide: u128 = (bytes as u128 + 5_000_000) / 10_000_000;
    proof {
        vstd::arithmetic::div_mod::lemma_div_is_ordered(
            bytes as int + 5_000_000,
            u64::MAX as int + 5_000_000,
            10_000_000,
        );
    }
    let mut s = hundredths_to_string(wide as u64);
    s.append(" GB");
    s
}

/// Renders a megahertz count as gigahertz.
pub fn ghz_string(mhz: u64) -> (s: String)
    ensures
        s@ == spec_ghz(mhz),
{
    let wide: u128 = (mhz as u128 + 5) / 10;
    proof {
        vstd::arithmetic::div_mod::lemma_div_is_ordered(
            mhz as int + 5,
            u64::MAX as int + 5,
            10,
        );
    }
    let mut s = hundredths_to_string(wide as u64);
    s.append(" GHz");
    s
}

/// What the machine reported, each field already rendered to text.
pub struct Details {
    pub name: String,
    pub kernel: String,
    pub version: String,
    pub host_name: String,
    pub physical_cores: String,
    pub threaded_cores: String,
    pub mem_used: String,
    pub mem_avail: String,
    pub mem_total: String,
    pub cpu_brand: String,
    pub cpu_freq: String,
    pub ip_addr: String,
}

/// Stores a text value that the machine may not report: a reported value
/// overwrites the field, a missing report keeps the old value.
pub fn keep_or_set_text(field: &mut String, reported: Option<String>)
    ensures
        reported matches Some(v) ==> final(field)@ == v@,
        reported is None ==> *final(field) == *old(field),
{
    if let Some(v) = reported {
        *field = v;
    }
}

/// Stores a reported count in decimal; a missing report keeps the old
/// value.
pub fn keep_or_set_count(field: &mut String, reported: Option<usize>)
    ensures
        reported matches Some(n) ==> final(field)@ == spec_decimal(n as nat),
        reported is None ==> *final(field) == *old(field),
{
    if let Some(n) = reported {
        *field = u64_to_string(n as u64);
    }
}

/// Stores a reported megahertz clock as gigahertz; a missing report keeps
/// the old value.
pub fn keep_or_set_ghz(field: &mut String, reported: Option<u64>)
    ensures
        reported matches Some(mhz) ==> final(field)@ == spec_ghz(mhz),
        reported is None ==> *final(field) == *old(field),
{
    if let Some(mhz) = reported {
        *field = ghz_string(mhz);
    }
}

/// Every field of `a` except `ip_addr` equals its counterpart in `b`.
pub open spec fn eq_except_ip(a: Details, b: Details) -> bool {
    &&& a.name == b.name
    &&& a.kernel == b.kernel
    &&& a.version == b.version
    &&& a.host_name == b.host_name
    &&& a.physical_cores == b.physical_cores
    &&& a.threaded_cores == b.threaded_cores
    &&& a.mem_used == b.mem_used
    &&& a.mem_avail == b.mem_avail
    &&& a.mem_total == b.mem_total
    &&& a.cpu_brand == b.cpu_brand
    &&& a.cpu_freq == b.cpu_freq
}

/// Every field of `d` is empty.
pub open spec fn spec_details_empty(d: Details) -> bool {
    &&& d.name@ == Seq::<char>::empty()
    &&& d.kernel@ == Seq::<char>::empty()
    &&& d.version@ == Seq::<char>::empty()
    &&& d.host_name@ == Seq::<char>::empty()
    &&& d.physical_cores@ == Seq::<char>::empty()
    &&& d.threaded_cores@ == Seq::<char>::empty()
    &&& d.mem_used@ == Seq::<char>::empty()
    &&& d.mem_avail@ == Seq::<char>::empty()
    &&& d.mem_total@ == Seq::<char>::empty()
    &&& d.cpu_brand@ == Seq::<char>::empty()
    &&& d.cpu_freq@ == Seq::<char>::empty()
    &&& d.ip_addr@ == Seq::<char>::empty()
}

impl Default for Details {
    /// Every field starts empty.
    fn default() -> (d: Details)
        ensures
            spec_details_empty(d),
    {
        Details {
            name: String::new(),
            kernel: String::new(),
            version: String::new(),
            host_name: String::new(),
            physical_cores: String::new(),
            threaded_cores: String::new(),
            mem_used: String::new(),
            mem_avail: String::new(),
            mem_total: String::new(),
            cpu_brand: String::new(),
            cpu_freq: String::new(),
            ip_addr: String::new(),
        }
    }
}

/// The labelled report block built from the fields of `d`.
pub open spec fn spec_os_report(d: Details) -> Seq<char> {
    "System Name      = "@ + d.name@ + "\r\n"@ + "System Kernel    = "@ + d.kernel@ + "\r\n"@
        + "Version          = "@ + d.version@ + "\r\n"@ + "Host Name        = "@ + d.host_name@
        + "\r\n"@ + "\r\n"@ + "Physical Cores   = "@ + d.physical_cores@ + " \r\n"@
        + "Threaded Cores   = "@ + d.threaded_cores@ + " \r\n"@ + "\r\n"@
        + "Total memory     = "@ + d.mem_total@ + " \r\n"@ + "Available Memory = "@
        + d.mem_avail@ + " \r\n"@ + "Used Memory      = "@ + d.mem_used@ + " \r\n"@ + "\r\n"@
        + "CPU Frequency    = "@ + d.cpu_freq@ + " \r\n"@ + "CPU Vendor       = "@ + d.cpu_brand@
        + " \r\n"@ + "IP Address       = "@ + d.ip_addr@
}

impl Details {
    /// A report with every field still empty.
    pub fn new() -> (d: Details)
        ensures
            spec_details_empty(d),
    {
        Details::default()
    }

    /// Stores the outcome of the local-IP lookup: the address itself, or
    /// the failure notice with the reported reason.
    pub fn set_ip_report(&mut self, looked_up: Result<String, String>)
        ensures
            eq_except_ip(*old(self), *final(self)),
            looked_up matches Ok(ip) ==> final(self).ip_addr@ == ip@,
            looked_up matches Err(e) ==> final(self).ip_addr@ == "Failed to get ip address "@
                + e@,
    {
        match looked_up {
            Ok(ip) => {
                self.ip_addr = ip;
            },
            Err(e) => {
                let mut m = String::from_str("Failed to get ip address ");
                m.append(e.as_str());
                self.ip_addr = m;
            },
        }
    }

    /// Looks the local IP up and stores the outcome; no other field moves.
    pub fn get_ip(&mut self)
        ensures
            eq_except_ip(*old(self), *final(self)),
    {
        let looked_up = query_local_ip();
        self.set_ip_report(looked_up);
    }

    /// Fills the fields from a fresh machine snapshot. The raw values
    /// depend on the machine; the rendered memory, core-count and clock
    /// fields always carry the exact fixed-point form of some such value,
    /// and a field whose value the machine does not report keeps what it
    /// had (the setters above state both arms exactly).
    pub fn get_os(&mut self)
        ensures
            exists|b: u64| final(self).mem_total@ == spec_gb(b),
            exists|b: u64| final(self).mem_avail@ == spec_gb(b),
            exists|b: u64| final(self).mem_used@ == spec_gb(b),
            exists|n: u64| final(self).threaded_cores@ == spec_decimal(n as nat),
    {
        let mut sys = system_new_all();
        system_refresh_all(&mut sys);

        self.get_ip();

        keep_or_set_text(&mut self.name, system_name());
        keep_or_set_text(&mut self.kernel, system_kernel_version());
        keep_or_set_text(&mut self.version, system_os_version());
        keep_or_set_text(&mut self.host_name, system_host_name());
        keep_or_set_count(&mut self.physical_cores, system_physical_core_count());
        let threads = system_cpu_count(&sys) as u64;
        self.threaded_cores = u64_to_string(threads);
        let avail = system_available_memory(&sys);
        self.mem_avail = gb_string(avail);
        let used = system_used_memory(&sys);
        self.mem_used = gb_string(used);
        let total = system_total_memory(&sys);
        self.mem_total = gb_string(total);
        keep_or_set_text(&mut self.cpu_brand, system_last_cpu_brand(&sys));
        keep_or_set_ghz(&mut self.cpu_freq, system_last_cpu_frequency_mhz(&sys));
        proof {
            assert(self.mem_total@ == spec_gb(total));
            assert(self.mem_avail@ == spec_gb(avail));
            assert(self.mem_used@ == spec_gb(used));
            assert(self.threaded_cores@ == spec_decimal(threads as nat));
        }
    }

    /// The labelled report block, exactly as `spec_os_report` lays it out
    /// over the current fields.
    pub fn os_report(&self) -> (r: String)
        ensures
            r@ == spec_os_report(*self),
    {
        let mut s = String::new();
        s.append("System Name      = ");
        s.append(self.name.as_str());
        s.append("\r\n");
        s.append("System Kernel    = ");
        s.append(self.kernel.as_str());
        s.append("\r\n");
        s.append("Version          = ");
        s.append(self.version.as_str());
        s.append("\r\n");
        s.append("Host Name        = ");
        s.append(self.host_name.as_str());
        s.append("\r\n");
        s.append("\r\n");
        s.append("Physical Cores   = ");
        s.append(self.physical_cores.as_str());
        s.append(" \r\n");
        s.append("Threaded Cores   = ");
        s.append(self.threaded_cores.as_str());
        s.append(" \r\n");
        s.append("\r\n");
        s.append("Total memory     = ");
        s.append(self.mem_total.as_str());
        s.append(" \r\n");
        s.append("Available Memory = ");
        s.append(self.mem_avail.as_str());
        s.append(" \r\n");
        s.append("Used Memory      = ");
        s.append(self.mem_used.as_str());
        s.append(" \r\n");
        s.append("\r\n");
        s.append("CPU Frequency    = ");
        s.append(self.cpu_freq.as_str());
        s.append(" \r\n");
        s.append("CPU Vendor       = ");
        s.append(self.cpu_brand.as_str());
        s.append(" \r\n");
        s.append("IP Address       = ");
        s.append(self.ip_addr.as_str());
        proof {
            assert(s@ =~= spec_os_report(*self));
        }
        s
    }

    /// Refreshes the fields from the machine and returns the report block
    /// over the refreshed fields; the rendered memory and core-count
    /// fields carry the fixed-point and decimal forms.
    pub fn format_os(&mut self) -> (r: String)
        ensures
            r@ == spec_os_report(*final(self)),
            exists|b: u64| final(self).mem_total@ == spec_gb(b),
            exists|b: u64| final(self).mem_avail@ == spec_gb(b),
            exists|b: u64| final(self).mem_used@ == spec_gb(b),
            exists|n: u64| final(self).threaded_cores@ == spec_decimal(n as nat),
    {
        self.get_os();
        self.get_ip();
        self.os_report()
    }
}

} // verus!
