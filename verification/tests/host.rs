//! Host details, report formatting and the banners.

use arrakis_serial::details::{
    gb_string, ghz_string, keep_or_set_count, keep_or_set_ghz, keep_or_set_text, Details,
};

fn print_details(info: &Details) {
    println!("System Name      = {}", info.name);
    println!("System Kernel    = {}", info.kernel);
    println!("Version          = {}", info.version);
    println!("Host Name        = {}", info.host_name);
    println!("Physical Cores   = {}", info.physical_cores);
    println!("Threaded Cores   = {}", info.threaded_cores);
    println!("Total memory     = {}", info.mem_total);
    println!("Available Memory = {}", info.mem_avail);
    println!("Used Memory      = {}", info.mem_used);
    println!("CPU Vendor       = {}", info.cpu_brand);
    println!("CPU Frequency    = {}", info.cpu_freq);
}

#[test]
fn print_os() {
    let mut info = Details::new();
    println!("***************************");
    println!("*** Getting System Information ....");
    println!();
    info.get_os();
    print_details(&info);
    println!();
    println!("{}", info.format_os());
}

#[test]
fn banner_test_banner() {
    let mut banner = arrakis_serial::banner::Banner::new();
    banner.format();
    println!("{}", banner.message);
}

#[test]
fn initial_test_banner() {
    let mut banner = arrakis_serial::initial::Banner::new();
    banner.format();
    println!("{}", banner.message);
}

#[test]
fn banner_carries_date_stamp() {
    let mut banner = arrakis_serial::banner::Banner::new();
    banner.format_with_date("01-02-2026 03:04:05");
    assert_eq!(
        banner.message,
        "\n**** Welcome to Arrakis Serial Runtime, Version 0.1.0\n**** Today is 01-02-2026 03:04:05\n"
    );
    // The live stamp must differ from the fixed one's text only in the date.
    banner.format();
    assert!(banner.message.starts_with("\n**** Welcome to Arrakis Serial Runtime, Version 0.1.0\n**** Today is "));
    assert!(banner.message.ends_with("\n"));
}

#[test]
fn startup_banner_carries_date_stamp() {
    let mut banner = arrakis_serial::initial::Banner::new();
    banner.format_with_date("01-02-2026 03:04:05");
    assert_eq!(
        banner.message,
        "\n**** Welcome to Vescript FPGA Manager, Version 0.1.0\n**** Today is 01-02-2026 03:04:05\n"
    );
}

#[test]
fn gigabyte_rendering() {
    assert_eq!(gb_string(16_000_000_000), "16.00 GB");
    assert_eq!(gb_string(8_123_456_789), "8.12 GB");
    assert_eq!(gb_string(0), "0.00 GB");
    // Rounded to the nearest hundredth, not truncated.
    assert_eq!(gb_string(999_999_999), "1.00 GB");
    assert_eq!(gb_string(994_999_999), "0.99 GB");
}

#[test]
fn gigahertz_rendering() {
    assert_eq!(ghz_string(2400), "2.40 GHz");
    assert_eq!(ghz_string(999), "1.00 GHz");
    assert_eq!(ghz_string(994), "0.99 GHz");
    assert_eq!(ghz_string(3601), "3.60 GHz");
}

#[test]
fn unreported_fields_keep_their_value() {
    let mut field = "previous".to_string();
    keep_or_set_text(&mut field, None);
    assert_eq!(field, "previous");
    keep_or_set_text(&mut field, Some("reported".to_string()));
    assert_eq!(field, "reported");

    let mut cores = "2".to_string();
    keep_or_set_count(&mut cores, None);
    assert_eq!(cores, "2");
    keep_or_set_count(&mut cores, Some(12));
    assert_eq!(cores, "12");

    let mut freq = "1.00 GHz".to_string();
    keep_or_set_ghz(&mut freq, None);
    assert_eq!(freq, "1.00 GHz");
    keep_or_set_ghz(&mut freq, Some(2495));
    assert_eq!(freq, "2.50 GHz");
}

#[test]
fn ip_report_both_arms() {
    let mut info = Details::new();
    info.set_ip_report(Ok("192.168.1.20".to_string()));
    assert_eq!(info.ip_addr, "192.168.1.20");
    info.set_ip_report(Err("no interface up".to_string()));
    assert_eq!(info.ip_addr, "Failed to get ip address no interface up");
}

#[test]
fn report_block_layout() {
    let mut info = Details::new();
    info.name = "TestOS".to_string();
    info.kernel = "1.2.3".to_string();
    info.version = "42".to_string();
    info.host_name = "box".to_string();
    info.physical_cores = "4".to_string();
    info.threaded_cores = "8".to_string();
    info.mem_total = "16.00 GB".to_string();
    info.mem_avail = "8.00 GB".to_string();
    info.mem_used = "8.00 GB".to_string();
    info.cpu_brand = "ExampleCPU".to_string();
    info.cpu_freq = "2.40 GHz".to_string();
    info.ip_addr = "10.0.0.2".to_string();
    let report = info.os_report();
    let expected = "System Name      = TestOS\r\n\
                    System Kernel    = 1.2.3\r\n\
                    Version          = 42\r\n\
                    Host Name        = box\r\n\
                    \r\n\
                    Physical Cores   = 4 \r\n\
                    Threaded Cores   = 8 \r\n\
                    \r\n\
                    Total memory     = 16.00 GB \r\n\
                    Available Memory = 8.00 GB \r\n\
                    Used Memory      = 8.00 GB \r\n\
                    \r\n\
                    CPU Frequency    = 2.40 GHz \r\n\
                    CPU Vendor       = ExampleCPU \r\n\
                    IP Address       = 10.0.0.2";
    assert_eq!(report, expected);
}

#[test]
fn gathered_report_has_all_labels() {
    let mut info = Details::new();
    let report = info.format_os();
    for label in [
        "System Name      = ",
        "System Kernel    = ",
        "Version          = ",
        "Host Name        = ",
        "Physical Cores   = ",
        "Threaded Cores   = ",
        "Total memory     = ",
        "Available Memory = ",
        "Used Memory      = ",
        "CPU Frequency    = ",
        "CPU Vendor       = ",
        "IP Address       = ",
    ] {
        assert!(report.contains(label), "missing label: {}", label);
    }
    // The memory fields carry the fixed-point form.
    assert!(info.mem_total.ends_with(" GB"));
    assert!(info.mem_avail.ends_with(" GB"));
    assert!(info.mem_used.ends_with(" GB"));
}

#[test]
fn logger_system_info_is_a_report() {
    let mut logger = arrakis_serial::logger::Logger::default();
    let report = logger.system_info();
    assert!(report.contains("System Name      = "));
    assert!(report.contains("Threaded Cores   = "));
}
