//! Discovery, connection, the read loop and the session state machine.

use arrakis_serial::buffer::SharedBuffer;
use arrakis_serial::connection::{
    baud_for_class, ConnectionError, ConnectionHandle, PortOpenReply,
};
use arrakis_serial::discovery::{
    device_class, filter_candidates, is_preferred, select_preferred, DeviceClass,
    DeviceDescriptor, DiscoveryError, TransportHint,
};
use arrakis_serial::read_loop::{loop_step, run_read_loop, LoopStep, LoopVerdict, ReadOutcome};
use arrakis_serial::session::{SessionController, SessionStatus};

fn descriptor(port: &str, vendor: Option<&str>) -> DeviceDescriptor {
    DeviceDescriptor {
        port_name: port.to_string(),
        vendor: vendor.map(|v| v.to_string()),
        product: None,
        serial_number: None,
        vendor_id: None,
        product_id: None,
        transport_hint: TransportHint::Usb,
    }
}

#[test]
fn fresh_project_is_blank() {
    let p = arrakis_serial::project::Project::new();
    assert_eq!(p.id, 0);
    assert_eq!(p.project_name, "");
    assert_eq!(p.project_dir, "");
    assert_eq!(p.module_name, "");
    assert_eq!(p.description, "");
    assert_eq!(p.created_at, "");
    assert_eq!(p.updated_at, "");
    assert_eq!(p.repo_url, "");
    assert_eq!(p.company, "");
}

#[test]
fn port_names_classify_by_marker() {
    assert_eq!(device_class("/dev/ttyUSB0"), DeviceClass::UsbSerial);
    assert_eq!(device_class("/dev/ttyACM2"), DeviceClass::UsbAcm);
    assert_eq!(device_class("/dev/ttyS0"), DeviceClass::Generic);
    assert_eq!(device_class("COM3"), DeviceClass::Generic);
}

#[test]
fn baud_table() {
    assert_eq!(baud_for_class(DeviceClass::UsbSerial), 115200);
    assert_eq!(baud_for_class(DeviceClass::UsbAcm), 115200);
    assert_eq!(baud_for_class(DeviceClass::Generic), 9600);
}

#[test]
fn candidates_are_class_paths_only() {
    let devices = vec![
        descriptor("/dev/ttyS0", None),
        descriptor("/dev/ttyUSB0", Some("Digilent")),
        descriptor("/dev/ttyACM0", None),
    ];
    let candidates = filter_candidates(devices);
    assert_eq!(candidates.len(), 2);
    assert_eq!(candidates[0].port_name, "/dev/ttyUSB0");
    assert_eq!(candidates[1].port_name, "/dev/ttyACM0");
}

#[test]
fn exactly_one_preferred_is_selected() {
    // Exactly one descriptor is a candidate with the target vendor; it must
    // be marked preferred, and no other.
    let devices = vec![
        descriptor("/dev/ttyS0", Some("Digilent")),
        descriptor("/dev/ttyUSB0", Some("SomeOther")),
        descriptor("/dev/ttyUSB1", Some("Digilent")),
        descriptor("/dev/ttyACM0", None),
    ];
    assert_eq!(select_preferred(&devices, "Digilent"), Some(2));
    for (i, d) in devices.iter().enumerate() {
        assert_eq!(is_preferred(d, "Digilent"), i == 2);
    }
}

#[test]
fn no_preferred_device_means_none() {
    let devices = vec![
        descriptor("/dev/ttyS0", Some("Digilent")),
        descriptor("/dev/ttyUSB0", Some("SomeOther")),
    ];
    assert_eq!(select_preferred(&devices, "Digilent"), None);
}

#[test]
fn open_denied_is_open_failed() {
    let r = ConnectionHandle::open(
        "/dev/ttyUSB9".to_string(),
        9600,
        PortOpenReply::Denied("No such file or directory".to_string()),
    );
    match r {
        Err(ConnectionError::OpenFailed(reason)) => {
            assert_eq!(reason, "No such file or directory");
        }
        _ => panic!("expected OpenFailed"),
    }
}

#[test]
fn open_granted_yields_handle() {
    let r = ConnectionHandle::open("/dev/ttyUSB0".to_string(), 115200, PortOpenReply::Granted(7));
    match r {
        Ok(handle) => {
            assert_eq!(handle.port_name, "/dev/ttyUSB0");
            assert_eq!(handle.baud_rate, 115200);
            assert_eq!(handle.os_handle, 7);
            assert_eq!(handle.reader().os_handle, 7);
        }
        _ => panic!("expected a handle"),
    }
}

#[test]
fn failed_open_leaves_status_unchanged() {
    // A failed direct open is surfaced as a value; the session it was not
    // applied to keeps its status.
    let mut session = SessionController::new("Digilent".to_string());
    let devices = vec![descriptor("/dev/ttyUSB0", Some("Digilent"))];
    session.discover_and_select(Ok(devices)).unwrap();
    let r = ConnectionHandle::open(
        "/dev/definitely_not_there".to_string(),
        9600,
        PortOpenReply::Denied("No such file or directory".to_string()),
    );
    assert!(matches!(r, Err(ConnectionError::OpenFailed(_))));
    assert!(matches!(session.status, SessionStatus::DeviceFound(_)));
}

#[test]
fn discovery_failure_is_propagated() {
    let mut session = SessionController::new("Digilent".to_string());
    let r = session.discover_and_select(Err(DiscoveryError::EnumerationFailed(
        "enumeration refused".to_string(),
    )));
    match r {
        Err(DiscoveryError::EnumerationFailed(m)) => assert_eq!(m, "enumeration refused"),
        _ => panic!("expected the error back"),
    }
    assert!(matches!(session.status, SessionStatus::Idle));
    assert!(!session.serial_port_found);
}

#[test]
fn discovery_without_match_is_not_found() {
    let mut session = SessionController::new("Digilent".to_string());
    let devices = vec![descriptor("/dev/ttyS0", Some("Digilent"))];
    let found = session.discover_and_select(Ok(devices)).unwrap();
    assert!(!found);
    assert!(matches!(session.status, SessionStatus::NotFound));
    assert!(!session.serial_port_found);
}

#[test]
fn connect_is_idempotent_once_connected() {
    let mut session = SessionController::new("Digilent".to_string());
    let devices = vec![descriptor("/dev/ttyUSB0", Some("Digilent"))];
    session.discover_and_select(Ok(devices)).unwrap();
    assert!(session.connect(PortOpenReply::Granted(3)).is_ok());
    let first_status = match &session.status {
        SessionStatus::Connected(h) => (h.port_name.clone(), h.baud_rate, h.os_handle),
        _ => panic!("expected Connected"),
    };
    // No open is due any more, and a second connect changes nothing.
    assert_eq!(session.pending_open(), None);
    assert!(session.connect(PortOpenReply::Granted(99)).is_ok());
    match &session.status {
        SessionStatus::Connected(h) => {
            assert_eq!((h.port_name.clone(), h.baud_rate, h.os_handle), first_status);
        }
        _ => panic!("still expected Connected"),
    }
}

#[test]
fn connect_denied_moves_to_read_error() {
    let mut session = SessionController::new("Digilent".to_string());
    let devices = vec![descriptor("/dev/ttyUSB0", Some("Digilent"))];
    session.discover_and_select(Ok(devices)).unwrap();
    let r = session.connect(PortOpenReply::Denied("port busy".to_string()));
    match r {
        Err(ConnectionError::OpenFailed(m)) => assert_eq!(m, "port busy"),
        _ => panic!("expected OpenFailed"),
    }
    match &session.status {
        SessionStatus::ReadError(reason) => assert_eq!(reason, "port busy"),
        _ => panic!("expected ReadError"),
    }
}

#[test]
fn stop_signal_halts_before_any_append() {
    let mut buf = SharedBuffer::new();
    let verdict = loop_step(true, &mut buf, &ReadOutcome::Line("late\n".to_string()));
    assert!(matches!(verdict, LoopVerdict::Stopped));
    assert_eq!(buf.snapshot(), "");
}

#[test]
fn no_appends_after_stop_boundary() {
    let mut buf = SharedBuffer::new();
    let script = vec![
        LoopStep { stop_seen: false, outcome: ReadOutcome::Line("first\n".to_string()) },
        LoopStep { stop_seen: false, outcome: ReadOutcome::Timeout },
        LoopStep { stop_seen: false, outcome: ReadOutcome::Line("second\n".to_string()) },
        LoopStep { stop_seen: true, outcome: ReadOutcome::Line("after stop\n".to_string()) },
        LoopStep { stop_seen: false, outcome: ReadOutcome::Line("even later\n".to_string()) },
    ];
    let verdict = run_read_loop(&mut buf, &script);
    assert!(matches!(verdict, LoopVerdict::Stopped));
    assert_eq!(buf.snapshot(), "first\nsecond\n");
}

#[test]
fn read_failure_ends_loop_with_reason() {
    let mut buf = SharedBuffer::new();
    let script = vec![
        LoopStep { stop_seen: false, outcome: ReadOutcome::Line("data\n".to_string()) },
        LoopStep { stop_seen: false, outcome: ReadOutcome::Failed("device gone".to_string()) },
        LoopStep { stop_seen: false, outcome: ReadOutcome::Line("never\n".to_string()) },
    ];
    let verdict = run_read_loop(&mut buf, &script);
    match verdict {
        LoopVerdict::Failed(reason) => assert_eq!(reason, "device gone"),
        _ => panic!("expected a failed verdict"),
    }
    assert_eq!(buf.snapshot(), "data\n");
}

#[test]
fn end_to_end_session() {
    // Discover -> connect at the USB-class rate -> start -> a line arrives.
    let mut session = SessionController::new("Digilent".to_string());
    let devices = vec![descriptor("/dev/ttyUSB0", Some("Digilent"))];
    let found = session.discover_and_select(Ok(devices)).unwrap();
    assert!(found);
    assert!(session.serial_port_found);
    assert_eq!(session.selected_port, "/dev/ttyUSB0");
    match &session.status {
        SessionStatus::DeviceFound(d) => assert_eq!(d.port_name, "/dev/ttyUSB0"),
        _ => panic!("expected DeviceFound"),
    }

    let (port, baud) = session.pending_open().expect("an open is due");
    assert_eq!(port, "/dev/ttyUSB0");
    assert_eq!(baud, 115200);
    assert!(session.connect(PortOpenReply::Granted(11)).is_ok());
    match &session.status {
        SessionStatus::Connected(h) => {
            assert_eq!(h.port_name, "/dev/ttyUSB0");
            assert_eq!(h.baud_rate, 115200);
        }
        _ => panic!("expected Connected"),
    }

    session.start();
    assert!(matches!(session.status, SessionStatus::Reading(_)));

    let mut buf = SharedBuffer::new();
    let verdict = loop_step(
        session.stop_requested,
        &mut buf,
        &ReadOutcome::Line("boot complete\n".to_string()),
    );
    assert!(matches!(verdict, LoopVerdict::Running));
    assert!(buf.snapshot().contains("boot complete\n"));
}

#[test]
fn start_twice_keeps_one_loop() {
    let mut session = SessionController::new("Digilent".to_string());
    let devices = vec![descriptor("/dev/ttyUSB0", Some("Digilent"))];
    session.discover_and_select(Ok(devices)).unwrap();
    session.connect(PortOpenReply::Granted(5)).unwrap();
    session.start();
    let handle_before = match &session.status {
        SessionStatus::Reading(h) => h.os_handle,
        _ => panic!("expected Reading"),
    };
    session.start();
    match &session.status {
        SessionStatus::Reading(h) => assert_eq!(h.os_handle, handle_before),
        _ => panic!("still expected Reading"),
    }
}

#[test]
fn stop_closes_and_signals() {
    let mut session = SessionController::new("Digilent".to_string());
    let devices = vec![descriptor("/dev/ttyUSB0", Some("Digilent"))];
    session.discover_and_select(Ok(devices)).unwrap();
    session.connect(PortOpenReply::Granted(5)).unwrap();
    session.start();
    session.stop();
    assert!(session.stop_requested);
    assert!(matches!(session.status, SessionStatus::Closed));
}

#[test]
fn read_error_report_is_terminal() {
    let mut session = SessionController::new("Digilent".to_string());
    let devices = vec![descriptor("/dev/ttyUSB0", Some("Digilent"))];
    session.discover_and_select(Ok(devices)).unwrap();
    session.connect(PortOpenReply::Granted(5)).unwrap();
    session.start();
    session.report_read_error("stream broke".to_string());
    match &session.status {
        SessionStatus::ReadError(m) => assert_eq!(m, "stream broke"),
        _ => panic!("expected ReadError"),
    }
}
