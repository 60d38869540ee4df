use rust_dmx::error::DmxError;
use rust_dmx::port::{DmxPort, PortKind, PortState};
use rust_dmx::registry::join_listings;
use rust_dmx::{available_ports, EnttecDmxPort, OfflineDmxPort, Port};

fn no_driver() -> serialport::Error {
    serialport::Error::new(serialport::ErrorKind::Unknown, "no driver")
}

#[test]
fn offline_kind_lists_one_port() {
    let ports = OfflineDmxPort::available_ports().unwrap();
    assert_eq!(ports.len(), 1);
    assert_eq!(ports[0].name(), "offline");
    assert_eq!(ports[0].kind(), PortKind::Offline);
    assert_eq!(ports[0].state(), PortState::Closed);
}

#[test]
fn enttec_kind_lists_each_device() {
    let devices = vec!["/dev/ttyUSB0".to_string(), "/dev/ttyUSB1".to_string()];
    let ports = EnttecDmxPort::available_ports(Ok(devices)).unwrap();
    assert_eq!(ports.len(), 2);
    assert_eq!(ports[0].name(), "/dev/ttyUSB0");
    assert_eq!(ports[1].name(), "/dev/ttyUSB1");
    for port in &ports {
        assert_eq!(port.kind(), PortKind::Enttec);
        assert_eq!(port.state(), PortState::Closed);
    }
}

#[test]
fn enttec_kind_lists_nothing_without_devices() {
    let ports = EnttecDmxPort::available_ports(Ok(Vec::new())).unwrap();
    assert!(ports.is_empty());
}

#[test]
fn enttec_kind_hands_on_failed_enumeration() {
    match EnttecDmxPort::available_ports(Err(no_driver())) {
        Err(DmxError::Serial(e)) => {
            assert_eq!(e.kind(), serialport::ErrorKind::Unknown);
            assert_eq!(e.description, "no driver");
        }
        other => panic!("unexpected result: {:?}", other),
    }
}

#[test]
fn listing_has_offline_port_first() {
    let devices = vec!["/dev/ttyUSB0".to_string(), "/dev/ttyUSB1".to_string()];
    let ports = available_ports(Ok(devices)).unwrap();
    assert_eq!(ports.len(), 3);
    assert_eq!(ports[0].kind(), PortKind::Offline);
    assert_eq!(ports[0].name(), "offline");
    assert_eq!(ports[1].kind(), PortKind::Enttec);
    assert_eq!(ports[1].name(), "/dev/ttyUSB0");
    assert_eq!(ports[2].kind(), PortKind::Enttec);
    assert_eq!(ports[2].name(), "/dev/ttyUSB1");
    for port in &ports {
        assert_eq!(port.state(), PortState::Closed);
    }
}

#[test]
fn listing_without_devices_has_offline_port_only() {
    let ports = available_ports(Ok(Vec::new())).unwrap();
    assert_eq!(ports.len(), 1);
    assert_eq!(ports[0].name(), "offline");
}

#[test]
fn listing_fails_as_a_whole() {
    match available_ports(Err(no_driver())) {
        Err(DmxError::Serial(e)) => assert_eq!(e.description, "no driver"),
        other => panic!("unexpected result: {:?}", other),
    }
}

#[test]
fn joint_listing_is_as_long_as_its_parts() {
    for count in 0..5 {
        let devices: Vec<String> = (0..count).map(|i| format!("/dev/ttyUSB{}", i)).collect();
        let offline = OfflineDmxPort::available_ports().unwrap().len();
        let enttec = EnttecDmxPort::available_ports(Ok(devices.clone()))
            .unwrap()
            .len();
        let all = available_ports(Ok(devices)).unwrap().len();
        assert_eq!(all, offline + enttec);
    }
}

#[test]
fn joined_listings_keep_their_order() {
    let first = vec![
        Port::Enttec(EnttecDmxPort::new("a".to_string())),
        Port::Offline(OfflineDmxPort::new()),
    ];
    let second = vec![Port::Enttec(EnttecDmxPort::new("b".to_string()))];
    let joined = join_listings(Ok(first), Ok(second)).unwrap();
    let names: Vec<&str> = joined.iter().map(|port| port.name()).collect();
    assert_eq!(names, vec!["a", "offline", "b"]);
}

#[test]
fn joined_listings_fail_with_the_first_failure() {
    let ports = vec![Port::Offline(OfflineDmxPort::new())];
    let first = DmxError::Serial(no_driver());
    let second = DmxError::PortClosed;
    assert!(matches!(
        join_listings(Err(first), Err(second)),
        Err(DmxError::Serial(_))
    ));
    assert!(matches!(
        join_listings(Ok(ports), Err(DmxError::PortClosed)),
        Err(DmxError::PortClosed)
    ));
    assert!(matches!(
        join_listings(Err(DmxError::PortClosed), Ok(Vec::new())),
        Err(DmxError::PortClosed)
    ));
}
