use catapult::detect::probe::{
    elecraft_probe_result, icom_probe_addresses, icom_probe_result, id_probe_result, yaesu_probe_result, ProbeConfig,
    RadioProber,
};
use catapult::detect::scanner::{PortScanner, ScannerConfig, SerialPortInfo};
use catapult::detect::usb_ids::{
    adapter_name, classify_port, is_known_radio_usb, is_known_serial_adapter, is_smartsdr_port, match_port_name,
    suggest_protocol_for_port, PortClassification,
};
use catapult::protocol::Protocol;

#[test]
fn test_probe_config_default() {
    let config = ProbeConfig::default();
    assert_eq!(config.timeout_ms, 500);
}

#[test]
fn detect_prober_keeps_config() {
    let prober = RadioProber::with_config(ProbeConfig { timeout_ms: 250, inter_probe_delay_ms: 10 });
    assert_eq!(prober.probe_config().timeout_ms, 250);
    assert_eq!(RadioProber::new().probe_config().inter_probe_delay_ms, 100);
}

#[test]
fn detect_icom_addresses_in_probe_order() {
    assert_eq!(icom_probe_addresses(), vec![0x94, 0xA4, 0x98, 0x70, 0x76, 0x88, 0x7C]);
}

#[test]
fn detect_icom_probe_reads_source_address() {
    let frame = [0xFE, 0xFE, 0xE0, 0x94, 0x19, 0x00, 0x94, 0xFD];
    let r = icom_probe_result(&frame).unwrap();
    assert_eq!(r.protocol, Protocol::IcomCIV);
    assert_eq!(r.address, Some(0x94));
    assert_eq!(r.model.unwrap().model, "IC-7300");
    assert!(icom_probe_result(&[0x00, 0x01, 0x02]).is_none());
}

#[test]
fn detect_id_probe_classifies_responses() {
    let k = id_probe_result(b"ID019;").unwrap();
    assert_eq!(k.protocol, Protocol::Kenwood);
    assert_eq!(k.id_data, b"ID019;".to_vec());
    let f = id_probe_result(b"ID909;").unwrap();
    assert_eq!(f.protocol, Protocol::FlexRadio);
    let y = id_probe_result(b"ID0670;").unwrap();
    assert_eq!(y.protocol, Protocol::YaesuAscii);
    assert!(id_probe_result(b"XX;").is_none());
}

#[test]
fn detect_elecraft_probe() {
    let e = elecraft_probe_result(b"K3;").unwrap();
    assert_eq!(e.protocol, Protocol::Elecraft);
    assert!(elecraft_probe_result(b"FA00014250000;").is_none());
}

#[test]
fn detect_yaesu_probe_accepts_known_opcodes() {
    assert_eq!(yaesu_probe_result(&[0, 0, 0, 0, 0x03]).unwrap().protocol, Protocol::Yaesu);
    assert!(yaesu_probe_result(&[0, 0, 0, 0, 0xF0]).is_none());
}

#[test]
fn detect_port_names() {
    assert!(is_smartsdr_port("FlexVSP COM5"));
    assert!(is_smartsdr_port("smartsdr cat"));
    assert!(!is_smartsdr_port("/dev/ttyUSB0"));
    let m = match_port_name("FLEXRADIO slice A").unwrap();
    assert_eq!(m.manufacturer, "FlexRadio");
}

#[test]
fn detect_usb_tables() {
    assert!(is_known_serial_adapter(0x0403, 0x6001));
    assert!(!is_known_serial_adapter(0x0403, 0x1234));
    assert_eq!(is_known_radio_usb(0x0C26, 0x0036), Some("IC-7300"));
    assert_eq!(is_known_radio_usb(0x0403, 0x6001), None);
    assert_eq!(adapter_name(0x10C4), Some("CP210x"));
    assert_eq!(adapter_name(0x1234), None);
}

#[test]
fn detect_classify_and_suggest() {
    assert_eq!(classify_port(Some(0x0C26), Some(0x0036), "COM3"), (PortClassification::KnownRadio, Some("Icom USB")));
    assert_eq!(classify_port(None, None, "FlexVSP"), (PortClassification::VirtualPort, Some("FlexRadio")));
    assert_eq!(classify_port(Some(0x0403), Some(0x6001), "COM4"), (PortClassification::KnownAdapter, Some("FTDI")));
    assert_eq!(classify_port(None, None, "COM1"), (PortClassification::Unknown, None));
    assert!(PortClassification::KnownRadio.is_safe_to_probe());
    assert!(!PortClassification::KnownAdapter.is_safe_to_probe());
    assert_eq!(suggest_protocol_for_port(Some(0x0B28), "x"), Some(Protocol::Kenwood));
    assert_eq!(suggest_protocol_for_port(None, "SmartSDR CAT"), Some(Protocol::FlexRadio));
    assert_eq!(suggest_protocol_for_port(None, "COM1"), None);
}

fn port(name: &str) -> SerialPortInfo {
    SerialPortInfo { port: name.to_string(), vid: None, pid: None, serial_number: None, manufacturer: None, product: None }
}

#[test]
fn detect_scanner_filters_skipped_ports() {
    let scanner = PortScanner::with_config(ScannerConfig { skip_patterns: vec!["Bluetooth".to_string()] });
    let kept = scanner.filter_ports(vec![port("COM3"), port("Bluetooth-Incoming"), port("COM4")]);
    let names: Vec<&str> = kept.iter().map(|p| p.port.as_str()).collect();
    assert_eq!(names, vec!["COM3", "COM4"]);
    let all = PortScanner::new().filter_ports(vec![port("COM3")]);
    assert_eq!(all.len(), 1);
}
