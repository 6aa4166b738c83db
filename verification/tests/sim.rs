use catapult::command::OperatingMode;
use catapult::protocol::Protocol;
use catapult::sim::amplifier::VirtualAmplifier;
use catapult::sim::amplifier_task::VirtualAmpSession;
use catapult::sim::radio::{VirtualRadio, VirtualRadioConfig};

#[test]
fn sim_amplifier_kenwood_frequency() {
    let mut amp = VirtualAmplifier::new("test".to_string(), Protocol::Kenwood, None);
    amp.process_command(b"FA14250000;");
    assert_eq!(amp.frequency_hz(), 14_250_000);
    amp.process_command(b"FA07150000;");
    assert_eq!(amp.frequency_hz(), 7_150_000);
}

#[test]
fn sim_amplifier_kenwood_mode() {
    let mut amp = VirtualAmplifier::new("test".to_string(), Protocol::Kenwood, None);
    amp.process_command(b"MD1;");
    assert_eq!(amp.mode(), OperatingMode::Lsb);
    amp.process_command(b"MD2;");
    assert_eq!(amp.mode(), OperatingMode::Usb);
    amp.process_command(b"MD3;");
    assert_eq!(amp.mode(), OperatingMode::Cw);
}

#[test]
fn test_virtual_amplifier_kenwood_ptt() {
    let mut amp = VirtualAmplifier::new("test".to_string(), Protocol::Kenwood, None);
    assert!(!amp.ptt());
    amp.process_command(b"TX;");
    assert!(amp.ptt());
    amp.process_command(b"RX;");
    assert!(!amp.ptt());
}

#[test]
fn sim_amplifier_tracks_commands() {
    let mut amp = VirtualAmplifier::new("test".to_string(), Protocol::Kenwood, None);
    amp.process_command(b"FA14250000;");
    amp.process_command(b"MD2;");
    assert_eq!(amp.received_commands().len(), 2);
    assert_eq!(amp.received_commands()[0], b"FA14250000;");
    assert_eq!(amp.received_commands()[1], b"MD2;");
    amp.clear_received();
    assert!(amp.received_commands().is_empty());
}

#[test]
fn test_process_command_returns_true_on_change() {
    let mut amp = VirtualAmplifier::new("test".to_string(), Protocol::Kenwood, None);
    assert!(!amp.process_command(b"FA14250000;"));
    assert!(amp.process_command(b"FA07074000;"));
    assert!(!amp.process_command(b"FA07074000;"));
    assert!(amp.process_command(b"FA14250000;"));
}

#[test]
fn test_create_virtual_radio() {
    let radio = VirtualRadio::new("Test Radio".to_string(), Protocol::Kenwood);
    assert_eq!(radio.id(), "Test Radio");
    assert_eq!(radio.protocol(), Protocol::Kenwood);
    assert_eq!(radio.frequency_hz(), 14_250_000);
    assert_eq!(radio.mode(), OperatingMode::Usb);
    assert!(!radio.ptt());
}

#[test]
fn test_set_frequency_generates_output() {
    let mut radio = VirtualRadio::new("Test".to_string(), Protocol::Kenwood);
    radio.set_frequency(7_074_000);
    assert!(radio.has_output());
    let output = radio.take_output().unwrap();
    let s = String::from_utf8_lossy(&output);
    assert!(s.contains("FA"));
    assert!(s.contains("7074000"));
    assert!(s.ends_with(";"));
}

#[test]
fn test_set_mode_generates_output() {
    let mut radio = VirtualRadio::new("Test".to_string(), Protocol::Kenwood);
    radio.set_mode(OperatingMode::Cw);
    assert!(radio.has_output());
    let output = radio.take_output().unwrap();
    let s = String::from_utf8_lossy(&output);
    assert!(s.contains("MD"));
    assert!(s.ends_with(";"));
}

#[test]
fn test_set_ptt_generates_output() {
    let mut radio = VirtualRadio::new("Test".to_string(), Protocol::Kenwood);
    radio.set_ptt(true);
    assert!(radio.has_output());
    let output = radio.take_output().unwrap();
    assert_eq!(output, b"TX1;");
}

#[test]
fn test_no_output_when_value_unchanged() {
    let mut radio = VirtualRadio::new("Test".to_string(), Protocol::Kenwood);
    radio.set_frequency(14_250_000);
    assert!(!radio.has_output());
    radio.set_mode(OperatingMode::Usb);
    assert!(!radio.has_output());
    radio.set_ptt(false);
    assert!(!radio.has_output());
}

#[test]
fn test_icom_encoding() {
    let mut radio = VirtualRadio::new("IC-7300".to_string(), Protocol::IcomCIV);
    radio.set_civ_address(Some(0x94));
    radio.set_frequency(7_074_000);
    let output = radio.take_output().unwrap();
    assert_eq!(output[0], 0xFE);
    assert_eq!(output[1], 0xFE);
    assert_eq!(output[output.len() - 1], 0xFD);
}

#[test]
fn test_frequency_command_encoding() {
    let mut radio = VirtualRadio::new("Test".to_string(), Protocol::Kenwood);
    radio.set_frequency(21_350_000);
    radio.set_mode(OperatingMode::Cw);
    assert!(radio.output_count() >= 2);
}

#[test]
fn test_multiple_outputs_queued() {
    let mut radio = VirtualRadio::new("Test".to_string(), Protocol::Kenwood);
    radio.set_frequency(7_074_000);
    radio.set_mode(OperatingMode::Dig);
    radio.set_ptt(true);
    assert_eq!(radio.output_count(), 3);
    radio.take_output();
    assert_eq!(radio.output_count(), 2);
    radio.clear_output();
    assert_eq!(radio.output_count(), 0);
}

#[test]
fn test_from_config() {
    let config = VirtualRadioConfig {
        id: "My Radio".to_string(),
        protocol: Protocol::Elecraft,
        initial_frequency_hz: 10_125_000,
        initial_mode: OperatingMode::Cw,
        civ_address: None,
    };
    let radio = VirtualRadio::from_config(config);
    assert_eq!(radio.id(), "My Radio");
    assert_eq!(radio.protocol(), Protocol::Elecraft);
    assert_eq!(radio.frequency_hz(), 10_125_000);
    assert_eq!(radio.mode(), OperatingMode::Cw);
}

#[test]
fn sim_radio_outputs_in_order() {
    let mut radio = VirtualRadio::new("Test".to_string(), Protocol::Kenwood);
    radio.set_frequency(7_074_000);
    radio.set_ptt(true);
    assert_eq!(radio.take_output().unwrap(), b"FA00007074000;");
    assert_eq!(radio.take_output().unwrap(), b"TX1;");
    assert!(radio.take_output().is_none());
}

#[test]
fn sim_radio_displays() {
    let mut radio = VirtualRadio::new("Rig".to_string(), Protocol::Kenwood);
    assert_eq!(radio.frequency_display(), "14.250 MHz");
    radio.set_ptt(true);
    assert_eq!(radio.state_summary(), "Rig (Kenwood) - 14.250 MHz Usb [TX]");
}

#[test]
fn sim_amp_session_reports_changes_only() {
    let amp = VirtualAmplifier::new("amp".to_string(), Protocol::Kenwood, None);
    let mut session = VirtualAmpSession::new(amp);
    let initial = session.initial_state();
    assert_eq!(initial.frequency_hz, 14_250_000);
    assert!(session.on_data(b"FA14250000;").is_none());
    let ev = session.on_data(b"FA07074000;").unwrap();
    assert_eq!(ev.frequency_hz, 7_074_000);
    assert_eq!(session.amplifier().frequency_hz(), 7_074_000);
}

#[test]
fn sim_radio_times_start_at_creation() {
    let radio = VirtualRadio::new("Clock".to_string(), Protocol::Kenwood);
    assert_eq!(radio.last_change(), 0);
}
