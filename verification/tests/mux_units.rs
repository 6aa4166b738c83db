use catapult::command::{OperatingMode, RadioResponse, Vfo};
use catapult::mux::amplifier::{AmplifierChannelMeta, AmplifierType, VirtualAmplifier, VirtualAmplifierIo};
use catapult::mux::channel::{RadioChannelMeta, RadioType};
use catapult::mux::engine::Multiplexer;
use catapult::mux::events::MuxEvent;
use catapult::mux::state::{RadioHandle, SwitchingMode};
use catapult::mux::translation::{should_forward_to_amp, ProtocolTranslator, TranslationConfig};
use catapult::protocol::Protocol;

#[test]
fn test_add_remove_radio() {
    let mut mux = Multiplexer::new();
    let h1 = mux.add_radio("Radio 1".into(), "/dev/ttyUSB0".into(), Protocol::Kenwood);
    let h2 = mux.add_radio("Radio 2".into(), "/dev/ttyUSB1".into(), Protocol::IcomCIV);
    assert_eq!(mux.radios().len(), 2);
    assert_eq!(mux.active_radio(), Some(h1));
    mux.remove_radio(h1);
    assert_eq!(mux.radios().len(), 1);
    assert_eq!(mux.active_radio(), Some(h2));
}

#[test]
fn test_manual_switching() {
    let mut mux = Multiplexer::new();
    mux.set_switching_mode(SwitchingMode::Manual);
    let h1 = mux.add_radio("Radio 1".into(), "/dev/ttyUSB0".into(), Protocol::Kenwood);
    let h2 = mux.add_radio("Radio 2".into(), "/dev/ttyUSB1".into(), Protocol::Kenwood);
    assert_eq!(mux.active_radio(), Some(h1));
    mux.select_radio(h2).unwrap();
    assert_eq!(mux.active_radio(), Some(h2));
}

#[test]
fn test_automatic_ptt_switching() {
    let mut mux = Multiplexer::new();
    mux.set_switching_mode(SwitchingMode::Automatic);
    let mut config = mux.config().clone();
    config.lockout_ms = 0;
    mux.set_config(config);
    let h1 = mux.add_radio("Radio 1".into(), "/dev/ttyUSB0".into(), Protocol::Kenwood);
    let h2 = mux.add_radio("Radio 2".into(), "/dev/ttyUSB1".into(), Protocol::Kenwood);
    assert_eq!(mux.active_radio(), Some(h1));
    mux.process_radio_command(h2, RadioResponse::Ptt { active: true });
    assert_eq!(mux.active_radio(), Some(h2));
}

#[test]
fn test_frequency_update() {
    let mut mux = Multiplexer::new();
    let h1 = mux.add_radio("Radio 1".into(), "/dev/ttyUSB0".into(), Protocol::Kenwood);
    mux.process_radio_command(h1, RadioResponse::Frequency { hz: 14_250_000 });
    let state = mux.get_radio(h1).unwrap();
    assert_eq!(state.frequency_hz, Some(14_250_000));
}

#[test]
fn test_command_translation() {
    let mut mux = Multiplexer::new();
    let mut config = mux.config().clone();
    config.amplifier.protocol = Protocol::Kenwood;
    mux.set_config(config);
    let h1 = mux.add_radio("Radio 1".into(), "/dev/ttyUSB0".into(), Protocol::Kenwood);
    let result = mux.process_radio_command(h1, RadioResponse::Frequency { hz: 14_250_000 });
    assert!(result.is_some());
    let bytes = result.unwrap();
    assert!(bytes.ends_with(b";"));
}

#[test]
fn test_translate_frequency_kenwood_to_icom() {
    let translator = ProtocolTranslator::new(Protocol::IcomCIV);
    let resp = RadioResponse::Frequency { hz: 14_250_000 };
    let result = translator.translate_response(&resp).unwrap();
    assert_eq!(result[0], 0xFE);
    assert_eq!(result[1], 0xFE);
    assert_eq!(result[result.len() - 1], 0xFD);
}

#[test]
fn test_translate_ptt_to_kenwood() {
    let translator = ProtocolTranslator::new(Protocol::Kenwood);
    let resp = RadioResponse::Ptt { active: true };
    let result = translator.translate_response(&resp).unwrap();
    assert_eq!(result, b"TX1;");
}

#[test]
fn test_frequency_precision() {
    let config = TranslationConfig { frequency_precision_hz: 100, ..Default::default() };
    let translator = ProtocolTranslator::with_config(Protocol::Kenwood, config);
    let resp = RadioResponse::Frequency { hz: 14_250_123 };
    let result = translator.translate_response(&resp).unwrap();
    let s = String::from_utf8_lossy(&result);
    assert!(s.contains("14250100"), "Expected 14250100, got {}", s);
}

#[test]
fn test_should_forward() {
    assert!(should_forward_to_amp(&RadioResponse::Frequency { hz: 14_250_000 }));
    assert!(should_forward_to_amp(&RadioResponse::Ptt { active: true }));
    assert!(!should_forward_to_amp(&RadioResponse::Id { id: "IC-7300".to_string() }));
    assert!(!should_forward_to_amp(&RadioResponse::Vfo { vfo: Vfo::A }));
}

#[test]
fn amplifier_test_virtual_amplifier_kenwood_frequency() {
    let mut amp = VirtualAmplifier::new(Protocol::Kenwood, None);
    amp.process_command(b"FA14250000;");
    assert_eq!(amp.frequency_hz(), 14_250_000);
    amp.process_command(b"FA07150000;");
    assert_eq!(amp.frequency_hz(), 7_150_000);
}

#[test]
fn amplifier_test_virtual_amplifier_kenwood_mode() {
    let mut amp = VirtualAmplifier::new(Protocol::Kenwood, None);
    amp.process_command(b"MD1;");
    assert_eq!(amp.mode(), OperatingMode::Lsb);
    amp.process_command(b"MD2;");
    assert_eq!(amp.mode(), OperatingMode::Usb);
    amp.process_command(b"MD3;");
    assert_eq!(amp.mode(), OperatingMode::Cw);
}

#[test]
fn amplifier_test_virtual_amplifier_tracks_commands() {
    let mut amp = VirtualAmplifier::new(Protocol::Kenwood, None);
    amp.process_command(b"FA14250000;");
    amp.process_command(b"MD2;");
    assert_eq!(amp.received_commands().len(), 2);
    assert_eq!(amp.received_commands()[0], b"FA14250000;");
    assert_eq!(amp.received_commands()[1], b"MD2;");
    amp.clear_received();
    assert!(amp.received_commands().is_empty());
}

#[test]
fn test_amplifier_meta_real() {
    let meta = AmplifierChannelMeta::new_real("/dev/ttyUSB1".to_string(), Protocol::Kenwood, 38400, None);
    assert_eq!(meta.amp_type, AmplifierType::Real);
    assert!(!meta.is_simulated());
    assert_eq!(meta.port_name, Some("/dev/ttyUSB1".to_string()));
    assert_eq!(meta.baud_rate, 38400);
}

#[test]
fn test_amplifier_meta_virtual() {
    let meta = AmplifierChannelMeta::new_virtual(Protocol::IcomCIV, Some(0x94));
    assert_eq!(meta.amp_type, AmplifierType::Virtual);
    assert!(meta.is_simulated());
    assert!(meta.port_name.is_none());
    assert_eq!(meta.civ_address, Some(0x94));
}

#[test]
fn test_real_radio_meta() {
    let meta = RadioChannelMeta::new_real(
        "IC-7300".to_string(),
        "/dev/ttyUSB0".to_string(),
        Protocol::IcomCIV,
        Some(0x94),
    );
    assert_eq!(meta.radio_type, RadioType::Real);
    assert!(!meta.is_simulated());
    assert_eq!(meta.port_name, Some("/dev/ttyUSB0".to_string()));
    assert_eq!(meta.civ_address, Some(0x94));
}

#[test]
fn test_virtual_radio_meta() {
    let meta = RadioChannelMeta::new_virtual("Virtual 1".to_string(), "sim-001".to_string(), Protocol::Kenwood);
    assert_eq!(meta.radio_type, RadioType::Virtual);
    assert!(meta.is_simulated());
    assert_eq!(meta.sim_id, Some("sim-001".to_string()));
    assert!(meta.port_name.is_none());
}

#[test]
fn test_traffic_event_classification() {
    let radio_in = MuxEvent::RadioDataIn { handle: RadioHandle(1), data: vec![0x01, 0x02], protocol: Protocol::Kenwood };
    assert!(radio_in.is_traffic());
    assert!(!radio_in.is_radio_lifecycle());
    let amp_out = MuxEvent::AmpDataOut { data: vec![0x03, 0x04], protocol: Protocol::Kenwood };
    assert!(amp_out.is_traffic());
    let connected = MuxEvent::RadioConnected {
        handle: RadioHandle(1),
        meta: RadioChannelMeta::new_real("Test".to_string(), "/dev/tty0".to_string(), Protocol::Kenwood, None),
    };
    assert!(!connected.is_traffic());
    assert!(connected.is_radio_lifecycle());
}

#[test]
fn test_radio_handle_extraction() {
    let event = MuxEvent::RadioDataIn { handle: RadioHandle(42), data: vec![], protocol: Protocol::Kenwood };
    assert_eq!(event.radio_handle(), Some(RadioHandle(42)));
    let amp_event = MuxEvent::AmpDataOut { data: vec![], protocol: Protocol::Kenwood };
    assert_eq!(amp_event.radio_handle(), None);
}

#[test]
fn mux_translator_rounds_down_to_precision() {
    let config = TranslationConfig { frequency_precision_hz: 1000, ..Default::default() };
    let translator = ProtocolTranslator::with_config(Protocol::Kenwood, config);
    let result = translator.translate_response(&RadioResponse::Frequency { hz: 14_250_999 }).unwrap();
    assert_eq!(result, b"FA00014250000;");
}

#[test]
fn mux_translator_rejects_unforwardable_response() {
    let translator = ProtocolTranslator::new(Protocol::Kenwood);
    assert!(translator.translate_response(&RadioResponse::Unknown { data: vec![1, 2] }).is_err());
}

#[test]
fn mux_amplifier_icom_frequency_and_mode() {
    let mut amp = VirtualAmplifier::new(Protocol::IcomCIV, Some(0x94));
    let reply = amp.process_command(&[0xFE, 0xFE, 0x94, 0xE0, 0x00, 0x00, 0x00, 0x25, 0x14, 0x00, 0xFD]);
    assert_eq!(amp.frequency_hz(), 14_250_000);
    assert_eq!(reply, None);
    amp.process_command(&[0xFE, 0xFE, 0x94, 0xE0, 0x06, 0x03, 0xFD]);
    assert_eq!(amp.mode(), OperatingMode::Cw);
}

#[test]
fn mux_amplifier_io_write_then_read() {
    let mut io = VirtualAmplifierIo::new(Protocol::Kenwood, None);
    assert_eq!(io.write(b"FA00007074000;"), 14);
    assert_eq!(io.amplifier().frequency_hz(), 7_074_000);
    assert!(io.read(64).is_empty());
}

#[test]
fn mux_frequency_translates_for_every_amplifier_protocol() {
    for p in [Protocol::Kenwood, Protocol::Elecraft, Protocol::FlexRadio] {
        let b = ProtocolTranslator::new(p).translate_response(&RadioResponse::Frequency { hz: 7_074_000 }).unwrap();
        assert_eq!(*b.last().unwrap(), b';');
    }
    let b = ProtocolTranslator::new(Protocol::IcomCIV).translate_response(&RadioResponse::Frequency { hz: 7_074_000 }).unwrap();
    assert_eq!((b[0], *b.last().unwrap()), (0xFE, 0xFD));
    for p in [Protocol::Yaesu, Protocol::YaesuAscii] {
        let b = ProtocolTranslator::new(p).translate_response(&RadioResponse::Frequency { hz: 7_074_000 }).unwrap();
        assert_eq!(b.len(), 5);
    }
}

#[test]
fn mux_removal_removes_exactly_one() {
    let mut mux = Multiplexer::new();
    let h1 = mux.add_radio("A".into(), "p0".into(), Protocol::Kenwood);
    let h2 = mux.add_radio("B".into(), "p1".into(), Protocol::Kenwood);
    let h3 = mux.add_radio("C".into(), "p2".into(), Protocol::Kenwood);
    assert!(mux.remove_radio(h2).is_some());
    assert!(mux.remove_radio(h2).is_none());
    assert_eq!(mux.radios().len(), 2);
    assert!(mux.get_radio(h1).is_some() && mux.get_radio(h3).is_some());
}

#[test]
fn mux_status_report_tracked_on_inactive_radio() {
    let mut mux = Multiplexer::new();
    mux.set_switching_mode(SwitchingMode::Manual);
    let _h1 = mux.add_radio("A".into(), "p0".into(), Protocol::Kenwood);
    let h2 = mux.add_radio("B".into(), "p1".into(), Protocol::Kenwood);
    mux.process_radio_command(h2, RadioResponse::Status { frequency_hz: None, mode: Some(OperatingMode::Am), ptt: Some(true), vfo: None });
    let st = mux.get_radio(h2).unwrap();
    assert_eq!((st.frequency_hz, st.mode, st.ptt), (None, Some(OperatingMode::Am), true));
}

#[test]
fn mux_frequency_trigger_needs_a_change() {
    let mut mux = Multiplexer::new();
    let mut config = mux.config().clone();
    config.lockout_ms = 0;
    mux.set_config(config);
    let h1 = mux.add_radio("Radio 1".into(), "/dev/ttyUSB0".into(), Protocol::Kenwood);
    let h2 = mux.add_radio("Radio 2".into(), "/dev/ttyUSB1".into(), Protocol::Kenwood);
    mux.process_radio_command(h1, RadioResponse::Frequency { hz: 14_250_000 });
    mux.process_radio_command(h2, RadioResponse::Frequency { hz: 7_074_000 });
    assert_eq!(mux.active_radio(), Some(h2));
    mux.process_radio_command(h1, RadioResponse::Frequency { hz: 14_250_000 });
    assert_eq!(mux.active_radio(), Some(h2));
    mux.process_radio_command(h1, RadioResponse::Frequency { hz: 14_260_000 });
    assert_eq!(mux.active_radio(), Some(h1));
}
