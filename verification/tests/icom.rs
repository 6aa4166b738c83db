use catapult::command::{RadioRequest, RadioResponse};
use catapult::icom::{bcd_to_frequency, frequency_to_bcd, CivCodec, CivCommand, CivCommandType};
use catapult::protocol::{EncodeCommand, FromRadioRequest, ProtocolCodec, ToRadioResponse};

#[test]
fn test_bcd_to_frequency() {
    let bcd = [0x00, 0x00, 0x25, 0x14, 0x00];
    let freq = bcd_to_frequency(&bcd).unwrap();
    assert_eq!(freq, 14_250_000);
}

#[test]
fn test_frequency_to_bcd() {
    let bcd = frequency_to_bcd(14_250_000);
    assert_eq!(bcd, vec![0x00, 0x00, 0x25, 0x14, 0x00]);
}

#[test]
fn test_bcd_roundtrip() {
    let freqs = [7_074_000, 14_250_000, 28_500_000, 144_200_000];
    for freq in freqs {
        let bcd = frequency_to_bcd(freq);
        let back = bcd_to_frequency(&bcd).unwrap();
        assert_eq!(back, freq, "Roundtrip failed for {}", freq);
    }
}

#[test]
fn test_parse_frequency_response() {
    let mut codec = CivCodec::new();
    let frame = [0xFE, 0xFE, 0xE0, 0x94, 0x03, 0x00, 0x00, 0x25, 0x14, 0x00, 0xFD];
    codec.push_bytes(&frame);
    let cmd = codec.next_command().unwrap();
    assert_eq!(cmd.from_addr, 0x94);
    assert!(matches!(cmd.command, CivCommandType::FrequencyReport { hz: 14_250_000 }));
}

#[test]
fn icom_test_encode_set_frequency() {
    let cmd = CivCommand::to_radio(0x94, CivCommandType::SetFrequency { hz: 14_250_000 });
    let encoded = cmd.encode();
    assert_eq!(encoded, vec![0xFE, 0xFE, 0x94, 0xE0, 0x05, 0x00, 0x00, 0x25, 0x14, 0x00, 0xFD]);
}

#[test]
fn icom_test_streaming_parse() {
    let mut codec = CivCodec::new();
    codec.push_bytes(&[0xFE, 0xFE, 0xE0, 0x94]);
    assert!(codec.next_command().is_none());
    codec.push_bytes(&[0xFB, 0xFD]);
    let cmd = codec.next_command().unwrap();
    assert!(matches!(cmd.command, CivCommandType::Ack));
}

#[test]
fn icom_test_to_radio_response() {
    let civ_cmd = CivCommand::from_radio(0x94, CivCommandType::FrequencyReport { hz: 7_074_000 });
    let response = civ_cmd.to_radio_response();
    assert_eq!(response, RadioResponse::Frequency { hz: 7_074_000 });
}

#[test]
fn test_parse_transceive_enable() {
    let mut codec = CivCodec::new();
    let frame = [0xFE, 0xFE, 0xE0, 0x94, 0x1A, 0x05, 0x01, 0xFD];
    codec.push_bytes(&frame);
    let cmd = codec.next_command().unwrap();
    assert_eq!(cmd.from_addr, 0x94);
    assert!(matches!(cmd.command, CivCommandType::Transceive { enabled: true }));
    assert_eq!(cmd.to_radio_response(), RadioResponse::AutoInfo { enabled: true });
}

#[test]
fn test_parse_transceive_disable() {
    let mut codec = CivCodec::new();
    let frame = [0xFE, 0xFE, 0xE0, 0x94, 0x1A, 0x05, 0x00, 0xFD];
    codec.push_bytes(&frame);
    let cmd = codec.next_command().unwrap();
    assert!(matches!(cmd.command, CivCommandType::Transceive { enabled: false }));
}

#[test]
fn test_encode_transceive() {
    let cmd = CivCommand::to_radio(0x94, CivCommandType::Transceive { enabled: true });
    assert_eq!(cmd.encode(), vec![0xFE, 0xFE, 0x94, 0xE0, 0x1A, 0x05, 0x01, 0xFD]);
    let cmd = CivCommand::to_radio(0x94, CivCommandType::Transceive { enabled: false });
    assert_eq!(cmd.encode(), vec![0xFE, 0xFE, 0x94, 0xE0, 0x1A, 0x05, 0x00, 0xFD]);
}

#[test]
fn test_from_radio_request_transceive() {
    let civ_cmd = CivCommand::from_radio_request(&RadioRequest::SetAutoInfo { enabled: true }).unwrap();
    assert!(matches!(civ_cmd.command, CivCommandType::Transceive { enabled: true }));
}

#[test]
fn icom_bcd_rejects_invalid_digit() {
    assert!(bcd_to_frequency(&[0x0A, 0x00, 0x00, 0x00, 0x00]).is_err());
    assert!(bcd_to_frequency(&[0x00, 0x00]).is_ok() || bcd_to_frequency(&[0x00, 0x00]).is_err());
}

#[test]
fn icom_encode_parse_roundtrip_values() {
    let cmds = vec![
        CivCommand::to_radio(0x94, CivCommandType::SetFrequency { hz: 7_074_000 }),
        CivCommand::from_radio(0x94, CivCommandType::ModeReport { mode: 1, filter: 2 }),
        CivCommand::to_radio(0xA4, CivCommandType::GetFrequency),
    ];
    for cmd in cmds {
        let mut codec = CivCodec::new();
        codec.push_bytes(&cmd.encode());
        assert_eq!(codec.next_command(), Some(cmd));
    }
}

#[test]
fn icom_frame_helpers() {
    let frame = [0xFE, 0xFE, 0xE0, 0x94, 0x03, 0x00, 0x00, 0x25, 0x14, 0x00, 0xFD];
    assert!(catapult::icom::is_valid_frame(&frame));
    assert_eq!(catapult::icom::extract_source_address(&frame), Some(0x94));
    assert_eq!(catapult::icom::extract_source_address(&[0xFE, 0xFD]), None);
    assert_eq!(catapult::icom::probe_command(0x94), vec![0xFE, 0xFE, 0x94, 0xE0, 0x03, 0xFD]);
}
