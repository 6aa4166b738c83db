use catapult::command::{OperatingMode, RadioRequest, RadioResponse};
use catapult::flex::{is_valid_id_response, FlexCodec, FlexCommand, FlexMode};
use catapult::kenwood::KenwoodCommand;
use catapult::protocol::{EncodeCommand, FromRadioRequest, ProtocolCodec, ToRadioRequest, ToRadioResponse};

#[test]
fn test_parse_zzfa() {
    let mut codec = FlexCodec::new();
    codec.push_bytes(b"ZZFA00014250000;");
    match codec.next_command().unwrap() {
        FlexCommand::Kenwood(KenwoodCommand::FrequencyA(Some(14_250_000))) => {}
        other => panic!("Expected FrequencyA(14250000), got {:?}", other),
    }
}

#[test]
fn test_parse_fa() {
    let mut codec = FlexCodec::new();
    codec.push_bytes(b"FA00014250000;");
    match codec.next_command().unwrap() {
        FlexCommand::Kenwood(KenwoodCommand::FrequencyA(Some(14_250_000))) => {}
        other => panic!("Expected FrequencyA(14250000), got {:?}", other),
    }
}

#[test]
fn test_parse_zzmd() {
    let mut codec = FlexCodec::new();
    codec.push_bytes(b"ZZMD01;");
    assert_eq!(codec.next_command().unwrap(), FlexCommand::Mode(Some(FlexMode::Usb)));
}

#[test]
fn test_parse_zzmd_digu() {
    let mut codec = FlexCodec::new();
    codec.push_bytes(b"ZZMD07;");
    assert_eq!(codec.next_command().unwrap(), FlexCommand::Mode(Some(FlexMode::DigU)));
}

#[test]
fn test_parse_kenwood_mode() {
    let mut codec = FlexCodec::new();
    codec.push_bytes(b"MD2;");
    assert_eq!(codec.next_command().unwrap(), FlexCommand::Mode(Some(FlexMode::Usb)));
}

#[test]
fn test_parse_id() {
    let mut codec = FlexCodec::new();
    codec.push_bytes(b"ID905;");
    match codec.next_command().unwrap() {
        FlexCommand::Kenwood(KenwoodCommand::Id(Some(ref id))) if id == "905" => {}
        other => panic!("Expected Id(905), got {:?}", other),
    }
}

#[test]
fn test_encode_zzfa() {
    let cmd = FlexCommand::Kenwood(KenwoodCommand::FrequencyA(Some(14_250_000)));
    assert_eq!(cmd.encode(), b"ZZFA00014250000;");
}

#[test]
fn test_encode_zzmd() {
    let cmd = FlexCommand::Mode(Some(FlexMode::DigU));
    assert_eq!(cmd.encode(), b"ZZMD07;");
}

#[test]
fn flex_test_streaming_parse() {
    let mut codec = FlexCodec::new();
    codec.push_bytes(b"ZZFA000142");
    assert!(codec.next_command().is_none());
    codec.push_bytes(b"50000;");
    match codec.next_command().unwrap() {
        FlexCommand::Kenwood(KenwoodCommand::FrequencyA(Some(14_250_000))) => {}
        other => panic!("Expected FrequencyA(14250000), got {:?}", other),
    }
}

#[test]
fn flex_test_multiple_commands() {
    let mut codec = FlexCodec::new();
    codec.push_bytes(b"ZZFA00014250000;ZZMD01;ZZTX1;");
    match codec.next_command() {
        Some(FlexCommand::Kenwood(KenwoodCommand::FrequencyA(Some(14_250_000)))) => {}
        other => panic!("Expected FrequencyA, got {:?}", other),
    }
    assert_eq!(codec.next_command(), Some(FlexCommand::Mode(Some(FlexMode::Usb))));
    match codec.next_command() {
        Some(FlexCommand::Kenwood(KenwoodCommand::Transmit(Some(true)))) => {}
        other => panic!("Expected Transmit(true), got {:?}", other),
    }
    assert!(codec.next_command().is_none());
}

#[test]
fn flex_test_to_radio_command() {
    let cmd = FlexCommand::Kenwood(KenwoodCommand::FrequencyA(Some(7_074_000)));
    assert_eq!(cmd.to_radio_response(), RadioResponse::Frequency { hz: 7_074_000 });
}

#[test]
fn flex_test_from_radio_command() {
    let cmd = FlexCommand::from_radio_request(&RadioRequest::SetFrequency { hz: 14_250_000 }).unwrap();
    match cmd {
        FlexCommand::Kenwood(KenwoodCommand::FrequencyA(Some(14_250_000))) => {}
        other => panic!("Expected FrequencyA(14250000), got {:?}", other),
    }
}

#[test]
fn test_mode_conversion() {
    assert_eq!(FlexMode::Usb.to_operating_mode(), OperatingMode::Usb);
    assert_eq!(FlexMode::Lsb.to_operating_mode(), OperatingMode::Lsb);
    assert_eq!(FlexMode::CwL.to_operating_mode(), OperatingMode::Cw);
    assert_eq!(FlexMode::DigU.to_operating_mode(), OperatingMode::DigU);
}

#[test]
fn flex_test_is_valid_id_response() {
    assert!(is_valid_id_response(b"ID904;"));
    assert!(is_valid_id_response(b"ID905;"));
    assert!(is_valid_id_response(b"ID913;"));
    assert!(!is_valid_id_response(b"ID019;"));
    assert!(!is_valid_id_response(b"ID;"));
}

#[test]
fn test_parse_zzai_query() {
    let mut codec = FlexCodec::new();
    codec.push_bytes(b"ZZAI;");
    let cmd = codec.next_command().unwrap();
    assert_eq!(cmd, FlexCommand::AutoInfo(None));
    assert_eq!(cmd.to_radio_request(), RadioRequest::GetAutoInfo);
}

#[test]
fn test_parse_zzai_enable() {
    let mut codec = FlexCodec::new();
    codec.push_bytes(b"ZZAI1;");
    let cmd = codec.next_command().unwrap();
    assert_eq!(cmd, FlexCommand::AutoInfo(Some(true)));
    assert_eq!(cmd.to_radio_request(), RadioRequest::SetAutoInfo { enabled: true });
}

#[test]
fn test_parse_zzai_disable() {
    let mut codec = FlexCodec::new();
    codec.push_bytes(b"ZZAI0;");
    let cmd = codec.next_command().unwrap();
    assert_eq!(cmd, FlexCommand::AutoInfo(Some(false)));
    assert_eq!(cmd.to_radio_request(), RadioRequest::SetAutoInfo { enabled: false });
}

#[test]
fn test_parse_ai_kenwood_style() {
    let mut codec = FlexCodec::new();
    codec.push_bytes(b"AI1;");
    assert_eq!(codec.next_command().unwrap(), FlexCommand::AutoInfo(Some(true)));
}

#[test]
fn test_encode_ai() {
    assert_eq!(FlexCommand::AutoInfo(None).encode(), b"AI;");
    assert_eq!(FlexCommand::AutoInfo(Some(true)).encode(), b"AI1;");
    assert_eq!(FlexCommand::AutoInfo(Some(false)).encode(), b"AI0;");
}

#[test]
fn flex_test_from_radio_command_auto_info() {
    let cmd = FlexCommand::from_radio_request(&RadioRequest::SetAutoInfo { enabled: true }).unwrap();
    assert_eq!(cmd, FlexCommand::AutoInfo(Some(true)));
    let cmd = FlexCommand::from_radio_request(&RadioRequest::GetAutoInfo).unwrap();
    assert_eq!(cmd, FlexCommand::AutoInfo(None));
}

#[test]
fn flex_mode_code_roundtrip_values() {
    for code in 0u8..16 {
        if let Some(m) = FlexMode::from_code(code) {
            assert_eq!(m.to_code(), code);
        }
    }
}
