use catapult::command::{RadioRequest, RadioResponse};
use catapult::kenwood::{KenwoodCodec, KenwoodCommand};
use catapult::protocol::{EncodeCommand, FromRadioRequest, FromRadioResponse, ProtocolCodec, ToRadioRequest, ToRadioResponse};

#[test]
fn kenwood_test_parse_frequency() {
    let mut codec = KenwoodCodec::new();
    codec.push_bytes(b"FA00014250000;");
    let cmd = codec.next_command().unwrap();
    assert_eq!(cmd, KenwoodCommand::FrequencyA(Some(14_250_000)));
}

#[test]
fn kenwood_test_parse_mode() {
    let mut codec = KenwoodCodec::new();
    codec.push_bytes(b"MD2;");
    let cmd = codec.next_command().unwrap();
    assert_eq!(cmd, KenwoodCommand::Mode(Some(2)));
}

#[test]
fn kenwood_test_parse_id_query() {
    let mut codec = KenwoodCodec::new();
    codec.push_bytes(b"ID;");
    let cmd = codec.next_command().unwrap();
    assert_eq!(cmd, KenwoodCommand::Id(None));
}

#[test]
fn kenwood_test_encode_frequency() {
    let cmd = KenwoodCommand::FrequencyA(Some(14_250_000));
    let encoded = cmd.encode();
    assert_eq!(encoded, b"FA00014250000;");
}

#[test]
fn kenwood_test_streaming_parse() {
    let mut codec = KenwoodCodec::new();
    codec.push_bytes(b"FA000142");
    assert!(codec.next_command().is_none());
    codec.push_bytes(b"50000;");
    let cmd = codec.next_command().unwrap();
    assert_eq!(cmd, KenwoodCommand::FrequencyA(Some(14_250_000)));
}

#[test]
fn kenwood_test_multiple_commands() {
    let mut codec = KenwoodCodec::new();
    codec.push_bytes(b"FA00014250000;MD2;TX1;");
    assert_eq!(codec.next_command(), Some(KenwoodCommand::FrequencyA(Some(14_250_000))));
    assert_eq!(codec.next_command(), Some(KenwoodCommand::Mode(Some(2))));
    assert_eq!(codec.next_command(), Some(KenwoodCommand::Transmit(Some(true))));
    assert!(codec.next_command().is_none());
}

#[test]
fn kenwood_test_to_radio_command() {
    let cmd = KenwoodCommand::FrequencyA(Some(7_074_000));
    assert_eq!(cmd.to_radio_request(), RadioRequest::SetFrequency { hz: 7_074_000 });
}

#[test]
fn kenwood_test_from_radio_command() {
    let cmd = KenwoodCommand::from_radio_request(&RadioRequest::SetFrequency { hz: 14_250_000 }).unwrap();
    assert_eq!(cmd, KenwoodCommand::FrequencyA(Some(14_250_000)));
}

#[test]
fn test_parse_auto_info_query() {
    let mut codec = KenwoodCodec::new();
    codec.push_bytes(b"AI;");
    let cmd = codec.next_command().unwrap();
    assert_eq!(cmd, KenwoodCommand::AutoInfo(None));
    assert_eq!(cmd.to_radio_request(), RadioRequest::GetAutoInfo);
}

#[test]
fn test_parse_auto_info_enable() {
    let mut codec = KenwoodCodec::new();
    codec.push_bytes(b"AI1;");
    let cmd = codec.next_command().unwrap();
    assert_eq!(cmd, KenwoodCommand::AutoInfo(Some(true)));
    assert_eq!(cmd.to_radio_request(), RadioRequest::SetAutoInfo { enabled: true });
}

#[test]
fn test_parse_auto_info_disable() {
    let mut codec = KenwoodCodec::new();
    codec.push_bytes(b"AI0;");
    let cmd = codec.next_command().unwrap();
    assert_eq!(cmd, KenwoodCommand::AutoInfo(Some(false)));
    assert_eq!(cmd.to_radio_request(), RadioRequest::SetAutoInfo { enabled: false });
}

#[test]
fn test_encode_auto_info() {
    assert_eq!(KenwoodCommand::AutoInfo(None).encode(), b"AI;");
    assert_eq!(KenwoodCommand::AutoInfo(Some(true)).encode(), b"AI2;");
    assert_eq!(KenwoodCommand::AutoInfo(Some(false)).encode(), b"AI0;");
}

#[test]
fn kenwood_test_from_radio_command_auto_info() {
    let cmd = KenwoodCommand::from_radio_request(&RadioRequest::SetAutoInfo { enabled: true }).unwrap();
    assert_eq!(cmd, KenwoodCommand::AutoInfo(Some(true)));
    let cmd = KenwoodCommand::from_radio_request(&RadioRequest::GetAutoInfo).unwrap();
    assert_eq!(cmd, KenwoodCommand::AutoInfo(None));
}

#[test]
fn test_parse_control_band_query() {
    let mut codec = KenwoodCodec::new();
    codec.push_bytes(b"CB;");
    let cmd = codec.next_command().unwrap();
    assert_eq!(cmd, KenwoodCommand::ControlBand(None));
    assert_eq!(cmd.to_radio_request(), RadioRequest::GetControlBand);
}

#[test]
fn test_parse_control_band_set() {
    let mut codec = KenwoodCodec::new();
    codec.push_bytes(b"CB0;");
    let cmd = codec.next_command().unwrap();
    assert_eq!(cmd, KenwoodCommand::ControlBand(Some(0)));
    assert_eq!(cmd.to_radio_response(), RadioResponse::ControlBand { band: 0 });

    let mut codec = KenwoodCodec::new();
    codec.push_bytes(b"CB1;");
    let cmd = codec.next_command().unwrap();
    assert_eq!(cmd, KenwoodCommand::ControlBand(Some(1)));
    assert_eq!(cmd.to_radio_response(), RadioResponse::ControlBand { band: 1 });
}

#[test]
fn test_encode_control_band() {
    assert_eq!(KenwoodCommand::ControlBand(None).encode(), b"CB;");
    assert_eq!(KenwoodCommand::ControlBand(Some(0)).encode(), b"CB0;");
    assert_eq!(KenwoodCommand::ControlBand(Some(1)).encode(), b"CB1;");
}

#[test]
fn test_parse_transmit_band_query() {
    let mut codec = KenwoodCodec::new();
    codec.push_bytes(b"TB;");
    let cmd = codec.next_command().unwrap();
    assert_eq!(cmd, KenwoodCommand::TransmitBand(None));
    assert_eq!(cmd.to_radio_request(), RadioRequest::GetTransmitBand);
}

#[test]
fn test_parse_transmit_band_set() {
    let mut codec = KenwoodCodec::new();
    codec.push_bytes(b"TB0;");
    let cmd = codec.next_command().unwrap();
    assert_eq!(cmd, KenwoodCommand::TransmitBand(Some(0)));
    assert_eq!(cmd.to_radio_response(), RadioResponse::TransmitBand { band: 0 });

    let mut codec = KenwoodCodec::new();
    codec.push_bytes(b"TB1;");
    let cmd = codec.next_command().unwrap();
    assert_eq!(cmd, KenwoodCommand::TransmitBand(Some(1)));
    assert_eq!(cmd.to_radio_response(), RadioResponse::TransmitBand { band: 1 });
}

#[test]
fn test_encode_transmit_band() {
    assert_eq!(KenwoodCommand::TransmitBand(None).encode(), b"TB;");
    assert_eq!(KenwoodCommand::TransmitBand(Some(0)).encode(), b"TB0;");
    assert_eq!(KenwoodCommand::TransmitBand(Some(1)).encode(), b"TB1;");
}

#[test]
fn test_from_radio_command_control_band() {
    let cmd = KenwoodCommand::from_radio_request(&RadioRequest::GetControlBand).unwrap();
    assert_eq!(cmd, KenwoodCommand::ControlBand(None));
    let cmd = KenwoodCommand::from_radio_response(&RadioResponse::ControlBand { band: 1 }).unwrap();
    assert_eq!(cmd, KenwoodCommand::ControlBand(Some(1)));
}

#[test]
fn test_from_radio_command_transmit_band() {
    let cmd = KenwoodCommand::from_radio_request(&RadioRequest::GetTransmitBand).unwrap();
    assert_eq!(cmd, KenwoodCommand::TransmitBand(None));
    let cmd = KenwoodCommand::from_radio_response(&RadioResponse::TransmitBand { band: 1 }).unwrap();
    assert_eq!(cmd, KenwoodCommand::TransmitBand(Some(1)));
}

// Encoding then parsing gives the command back (a law proved in the
// library; checked here on concrete values).
#[test]
fn kenwood_encode_parse_roundtrip_values() {
    let cmds = vec![
        KenwoodCommand::FrequencyA(Some(7_074_000)),
        KenwoodCommand::FrequencyB(Some(144_200_000)),
        KenwoodCommand::Mode(Some(3)),
        KenwoodCommand::Transmit(Some(true)),
        KenwoodCommand::Id(None),
        KenwoodCommand::Split(Some(true)),
        KenwoodCommand::ControlBand(Some(1)),
    ];
    for cmd in cmds {
        let mut codec = KenwoodCodec::new();
        codec.push_bytes(&cmd.encode());
        assert_eq!(codec.next_command(), Some(cmd));
    }
}

#[test]
fn kenwood_is_valid_id_response_values() {
    assert!(catapult::kenwood::is_valid_id_response(b"ID019;"));
    assert!(!catapult::kenwood::is_valid_id_response(b"ID;"));
    assert!(!catapult::kenwood::is_valid_id_response(b"FA00014250000;"));
}

#[test]
fn kenwood_garbage_does_not_grow_unbounded() {
    let mut codec = KenwoodCodec::new();
    for _ in 0..100 {
        codec.push_bytes(b"0123456789");
    }
    codec.push_bytes(b";FA00007074000;");
    // Whatever came before, the last complete command is still found.
    let mut last = None;
    while let Some(c) = codec.next_command() {
        last = Some(c);
    }
    assert_eq!(last, Some(KenwoodCommand::FrequencyA(Some(7_074_000))));
}
