use catapult::command::RadioRequest;
use catapult::protocol::{EncodeCommand, FromRadioRequest, ProtocolCodec, ToRadioRequest};
use catapult::yaesu_ascii::{is_known_yaesu_ascii_id, is_valid_id_response, YaesuAsciiCodec, YaesuAsciiCommand};

#[test]
fn yaesu_ascii_test_parse_frequency() {
    let mut codec = YaesuAsciiCodec::new();
    codec.push_bytes(b"FA014250000;");
    assert_eq!(codec.next_command().unwrap(), YaesuAsciiCommand::FrequencyA(Some(14_250_000)));
}

#[test]
fn test_parse_frequency_vhf() {
    let mut codec = YaesuAsciiCodec::new();
    codec.push_bytes(b"FA146520000;");
    assert_eq!(codec.next_command().unwrap(), YaesuAsciiCommand::FrequencyA(Some(146_520_000)));
}

#[test]
fn yaesu_ascii_test_parse_mode() {
    let mut codec = YaesuAsciiCodec::new();
    codec.push_bytes(b"MD02;");
    assert_eq!(codec.next_command().unwrap(), YaesuAsciiCommand::Mode { receiver: 0, mode: Some(2) });
}

#[test]
fn test_parse_mode_data() {
    let mut codec = YaesuAsciiCodec::new();
    codec.push_bytes(b"MD0C;");
    assert_eq!(codec.next_command().unwrap(), YaesuAsciiCommand::Mode { receiver: 0, mode: Some(12) });
}

#[test]
fn yaesu_ascii_test_parse_id_query() {
    let mut codec = YaesuAsciiCodec::new();
    codec.push_bytes(b"ID;");
    assert_eq!(codec.next_command().unwrap(), YaesuAsciiCommand::Id(None));
}

#[test]
fn test_parse_id_response() {
    let mut codec = YaesuAsciiCodec::new();
    codec.push_bytes(b"ID0570;");
    assert_eq!(codec.next_command().unwrap(), YaesuAsciiCommand::Id(Some("0570".to_string())));
}

#[test]
fn yaesu_ascii_test_encode_frequency() {
    let cmd = YaesuAsciiCommand::FrequencyA(Some(14_250_000));
    assert_eq!(cmd.encode(), b"FA014250000;");
}

#[test]
fn test_encode_frequency_9_digits() {
    let cmd = YaesuAsciiCommand::FrequencyA(Some(7_074_000));
    assert_eq!(cmd.encode(), b"FA007074000;");
}

#[test]
fn test_encode_mode() {
    let cmd = YaesuAsciiCommand::Mode { receiver: 0, mode: Some(2) };
    assert_eq!(cmd.encode(), b"MD02;");
}

#[test]
fn test_encode_mode_hex() {
    let cmd = YaesuAsciiCommand::Mode { receiver: 0, mode: Some(12) };
    assert_eq!(cmd.encode(), b"MD0C;");
}

#[test]
fn yaesu_ascii_test_streaming_parse() {
    let mut codec = YaesuAsciiCodec::new();
    codec.push_bytes(b"FA014");
    assert!(codec.next_command().is_none());
    codec.push_bytes(b"250000;");
    assert_eq!(codec.next_command().unwrap(), YaesuAsciiCommand::FrequencyA(Some(14_250_000)));
}

#[test]
fn yaesu_ascii_test_to_radio_command() {
    let cmd = YaesuAsciiCommand::FrequencyA(Some(7_074_000));
    assert_eq!(cmd.to_radio_request(), RadioRequest::SetFrequency { hz: 7_074_000 });
}

#[test]
fn yaesu_ascii_test_from_radio_command() {
    let cmd = YaesuAsciiCommand::from_radio_request(&RadioRequest::SetFrequency { hz: 14_250_000 }).unwrap();
    assert_eq!(cmd, YaesuAsciiCommand::FrequencyA(Some(14_250_000)));
}

#[test]
fn test_auto_info() {
    let mut codec = YaesuAsciiCodec::new();
    codec.push_bytes(b"AI1;");
    let cmd = codec.next_command().unwrap();
    assert_eq!(cmd, YaesuAsciiCommand::AutoInfo(Some(true)));
    assert_eq!(cmd.to_radio_request(), RadioRequest::SetAutoInfo { enabled: true });
}

#[test]
fn yaesu_ascii_test_is_valid_id_response() {
    assert!(is_valid_id_response(b"ID0570;"));
    assert!(is_valid_id_response(b"ID0681;"));
    assert!(!is_valid_id_response(b"ID019;"));
    assert!(!is_valid_id_response(b"FA014250000;"));
}

#[test]
fn test_is_known_yaesu_ascii_id() {
    assert!(is_known_yaesu_ascii_id("0570"));
    assert!(is_known_yaesu_ascii_id("0681"));
    assert!(!is_known_yaesu_ascii_id("019"));
}

fn roundtrip(cmd: YaesuAsciiCommand) {
    let mut codec = YaesuAsciiCodec::new();
    codec.push_bytes(&cmd.encode());
    assert_eq!(codec.next_command(), Some(cmd));
    assert_eq!(codec.next_command(), None);
}

#[test]
fn yaesu_ascii_mode_id_smeter_round_trip() {
    roundtrip(YaesuAsciiCommand::Mode { receiver: 1, mode: Some(14) });
    roundtrip(YaesuAsciiCommand::Mode { receiver: 3, mode: None });
    roundtrip(YaesuAsciiCommand::Id(Some("0670".to_string())));
    roundtrip(YaesuAsciiCommand::Id(None));
    roundtrip(YaesuAsciiCommand::SMeter(Some(123)));
    roundtrip(YaesuAsciiCommand::SMeter(None));
}
