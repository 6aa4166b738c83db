use catapult::command::{RadioRequest, RadioResponse};
use catapult::elecraft::{ElecraftCodec, ElecraftCommand};
use catapult::kenwood::KenwoodCommand;
use catapult::protocol::{EncodeCommand, FromRadioRequest, FromRadioResponse, ProtocolCodec, ToRadioRequest, ToRadioResponse};

#[test]
fn test_parse_k3_id() {
    let mut codec = ElecraftCodec::new();
    codec.push_bytes(b"K3;");
    let cmd = codec.next_command().unwrap();
    match cmd {
        ElecraftCommand::K3Id(_) => {}
        other => panic!("Expected K3Id, got {:?}", other),
    }
}

#[test]
fn test_parse_kenwood_through_elecraft() {
    let mut codec = ElecraftCodec::new();
    codec.push_bytes(b"FA00014250000;");
    let cmd = codec.next_command().unwrap();
    match cmd {
        ElecraftCommand::Kenwood(KenwoodCommand::FrequencyA(Some(14250000))) => {}
        other => panic!("Expected FrequencyA, got {:?}", other),
    }
}

#[test]
fn test_encode_k3_probe() {
    let cmd = ElecraftCommand::K3Id(None);
    assert_eq!(cmd.encode(), b"K3;");
}

#[test]
fn test_encode_power() {
    let cmd = ElecraftCommand::Power(Some(100));
    assert_eq!(cmd.encode(), b"PC100;");
}

#[test]
fn elecraft_test_to_radio_response() {
    let cmd = ElecraftCommand::Kenwood(KenwoodCommand::FrequencyA(Some(7_074_000)));
    assert_eq!(cmd.to_radio_response(), RadioResponse::Frequency { hz: 7_074_000 });
}

#[test]
fn test_to_radio_request() {
    let cmd = ElecraftCommand::K3Id(None);
    assert_eq!(cmd.to_radio_request(), RadioRequest::GetId);
    let cmd = ElecraftCommand::Kenwood(KenwoodCommand::FrequencyA(Some(14_250_000)));
    assert_eq!(cmd.to_radio_request(), RadioRequest::SetFrequency { hz: 14_250_000 });
}

#[test]
fn test_from_radio_request() {
    let cmd = ElecraftCommand::from_radio_request(&RadioRequest::GetId).unwrap();
    assert_eq!(cmd, ElecraftCommand::K3Id(None));
    let cmd = ElecraftCommand::from_radio_request(&RadioRequest::SetFrequency { hz: 14_250_000 }).unwrap();
    assert_eq!(cmd, ElecraftCommand::Kenwood(KenwoodCommand::FrequencyA(Some(14_250_000))));
}

#[test]
fn test_from_radio_response() {
    let resp = RadioResponse::Id { id: "K3:123".to_string() };
    let cmd = ElecraftCommand::from_radio_response(&resp).unwrap();
    assert_eq!(cmd, ElecraftCommand::K3Id(Some("123".to_string())));
    let resp = RadioResponse::Frequency { hz: 7_074_000 };
    let cmd = ElecraftCommand::from_radio_response(&resp).unwrap();
    assert_eq!(cmd, ElecraftCommand::Kenwood(KenwoodCommand::FrequencyA(Some(7_074_000))));
}

#[test]
fn test_k3_id_response() {
    let cmd = ElecraftCommand::K3Id(Some("123".to_string()));
    assert_eq!(cmd.to_radio_response(), RadioResponse::Id { id: "K3:123".to_string() });
}

#[test]
fn elecraft_response_detection() {
    assert_eq!(catapult::elecraft::is_elecraft_response(b"K3;"), Some("K3"));
    assert_eq!(catapult::elecraft::is_elecraft_response(b"FA00014250000;"), None);
}

#[test]
fn elecraft_id_round_trip_through_response() {
    let k3 = ElecraftCommand::K3Id(Some("123".to_string()));
    let resp = k3.to_radio_response();
    assert_eq!(resp, RadioResponse::Id { id: "K3:123".to_string() });
    assert_eq!(ElecraftCommand::from_radio_response(&resp), Some(ElecraftCommand::K3Id(Some("123".to_string()))));
}
