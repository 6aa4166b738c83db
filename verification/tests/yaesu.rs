use catapult::command::RadioRequest;
use catapult::protocol::{EncodeCommand, FromRadioRequest, ProtocolCodec, ToRadioRequest};
use catapult::yaesu::{bcd_to_frequency_be, frequency_to_bcd_be, YaesuCodec, YaesuCommand};

#[test]
fn test_bcd_frequency_roundtrip() {
    let freqs = [14_250_000u64, 7_074_000, 28_500_000, 144_200_000, 3_573_000];
    for freq in freqs {
        let bcd = frequency_to_bcd_be(freq);
        assert_eq!(bcd.len(), 4);
        let arr: [u8; 5] = [bcd[0], bcd[1], bcd[2], bcd[3], 0];
        let back = bcd_to_frequency_be(&arr);
        assert_eq!(back / 10 * 10, freq / 10 * 10, "Roundtrip failed for {}", freq);
    }
}

#[test]
fn yaesu_test_encode_set_frequency() {
    let cmd = YaesuCommand::SetFrequency { hz: 14_250_000 };
    let encoded = cmd.encode();
    assert_eq!(encoded.len(), 5);
    assert_eq!(encoded[4], 0x01);
}

#[test]
fn test_parse_ptt_on() {
    let mut codec = YaesuCodec::new();
    codec.push_bytes(&[0x00, 0x00, 0x00, 0x00, 0x08]);
    let cmd = codec.next_command().unwrap();
    assert_eq!(cmd, YaesuCommand::PttOn);
}

#[test]
fn yaesu_test_to_radio_command() {
    let cmd = YaesuCommand::SetFrequency { hz: 7_074_000 };
    assert_eq!(cmd.to_radio_request(), RadioRequest::SetFrequency { hz: 7_074_000 });
}

#[test]
fn yaesu_test_from_radio_command() {
    let cmd = YaesuCommand::from_radio_request(&RadioRequest::SetPtt { active: true }).unwrap();
    assert_eq!(cmd, YaesuCommand::PttOn);
}

#[test]
fn test_encode_decode_roundtrip() {
    let commands = vec![
        YaesuCommand::PttOn,
        YaesuCommand::PttOff,
        YaesuCommand::ToggleVfo,
        YaesuCommand::SplitOn,
        YaesuCommand::ReadRxStatus,
    ];
    for cmd in commands {
        let encoded = cmd.encode();
        let mut codec = YaesuCodec::new();
        codec.push_bytes(&encoded);
        let decoded = codec.next_command().unwrap();
        assert_eq!(decoded, cmd);
    }
}

#[test]
fn yaesu_set_frequency_bytes() {
    let cmd = YaesuCommand::SetFrequency { hz: 14_250_000 };
    assert_eq!(cmd.encode(), vec![0x01, 0x42, 0x50, 0x00, 0x01]);
    assert_eq!(catapult::yaesu::probe_command(), vec![0, 0, 0, 0, 0x03]);
}
