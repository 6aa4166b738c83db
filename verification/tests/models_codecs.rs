use catapult::command::{OperatingMode, RadioRequest, RadioResponse};
use catapult::models::{ProtocolId, ProtocolIdStatic, RadioCapabilitiesStatic, RadioDatabase, RadioModelStatic};
use catapult::mux::codec::ProtocolCodecBox;
use catapult::protocol::{create_radio_codec, Protocol, RadioCodec};
use catapult::text::{parse_i32, parse_u64};

#[test]
fn models_lookup_by_identifiers() {
    assert_eq!(RadioDatabase::by_civ_address(0x94).unwrap().model, "IC-7300");
    assert!(RadioDatabase::by_civ_address(0x01).is_none());
    assert_eq!(RadioDatabase::by_kenwood_id("019").unwrap().model, "TS-2000");
    assert!(RadioDatabase::by_kenwood_id("999").is_none());
    assert_eq!(RadioDatabase::by_elecraft_id("KX3").unwrap().model, "KX3");
    assert_eq!(RadioDatabase::by_flex_id("909").unwrap().model, "FLEX-6600");
}

#[test]
fn models_tables_by_protocol() {
    assert_eq!(RadioDatabase::icom_radios().len(), 4);
    assert_eq!(RadioDatabase::kenwood_radios().len(), 3);
    assert!(RadioDatabase::radios_for_protocol(Protocol::FlexRadio).iter().all(|m| m.protocol == Protocol::FlexRadio));
    assert_eq!(RadioDatabase::default_for_protocol(Protocol::IcomCIV).unwrap().model, "IC-7300");
}

#[test]
fn codec_for_protocol_reads_responses_and_requests() {
    let mut codec = create_radio_codec(Protocol::Kenwood);
    codec.push_bytes(b"FA00014250000;MD2;");
    assert_eq!(codec.next_response(), Some(RadioResponse::Frequency { hz: 14_250_000 }));
    assert_eq!(codec.next_response(), Some(RadioResponse::Mode { mode: OperatingMode::Usb }));
    assert_eq!(codec.next_response(), None);
    let mut codec = create_radio_codec(Protocol::IcomCIV);
    codec.push_bytes(&[0xFE, 0xFE, 0x94, 0xE0, 0x1C, 0x00, 0x01, 0xFD]);
    assert_eq!(codec.next_request(), Some(RadioRequest::SetPtt { active: true }));
}

#[test]
fn codec_box_yields_responses_in_order() {
    let mut codec = ProtocolCodecBox::new(Protocol::Elecraft);
    codec.push_bytes(b"FA00007074000;TX1;");
    assert_eq!(codec.next_command(), Some(RadioResponse::Frequency { hz: 7_074_000 }));
    assert_eq!(codec.next_command(), Some(RadioResponse::Ptt { active: true }));
    assert_eq!(codec.next_command(), None);
}

#[test]
fn text_number_grammar() {
    assert_eq!(parse_u64(b"00014250000"), Some(14_250_000));
    assert_eq!(parse_u64(b""), None);
    assert_eq!(parse_u64(b"12a"), None);
    assert_eq!(parse_u64(b"18446744073709551616"), None);
    assert_eq!(parse_i32(b"-0150"), Some(-150));
    assert_eq!(parse_i32(b"+20"), Some(20));
}

#[test]
fn models_static_descriptions_convert_to_owned() {
    let modes: &'static [OperatingMode] = &[OperatingMode::Usb, OperatingMode::Cw];
    let s = RadioModelStatic {
        manufacturer: "Kenwood",
        model: "TS-2000",
        protocol: Protocol::Kenwood,
        protocol_id: ProtocolIdStatic::KenwoodId("019"),
        capabilities: RadioCapabilitiesStatic {
            modes,
            min_frequency_hz: 30_000,
            max_frequency_hz: 1_300_000_000,
            frequency_step_hz: 1,
            has_split: true,
            vfo_count: 2,
            has_tuner: true,
            max_power_watts: Some(100),
        },
    };
    let m = s.to_model();
    assert_eq!(m.model, "TS-2000");
    assert_eq!(m.manufacturer, "Kenwood");
    assert_eq!(m.protocol_id, ProtocolId::KenwoodId("019".to_string()));
    assert_eq!(m.capabilities.modes, vec![OperatingMode::Usb, OperatingMode::Cw]);
    assert_eq!(m.capabilities.max_power_watts, Some(100));
    assert_eq!(ProtocolIdStatic::CivAddress(0x94).to_protocol_id(), ProtocolId::CivAddress(0x94));
}
