use catapult::command::RadioRequest;
use catapult::mux::radio_link::{RadioLink, RadioTaskCommand};
use catapult::protocol::Protocol;

#[test]
fn link_id_queries_by_protocol() {
    assert_eq!(RadioLink::new(Protocol::Kenwood).id_query(), Some(b"ID;".to_vec()));
    assert_eq!(RadioLink::new(Protocol::FlexRadio).id_query(), Some(b"ID;".to_vec()));
    assert_eq!(RadioLink::new(Protocol::IcomCIV).id_query(), None);
    assert_eq!(RadioLink::new(Protocol::Yaesu).id_query(), None);
}

#[test]
fn link_icom_frames_use_radio_address() {
    let mut link = RadioLink::new(Protocol::IcomCIV);
    assert_eq!(link.encode_request(&RadioRequest::GetFrequency), Some(vec![0xFE, 0xFE, 0xE0, 0x94, 0x03, 0xFD]));
    link.set_civ_address(0xA4);
    assert_eq!(link.encode_request(&RadioRequest::GetFrequency), Some(vec![0xFE, 0xFE, 0xE0, 0xA4, 0x03, 0xFD]));
}

#[test]
fn link_initial_queries_and_auto_info() {
    let link = RadioLink::new(Protocol::Kenwood);
    assert_eq!(link.initial_state_queries(), vec![b"FA;".to_vec(), b"MD;".to_vec()]);
    assert_eq!(link.auto_info_request(), Some(b"AI1;".to_vec()));
}

#[test]
fn link_identifies_models_and_falls_back_to_ids() {
    let kenwood = RadioLink::new(Protocol::Kenwood);
    assert_eq!(kenwood.identify(b"ID019;"), Some("TS-2000".to_string()));
    assert_eq!(kenwood.identify(b"ID099;"), Some("Kenwood (ID099)".to_string()));
    assert_eq!(kenwood.identify(b"ID01"), None);
    let elecraft = RadioLink::new(Protocol::Elecraft);
    assert_eq!(elecraft.identify(b"K2;"), Some("K2".to_string()));
    assert_eq!(elecraft.identify(b"KX3;"), Some("KX3".to_string()));
    let flex = RadioLink::new(Protocol::FlexRadio);
    assert_eq!(flex.identify(b"ID909;"), Some("FLEX-6600".to_string()));
    let yaesu = RadioLink::new(Protocol::YaesuAscii);
    assert_eq!(yaesu.identify(b"ID0670;"), Some("Yaesu (ID0670)".to_string()));
    assert_eq!(RadioLink::new(Protocol::IcomCIV).identify(b"ID019;"), None);
}

#[test]
fn link_task_commands() {
    assert!(matches!(RadioTaskCommand::Shutdown, RadioTaskCommand::Shutdown));
    let send = RadioTaskCommand::SendData { data: b"AI2;".to_vec() };
    assert!(matches!(send, RadioTaskCommand::SendData { ref data } if data == b"AI2;"));
}
