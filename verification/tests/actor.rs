use catapult::command::{RadioResponse, Vfo};
use catapult::mux::actor::{ActorCommand, ActorOutput, MuxActorState};
use catapult::mux::amplifier::AmplifierChannelMeta;
use catapult::mux::channel::RadioChannelMeta;
use catapult::mux::events::MuxEvent;
use catapult::mux::state::RadioHandle;
use catapult::protocol::Protocol;

fn amp_bytes(outputs: &[ActorOutput]) -> Vec<String> {
    outputs
        .iter()
        .filter_map(|o| match o {
            ActorOutput::ToAmp(d) => Some(String::from_utf8_lossy(d).into_owned()),
            _ => None,
        })
        .collect()
}

fn register(actor: &mut MuxActorState, name: &str, has_command_channel: bool) -> RadioHandle {
    let meta = RadioChannelMeta::new_virtual(name.to_string(), "sim".to_string(), Protocol::Kenwood);
    let reply = actor.handle_command(ActorCommand::RegisterRadio { meta, has_command_channel }, 0);
    reply.handle.unwrap()
}

fn connect_kenwood_amp(actor: &mut MuxActorState) {
    let meta = AmplifierChannelMeta::new_virtual(Protocol::Kenwood, None);
    actor.handle_command(ActorCommand::ConnectAmplifier { meta }, 0);
}

fn amp_says(actor: &mut MuxActorState, data: &[u8], now: u64) -> Vec<String> {
    let reply = actor.handle_command(ActorCommand::AmpRawData { data: data.to_vec() }, now);
    amp_bytes(&reply.outputs)
}

#[test]
fn actor_register_radio_gives_first_handle_and_event() {
    let mut actor = MuxActorState::new();
    let meta = RadioChannelMeta::new_virtual("Test Radio".to_string(), "sim-001".to_string(), Protocol::Kenwood);
    let reply = actor.handle_command(ActorCommand::RegisterRadio { meta, has_command_channel: false }, 0);
    assert_eq!(reply.handle, Some(RadioHandle(1)));
    match &reply.outputs[0] {
        ActorOutput::Event(MuxEvent::RadioConnected { handle, meta }) => {
            assert_eq!(handle.0, 1);
            assert_eq!(meta.display_name, "Test Radio");
        },
        other => panic!("Expected RadioConnected event, got {:?}", other),
    }
}

#[test]
fn actor_reports_state_change() {
    let mut actor = MuxActorState::new();
    let h = register(&mut actor, "Test", false);
    let reply = actor.handle_command(
        ActorCommand::RadioResponse { handle: h, response: RadioResponse::Frequency { hz: 14_250_000 } },
        10,
    );
    assert!(reply.outputs.iter().any(|o| matches!(
        o,
        ActorOutput::Event(MuxEvent::RadioStateChanged { handle, freq: Some(14_250_000), .. }) if *handle == h
    )));
}

#[test]
fn actor_amp_query_answered_from_cache() {
    let mut actor = MuxActorState::new();
    let h = register(&mut actor, "Test", false);
    connect_kenwood_amp(&mut actor);
    let reply = actor.handle_command(
        ActorCommand::RadioResponse { handle: h, response: RadioResponse::Frequency { hz: 14_250_000 } },
        10,
    );
    assert!(amp_bytes(&reply.outputs).is_empty(), "no unsolicited data without auto-info");
    let answers = amp_says(&mut actor, b"FA;", 20);
    assert_eq!(answers.len(), 1);
    assert!(answers[0].starts_with("FA") && answers[0].contains("14250000"));
}

#[test]
fn actor_amp_query_unanswered_without_state() {
    let mut actor = MuxActorState::new();
    register(&mut actor, "Test", false);
    connect_kenwood_amp(&mut actor);
    assert!(amp_says(&mut actor, b"FA;", 5).is_empty());
}

#[test]
fn actor_auto_info_sends_updates() {
    let mut actor = MuxActorState::new();
    let h = register(&mut actor, "Test", false);
    connect_kenwood_amp(&mut actor);
    amp_says(&mut actor, b"AI2;", 5);
    let reply = actor.handle_command(
        ActorCommand::RadioResponse { handle: h, response: RadioResponse::Frequency { hz: 7_074_000 } },
        10,
    );
    assert!(amp_bytes(&reply.outputs).iter().any(|s| s.contains("7074000")));
}

#[test]
fn actor_disconnect_resets_cache() {
    let mut actor = MuxActorState::new();
    let h = register(&mut actor, "Test", false);
    connect_kenwood_amp(&mut actor);
    actor.handle_command(
        ActorCommand::RadioResponse { handle: h, response: RadioResponse::Frequency { hz: 14_250_000 } },
        10,
    );
    actor.handle_command(ActorCommand::DisconnectAmplifier, 20);
    connect_kenwood_amp(&mut actor);
    assert!(amp_says(&mut actor, b"FA;", 30).is_empty());
}

#[test]
fn actor_amp_identity_and_band_queries() {
    let mut actor = MuxActorState::new();
    connect_kenwood_amp(&mut actor);
    assert_eq!(amp_says(&mut actor, b"ID;", 1), vec!["ID022;".to_string()]);
    assert_eq!(amp_says(&mut actor, b"CB;", 2), vec!["CB0;".to_string()]);
    assert_eq!(amp_says(&mut actor, b"TB;", 3), vec!["TB0;".to_string()]);
}

#[test]
fn actor_vfo_b_sets_control_and_transmit_band() {
    let mut actor = MuxActorState::new();
    let h = register(&mut actor, "Test", false);
    connect_kenwood_amp(&mut actor);
    actor.handle_command(ActorCommand::RadioResponse { handle: h, response: RadioResponse::Vfo { vfo: Vfo::B } }, 10);
    assert_eq!(amp_says(&mut actor, b"CB;", 11), vec!["CB1;".to_string()]);
    assert_eq!(amp_says(&mut actor, b"TB;", 12), vec!["TB1;".to_string()]);
}

#[test]
fn actor_heartbeat_polls_radios_with_command_channel() {
    let mut actor = MuxActorState::new();
    let h1 = register(&mut actor, "A", true);
    let _h2 = register(&mut actor, "B", false);
    let reply = actor.handle_command(ActorCommand::Heartbeat, 1000);
    let polls: Vec<(RadioHandle, Vec<u8>)> = reply
        .outputs
        .iter()
        .filter_map(|o| match o {
            ActorOutput::ToRadio { handle, data } => Some((*handle, data.clone())),
            _ => None,
        })
        .collect();
    assert_eq!(polls, vec![(h1, b"AI2;".to_vec())]);
}

#[test]
fn actor_query_and_shutdown() {
    let mut actor = MuxActorState::new();
    let h = register(&mut actor, "Rig", false);
    actor.handle_command(
        ActorCommand::RadioResponse { handle: h, response: RadioResponse::Frequency { hz: 3_573_000 } },
        10,
    );
    let reply = actor.handle_command(ActorCommand::QueryRadioState { handle: h }, 11);
    let summary = reply.state.unwrap();
    assert_eq!(summary.frequency_hz, Some(3_573_000));
    assert!(actor.handle_command(ActorCommand::QueryRadioState { handle: RadioHandle(99) }, 12).state.is_none());
    let reply = actor.handle_command(ActorCommand::Shutdown, 13);
    assert!(reply.stop);
}

#[test]
fn actor_unregister_active_radio_moves_control() {
    let mut actor = MuxActorState::new();
    let h1 = register(&mut actor, "A", false);
    let h2 = register(&mut actor, "B", false);
    assert_eq!(actor.multiplexer().active_radio(), Some(h1));
    actor.handle_command(ActorCommand::UnregisterRadio { handle: h1 }, 5);
    assert_eq!(actor.multiplexer().active_radio(), Some(h2));
}
