use catapult::command::{OperatingMode, RadioResponse, Vfo};
use catapult::mux::engine::{Multiplexer, MultiplexerConfig, MultiplexerEvent};
use catapult::mux::state::{RadioHandle, SwitchingMode};
use catapult::protocol::Protocol;

fn mux_no_lockout() -> Multiplexer {
    let config = MultiplexerConfig { lockout_ms: 0, ..Default::default() };
    Multiplexer::with_config(config)
}

fn mux_with_amp_protocol(protocol: Protocol) -> Multiplexer {
    let mut config = MultiplexerConfig { lockout_ms: 0, ..Default::default() };
    config.amplifier.protocol = protocol;
    Multiplexer::with_config(config)
}

fn get_amp_commands(events: &[MultiplexerEvent]) -> Vec<Vec<u8>> {
    events
        .iter()
        .filter_map(|e| match e {
            MultiplexerEvent::AmplifierCommand(data) => Some(data.clone()),
            _ => None,
        })
        .collect()
}

fn has_switch_to(events: &[MultiplexerEvent], handle: RadioHandle) -> bool {
    events.iter().any(|e| matches!(e, MultiplexerEvent::ActiveRadioChanged { to, .. } if *to == handle))
}

fn has_switching_blocked(events: &[MultiplexerEvent]) -> bool {
    events.iter().any(|e| matches!(e, MultiplexerEvent::SwitchingBlocked { .. }))
}

fn has_radio_added(events: &[MultiplexerEvent], handle: RadioHandle) -> bool {
    events.iter().any(|e| matches!(e, MultiplexerEvent::RadioAdded(h) if *h == handle))
}

fn has_radio_removed(events: &[MultiplexerEvent], handle: RadioHandle) -> bool {
    events.iter().any(|e| matches!(e, MultiplexerEvent::RadioRemoved(h) if *h == handle))
}

#[test]
fn first_radio_becomes_active() {
    let mut mux = mux_no_lockout();
    let h1 = mux.add_radio("Radio 1".into(), "/dev/tty0".into(), Protocol::Kenwood);
    assert_eq!(mux.active_radio(), Some(h1));
}

#[test]
fn second_radio_does_not_change_active() {
    let mut mux = mux_no_lockout();
    let h1 = mux.add_radio("Radio 1".into(), "/dev/tty0".into(), Protocol::Kenwood);
    let _h2 = mux.add_radio("Radio 2".into(), "/dev/tty1".into(), Protocol::IcomCIV);
    assert_eq!(mux.active_radio(), Some(h1));
}

#[test]
fn manual_switch_changes_active() {
    let mut mux = mux_no_lockout();
    mux.set_switching_mode(SwitchingMode::Manual);
    let h1 = mux.add_radio("Radio 1".into(), "/dev/tty0".into(), Protocol::Kenwood);
    let h2 = mux.add_radio("Radio 2".into(), "/dev/tty1".into(), Protocol::IcomCIV);
    mux.drain_events();
    assert_eq!(mux.active_radio(), Some(h1));
    mux.select_radio(h2).unwrap();
    assert_eq!(mux.active_radio(), Some(h2));
    let events = mux.drain_events();
    assert!(has_switch_to(&events, h2));
}

#[test]
fn manual_mode_ignores_ptt_from_inactive() {
    let mut mux = mux_no_lockout();
    mux.set_switching_mode(SwitchingMode::Manual);
    let h1 = mux.add_radio("Radio 1".into(), "/dev/tty0".into(), Protocol::Kenwood);
    let h2 = mux.add_radio("Radio 2".into(), "/dev/tty1".into(), Protocol::Kenwood);
    mux.drain_events();
    mux.process_radio_command(h2, RadioResponse::Ptt { active: true });
    assert_eq!(mux.active_radio(), Some(h1));
}

#[test]
fn automatic_mode_switches_on_ptt() {
    let mut mux = mux_no_lockout();
    mux.set_switching_mode(SwitchingMode::Automatic);
    let h1 = mux.add_radio("Radio 1".into(), "/dev/tty0".into(), Protocol::Kenwood);
    let h2 = mux.add_radio("Radio 2".into(), "/dev/tty1".into(), Protocol::Kenwood);
    mux.drain_events();
    assert_eq!(mux.active_radio(), Some(h1));
    mux.process_radio_command(h2, RadioResponse::Ptt { active: true });
    assert_eq!(mux.active_radio(), Some(h2));
    let events = mux.drain_events();
    assert!(has_switch_to(&events, h2));
}

#[test]
fn automatic_mode_switches_on_frequency() {
    let mut mux = mux_no_lockout();
    mux.set_switching_mode(SwitchingMode::Automatic);
    let _h1 = mux.add_radio("Radio 1".into(), "/dev/tty0".into(), Protocol::Kenwood);
    let h2 = mux.add_radio("Radio 2".into(), "/dev/tty1".into(), Protocol::Kenwood);
    mux.drain_events();
    mux.process_radio_command(h2, RadioResponse::Frequency { hz: 14_250_000 });
    assert_eq!(mux.active_radio(), Some(h2), "Should switch on frequency in automatic mode");
}

#[test]
fn frequency_triggered_switches_on_frequency() {
    let mut mux = mux_no_lockout();
    mux.set_switching_mode(SwitchingMode::FrequencyTriggered);
    let h1 = mux.add_radio("Radio 1".into(), "/dev/tty0".into(), Protocol::Kenwood);
    let h2 = mux.add_radio("Radio 2".into(), "/dev/tty1".into(), Protocol::Kenwood);
    mux.drain_events();
    assert_eq!(mux.active_radio(), Some(h1), "Should start on first radio");
    mux.process_radio_command(h2, RadioResponse::Frequency { hz: 7_150_000 });
    assert_eq!(mux.active_radio(), Some(h2));
}

#[test]
fn frequency_triggered_ignores_ptt() {
    let mut mux = mux_no_lockout();
    mux.set_switching_mode(SwitchingMode::FrequencyTriggered);
    let h1 = mux.add_radio("Radio 1".into(), "/dev/tty0".into(), Protocol::Kenwood);
    let h2 = mux.add_radio("Radio 2".into(), "/dev/tty1".into(), Protocol::Kenwood);
    mux.drain_events();
    mux.process_radio_command(h2, RadioResponse::Ptt { active: true });
    assert_eq!(mux.active_radio(), Some(h1), "Should remain on first radio");
}

#[test]
fn inactive_radio_commands_return_none() {
    let mut mux = mux_no_lockout();
    mux.set_switching_mode(SwitchingMode::Manual);
    let _h1 = mux.add_radio("Radio 1".into(), "/dev/tty0".into(), Protocol::Kenwood);
    let h2 = mux.add_radio("Radio 2".into(), "/dev/tty1".into(), Protocol::Kenwood);
    mux.drain_events();
    let result = mux.process_radio_command(h2, RadioResponse::Frequency { hz: 14_250_000 });
    assert!(result.is_none());
}

#[test]
fn active_radio_commands_return_translated_bytes() {
    let mut mux = mux_with_amp_protocol(Protocol::Kenwood);
    mux.set_switching_mode(SwitchingMode::Manual);
    let h1 = mux.add_radio("Radio 1".into(), "/dev/tty0".into(), Protocol::Kenwood);
    mux.drain_events();
    let result = mux.process_radio_command(h1, RadioResponse::Frequency { hz: 14_250_000 });
    assert!(result.is_some());
    let bytes = result.unwrap();
    assert!(bytes.ends_with(b";"));
}

#[test]
fn lockout_blocks_rapid_manual_switch() {
    let config = MultiplexerConfig { lockout_ms: 1000, ..Default::default() };
    let mut mux = Multiplexer::with_config(config);
    let h1 = mux.add_radio("Radio 1".into(), "/dev/tty0".into(), Protocol::Kenwood);
    let h2 = mux.add_radio("Radio 2".into(), "/dev/tty1".into(), Protocol::Kenwood);
    mux.drain_events();
    mux.select_radio(h2).unwrap();
    assert_eq!(mux.active_radio(), Some(h2));
    let result = mux.select_radio(h1);
    assert!(result.is_err());
    assert_eq!(mux.active_radio(), Some(h2));
}

#[test]
fn lockout_emits_blocked_event() {
    let config = MultiplexerConfig { lockout_ms: 1000, ..Default::default() };
    let mut mux = Multiplexer::with_config(config);
    let h1 = mux.add_radio("Radio 1".into(), "/dev/tty0".into(), Protocol::Kenwood);
    let h2 = mux.add_radio("Radio 2".into(), "/dev/tty1".into(), Protocol::Kenwood);
    mux.drain_events();
    mux.select_radio(h2).unwrap();
    mux.drain_events();
    let _ = mux.select_radio(h1);
    let events = mux.drain_events();
    assert!(has_switching_blocked(&events));
}

#[test]
fn lockout_blocks_auto_switch() {
    let config = MultiplexerConfig {
        lockout_ms: 1000,
        switching_mode: SwitchingMode::Automatic,
        ..Default::default()
    };
    let mut mux = Multiplexer::with_config(config);
    let h1 = mux.add_radio("Radio 1".into(), "/dev/tty0".into(), Protocol::Kenwood);
    let h2 = mux.add_radio("Radio 2".into(), "/dev/tty1".into(), Protocol::Kenwood);
    mux.drain_events();
    mux.process_radio_command(h2, RadioResponse::Ptt { active: true });
    assert_eq!(mux.active_radio(), Some(h2));
    mux.process_radio_command(h1, RadioResponse::Ptt { active: true });
    assert_eq!(mux.active_radio(), Some(h2));
}

#[test]
fn is_locked_returns_correct_state() {
    let config = MultiplexerConfig { lockout_ms: 1000, ..Default::default() };
    let mut mux = Multiplexer::with_config(config);
    let _h1 = mux.add_radio("Radio 1".into(), "/dev/tty0".into(), Protocol::Kenwood);
    let h2 = mux.add_radio("Radio 2".into(), "/dev/tty1".into(), Protocol::Kenwood);
    assert!(!mux.is_locked());
    mux.select_radio(h2).unwrap();
    assert!(mux.is_locked());
}

#[test]
fn frequency_tracked_from_set_command() {
    let mut mux = mux_no_lockout();
    let h1 = mux.add_radio("Radio 1".into(), "/dev/tty0".into(), Protocol::Kenwood);
    mux.process_radio_command(h1, RadioResponse::Frequency { hz: 14_250_000 });
    let state = mux.get_radio(h1).unwrap();
    assert_eq!(state.frequency_hz, Some(14_250_000));
}

#[test]
fn frequency_tracked_from_report() {
    let mut mux = mux_no_lockout();
    let h1 = mux.add_radio("Radio 1".into(), "/dev/tty0".into(), Protocol::Kenwood);
    mux.process_radio_command(h1, RadioResponse::Frequency { hz: 7_074_000 });
    let state = mux.get_radio(h1).unwrap();
    assert_eq!(state.frequency_hz, Some(7_074_000));
}

#[test]
fn mode_tracked_from_set_command() {
    let mut mux = mux_no_lockout();
    let h1 = mux.add_radio("Radio 1".into(), "/dev/tty0".into(), Protocol::Kenwood);
    mux.process_radio_command(h1, RadioResponse::Mode { mode: OperatingMode::Usb });
    let state = mux.get_radio(h1).unwrap();
    assert_eq!(state.mode, Some(OperatingMode::Usb));
}

#[test]
fn mode_tracked_from_report() {
    let mut mux = mux_no_lockout();
    let h1 = mux.add_radio("Radio 1".into(), "/dev/tty0".into(), Protocol::Kenwood);
    mux.process_radio_command(h1, RadioResponse::Mode { mode: OperatingMode::Cw });
    let state = mux.get_radio(h1).unwrap();
    assert_eq!(state.mode, Some(OperatingMode::Cw));
}

#[test]
fn ptt_tracked_from_set_command() {
    let mut mux = mux_no_lockout();
    let h1 = mux.add_radio("Radio 1".into(), "/dev/tty0".into(), Protocol::Kenwood);
    assert!(!mux.get_radio(h1).unwrap().ptt);
    mux.process_radio_command(h1, RadioResponse::Ptt { active: true });
    assert!(mux.get_radio(h1).unwrap().ptt);
    mux.process_radio_command(h1, RadioResponse::Ptt { active: false });
    assert!(!mux.get_radio(h1).unwrap().ptt);
}

#[test]
fn status_report_extracts_all_fields() {
    let mut mux = mux_no_lockout();
    let h1 = mux.add_radio("Radio 1".into(), "/dev/tty0".into(), Protocol::Kenwood);
    mux.process_radio_command(
        h1,
        RadioResponse::Status {
            frequency_hz: Some(28_500_000),
            mode: Some(OperatingMode::Fm),
            ptt: Some(true),
            vfo: None,
        },
    );
    let state = mux.get_radio(h1).unwrap();
    assert_eq!(state.frequency_hz, Some(28_500_000));
    assert_eq!(state.mode, Some(OperatingMode::Fm));
    assert!(state.ptt);
}

#[test]
fn multiple_radios_track_independently() {
    let mut mux = mux_no_lockout();
    let h1 = mux.add_radio("Radio 1".into(), "/dev/tty0".into(), Protocol::Kenwood);
    let h2 = mux.add_radio("Radio 2".into(), "/dev/tty1".into(), Protocol::IcomCIV);
    mux.process_radio_command(h1, RadioResponse::Frequency { hz: 14_250_000 });
    mux.process_radio_command(h2, RadioResponse::Frequency { hz: 7_074_000 });
    mux.process_radio_command(h1, RadioResponse::Mode { mode: OperatingMode::Usb });
    mux.process_radio_command(h2, RadioResponse::Mode { mode: OperatingMode::Lsb });
    let state1 = mux.get_radio(h1).unwrap();
    assert_eq!(state1.frequency_hz, Some(14_250_000));
    assert_eq!(state1.mode, Some(OperatingMode::Usb));
    let state2 = mux.get_radio(h2).unwrap();
    assert_eq!(state2.frequency_hz, Some(7_074_000));
    assert_eq!(state2.mode, Some(OperatingMode::Lsb));
}

#[test]
fn inactive_radio_state_still_tracked() {
    let mut mux = mux_no_lockout();
    mux.set_switching_mode(SwitchingMode::Manual);
    let _h1 = mux.add_radio("Radio 1".into(), "/dev/tty0".into(), Protocol::Kenwood);
    let h2 = mux.add_radio("Radio 2".into(), "/dev/tty1".into(), Protocol::Kenwood);
    mux.process_radio_command(h2, RadioResponse::Frequency { hz: 21_300_000 });
    let state = mux.get_radio(h2).unwrap();
    assert_eq!(state.frequency_hz, Some(21_300_000));
}

#[test]
fn translate_frequency_to_kenwood() {
    let mut mux = mux_with_amp_protocol(Protocol::Kenwood);
    let h1 = mux.add_radio("IC-7300".into(), "/dev/tty0".into(), Protocol::IcomCIV);
    let result = mux.process_radio_command(h1, RadioResponse::Frequency { hz: 14_250_000 }).unwrap();
    let s = String::from_utf8_lossy(&result);
    assert!(s.starts_with("FA"), "Expected FA prefix, got: {}", s);
    assert!(s.ends_with(";"), "Expected ; suffix, got: {}", s);
    assert!(s.contains("14250000"), "Expected frequency in output: {}", s);
}

#[test]
fn translate_ptt_on_to_kenwood() {
    let mut mux = mux_with_amp_protocol(Protocol::Kenwood);
    let h1 = mux.add_radio("Radio".into(), "/dev/tty0".into(), Protocol::IcomCIV);
    let result = mux.process_radio_command(h1, RadioResponse::Ptt { active: true }).unwrap();
    assert_eq!(result, b"TX1;");
}

#[test]
fn translate_ptt_off_to_kenwood() {
    let mut mux = mux_with_amp_protocol(Protocol::Kenwood);
    let h1 = mux.add_radio("Radio".into(), "/dev/tty0".into(), Protocol::IcomCIV);
    let result = mux.process_radio_command(h1, RadioResponse::Ptt { active: false }).unwrap();
    let s = String::from_utf8_lossy(&result);
    assert!(s == "RX;" || s == "TX0;", "Expected RX; or TX0;, got: {}", s);
}

#[test]
fn translate_frequency_to_icom() {
    let mut mux = mux_with_amp_protocol(Protocol::IcomCIV);
    let h1 = mux.add_radio("TS-590".into(), "/dev/tty0".into(), Protocol::Kenwood);
    let result = mux.process_radio_command(h1, RadioResponse::Frequency { hz: 14_250_000 }).unwrap();
    assert_eq!(result[0], 0xFE, "Expected CI-V preamble");
    assert_eq!(result[1], 0xFE, "Expected CI-V preamble");
    assert_eq!(*result.last().unwrap(), 0xFD, "Expected CI-V terminator");
}

#[test]
fn translate_frequency_to_yaesu() {
    let mut mux = mux_with_amp_protocol(Protocol::Yaesu);
    let h1 = mux.add_radio("TS-590".into(), "/dev/tty0".into(), Protocol::Kenwood);
    let result = mux.process_radio_command(h1, RadioResponse::Frequency { hz: 14_250_000 }).unwrap();
    assert_eq!(result.len(), 5, "Yaesu commands are 5 bytes");
    assert_eq!(result[4], 0x01, "Yaesu set frequency command is 0x01");
}

#[test]
fn translate_frequency_to_elecraft() {
    let mut mux = mux_with_amp_protocol(Protocol::Elecraft);
    let h1 = mux.add_radio("IC-7300".into(), "/dev/tty0".into(), Protocol::IcomCIV);
    let result = mux.process_radio_command(h1, RadioResponse::Frequency { hz: 14_250_000 }).unwrap();
    let s = String::from_utf8_lossy(&result);
    assert!(s.starts_with("FA"), "Expected FA prefix, got: {}", s);
    assert!(s.ends_with(";"), "Expected ; suffix, got: {}", s);
}

#[test]
fn translate_mode_to_kenwood() {
    let mut mux = mux_with_amp_protocol(Protocol::Kenwood);
    let h1 = mux.add_radio("Radio".into(), "/dev/tty0".into(), Protocol::IcomCIV);
    let result = mux.process_radio_command(h1, RadioResponse::Mode { mode: OperatingMode::Usb }).unwrap();
    let s = String::from_utf8_lossy(&result);
    assert!(s.starts_with("MD"), "Expected MD prefix, got: {}", s);
    assert!(s.ends_with(";"), "Expected ; suffix, got: {}", s);
}

#[test]
fn query_commands_not_forwarded() {
    let mut mux = mux_with_amp_protocol(Protocol::Kenwood);
    let h1 = mux.add_radio("Radio".into(), "/dev/tty0".into(), Protocol::Kenwood);
    let result = mux.process_radio_command(h1, RadioResponse::Vfo { vfo: Vfo::A });
    assert!(result.is_none(), "VFO reports should not be forwarded");
    let result = mux.process_radio_command(h1, RadioResponse::AutoInfo { enabled: true });
    assert!(result.is_none(), "auto-info reports should not be forwarded");
    let result = mux.process_radio_command(h1, RadioResponse::Id { id: "019".to_string() });
    assert!(result.is_none(), "ID reports should not be forwarded");
}

#[test]
fn radio_added_event_emitted() {
    let mut mux = mux_no_lockout();
    let h1 = mux.add_radio("Radio 1".into(), "/dev/tty0".into(), Protocol::Kenwood);
    let events = mux.drain_events();
    assert!(has_radio_added(&events, h1));
}

#[test]
fn radio_removed_event_emitted() {
    let mut mux = mux_no_lockout();
    let h1 = mux.add_radio("Radio 1".into(), "/dev/tty0".into(), Protocol::Kenwood);
    mux.drain_events();
    mux.remove_radio(h1);
    let events = mux.drain_events();
    assert!(has_radio_removed(&events, h1));
}

#[test]
fn active_radio_changed_event_on_switch() {
    let mut mux = mux_no_lockout();
    let _h1 = mux.add_radio("Radio 1".into(), "/dev/tty0".into(), Protocol::Kenwood);
    let h2 = mux.add_radio("Radio 2".into(), "/dev/tty1".into(), Protocol::Kenwood);
    mux.drain_events();
    mux.select_radio(h2).unwrap();
    let events = mux.drain_events();
    assert!(has_switch_to(&events, h2));
}

#[test]
fn radio_state_updated_event_on_command() {
    let mut mux = mux_no_lockout();
    let h1 = mux.add_radio("Radio 1".into(), "/dev/tty0".into(), Protocol::Kenwood);
    mux.drain_events();
    mux.process_radio_command(h1, RadioResponse::Frequency { hz: 14_250_000 });
    let events = mux.drain_events();
    assert!(events.iter().any(|e| matches!(e, MultiplexerEvent::RadioStateUpdated(h) if *h == h1)));
}

#[test]
fn amplifier_command_event_contains_translated_bytes() {
    let mut mux = mux_with_amp_protocol(Protocol::Kenwood);
    let h1 = mux.add_radio("Radio 1".into(), "/dev/tty0".into(), Protocol::Kenwood);
    mux.drain_events();
    mux.process_radio_command(h1, RadioResponse::Frequency { hz: 14_250_000 });
    let events = mux.drain_events();
    let amp_commands = get_amp_commands(&events);
    assert_eq!(amp_commands.len(), 1);
    assert!(amp_commands[0].ends_with(b";"));
}

#[test]
fn remove_active_radio_selects_next() {
    let mut mux = mux_no_lockout();
    let h1 = mux.add_radio("Radio 1".into(), "/dev/tty0".into(), Protocol::Kenwood);
    let h2 = mux.add_radio("Radio 2".into(), "/dev/tty1".into(), Protocol::Kenwood);
    assert_eq!(mux.active_radio(), Some(h1));
    mux.remove_radio(h1);
    assert_eq!(mux.active_radio(), Some(h2));
}

#[test]
fn remove_only_radio_clears_active() {
    let mut mux = mux_no_lockout();
    let h1 = mux.add_radio("Radio 1".into(), "/dev/tty0".into(), Protocol::Kenwood);
    assert_eq!(mux.active_radio(), Some(h1));
    mux.remove_radio(h1);
    assert_eq!(mux.active_radio(), None);
}

#[test]
fn select_nonexistent_radio_fails() {
    let mut mux = mux_no_lockout();
    let h1 = mux.add_radio("Radio 1".into(), "/dev/tty0".into(), Protocol::Kenwood);
    let h2 = mux.add_radio("Radio 2".into(), "/dev/tty1".into(), Protocol::Kenwood);
    mux.remove_radio(h2);
    let result = mux.select_radio(h2);
    assert!(result.is_err());
    assert_eq!(mux.active_radio(), Some(h1));
}

#[test]
fn command_for_removed_radio_ignored() {
    let mut mux = mux_no_lockout();
    let h1 = mux.add_radio("Radio 1".into(), "/dev/tty0".into(), Protocol::Kenwood);
    mux.remove_radio(h1);
    let result = mux.process_radio_command(h1, RadioResponse::Frequency { hz: 14_250_000 });
    assert!(result.is_none());
}

#[test]
fn same_radio_switch_is_noop() {
    let mut mux = mux_no_lockout();
    let h1 = mux.add_radio("Radio 1".into(), "/dev/tty0".into(), Protocol::Kenwood);
    mux.drain_events();
    mux.select_radio(h1).unwrap();
    let events = mux.drain_events();
    assert!(!has_switch_to(&events, h1));
}

#[test]
fn unknown_command_not_forwarded() {
    let mut mux = mux_with_amp_protocol(Protocol::Kenwood);
    let h1 = mux.add_radio("Radio 1".into(), "/dev/tty0".into(), Protocol::Kenwood);
    let result = mux.process_radio_command(h1, RadioResponse::Unknown { data: vec![0x01, 0x02, 0x03] });
    assert!(result.is_none());
}

#[test]
fn frequency_display_formatting() {
    let mut mux = mux_no_lockout();
    let h1 = mux.add_radio("Radio 1".into(), "/dev/tty0".into(), Protocol::Kenwood);
    mux.process_radio_command(h1, RadioResponse::Frequency { hz: 14_250_000 });
    let state = mux.get_radio(h1).unwrap();
    assert_eq!(state.frequency_display(), "14.250 MHz");
}

#[test]
fn no_frequency_displays_placeholder() {
    let mut mux = mux_no_lockout();
    let h1 = mux.add_radio("Radio 1".into(), "/dev/tty0".into(), Protocol::Kenwood);
    let state = mux.get_radio(h1).unwrap();
    assert_eq!(state.frequency_display(), "---");
}

#[test]
fn mux_translates_frequency_for_yaesu_ascii_and_flex_amps() {
    let mut mux = mux_with_amp_protocol(Protocol::YaesuAscii);
    let h1 = mux.add_radio("Radio".into(), "/dev/tty0".into(), Protocol::Kenwood);
    let result = mux.process_radio_command(h1, RadioResponse::Frequency { hz: 14_250_000 }).unwrap();
    assert_eq!(result, vec![0x01, 0x42, 0x50, 0x00, 0x01]);
    let mut mux = mux_with_amp_protocol(Protocol::FlexRadio);
    let h1 = mux.add_radio("Radio".into(), "/dev/tty0".into(), Protocol::Kenwood);
    let result = mux.process_radio_command(h1, RadioResponse::Frequency { hz: 14_250_000 }).unwrap();
    assert_eq!(result, b"ZZFA00014250000;");
}

#[test]
fn mux_handles_are_distinct_and_names_kept() {
    let mut mux = mux_no_lockout();
    let h1 = mux.add_radio("A".into(), "/dev/tty0".into(), Protocol::Kenwood);
    let h2 = mux.add_radio("B".into(), "/dev/tty1".into(), Protocol::Kenwood);
    assert_ne!(h1, h2);
    assert_eq!(mux.get_radio(h2).unwrap().name, "B");
    mux.rename_radio(h2, "C".to_string());
    assert_eq!(mux.get_radio(h2).unwrap().name, "C");
}
