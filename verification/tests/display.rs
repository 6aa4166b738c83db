use catapult::display::{decode_and_annotate, decode_and_annotate_with_hint, format_frequency, format_mode, SegmentType};
use catapult::command::OperatingMode;
use catapult::protocol::Protocol;

#[test]
fn test_format_frequency() {
    assert_eq!(format_frequency(14_250_000), "14.250 MHz");
    assert_eq!(format_frequency(7_074_000), "7.074 MHz");
    assert_eq!(format_frequency(14_074_500), "14.074500 MHz");
}

#[test]
fn test_decode_civ_frequency() {
    let data = [0xFE, 0xFE, 0xE0, 0x94, 0x03, 0x00, 0x00, 0x25, 0x14, 0x00, 0xFD];
    let frame = decode_and_annotate(&data).unwrap();
    assert_eq!(frame.protocol, "CI-V");
    assert!(frame.summary.iter().any(|p| p.text.contains("14.250")));
    let freq_seg = frame.segments.iter().find(|s| s.segment_type == SegmentType::Frequency);
    assert!(freq_seg.is_some());
    let freq_seg = freq_seg.unwrap();
    assert_eq!(freq_seg.range, 5..10);
    assert!(freq_seg.value.contains("14.250"));
}

#[test]
fn test_decode_kenwood_frequency() {
    let data = b"FA00014250000;";
    let frame = decode_and_annotate(data).unwrap();
    assert_eq!(frame.protocol, "Kenwood");
    assert!(frame.summary.iter().any(|p| p.text.contains("14.250")));
}

#[test]
fn test_decode_yaesu() {
    let data = [0x00, 0x00, 0x00, 0x00, 0x08];
    let frame = decode_and_annotate(&data).unwrap();
    assert_eq!(frame.protocol, "Yaesu");
    assert!(frame.summary.iter().any(|p| p.text.contains("PTT")));
}

#[test]
fn test_flex_detection() {
    let data = b"ZZFA00014250000;";
    let frame = decode_and_annotate(data).unwrap();
    assert_eq!(frame.protocol, "Flex");
    assert!(frame.summary.iter().any(|p| p.text.contains("14.250")));
    assert!(frame.segments.len() >= 2);
    assert!(frame.segments.iter().any(|s| s.segment_type == SegmentType::Frequency));
}

#[test]
fn test_kenwood_frequency_segments() {
    let data = b"FA00014250000;";
    let frame = decode_and_annotate(data).unwrap();
    assert_eq!(frame.protocol, "Kenwood");
    let freq_seg = frame.segments.iter().find(|s| s.segment_type == SegmentType::Frequency);
    assert!(freq_seg.is_some());
    let freq_seg = freq_seg.unwrap();
    assert_eq!(freq_seg.range, 2..13);
    assert!(freq_seg.value.contains("14.250"));
}

#[test]
fn test_kenwood_vfo_segments() {
    let data = b"FR0;";
    let frame = decode_and_annotate(data).unwrap();
    assert_eq!(frame.protocol, "Kenwood");
    let vfo_seg = frame.segments.iter().find(|s| s.label == "vfo");
    assert!(vfo_seg.is_some());
}

#[test]
fn test_protocol_hint_elecraft() {
    let data = b"FA00014250000;";
    let frame = decode_and_annotate(data).unwrap();
    assert_eq!(frame.protocol, "Kenwood");
    let frame = decode_and_annotate_with_hint(data, Some(Protocol::Elecraft)).unwrap();
    assert_eq!(frame.protocol, "Elecraft");
    assert!(frame.summary.iter().any(|p| p.text.contains("14.250")));
}

#[test]
fn test_protocol_hint_flex() {
    let data = b"FA00014250000;";
    let frame = decode_and_annotate_with_hint(data, Some(Protocol::FlexRadio)).unwrap();
    assert_eq!(frame.protocol, "Flex");
}

#[test]
fn test_protocol_hint_yaesu_ascii() {
    let data = b"FA00014250000;";
    let frame = decode_and_annotate_with_hint(data, Some(Protocol::YaesuAscii)).unwrap();
    assert_eq!(frame.protocol, "Yaesu ASCII");
}

#[test]
fn test_protocol_hint_civ() {
    let data = [0xFE, 0xFE, 0xE0, 0x94, 0x03, 0x00, 0x00, 0x25, 0x14, 0x00, 0xFD];
    let frame = decode_and_annotate_with_hint(&data, Some(Protocol::IcomCIV)).unwrap();
    assert_eq!(frame.protocol, "CI-V");
}

#[test]
fn display_format_frequency_sub_mhz_and_exact_hz() {
    assert_eq!(format_frequency(500_000), "0.500 MHz");
    assert_eq!(format_frequency(1), "0.000001 MHz");
    assert_eq!(format_frequency(0), "0.000 MHz");
}

#[test]
fn display_format_mode_names() {
    assert_eq!(format_mode(OperatingMode::Usb), "USB");
    assert_eq!(format_mode(OperatingMode::Cw), "CW");
}

#[test]
fn display_empty_input_is_not_decoded() {
    assert!(decode_and_annotate(&[]).is_none());
}

#[test]
fn display_civ_hint_rejects_ascii() {
    let data = b"FA00014250000;";
    assert!(decode_and_annotate_with_hint(data, Some(Protocol::IcomCIV)).is_none());
}

#[test]
fn display_yaesu_set_frequency_summary_shows_frequency() {
    let data = [0x01u8, 0x42, 0x50, 0x00, 0x01];
    let frame = decode_and_annotate(&data).unwrap();
    assert_eq!(frame.protocol, "Yaesu");
    let shown = format_frequency(14_250_000);
    assert!(frame.summary.iter().any(|p| p.text == shown));
}

#[test]
fn display_yaesu_ascii_hint_summary_shows_frequency() {
    let frame = decode_and_annotate_with_hint(b"FA014074000;", Some(Protocol::YaesuAscii)).unwrap();
    assert_eq!(frame.protocol, "Yaesu ASCII");
    let shown = format_frequency(14_074_000);
    assert!(frame.summary.iter().any(|p| p.text == shown));
}

fn summary_has(frame: &catapult::display::AnnotatedFrame, text: &str) -> bool {
    frame.summary.iter().any(|p| p.text == text)
}

#[test]
fn display_kenwood_mode_summary_names_command_and_mode() {
    let frame = decode_and_annotate(b"MD2;").unwrap();
    assert!(summary_has(&frame, "Mode"));
    assert!(summary_has(&frame, "USB"));
}

#[test]
fn display_kenwood_power_query_summary() {
    let frame = decode_and_annotate(b"PS;").unwrap();
    assert!(summary_has(&frame, "Get Power"));
}

#[test]
fn display_civ_ack_summary() {
    let frame = decode_and_annotate(&[0xFE, 0xFE, 0xE0, 0x94, 0xFB, 0xFD]).unwrap();
    assert!(summary_has(&frame, "OK"));
}

#[test]
fn display_civ_mode_report_summary() {
    let frame = decode_and_annotate(&[0xFE, 0xFE, 0xE0, 0x94, 0x04, 0x03, 0x01, 0xFD]).unwrap();
    assert!(summary_has(&frame, "Mode"));
    assert!(summary_has(&frame, "CW"));
}

#[test]
fn display_yaesu_ptt_on_summary() {
    let frame = decode_and_annotate(&[0x00, 0x00, 0x00, 0x00, 0x08]).unwrap();
    assert!(summary_has(&frame, "PTT"));
    assert!(summary_has(&frame, "ON"));
}

#[test]
fn display_yaesu_ascii_tune_summary() {
    let frame = decode_and_annotate_with_hint(b"TX2;", Some(Protocol::YaesuAscii)).unwrap();
    assert!(summary_has(&frame, "PTT"));
    assert!(summary_has(&frame, "TUNE"));
}

#[test]
fn display_flex_noise_reduction_summary() {
    let frame = decode_and_annotate(b"ZZNR1;").unwrap();
    assert_eq!(frame.protocol, "Flex");
    assert!(summary_has(&frame, "NR"));
    assert!(summary_has(&frame, "ON"));
}

fn segs(frame: &catapult::display::AnnotatedFrame) -> Vec<(std::ops::Range<usize>, &'static str, String, SegmentType)> {
    frame.segments.iter().map(|s| (s.range.clone(), s.label, s.value.clone(), s.segment_type)).collect()
}

fn texts(frame: &catapult::display::AnnotatedFrame) -> Vec<String> {
    frame.summary.iter().map(|p| p.text.clone()).collect()
}

#[test]
fn display_yaesu_ascii_mode_layout() {
    let frame = decode_and_annotate_with_hint(b"MD02;", Some(Protocol::YaesuAscii)).unwrap();
    assert_eq!(
        segs(&frame),
        vec![
            (0..2, "cmd", "MD".to_string(), SegmentType::Command),
            (2..3, "rx", "RX0".to_string(), SegmentType::Data),
            (3..4, "mode", "USB".to_string(), SegmentType::Mode),
            (4..5, "end", ";".to_string(), SegmentType::Terminator),
        ]
    );
    assert_eq!(texts(&frame), vec!["Mode", " ", "USB"]);
}

#[test]
fn display_civ_frequency_layout() {
    let data = [0xFE, 0xFE, 0xE0, 0x94, 0x03, 0x00, 0x00, 0x25, 0x14, 0x00, 0xFD];
    let frame = decode_and_annotate(&data).unwrap();
    let s = segs(&frame);
    assert_eq!(s[1], (2..3, "dest", "Controller".to_string(), SegmentType::Address));
    assert_eq!(s[2], (3..4, "src", "Radio 94h".to_string(), SegmentType::Address));
    assert_eq!(s[5], (5..10, "freq", "14.250 MHz".to_string(), SegmentType::Frequency));
    assert_eq!(texts(&frame), vec!["Freq", " ", "14.250 MHz"]);
}

#[test]
fn display_flex_frequency_layout() {
    let frame = decode_and_annotate(b"ZZFA00014250000;").unwrap();
    assert_eq!(
        segs(&frame),
        vec![
            (0..4, "cmd", "ZZFA".to_string(), SegmentType::Command),
            (4..15, "freq", "14.250 MHz".to_string(), SegmentType::Frequency),
            (15..16, "end", ";".to_string(), SegmentType::Terminator),
        ]
    );
    assert_eq!(texts(&frame), vec!["VFO A", " ", "14.250 MHz"]);
}

#[test]
fn display_yaesu_ptt_layout() {
    let frame = decode_and_annotate(&[0x00, 0x00, 0x00, 0x00, 0x08]).unwrap();
    assert_eq!(
        segs(&frame),
        vec![
            (0..4, "padding", String::new(), SegmentType::Preamble),
            (4..5, "cmd", "08".to_string(), SegmentType::Command),
        ]
    );
    assert_eq!(texts(&frame), vec!["PTT", " ", "ON"]);
}

#[test]
fn display_kenwood_text_named_kenwood() {
    let frame = decode_and_annotate(b"FA00014250000;").unwrap();
    assert_eq!(frame.protocol, "Kenwood");
    assert_eq!(texts(&frame), vec!["VFO A", " ", "14.250 MHz"]);
}
