//! Display and annotation support for protocol frames
//!
//! Decoded protocol frames are annotated with human-readable information:
//! byte segments with labels and values for colored hex dumps, and a
//! summary made of typed parts, each optionally linked to the bytes it
//! describes.

use vstd::prelude::*;
use vstd::slice::slice_subrange;

use crate::command::OperatingMode;
use crate::flex::{FlexCodec, FlexCommand, FlexMode};
use crate::icom::{CivCodec, CivCommand, CivCommandType, PREAMBLE, TERMINATOR};
use crate::kenwood::{KenwoodCodec, KenwoodCommand};
use crate::protocol::{Protocol, ProtocolCodec};
use crate::stream::next_frame;
use crate::text::{
    dec, hex2, millionths_mhz, push_all, push_dec, push_dec_signed_padded, push_hex2,
    push_millionths_mhz, push_thousandths_mhz, text_from_bytes, thousandths_mhz, wire_text,
};
use crate::yaesu::{YaesuCodec, YaesuCommand};
use crate::yaesu_ascii::{YaesuAsciiCodec, YaesuAsciiCommand};

verus! {

/// Type of segment for UI coloring
#[derive(Debug, Clone, Copy, PartialEq, Eq, Structural)]
pub enum SegmentType {
    /// Frame preamble/sync bytes
    Preamble,
    /// Device address
    Address,
    /// Command code/opcode
    Command,
    /// Frequency data
    Frequency,
    /// Operating mode
    Mode,
    /// Status/state information
    Status,
    /// Generic data
    Data,
    /// Frame terminator
    Terminator,
}

/// A segment of a decoded frame with annotation
#[derive(Debug)]
pub struct FrameSegment {
    /// Byte range in the decoded data
    pub range: std::ops::Range<usize>,
    /// Label for this segment (e.g., "preamble", "addr", "freq")
    pub label: &'static str,
    /// Decoded value as a string (e.g., "14.250 MHz")
    pub value: String,
    /// Type of segment (UI maps this to colors)
    pub segment_type: SegmentType,
}

/// A part of the summary with semantic type
#[derive(Debug)]
pub struct SummaryPart {
    /// Text content
    pub text: String,
    /// Type of this part (UI maps this to colors)
    pub part_type: SegmentType,
    /// Optional byte range this summary part corresponds to (for hover linking)
    pub range: Option<std::ops::Range<usize>>,
}

impl SummaryPart {
    /// Create a plain text summary part (uses Data type for default color)
    pub fn plain(text: String) -> (r: Self)
        ensures
            r.text@ == text@,
            r.part_type == SegmentType::Data,
            r.range is None,
    {
        SummaryPart { text, part_type: SegmentType::Data, range: None }
    }

    /// Create a summary part with specific type
    pub fn typed(text: String, part_type: SegmentType) -> (r: Self)
        ensures
            r.text@ == text@,
            r.part_type == part_type,
            r.range is None,
    {
        SummaryPart { text, part_type, range: None }
    }

    /// Create a summary part with type and byte range for hover linking
    pub fn with_range(text: String, part_type: SegmentType, range: std::ops::Range<usize>) -> (r: Self)
        ensures
            r.text@ == text@,
            r.part_type == part_type,
            r.range == Some(range),
    {
        SummaryPart { text, part_type, range: Some(range) }
    }
}

/// Annotated frame ready for display
#[derive(Debug)]
pub struct AnnotatedFrame {
    /// Protocol name (e.g., "CI-V", "Yaesu", "Kenwood")
    pub protocol: &'static str,
    /// Summary parts with semantic types
    pub summary: Vec<SummaryPart>,
    /// Annotated byte segments
    pub segments: Vec<FrameSegment>,
}

/// Trait for commands that can describe their display representation
pub trait FrameAnnotation {
    /// Create an annotated frame from this command and its raw bytes
    fn annotate(&self, raw_bytes: &[u8]) -> AnnotatedFrame;
}

/// A segment covers exactly bytes `start..end`.
pub open spec fn has_segment(s: Seq<FrameSegment>, start: usize, end: usize) -> bool {
    exists|j: int| 0 <= j < s.len() && (#[trigger] s[j]).range.start == start && s[j].range.end == end
}

/// Bytes `start..end` are one segment, or two adjacent ones.
pub open spec fn covered(s: Seq<FrameSegment>, start: usize, end: usize) -> bool {
    has_segment(s, start, end) || exists|m: usize| #[trigger] has_segment(s, start, m) && has_segment(s, m, end)
}

/// Every summary part that links to bytes links to bytes the segments
/// show, so hovering a part always finds its bytes.
pub open spec fn summary_linked(f: AnnotatedFrame) -> bool {
    forall|i: int|
        0 <= i < f.summary@.len() ==> ((#[trigger] f.summary@[i]).range matches Some(r) ==> covered(
            f.segments@,
            r.start,
            r.end,
        ))
}

/// Some part of the summary reads `text`.
pub open spec fn summary_shows(f: AnnotatedFrame, text: Seq<char>) -> bool {
    exists|i: int| 0 <= i < f.summary@.len() && (#[trigger] f.summary@[i]).text@ == text
}

/// The frame shows frequency `hz` in segment `start..end`.
pub open spec fn shows_frequency(f: AnnotatedFrame, start: usize, end: usize, hz: u64) -> bool {
    exists|j: int|
        0 <= j < f.segments@.len() && (#[trigger] f.segments@[j]).range == (start..end)
            && f.segments@[j].segment_type == SegmentType::Frequency && f.segments@[j].value@ == frequency_text(hz)
}

/// A summary part as values: its text, type and linked bytes.
pub open spec fn part_model(p: SummaryPart) -> (Seq<char>, SegmentType, Option<std::ops::Range<usize>>) {
    (p.text@, p.part_type, p.range)
}

/// The summary of a frame as values, in order.
pub open spec fn summary_model(f: AnnotatedFrame) -> Seq<(Seq<char>, SegmentType, Option<std::ops::Range<usize>>)> {
    Seq::new(f.summary@.len(), |i: int| part_model(f.summary@[i]))
}

/// A segment as values: its bytes, label, value and type.
pub open spec fn segment_model(s: FrameSegment) -> (std::ops::Range<usize>, Seq<char>, Seq<char>, SegmentType) {
    (s.range, s.label@, s.value@, s.segment_type)
}

/// The segments of a frame as values, in order.
pub open spec fn segments_model(f: AnnotatedFrame) -> Seq<(std::ops::Range<usize>, Seq<char>, Seq<char>, SegmentType)> {
    Seq::new(f.segments@.len(), |i: int| segment_model(f.segments@[i]))
}

impl AnnotatedFrame {
    fn empty(protocol: &'static str) -> (r: Self)
        ensures
            r.protocol == protocol,
            r.summary@.len() == 0,
            r.segments@.len() == 0,
            summary_linked(r),
    {
        AnnotatedFrame { protocol, summary: Vec::new(), segments: Vec::new() }
    }

    /// Add a segment.
    fn seg(&mut self, start: usize, end: usize, label: &'static str, value: String, ty: SegmentType)
        ensures
            final(self).protocol == old(self).protocol,
            final(self).summary == old(self).summary,
            final(self).segments@ == old(self).segments@.push(
                FrameSegment { range: start..end, label, value, segment_type: ty },
            ),
            segments_model(*final(self)) == segments_model(*old(self)).push((start..end, label@, value@, ty)),
            summary_linked(*old(self)) ==> summary_linked(*final(self)),
            forall|t: Seq<char>| #[trigger] summary_shows(*old(self), t) ==> summary_shows(*final(self), t),
            has_segment(final(self).segments@, start, end),
            forall|a: usize, b: usize| #[trigger] has_segment(old(self).segments@, a, b) ==> has_segment(final(self).segments@, a, b),
    {
        let ghost s0 = self.segments@;
        let ghost value_text = value@;
        self.segments.push(FrameSegment { range: start..end, label, value, segment_type: ty });
        proof {
            assert(segments_model(*self) =~= segments_model(*old(self)).push((start..end, label@, value_text, ty)));
            let s1 = self.segments@;
            assert(s1[s0.len() as int].range.start == start);
            assert forall|a: usize, b: usize| #[trigger] has_segment(s0, a, b) implies has_segment(s1, a, b) by {
                let j = choose|j: int| 0 <= j < s0.len() && (#[trigger] s0[j]).range.start == a && s0[j].range.end == b;
                assert(s1[j] == s0[j]);
            }
            assert forall|a: usize, b: usize| #[trigger] covered(s0, a, b) implies covered(s1, a, b) by {
                if !has_segment(s0, a, b) {
                    let m = choose|m: usize| #[trigger] has_segment(s0, a, m) && has_segment(s0, m, b);
                    assert(has_segment(s1, a, m));
                }
            }
            if summary_linked(*old(self)) {
                assert forall|i: int| 0 <= i < self.summary@.len() implies ((#[trigger] self.summary@[i]).range matches Some(
                    r,
                ) ==> covered(s1, r.start, r.end)) by {
                    if let Some(r) = self.summary@[i].range {
                        assert(covered(s0, r.start, r.end));
                    }
                }
            }
        }
    }

    /// Add a summary part linked to bytes the segments cover.
    fn part_at(&mut self, text: String, ty: SegmentType, start: usize, end: usize)
        requires
            covered(old(self).segments@, start, end),
            summary_linked(*old(self)),
        ensures
            final(self).protocol == old(self).protocol,
            final(self).segments == old(self).segments,
            final(self).summary@.len() == old(self).summary@.len() + 1,
            final(self).summary@.last().text@ == text@,
            summary_model(*final(self)) == summary_model(*old(self)).push((text@, ty, Some(start..end))),
            summary_linked(*final(self)),
            summary_shows(*final(self), text@),
            forall|t: Seq<char>| #[trigger] summary_shows(*old(self), t) ==> summary_shows(*final(self), t),
    {
        let ghost s0 = self.summary@;
        self.summary.push(SummaryPart::with_range(text, ty, start..end));
        proof {
            assert(summary_model(*self) =~= summary_model(*old(self)).push((text@, ty, Some(start..end))));
            assert(self.summary@[s0.len() as int].text@ == text@);
            assert forall|t: Seq<char>| #[trigger] summary_shows(*old(self), t) implies summary_shows(*self, t) by {
                let i = choose|i: int| 0 <= i < s0.len() && (#[trigger] s0[i]).text@ == t;
                assert(self.summary@[i] == s0[i]);
            }
        }
    }

    /// Add a summary part not linked to bytes.
    fn part(&mut self, text: String, ty: SegmentType)
        requires
            summary_linked(*old(self)),
        ensures
            final(self).protocol == old(self).protocol,
            final(self).segments == old(self).segments,
            final(self).summary@.len() == old(self).summary@.len() + 1,
            final(self).summary@.last().text@ == text@,
            summary_model(*final(self)) == summary_model(*old(self)).push((text@, ty, None)),
            summary_linked(*final(self)),
            summary_shows(*final(self), text@),
            forall|t: Seq<char>| #[trigger] summary_shows(*old(self), t) ==> summary_shows(*final(self), t),
    {
        let ghost s0 = self.summary@;
        self.summary.push(SummaryPart::typed(text, ty));
        proof {
            assert(summary_model(*self) =~= summary_model(*old(self)).push((text@, ty, None)));
            assert(self.summary@[s0.len() as int].text@ == text@);
            assert forall|t: Seq<char>| #[trigger] summary_shows(*old(self), t) implies summary_shows(*self, t) by {
                let i = choose|i: int| 0 <= i < s0.len() && (#[trigger] s0[i]).text@ == t;
                assert(self.summary@[i] == s0[i]);
            }
        }
    }
}

// ---------------------------------------------------------------------------
// Format helpers
// ---------------------------------------------------------------------------

/// The bytes of a frequency in MHz: three decimals when it is a whole
/// number of kHz, six otherwise.
pub open spec fn frequency_bytes(hz: u64) -> Seq<u8> {
    if hz % 1000 == 0 {
        thousandths_mhz((hz / 1000) as nat)
    } else {
        millionths_mhz(hz as nat)
    }
}

/// The text of a frequency in MHz.
pub open spec fn frequency_text(hz: u64) -> Seq<char> {
    wire_text(frequency_bytes(hz))
}

/// Format frequency in MHz with appropriate precision: kHz resolution
/// (`14.250 MHz`) for whole kHz, Hz resolution (`14.074500 MHz`) otherwise.
pub fn format_frequency(hz: u64) -> (r: String)
    ensures
        r@ == frequency_text(hz),
{
    let mut b: Vec<u8> = Vec::new();
    if hz % 1000 == 0 {
        push_thousandths_mhz(&mut b, hz / 1000);
    } else {
        push_millionths_mhz(&mut b, hz);
    }
    proof {
        assert(b@ =~= frequency_bytes(hz));
    }
    text_from_bytes(b.as_slice())
}

/// The name of an operating mode.
pub open spec fn mode_text(mode: OperatingMode) -> Seq<char> {
    match mode {
        OperatingMode::Lsb => "LSB"@,
        OperatingMode::Usb => "USB"@,
        OperatingMode::Cw => "CW"@,
        OperatingMode::CwR => "CW-R"@,
        OperatingMode::Am => "AM"@,
        OperatingMode::Fm => "FM"@,
        OperatingMode::FmN => "FM-N"@,
        OperatingMode::Dig => "DIG"@,
        OperatingMode::DigU => "DIG-U"@,
        OperatingMode::DigL => "DIG-L"@,
        OperatingMode::Pkt => "PKT"@,
        OperatingMode::Data => "DATA"@,
        OperatingMode::DataU => "DATA-U"@,
        OperatingMode::DataL => "DATA-L"@,
        OperatingMode::Rtty => "RTTY"@,
        OperatingMode::RttyR => "RTTY-R"@,
    }
}

/// Format an operating mode as a human-readable string
pub fn format_mode(mode: OperatingMode) -> (r: &'static str)
    ensures
        r@ == mode_text(mode),
{
    match mode {
        OperatingMode::Lsb => "LSB",
        OperatingMode::Usb => "USB",
        OperatingMode::Cw => "CW",
        OperatingMode::CwR => "CW-R",
        OperatingMode::Am => "AM",
        OperatingMode::Fm => "FM",
        OperatingMode::FmN => "FM-N",
        OperatingMode::Dig => "DIG",
        OperatingMode::DigU => "DIG-U",
        OperatingMode::DigL => "DIG-L",
        OperatingMode::Pkt => "PKT",
        OperatingMode::Data => "DATA",
        OperatingMode::DataU => "DATA-U",
        OperatingMode::DataL => "DATA-L",
        OperatingMode::Rtty => "RTTY",
        OperatingMode::RttyR => "RTTY-R",
    }
}

/// The name shown for a CI-V mode byte (`?` for an unknown one).
pub open spec fn civ_mode_name(mode: u8) -> Seq<char> {
    if mode == 0x00u8 {
        "LSB"@
    } else if mode == 0x01u8 {
        "USB"@
    } else if mode == 0x02u8 {
        "AM"@
    } else if mode == 0x03u8 {
        "CW"@
    } else if mode == 0x04u8 {
        "RTTY"@
    } else if mode == 0x05u8 {
        "FM"@
    } else if mode == 0x06u8 {
        "CW-R"@
    } else if mode == 0x07u8 {
        "RTTY-R"@
    } else if mode == 0x08u8 {
        "DATA-L"@
    } else if mode == 0x09u8 {
        "DATA-U"@
    } else {
        "?"@
    }
}

/// The name shown for a Yaesu mode byte (`?` for an unknown one).
pub open spec fn yaesu_mode_name(mode: u8) -> Seq<char> {
    if mode == 0x00u8 {
        "LSB"@
    } else if mode == 0x01u8 {
        "USB"@
    } else if mode == 0x02u8 {
        "CW"@
    } else if mode == 0x03u8 {
        "CW-R"@
    } else if mode == 0x04u8 {
        "AM"@
    } else if mode == 0x06u8 || mode == 0x08u8 {
        "FM"@
    } else if mode == 0x0Au8 {
        "DIG"@
    } else if mode == 0x0Cu8 {
        "PKT"@
    } else {
        "?"@
    }
}

/// The name shown for a Kenwood mode digit (`?` for an unknown one).
pub open spec fn kenwood_mode_name(mode: u8) -> Seq<char> {
    if mode == 1u8 {
        "LSB"@
    } else if mode == 2u8 {
        "USB"@
    } else if mode == 3u8 {
        "CW"@
    } else if mode == 4u8 {
        "FM"@
    } else if mode == 5u8 {
        "AM"@
    } else if mode == 6u8 {
        "RTTY"@
    } else if mode == 7u8 {
        "CW-R"@
    } else if mode == 8u8 {
        "DATA-L"@
    } else if mode == 9u8 {
        "RTTY-R"@
    } else if mode == 10u8 {
        "DATA-U"@
    } else {
        "?"@
    }
}

/// The name shown for a Yaesu ASCII mode digit (`?` for an unknown one).
pub open spec fn yaesu_ascii_mode_name(mode: u8) -> Seq<char> {
    if mode == 1u8 {
        "LSB"@
    } else if mode == 2u8 {
        "USB"@
    } else if mode == 3u8 {
        "CW-U"@
    } else if mode == 4u8 {
        "FM"@
    } else if mode == 5u8 {
        "AM"@
    } else if mode == 6u8 {
        "RTTY-L"@
    } else if mode == 7u8 {
        "CW-L"@
    } else if mode == 8u8 {
        "DATA-L"@
    } else if mode == 9u8 {
        "RTTY-U"@
    } else if mode == 10u8 {
        "DATA-FM"@
    } else if mode == 11u8 {
        "FM-N"@
    } else if mode == 12u8 {
        "DATA-U"@
    } else if mode == 13u8 {
        "AM-N"@
    } else if mode == 14u8 {
        "C4FM"@
    } else {
        "?"@
    }
}

/// The name shown for a FlexRadio mode.
pub open spec fn flex_mode_name(mode: FlexMode) -> Seq<char> {
    match mode {
        FlexMode::Lsb => "LSB"@,
        FlexMode::Usb => "USB"@,
        FlexMode::Dsb => "DSB"@,
        FlexMode::CwL => "CW-L"@,
        FlexMode::CwU => "CW-U"@,
        FlexMode::Fm => "FM"@,
        FlexMode::Am => "AM"@,
        FlexMode::DigU => "DIG-U"@,
        FlexMode::Spec => "SPEC"@,
        FlexMode::DigL => "DIG-L"@,
        FlexMode::Sam => "SAM"@,
        FlexMode::Nfm => "NFM"@,
        FlexMode::Dfm => "DFM"@,
        FlexMode::Fdv => "FreeDV"@,
        FlexMode::Rtty => "RTTY"@,
        FlexMode::Dstar => "D-STAR"@,
    }
}

/// Format CI-V mode byte as a human-readable string
fn format_civ_mode(mode: u8) -> (r: &'static str)
    ensures
        r@ == civ_mode_name(mode),
{
    match mode {
        0x00 => "LSB",
        0x01 => "USB",
        0x02 => "AM",
        0x03 => "CW",
        0x04 => "RTTY",
        0x05 => "FM",
        0x06 => "CW-R",
        0x07 => "RTTY-R",
        0x08 => "DATA-L",
        0x09 => "DATA-U",
        _ => "?",
    }
}

/// Format Yaesu mode byte as a human-readable string
fn format_yaesu_mode(mode: u8) -> (r: &'static str)
    ensures
        r@ == yaesu_mode_name(mode),
{
    match mode {
        0x00 => "LSB",
        0x01 => "USB",
        0x02 => "CW",
        0x03 => "CW-R",
        0x04 => "AM",
        0x06 | 0x08 => "FM",
        0x0A => "DIG",
        0x0C => "PKT",
        _ => "?",
    }
}

/// Format Kenwood mode digit as a human-readable string
fn format_kenwood_mode(mode: u8) -> (r: &'static str)
    ensures
        r@ == kenwood_mode_name(mode),
{
    match mode {
        1 => "LSB",
        2 => "USB",
        3 => "CW",
        4 => "FM",
        5 => "AM",
        6 => "RTTY",
        7 => "CW-R",
        8 => "DATA-L",
        9 => "RTTY-R",
        10 => "DATA-U",
        _ => "?",
    }
}

/// Format Yaesu ASCII mode digit as a human-readable string
fn format_yaesu_ascii_mode(mode: u8) -> (r: &'static str)
    ensures
        r@ == yaesu_ascii_mode_name(mode),
{
    match mode {
        1 => "LSB",
        2 => "USB",
        3 => "CW-U",
        4 => "FM",
        5 => "AM",
        6 => "RTTY-L",
        7 => "CW-L",
        8 => "DATA-L",
        9 => "RTTY-U",
        10 => "DATA-FM",
        11 => "FM-N",
        12 => "DATA-U",
        13 => "AM-N",
        14 => "C4FM",
        _ => "?",
    }
}

/// Format FlexMode as a human-readable string
fn format_flex_mode(mode: FlexMode) -> (r: &'static str)
    ensures
        r@ == flex_mode_name(mode),
{
    match mode {
        FlexMode::Lsb => "LSB",
        FlexMode::Usb => "USB",
        FlexMode::Dsb => "DSB",
        FlexMode::CwL => "CW-L",
        FlexMode::CwU => "CW-U",
        FlexMode::Fm => "FM",
        FlexMode::Am => "AM",
        FlexMode::DigU => "DIG-U",
        FlexMode::Spec => "SPEC",
        FlexMode::DigL => "DIG-L",
        FlexMode::Sam => "SAM",
        FlexMode::Nfm => "NFM",
        FlexMode::Dfm => "DFM",
        FlexMode::Fdv => "FreeDV",
        FlexMode::Rtty => "RTTY",
        FlexMode::Dstar => "D-STAR",
    }
}

/// Two upper-case hex digits.
fn hex_text(b: u8) -> (r: String)
    ensures
        r@ == wire_text(crate::text::hex2(b)),
{
    let mut v: Vec<u8> = Vec::new();
    push_hex2(&mut v, b);
    proof {
        assert(v@ =~= crate::text::hex2(b));
    }
    text_from_bytes(v.as_slice())
}

/// A prefix, then two upper-case hex digits.
fn prefixed_hex_text(prefix: &[u8], b: u8) -> (r: String)
    ensures
        r@ == wire_text(prefix@ + crate::text::hex2(b)),
{
    let mut v: Vec<u8> = Vec::new();
    push_all(&mut v, prefix);
    push_hex2(&mut v, b);
    proof {
        assert(v@ =~= prefix@ + crate::text::hex2(b));
    }
    text_from_bytes(v.as_slice())
}

/// Decimal text of an unsigned value, with an optional suffix.
fn decimal_text(n: u64, suffix: &[u8]) -> (r: String)
    ensures
        r@ == wire_text(crate::text::dec(n as nat) + suffix@),
{
    let mut v: Vec<u8> = Vec::new();
    push_dec(&mut v, n);
    push_all(&mut v, suffix);
    proof {
        assert(v@ =~= crate::text::dec(n as nat) + suffix@);
    }
    text_from_bytes(v.as_slice())
}

/// A value followed by `%`.
fn percent_text(n: u8) -> (r: String)
    ensures
        r@ == wire_text(crate::text::dec(n as nat) + seq![37u8]),
{
    let mut v: Vec<u8> = Vec::new();
    push_dec(&mut v, n as u64);
    v.push(37u8);
    proof {
        assert(v@ =~= crate::text::dec(n as nat) + seq![37u8]);
    }
    text_from_bytes(v.as_slice())
}

/// Decimal text of a signed value.
fn signed_text(n: i32) -> (r: String)
    ensures
        r@ == wire_text(crate::text::dec_signed(n as int)),
{
    let mut v: Vec<u8> = Vec::new();
    push_dec_signed_padded(&mut v, n, 0);
    proof {
        if n < 0 {
            assert(crate::text::dec_padded((-n) as nat, 0) == crate::text::dec((-n) as nat));
        } else {
            assert(crate::text::dec_padded(n as nat, 0) == crate::text::dec(n as nat));
        }
        assert(v@ =~= crate::text::dec_signed(n as int));
    }
    text_from_bytes(v.as_slice())
}

/// The name shown for a CI-V address: the broadcast and controller
/// addresses by name, any other as `Radio` and its hex value.
pub open spec fn civ_address_text(addr: u8) -> Seq<char> {
    if addr == 0x00u8 {
        "Broadcast"@
    } else if addr == 0xE0u8 {
        "Controller"@
    } else {
        wire_text(seq![82u8, 97, 100, 105, 111, 32] + crate::text::hex2(addr) + seq![104u8])
    }
}

/// The text of `raw[start..end]`, the end cut to the bytes there are; empty
/// when nothing is left.
pub open spec fn bytes_text_spec(raw: Seq<u8>, start: int, end: int) -> Seq<char> {
    let e = if end <= raw.len() {
        end
    } else {
        raw.len() as int
    };
    if start < e {
        wire_text(raw.subrange(start, e))
    } else {
        Seq::empty()
    }
}

/// Format CI-V address as descriptive string
fn format_civ_address(addr: u8) -> (r: String)
    ensures
        r@ == civ_address_text(addr),
{
    match addr {
        0x00 => "Broadcast".to_owned(),
        0xE0 => "Controller".to_owned(),
        _ => {
            let mut v: Vec<u8> = Vec::new();
            push_all(&mut v, &[82u8, 97, 100, 105, 111, 32]);
            push_hex2(&mut v, addr);
            v.push(104u8);
            proof {
                assert(v@ =~= seq![82u8, 97, 100, 105, 111, 32] + crate::text::hex2(addr) + seq![104u8]);
            }
            text_from_bytes(v.as_slice())
        },
    }
}

/// `"ON"` or `"OFF"`.
fn on_off(b: bool) -> (r: &'static str)
    ensures
        r@ == on_off_text(b),
{
    if b {
        "ON"
    } else {
        "OFF"
    }
}

impl AnnotatedFrame {
    /// A value of the frame: shown in segment `start..end` and linked from
    /// the summary when `present`, otherwise only in the summary.
    fn value(&mut self, present: bool, start: usize, end: usize, label: &'static str, seg_value: String, text: String, ty: SegmentType)
        requires
            summary_linked(*old(self)),
        ensures
            final(self).protocol == old(self).protocol,
            summary_linked(*final(self)),
            summary_shows(*final(self), text@),
            forall|t: Seq<char>| #[trigger] summary_shows(*old(self), t) ==> summary_shows(*final(self), t),
            final(self).summary@.len() == old(self).summary@.len() + 1,
            summary_model(*final(self)) == summary_model(*old(self)).push(
                (text@, ty, if present { Some(start..end) } else { None }),
            ),
            present ==> final(self).segments@ == old(self).segments@.push(
                FrameSegment { range: start..end, label, value: seg_value, segment_type: ty },
            ),
            segments_model(*final(self)) == segments_model(*old(self)) + seg_if(
                present,
                (start..end, label@, seg_value@, ty),
            ),
            !present ==> final(self).segments == old(self).segments,
            forall|a: usize, b: usize| #[trigger] has_segment(old(self).segments@, a, b) ==> has_segment(final(self).segments@, a, b),
    {
        if present {
            let ghost sv = seg_value@;
            self.seg(start, end, label, seg_value, ty);
            proof {
                assert(covered(self.segments@, start, end));
            }
            self.part_at(text, ty, start, end);
            proof {
                assert(segments_model(*self) =~= segments_model(*old(self)) + seq![(start..end, label@, sv, ty)]);
            }
        } else {
            self.part(text, ty);
            proof {
                assert(segments_model(*self) =~= segments_model(*old(self)) + Seq::<SegModel>::empty());
            }
        }
    }

    /// A summary part naming a command, linked to its bytes.
    fn command_part(&mut self, text: &str, start: usize, end: usize)
        requires
            covered(old(self).segments@, start, end),
            summary_linked(*old(self)),
        ensures
            final(self).protocol == old(self).protocol,
            final(self).segments == old(self).segments,
            summary_linked(*final(self)),
            summary_shows(*final(self), text@),
            summary_model(*final(self)) == summary_model(*old(self)).push((text@, SegmentType::Command, Some(start..end))),
            forall|t: Seq<char>| #[trigger] summary_shows(*old(self), t) ==> summary_shows(*final(self), t),
    {
        self.part_at(text.to_owned(), SegmentType::Command, start, end);
    }

    /// A plain summary part.
    fn plain(&mut self, text: &str)
        requires
            summary_linked(*old(self)),
        ensures
            final(self).protocol == old(self).protocol,
            final(self).segments == old(self).segments,
            summary_linked(*final(self)),
            summary_shows(*final(self), text@),
            summary_model(*final(self)) == summary_model(*old(self)).push((text@, SegmentType::Data, None)),
            forall|t: Seq<char>| #[trigger] summary_shows(*old(self), t) ==> summary_shows(*final(self), t),
    {
        self.part(text.to_owned(), SegmentType::Data);
    }
}

/// The name a CI-V command's summary starts with; `None` for an unknown
/// command, which is shown by its command bytes.
pub open spec fn civ_title(c: crate::icom::CivTypeModel) -> Option<Seq<char>> {
    match c {
        crate::icom::CivTypeModel::SetFrequency { .. } => Some("Set Freq"@),
        crate::icom::CivTypeModel::GetFrequency => Some("Get Freq"@),
        crate::icom::CivTypeModel::FrequencyReport { .. } => Some("Freq"@),
        crate::icom::CivTypeModel::SetMode { .. } => Some("Set Mode"@),
        crate::icom::CivTypeModel::GetMode => Some("Get Mode"@),
        crate::icom::CivTypeModel::ModeReport { .. } => Some("Mode"@),
        crate::icom::CivTypeModel::VfoSelect { .. } => Some("VFO"@),
        crate::icom::CivTypeModel::SetPtt { .. } => Some("PTT"@),
        crate::icom::CivTypeModel::PttReport { .. } => Some("PTT"@),
        crate::icom::CivTypeModel::Split { .. } => Some("Split"@),
        crate::icom::CivTypeModel::Transceive { .. } => Some("Transceive"@),
        crate::icom::CivTypeModel::Ack => Some("OK"@),
        crate::icom::CivTypeModel::Ng => Some("NG (Error)"@),
        _ => None,
    }
}

/// The state or VFO shown after a CI-V command's name, where it is one.
pub open spec fn civ_shown_value(c: crate::icom::CivTypeModel) -> Option<Seq<char>> {
    match c {
        crate::icom::CivTypeModel::VfoSelect { vfo } => Some(
            if vfo == 0 {
                "A"@
            } else if vfo == 1 {
                "B"@
            } else {
                "?"@
            },
        ),
        crate::icom::CivTypeModel::SetPtt { on } => Some(on_off_text(on)),
        crate::icom::CivTypeModel::PttReport { on } => Some(on_off_text(on)),
        crate::icom::CivTypeModel::Split { on } => Some(on_off_text(on)),
        crate::icom::CivTypeModel::Transceive { enabled } => Some(on_off_text(enabled)),
        _ => None,
    }
}

/// A summary part as values.
pub type PartModel = (Seq<char>, SegmentType, Option<std::ops::Range<usize>>);

/// A segment as values.
pub type SegModel = (std::ops::Range<usize>, Seq<char>, Seq<char>, SegmentType);

/// A range when `present`, otherwise none.
pub open spec fn range_if(present: bool, start: usize, end: usize) -> Option<std::ops::Range<usize>> {
    if present {
        Some(start..end)
    } else {
        None
    }
}

/// A one-segment sequence when `present`, otherwise none.
pub open spec fn seg_if(present: bool, s: SegModel) -> Seq<SegModel> {
    if present {
        seq![s]
    } else {
        Seq::empty()
    }
}

/// The five segments every CI-V frame of `n` bytes starts with: preamble,
/// destination, source, command byte and terminator.
pub open spec fn civ_head_segments(to_addr: u8, from_addr: u8, raw: Seq<u8>) -> Seq<SegModel> {
    let n = raw.len();
    let end: usize = if n > 0 { (n - 1) as usize } else { 0 };
    let cmd_byte: u8 = if n > 4 { raw[4] } else { 0 };
    seq![
        (0usize..2usize, "preamble"@, "FE FE"@, SegmentType::Preamble),
        (2usize..3usize, "dest"@, civ_address_text(to_addr), SegmentType::Address),
        (3usize..4usize, "src"@, civ_address_text(from_addr), SegmentType::Address),
        (4usize..5usize, "cmd"@, wire_text(crate::text::hex2(cmd_byte)), SegmentType::Command),
        (end..n as usize, "end"@, "FD"@, SegmentType::Terminator),
    ]
}

/// The segments a CI-V command adds after the five it starts with, for a
/// frame of `n` bytes.
pub open spec fn civ_body_segments(c: crate::icom::CivTypeModel, n: nat) -> Seq<SegModel> {
    let big = n > 6;
    let de: usize = if big { (n - 1) as usize } else { 5 };
    match c {
        crate::icom::CivTypeModel::SetFrequency { hz } => seg_if(
            big,
            (5usize..de, "freq"@, frequency_text(hz), SegmentType::Frequency),
        ),
        crate::icom::CivTypeModel::FrequencyReport { hz } => seg_if(
            big,
            (5usize..de, "freq"@, frequency_text(hz), SegmentType::Frequency),
        ),
        crate::icom::CivTypeModel::SetMode { mode, filter } => seg_if(
            big,
            (5usize..6usize, "mode"@, civ_mode_name(mode), SegmentType::Mode),
        ) + seg_if(n > 7, (6usize..7usize, "filter"@, wire_text(crate::text::dec(filter as nat)), SegmentType::Data)),
        crate::icom::CivTypeModel::ModeReport { mode, filter } => seg_if(
            big,
            (5usize..6usize, "mode"@, civ_mode_name(mode), SegmentType::Mode),
        ) + seg_if(n > 7, (6usize..7usize, "filter"@, wire_text(crate::text::dec(filter as nat)), SegmentType::Data)),
        crate::icom::CivTypeModel::VfoSelect { vfo } => seg_if(
            big,
            (5usize..6usize, "vfo"@, civ_vfo_name(vfo), SegmentType::Data),
        ),
        crate::icom::CivTypeModel::SetPtt { on } => seg_if(
            n > 7,
            (5usize..6usize, "subcmd"@, "PTT"@, SegmentType::Command),
        ) + seg_if(n > 7, (6usize..7usize, "state"@, on_off_text(on), SegmentType::Status)),
        crate::icom::CivTypeModel::Split { on } => seg_if(
            big,
            (5usize..6usize, "split"@, on_off_text(on), SegmentType::Status),
        ),
        crate::icom::CivTypeModel::Transceive { enabled } => seg_if(
            n > 7,
            (5usize..6usize, "subcmd"@, "Transceive"@, SegmentType::Command),
        ) + seg_if(n > 7, (6usize..7usize, "state"@, on_off_text(enabled), SegmentType::Status)),
        crate::icom::CivTypeModel::Unknown { data, .. } => seg_if(
            big,
            (
                5usize..de,
                "data"@,
                wire_text(crate::text::dec(data.len()) + seq![32u8, 98, 121, 116, 101, 115]),
                SegmentType::Data,
            ),
        ),
        _ => Seq::empty(),
    }
}

/// The VFO name shown for a CI-V VFO byte.
pub open spec fn civ_vfo_name(vfo: u8) -> Seq<char> {
    if vfo == 0 {
        "A"@
    } else if vfo == 1 {
        "B"@
    } else {
        "?"@
    }
}

/// The summary of a CI-V command in a frame of `n` bytes, part by part.
pub open spec fn civ_summary(c: crate::icom::CivTypeModel, n: nat) -> Seq<PartModel> {
    let big = n > 6;
    let de: usize = if big { (n - 1) as usize } else { 5 };
    let cmd = Some(4usize..5usize);
    match c {
        crate::icom::CivTypeModel::SetFrequency { hz } => seq![
            ("Set Freq"@, SegmentType::Command, cmd),
            (" "@, SegmentType::Data, None),
            (frequency_text(hz), SegmentType::Frequency, range_if(big, 5, de)),
        ],
        crate::icom::CivTypeModel::GetFrequency => seq![("Get Freq"@, SegmentType::Command, cmd)],
        crate::icom::CivTypeModel::FrequencyReport { hz } => seq![
            ("Freq"@, SegmentType::Command, cmd),
            (" "@, SegmentType::Data, None),
            (frequency_text(hz), SegmentType::Frequency, range_if(big, 5, de)),
        ],
        crate::icom::CivTypeModel::SetMode { mode, filter } => seq![
            ("Set Mode"@, SegmentType::Command, cmd),
            (" "@, SegmentType::Data, None),
            (civ_mode_name(mode), SegmentType::Mode, range_if(big, 5, 6)),
            (" (filter "@, SegmentType::Data, None),
            (wire_text(crate::text::dec(filter as nat)), SegmentType::Data, range_if(n > 7, 6, 7)),
            (")"@, SegmentType::Data, None),
        ],
        crate::icom::CivTypeModel::GetMode => seq![("Get Mode"@, SegmentType::Command, cmd)],
        crate::icom::CivTypeModel::ModeReport { mode, filter } => seq![
            ("Mode"@, SegmentType::Command, cmd),
            (" "@, SegmentType::Data, None),
            (civ_mode_name(mode), SegmentType::Mode, range_if(big, 5, 6)),
            (" (filter "@, SegmentType::Data, None),
            (wire_text(crate::text::dec(filter as nat)), SegmentType::Data, range_if(n > 7, 6, 7)),
            (")"@, SegmentType::Data, None),
        ],
        crate::icom::CivTypeModel::VfoSelect { vfo } => seq![
            ("VFO"@, SegmentType::Command, cmd),
            (" "@, SegmentType::Data, None),
            (civ_vfo_name(vfo), SegmentType::Data, range_if(big, 5, 6)),
        ],
        crate::icom::CivTypeModel::SetPtt { on } => seq![
            ("PTT"@, SegmentType::Command, cmd),
            (" "@, SegmentType::Data, None),
            (on_off_text(on), SegmentType::Status, range_if(n > 7, 6, 7)),
        ],
        crate::icom::CivTypeModel::PttReport { on } => seq![
            ("PTT"@, SegmentType::Command, cmd),
            (" "@, SegmentType::Data, None),
            (on_off_text(on), SegmentType::Status, None),
        ],
        crate::icom::CivTypeModel::Split { on } => seq![
            ("Split"@, SegmentType::Command, cmd),
            (" "@, SegmentType::Data, None),
            (on_off_text(on), SegmentType::Status, range_if(big, 5, 6)),
        ],
        crate::icom::CivTypeModel::Transceive { enabled } => seq![
            ("Transceive"@, SegmentType::Command, cmd),
            (" "@, SegmentType::Data, None),
            (on_off_text(enabled), SegmentType::Status, range_if(n > 7, 6, 7)),
        ],
        crate::icom::CivTypeModel::Ack => seq![("OK"@, SegmentType::Data, cmd)],
        crate::icom::CivTypeModel::Ng => seq![("NG (Error)"@, SegmentType::Status, cmd)],
        crate::icom::CivTypeModel::Unknown { cmd: code, subcmd, .. } => seq![
            (
                wire_text(
                    match subcmd {
                        Some(sc) => seq![99u8, 109, 100, 61] + crate::text::hex2(code) + seq![32u8, 115, 117, 98, 61]
                            + crate::text::hex2(sc),
                        None => seq![99u8, 109, 100, 61] + crate::text::hex2(code),
                    },
                ),
                SegmentType::Command,
                cmd,
            ),
        ],
    }
}

impl FrameAnnotation for CivCommand {
    /// Segments: preamble, destination and source addresses, command byte,
    /// terminator, then the command's data; the summary names the command
    /// and its values.
    #[verifier::rlimit(100)]
    #[verifier::spinoff_prover]
    fn annotate(&self, raw_bytes: &[u8]) -> (r: AnnotatedFrame)
        ensures
            r.protocol@ == "CI-V"@,
            summary_linked(r),
            raw_bytes@.len() > 6 ==> match self.command {
                CivCommandType::SetFrequency { hz } => shows_frequency(r, 5, (raw_bytes@.len() - 1) as usize, hz),
                CivCommandType::FrequencyReport { hz } => shows_frequency(r, 5, (raw_bytes@.len() - 1) as usize, hz),
                _ => true,
            },
            match self.command {
                CivCommandType::SetFrequency { hz } => summary_shows(r, frequency_text(hz)),
                CivCommandType::FrequencyReport { hz } => summary_shows(r, frequency_text(hz)),
                CivCommandType::SetMode { mode, .. } => summary_shows(r, civ_mode_name(mode)),
                CivCommandType::ModeReport { mode, .. } => summary_shows(r, civ_mode_name(mode)),
                _ => true,
            },
            civ_title(self.command@) matches Some(t) ==> summary_shows(r, t),
            civ_shown_value(self.command@) matches Some(v) ==> summary_shows(r, v),
            segments_model(r) == civ_head_segments(self.to_addr, self.from_addr, raw_bytes@) + civ_body_segments(
                self.command@,
                raw_bytes@.len(),
            ),
            summary_model(r) == civ_summary(self.command@, raw_bytes@.len()),
    {
        let data_len = raw_bytes.len();
        let mut f = AnnotatedFrame::empty("CI-V");
        f.seg(0, 2, "preamble", "FE FE".to_owned(), SegmentType::Preamble);
        f.seg(2, 3, "dest", format_civ_address(self.to_addr), SegmentType::Address);
        f.seg(3, 4, "src", format_civ_address(self.from_addr), SegmentType::Address);
        let cmd_byte = if data_len > 4 {
            raw_bytes[4]
        } else {
            0
        };
        f.seg(4, 5, "cmd", hex_text(cmd_byte), SegmentType::Command);
        let end = if data_len > 0 {
            data_len - 1
        } else {
            0
        };
        f.seg(end, data_len, "end", "FD".to_owned(), SegmentType::Terminator);
        let ghost k = f.segments@.len();
        proof {
            assert(segments_model(f) =~= civ_head_segments(self.to_addr, self.from_addr, raw_bytes@));
            assert(summary_model(f) =~= Seq::<PartModel>::empty());
        }
        assert(covered(f.segments@, 4, 5));
        let big = data_len > 6;
        let data_end = if big {
            data_len - 1
        } else {
            5
        };
        match &self.command {
            CivCommandType::SetFrequency { hz } => {
                f.command_part("Set Freq", 4, 5);
                f.plain(" ");
                f.value(big, 5, data_end, "freq", format_frequency(*hz), format_frequency(*hz), SegmentType::Frequency);
                proof {
                    if big {
                        assert(f.segments@[k as int].range == (5usize..data_end));
                    }
                }
            },
            CivCommandType::GetFrequency => {
                f.command_part("Get Freq", 4, 5);
            },
            CivCommandType::FrequencyReport { hz } => {
                f.command_part("Freq", 4, 5);
                f.plain(" ");
                f.value(big, 5, data_end, "freq", format_frequency(*hz), format_frequency(*hz), SegmentType::Frequency);
                proof {
                    if big {
                        assert(f.segments@[k as int].range == (5usize..data_end));
                    }
                }
            },
            CivCommandType::SetMode { mode, filter } | CivCommandType::ModeReport { mode, filter } => {
                let name = if matches!(self.command, CivCommandType::SetMode { .. }) {
                    "Set Mode"
                } else {
                    "Mode"
                };
                f.command_part(name, 4, 5);
                f.plain(" ");
                let m = format_civ_mode(*mode);
                f.value(big, 5, 6, "mode", m.to_owned(), m.to_owned(), SegmentType::Mode);
                f.plain(" (filter ");
                f.value(data_len > 7, 6, 7, "filter", decimal_text(*filter as u64, &[]), decimal_text(*filter as u64, &[]), SegmentType::Data);
                f.plain(")");
            },
            CivCommandType::GetMode => {
                f.command_part("Get Mode", 4, 5);
            },
            CivCommandType::VfoSelect { vfo } => {
                let vfo_name = if *vfo == 0 {
                    "A"
                } else if *vfo == 1 {
                    "B"
                } else {
                    "?"
                };
                f.command_part("VFO", 4, 5);
                f.plain(" ");
                f.value(big, 5, 6, "vfo", vfo_name.to_owned(), vfo_name.to_owned(), SegmentType::Data);
            },
            CivCommandType::SetPtt { on } => {
                let state = on_off(*on);
                let present = data_len > 7;
                if present {
                    f.seg(5, 6, "subcmd", "PTT".to_owned(), SegmentType::Command);
                }
                f.command_part("PTT", 4, 5);
                f.plain(" ");
                f.value(present, 6, 7, "state", state.to_owned(), state.to_owned(), SegmentType::Status);
            },
            CivCommandType::PttReport { on } => {
                f.command_part("PTT", 4, 5);
                f.plain(" ");
                f.part(on_off(*on).to_owned(), SegmentType::Status);
            },
            CivCommandType::Split { on } => {
                let state = on_off(*on);
                f.command_part("Split", 4, 5);
                f.plain(" ");
                f.value(big, 5, 6, "split", state.to_owned(), state.to_owned(), SegmentType::Status);
            },
            CivCommandType::Transceive { enabled } => {
                let state = on_off(*enabled);
                let present = data_len > 7;
                if present {
                    f.seg(5, 6, "subcmd", "Transceive".to_owned(), SegmentType::Command);
                }
                f.command_part("Transceive", 4, 5);
                f.plain(" ");
                f.value(present, 6, 7, "state", state.to_owned(), state.to_owned(), SegmentType::Status);
            },
            CivCommandType::Ack => {
                f.part_at("OK".to_owned(), SegmentType::Data, 4, 5);
            },
            CivCommandType::Ng => {
                f.part_at("NG (Error)".to_owned(), SegmentType::Status, 4, 5);
            },
            CivCommandType::Unknown { cmd, subcmd, data } => {
                if big {
                    f.seg(5, data_end, "data", decimal_text(data.len() as u64, &[32u8, 98, 121, 116, 101, 115]), SegmentType::Data);
                }
                let text = match subcmd {
                    Some(sc) => {
                        let mut v: Vec<u8> = Vec::new();
                        push_all(&mut v, &[99u8, 109, 100, 61]);
                        push_hex2(&mut v, *cmd);
                        push_all(&mut v, &[32u8, 115, 117, 98, 61]);
                        push_hex2(&mut v, *sc);
                        text_from_bytes(v.as_slice())
                    },
                    None => prefixed_hex_text(&[99u8, 109, 100, 61], *cmd),
                };
                f.part_at(text, SegmentType::Command, 4, 5);
            },
        }
        proof {
            assert(segments_model(f) =~= civ_head_segments(self.to_addr, self.from_addr, raw_bytes@) + civ_body_segments(
                self.command@,
                raw_bytes@.len(),
            ));
            assert(summary_model(f) =~= civ_summary(self.command@, raw_bytes@.len()));
        }
        f
    }
}

/// The byte at `i`, or 0 past the end.
fn byte_or_zero(raw: &[u8], i: usize) -> (r: u8)
    ensures
        r == (if i < raw@.len() {
            raw@[i as int]
        } else {
            0u8
        }),
{
    if i < raw.len() {
        raw[i]
    } else {
        0
    }
}

impl AnnotatedFrame {
    /// Yaesu commands: four parameter bytes, then the opcode.
    fn yaesu_padding_cmd(&mut self, raw_bytes: &[u8], label: &'static str, value: &str, ty: SegmentType)
        requires
            summary_linked(*old(self)),
        ensures
            final(self).protocol == old(self).protocol,
            summary_linked(*final(self)),
            has_segment(final(self).segments@, 4, 5),
            forall|a: usize, b: usize| #[trigger] has_segment(old(self).segments@, a, b) ==> has_segment(final(self).segments@, a, b),
            final(self).summary == old(self).summary,
            segments_model(*final(self)) == segments_model(*old(self)) + seq![
                (0usize..4usize, label@, value@, ty),
                yaesu_cmd_segment(raw_bytes@),
            ],
    {
        self.seg(0, 4, label, value.to_owned(), ty);
        self.seg(4, 5, "cmd", hex_text(byte_or_zero(raw_bytes, 4)), SegmentType::Command);
        proof {
            assert(segments_model(*self) =~= segments_model(*old(self)) + seq![
                (0usize..4usize, label@, value@, ty),
                yaesu_cmd_segment(raw_bytes@),
            ]);
        }
    }

    /// A command that turns something on or off: its name and the state,
    /// both linked to the opcode.
    fn yaesu_switch(&mut self, raw_bytes: &[u8], name: &str, on: bool)
        requires
            summary_linked(*old(self)),
        ensures
            final(self).protocol == old(self).protocol,
            summary_linked(*final(self)),
            summary_shows(*final(self), name@),
            summary_shows(*final(self), on_off_text(on)),
            segments_model(*final(self)) == segments_model(*old(self)) + yaesu_padding_segments(raw_bytes@),
            summary_model(*final(self)) == summary_model(*old(self)) + seq![
                (name@, SegmentType::Command, Some(4usize..5usize)),
                (" "@, SegmentType::Data, None),
                (on_off_text(on), SegmentType::Status, Some(4usize..5usize)),
            ],
    {
        self.yaesu_padding_cmd(raw_bytes, "padding", "", SegmentType::Preamble);
        proof {
            assert(covered(self.segments@, 4, 5));
        }
        self.command_part(name, 4, 5);
        self.plain(" ");
        self.part_at(on_off(on).to_owned(), SegmentType::Status, 4, 5);
        proof {
            assert(summary_model(*self) =~= summary_model(*old(self)) + seq![
                (name@, SegmentType::Command, Some(4usize..5usize)),
                (" "@, SegmentType::Data, None),
                (on_off_text(on), SegmentType::Status, Some(4usize..5usize)),
            ]);
        }
    }

    /// A query with no parameters: the opcode named.
    fn yaesu_query(&mut self, raw_bytes: &[u8], name: &str)
        requires
            summary_linked(*old(self)),
        ensures
            final(self).protocol == old(self).protocol,
            summary_linked(*final(self)),
            summary_shows(*final(self), name@),
            segments_model(*final(self)) == segments_model(*old(self)) + yaesu_padding_segments(raw_bytes@),
            summary_model(*final(self)) == summary_model(*old(self)).push((name@, SegmentType::Command, Some(4usize..5usize))),
    {
        self.yaesu_padding_cmd(raw_bytes, "padding", "", SegmentType::Preamble);
        proof {
            assert(covered(self.segments@, 4, 5));
        }
        self.command_part(name, 4, 5);
    }

    /// A status report: four bytes of data and the status byte.
    fn yaesu_status(&mut self, name: &str, status: u8)
        requires
            summary_linked(*old(self)),
        ensures
            final(self).protocol == old(self).protocol,
            summary_linked(*final(self)),
            summary_shows(*final(self), name@),
            segments_model(*final(self)) == segments_model(*old(self)) + seq![
                (0usize..4usize, "data"@, "status data"@, SegmentType::Data),
                (4usize..5usize, "status"@, wire_text(crate::text::hex2(status)), SegmentType::Status),
            ],
            summary_model(*final(self)) == summary_model(*old(self)) + seq![
                (name@, SegmentType::Data, None),
                (" "@, SegmentType::Data, None),
                (wire_text(crate::text::hex2(status)), SegmentType::Status, Some(4usize..5usize)),
            ],
    {
        self.seg(0, 4, "data", "status data".to_owned(), SegmentType::Data);
        self.part(name.to_owned(), SegmentType::Data);
        self.plain(" ");
        self.value(true, 4, 5, "status", hex_text(status), hex_text(status), SegmentType::Status);
        proof {
            assert(segments_model(*self) =~= segments_model(*old(self)) + seq![
                (0usize..4usize, "data"@, "status data"@, SegmentType::Data),
                (4usize..5usize, "status"@, wire_text(crate::text::hex2(status)), SegmentType::Status),
            ]);
            assert(summary_model(*self) =~= summary_model(*old(self)) + seq![
                (name@, SegmentType::Data, None),
                (" "@, SegmentType::Data, None),
                (wire_text(crate::text::hex2(status)), SegmentType::Status, Some(4usize..5usize)),
            ]);
        }
    }
}

/// The name a Yaesu command's summary starts with; `None` for an unknown
/// opcode, which is shown by its value.
pub open spec fn yaesu_title(c: YaesuCommand) -> Option<Seq<char>> {
    match c {
        YaesuCommand::SetFrequency { .. } => Some("Set Freq"@),
        YaesuCommand::FrequencyModeReport { .. } => Some("Freq"@),
        YaesuCommand::GetFrequencyMode => Some("Get Freq/Mode"@),
        YaesuCommand::SetMode { .. } => Some("Set Mode"@),
        YaesuCommand::PttOn => Some("PTT"@),
        YaesuCommand::PttOff => Some("PTT"@),
        YaesuCommand::ToggleVfo => Some("Toggle VFO"@),
        YaesuCommand::SplitOn => Some("Split"@),
        YaesuCommand::SplitOff => Some("Split"@),
        YaesuCommand::ReadRxStatus => Some("Read RX Status"@),
        YaesuCommand::RxStatusReport { .. } => Some("RX Status"@),
        YaesuCommand::ReadTxStatus => Some("Read TX Status"@),
        YaesuCommand::TxStatusReport { .. } => Some("TX Status"@),
        YaesuCommand::PowerOn => Some("Power"@),
        YaesuCommand::PowerOff => Some("Power"@),
        YaesuCommand::LockOn => Some("Lock"@),
        YaesuCommand::LockOff => Some("Lock"@),
        YaesuCommand::Unknown { .. } => None,
    }
}

/// The state shown after an on/off Yaesu command's name.
pub open spec fn yaesu_shown_value(c: YaesuCommand) -> Option<Seq<char>> {
    match c {
        YaesuCommand::PttOn => Some("ON"@),
        YaesuCommand::PttOff => Some("OFF"@),
        YaesuCommand::SplitOn => Some("ON"@),
        YaesuCommand::SplitOff => Some("OFF"@),
        YaesuCommand::PowerOn => Some("ON"@),
        YaesuCommand::PowerOff => Some("OFF"@),
        YaesuCommand::LockOn => Some("ON"@),
        YaesuCommand::LockOff => Some("OFF"@),
        _ => None,
    }
}

/// The opcode segment of a 5-byte Yaesu frame.
pub open spec fn yaesu_cmd_segment(raw: Seq<u8>) -> SegModel {
    (4usize..5usize, "cmd"@, wire_text(crate::text::hex2(crate::icom::byte_or_zero(raw, 4))), SegmentType::Command)
}

/// Empty padding in the parameter bytes, then the opcode.
pub open spec fn yaesu_padding_segments(raw: Seq<u8>) -> Seq<SegModel> {
    seq![(0usize..4usize, "padding"@, ""@, SegmentType::Preamble), yaesu_cmd_segment(raw)]
}

/// The segments of a Yaesu command's frame.
pub open spec fn yaesu_segments(c: YaesuCommand, raw: Seq<u8>) -> Seq<SegModel> {
    match c {
        YaesuCommand::SetFrequency { hz } => seq![
            (0usize..4usize, "freq"@, frequency_text(hz), SegmentType::Frequency),
            yaesu_cmd_segment(raw),
        ],
        YaesuCommand::GetFrequencyMode => seq![
            (0usize..4usize, "params"@, "query"@, SegmentType::Data),
            yaesu_cmd_segment(raw),
        ],
        YaesuCommand::FrequencyModeReport { hz, mode } => seq![
            (0usize..4usize, "freq"@, frequency_text(hz), SegmentType::Frequency),
            (4usize..5usize, "mode"@, yaesu_mode_name(mode), SegmentType::Mode),
        ],
        YaesuCommand::SetMode { mode } => seq![
            (0usize..1usize, "mode"@, yaesu_mode_name(mode), SegmentType::Mode),
            (1usize..4usize, "padding"@, Seq::<char>::empty(), SegmentType::Preamble),
            yaesu_cmd_segment(raw),
        ],
        YaesuCommand::RxStatusReport { status } => seq![
            (0usize..4usize, "data"@, "status data"@, SegmentType::Data),
            (4usize..5usize, "status"@, wire_text(crate::text::hex2(status)), SegmentType::Status),
        ],
        YaesuCommand::TxStatusReport { status } => seq![
            (0usize..4usize, "data"@, "status data"@, SegmentType::Data),
            (4usize..5usize, "status"@, wire_text(crate::text::hex2(status)), SegmentType::Status),
        ],
        YaesuCommand::Unknown { bytes } => seq![
            (0usize..4usize, "data"@, "params"@, SegmentType::Data),
            (4usize..5usize, "cmd"@, wire_text(crate::text::hex2(bytes@[4])), SegmentType::Command),
        ],
        _ => yaesu_padding_segments(raw),
    }
}

/// The summary of a Yaesu command, part by part.
pub open spec fn yaesu_summary(c: YaesuCommand) -> Seq<PartModel> {
    let cmd = Some(4usize..5usize);
    match c {
        YaesuCommand::SetFrequency { hz } => seq![
            ("Set Freq"@, SegmentType::Command, cmd),
            (" "@, SegmentType::Data, None),
            (frequency_text(hz), SegmentType::Frequency, Some(0usize..4usize)),
        ],
        YaesuCommand::FrequencyModeReport { hz, mode } => seq![
            ("Freq"@, SegmentType::Data, None),
            (" "@, SegmentType::Data, None),
            (frequency_text(hz), SegmentType::Frequency, Some(0usize..4usize)),
            (" "@, SegmentType::Data, None),
            (yaesu_mode_name(mode), SegmentType::Mode, Some(4usize..5usize)),
        ],
        YaesuCommand::SetMode { mode } => seq![
            ("Set Mode"@, SegmentType::Command, cmd),
            (" "@, SegmentType::Data, None),
            (yaesu_mode_name(mode), SegmentType::Mode, Some(0usize..1usize)),
        ],
        YaesuCommand::RxStatusReport { status } => seq![
            ("RX Status"@, SegmentType::Data, None),
            (" "@, SegmentType::Data, None),
            (wire_text(crate::text::hex2(status)), SegmentType::Status, cmd),
        ],
        YaesuCommand::TxStatusReport { status } => seq![
            ("TX Status"@, SegmentType::Data, None),
            (" "@, SegmentType::Data, None),
            (wire_text(crate::text::hex2(status)), SegmentType::Status, cmd),
        ],
        YaesuCommand::Unknown { bytes } => seq![
            (wire_text(seq![99u8, 109, 100, 61] + crate::text::hex2(bytes@[4])), SegmentType::Command, cmd),
        ],
        _ => match (yaesu_title(c), yaesu_shown_value(c)) {
            (Some(t), Some(v)) => seq![
                (t, SegmentType::Command, cmd),
                (" "@, SegmentType::Data, None),
                (v, SegmentType::Status, cmd),
            ],
            (Some(t), None) => seq![(t, SegmentType::Command, cmd)],
            _ => Seq::empty(),
        },
    }
}

impl FrameAnnotation for YaesuCommand {
    /// Segments: the four parameter bytes and the opcode (a report's fifth
    /// byte is data); the summary names the command and its values.
    #[verifier::rlimit(100)]
    #[verifier::spinoff_prover]
    fn annotate(&self, raw_bytes: &[u8]) -> (r: AnnotatedFrame)
        ensures
            r.protocol@ == "Yaesu"@,
            summary_linked(r),
            match self {
                YaesuCommand::SetFrequency { hz } => shows_frequency(r, 0, 4, *hz) && summary_shows(r, frequency_text(*hz)),
                YaesuCommand::FrequencyModeReport { hz, mode } => shows_frequency(r, 0, 4, *hz) && summary_shows(
                    r,
                    frequency_text(*hz),
                ) && summary_shows(r, yaesu_mode_name(*mode)),
                YaesuCommand::SetMode { mode } => summary_shows(r, yaesu_mode_name(*mode)),
                _ => true,
            },
            yaesu_title(*self) matches Some(t) ==> summary_shows(r, t),
            yaesu_shown_value(*self) matches Some(v) ==> summary_shows(r, v),
            segments_model(r) == yaesu_segments(*self, raw_bytes@),
            summary_model(r) == yaesu_summary(*self),
    {
        let mut f = AnnotatedFrame::empty("Yaesu");
        proof {
            assert(segments_model(f) =~= Seq::<SegModel>::empty());
            assert(summary_model(f) =~= Seq::<PartModel>::empty());
        }
        match self {
            YaesuCommand::SetFrequency { hz } => {
                f.seg(0, 4, "freq", format_frequency(*hz), SegmentType::Frequency);
                let ghost fs = f.segments@;
                f.seg(4, 5, "cmd", hex_text(byte_or_zero(raw_bytes, 4)), SegmentType::Command);
                proof {
                    assert(covered(f.segments@, 4, 5));
                    assert(covered(f.segments@, 0, 4));
                }
                f.command_part("Set Freq", 4, 5);
                f.plain(" ");
                f.part_at(format_frequency(*hz), SegmentType::Frequency, 0, 4);
                proof {
                    assert(f.segments@[0].range == (0usize..4usize));
                }
            },
            YaesuCommand::GetFrequencyMode => {
                f.yaesu_padding_cmd(raw_bytes, "params", "query", SegmentType::Data);
                proof {
                    assert(covered(f.segments@, 4, 5));
                }
                f.command_part("Get Freq/Mode", 4, 5);
            },
            YaesuCommand::FrequencyModeReport { hz, mode } => {
                f.seg(0, 4, "freq", format_frequency(*hz), SegmentType::Frequency);
                let m = format_yaesu_mode(*mode);
                f.seg(4, 5, "mode", m.to_owned(), SegmentType::Mode);
                proof {
                    assert(covered(f.segments@, 4, 5));
                    assert(covered(f.segments@, 0, 4));
                }
                f.part("Freq".to_owned(), SegmentType::Data);
                f.plain(" ");
                f.part_at(format_frequency(*hz), SegmentType::Frequency, 0, 4);
                f.plain(" ");
                f.part_at(m.to_owned(), SegmentType::Mode, 4, 5);
                proof {
                    assert(f.segments@[0].range == (0usize..4usize));
                }
            },
            YaesuCommand::SetMode { mode } => {
                let m = format_yaesu_mode(*mode);
                f.seg(0, 1, "mode", m.to_owned(), SegmentType::Mode);
                f.seg(1, 4, "padding", String::new(), SegmentType::Preamble);
                f.seg(4, 5, "cmd", hex_text(byte_or_zero(raw_bytes, 4)), SegmentType::Command);
                proof {
                    assert(covered(f.segments@, 4, 5));
                    assert(covered(f.segments@, 0, 1));
                }
                f.command_part("Set Mode", 4, 5);
                f.plain(" ");
                f.part_at(m.to_owned(), SegmentType::Mode, 0, 1);
            },
            YaesuCommand::PttOn => f.yaesu_switch(raw_bytes, "PTT", true),
            YaesuCommand::PttOff => f.yaesu_switch(raw_bytes, "PTT", false),
            YaesuCommand::ToggleVfo => f.yaesu_query(raw_bytes, "Toggle VFO"),
            YaesuCommand::SplitOn => f.yaesu_switch(raw_bytes, "Split", true),
            YaesuCommand::SplitOff => f.yaesu_switch(raw_bytes, "Split", false),
            YaesuCommand::ReadRxStatus => f.yaesu_query(raw_bytes, "Read RX Status"),
            YaesuCommand::RxStatusReport { status } => f.yaesu_status("RX Status", *status),
            YaesuCommand::ReadTxStatus => f.yaesu_query(raw_bytes, "Read TX Status"),
            YaesuCommand::TxStatusReport { status } => f.yaesu_status("TX Status", *status),
            YaesuCommand::PowerOn => f.yaesu_switch(raw_bytes, "Power", true),
            YaesuCommand::PowerOff => f.yaesu_switch(raw_bytes, "Power", false),
            YaesuCommand::LockOn => f.yaesu_switch(raw_bytes, "Lock", true),
            YaesuCommand::LockOff => f.yaesu_switch(raw_bytes, "Lock", false),
            YaesuCommand::Unknown { bytes } => {
                f.seg(0, 4, "data", "params".to_owned(), SegmentType::Data);
                f.seg(4, 5, "cmd", hex_text(bytes[4]), SegmentType::Command);
                proof {
                    assert(covered(f.segments@, 4, 5));
                }
                f.part_at(prefixed_hex_text(&[99u8, 109, 100, 61], bytes[4]), SegmentType::Command, 4, 5);
            },
        }
        proof {
            assert(segments_model(f) =~= yaesu_segments(*self, raw_bytes@));
            assert(summary_model(f) =~= yaesu_summary(*self));
        }
        f
    }
}

/// The text of `raw[start..end]`, as far as it reaches.
fn bytes_text(raw: &[u8], start: usize, end: usize) -> (r: String)
    ensures
        r@ == bytes_text_spec(raw@, start as int, end as int),
{
    let e = if end <= raw.len() {
        end
    } else {
        raw.len()
    };
    if start < e {
        text_from_bytes(slice_subrange(raw, start, e))
    } else {
        String::new()
    }
}

/// The text of a command string from byte `start` on (empty when shorter).
fn tail_text(s: &String, start: usize) -> (r: String)
    ensures
        r@ == bytes_text_spec(vstd::utf8::encode_utf8(s@), start as int, vstd::utf8::encode_utf8(s@).len() as int),
{
    let b = s.as_str().as_bytes();
    bytes_text(b, start, b.len())
}

/// `"A"` for VFO 0, `"B"` otherwise.
fn vfo_letter(v: u8) -> (r: &'static str)
    ensures
        r@ == (if v == 0 { "A"@ } else { "B"@ }),
{
    if v == 0 {
        "A"
    } else {
        "B"
    }
}

/// The bytes are one valid text and ends with `;`.
fn ends_with_semicolon(raw: &[u8]) -> (r: bool)
    ensures
        r == (raw@.len() > 0 && raw@.last() == 59u8),
{
    raw.len() > 0 && raw[raw.len() - 1] == 59u8
}

/// The end of a text command's parameters: before the terminator, if any.
pub open spec fn params_end_of(raw: Seq<u8>) -> usize {
    if raw.len() > 0 && raw.last() == 59u8 {
        (raw.len() - 1) as usize
    } else {
        raw.len() as usize
    }
}

/// Where the frequency of a text frequency command sits: the parameters,
/// when there are any.
pub open spec fn text_frequency_shown(f: AnnotatedFrame, raw: Seq<u8>, start: usize, hz: u64) -> bool {
    start < params_end_of(raw) ==> shows_frequency(f, start, params_end_of(raw), hz)
}

impl KenwoodCommand {
    /// The summary of a Kenwood command whose parameters start at
    /// `params_start`, adding the parameter segments.
    #[verifier::rlimit(100)]
    #[verifier::spinoff_prover]
    fn create_kenwood_summary(&self, raw_bytes: &[u8], f: &mut AnnotatedFrame, params_start: usize)
        requires
            summary_linked(*old(f)),
            covered(old(f).segments@, 0, params_start),
            params_start <= 4,
        ensures
            final(f).protocol == old(f).protocol,
            summary_linked(*final(f)),
            forall|a: usize, b: usize| #[trigger] has_segment(old(f).segments@, a, b) ==> has_segment(final(f).segments@, a, b),
            match self {
                KenwoodCommand::FrequencyA(Some(hz)) => text_frequency_shown(*final(f), raw_bytes@, params_start, *hz)
                    && summary_shows(*final(f), frequency_text(*hz)),
                KenwoodCommand::FrequencyB(Some(hz)) => text_frequency_shown(*final(f), raw_bytes@, params_start, *hz)
                    && summary_shows(*final(f), frequency_text(*hz)),
                KenwoodCommand::Mode(Some(m)) => summary_shows(*final(f), kenwood_mode_name(*m)),
                _ => true,
            },
            summary_shows(*final(f), kenwood_title(self@)),
            kenwood_shown_value(self@) matches Some(v) ==> summary_shows(*final(f), v),
            forall|t: Seq<char>| #[trigger] summary_shows(*old(f), t) ==> summary_shows(*final(f), t),
            summary_model(*final(f)) == summary_model(*old(f)) + kenwood_summary(self@, params_start, params_end_of(raw_bytes@)),
            segments_model(*final(f)) == segments_model(*old(f)) + kenwood_param_segments(self@, params_start, params_end_of(raw_bytes@)),
    {
        let data_len = raw_bytes.len();
        let params_end = if ends_with_semicolon(raw_bytes) {
            data_len - 1
        } else {
            data_len
        };
        let present = params_start < params_end;
        let ghost k = f.segments@.len();
        let ghost f0 = *f;
        match self {
            KenwoodCommand::FrequencyA(Some(hz)) | KenwoodCommand::FrequencyB(Some(hz)) => {
                let title = if matches!(self, KenwoodCommand::FrequencyA(_)) {
                    "VFO A"
                } else {
                    "VFO B"
                };
                f.command_part(title, 0, params_start);
                f.plain(" ");
                f.value(present, params_start, params_end, "freq", format_frequency(*hz), format_frequency(*hz), SegmentType::Frequency);
                proof {
                    if present {
                        assert(f.segments@[k as int].range == (params_start..params_end));
                    }
                }
            },
            KenwoodCommand::FrequencyA(None) | KenwoodCommand::FrequencyB(None) => {
                let title = if matches!(self, KenwoodCommand::FrequencyA(_)) {
                    "Get Freq VFO A"
                } else {
                    "Get Freq VFO B"
                };
                f.command_part(title, 0, params_start);
            },
            KenwoodCommand::Mode(Some(m)) => {
                let name = format_kenwood_mode(*m);
                f.command_part("Mode", 0, params_start);
                f.plain(" ");
                f.value(present, params_start, params_end, "mode", name.to_owned(), name.to_owned(), SegmentType::Mode);
            },
            KenwoodCommand::Mode(None) => f.command_part("Get Mode", 0, params_start),
            KenwoodCommand::Transmit(Some(true)) => {
                f.command_part("PTT", 0, params_start);
                f.plain(" ");
                f.part("ON".to_owned(), SegmentType::Status);
            },
            KenwoodCommand::Transmit(Some(false)) | KenwoodCommand::Receive => {
                f.command_part("PTT", 0, params_start);
                f.plain(" ");
                f.part("OFF".to_owned(), SegmentType::Status);
            },
            KenwoodCommand::Transmit(None) => f.command_part("Get PTT", 0, params_start),
            KenwoodCommand::Id(Some(id)) => {
                f.command_part("ID", 0, params_start);
                f.plain(" ");
                f.value(present, params_start, params_end, "id", id.clone(), id.clone(), SegmentType::Data);
            },
            KenwoodCommand::Id(None) => f.command_part("Get ID", 0, params_start),
            KenwoodCommand::Info(Some(info)) => {
                let freq_end = params_start + 11;
                let with_freq = freq_end <= params_end;
                f.command_part("Status", 0, params_start);
                f.plain(": ");
                f.value(
                    with_freq,
                    params_start,
                    freq_end,
                    "freq",
                    format_frequency(info.frequency_hz),
                    format_frequency(info.frequency_hz),
                    SegmentType::Frequency,
                );
                if freq_end < params_end {
                    f.seg(freq_end, params_end, "status", "flags".to_owned(), SegmentType::Status);
                }
            },
            KenwoodCommand::Info(None) => f.command_part("Get Status", 0, params_start),
            KenwoodCommand::VfoSelect(Some(v)) => {
                let vfo = vfo_letter(*v);
                f.command_part("VFO", 0, params_start);
                f.plain(" ");
                f.value(present, params_start, params_end, "vfo", vfo.to_owned(), vfo.to_owned(), SegmentType::Data);
            },
            KenwoodCommand::VfoSelect(None) => f.command_part("Get VFO", 0, params_start),
            KenwoodCommand::Split(Some(on)) => {
                let state = on_off(*on);
                f.command_part("Split", 0, params_start);
                f.plain(" ");
                f.value(present, params_start, params_end, "split", state.to_owned(), state.to_owned(), SegmentType::Status);
            },
            KenwoodCommand::Split(None) => f.command_part("Get Split", 0, params_start),
            KenwoodCommand::Power(Some(on)) => {
                let state = on_off(*on);
                f.command_part("Power", 0, params_start);
                f.plain(" ");
                f.value(present, params_start, params_end, "power", state.to_owned(), state.to_owned(), SegmentType::Status);
            },
            KenwoodCommand::Power(None) => f.command_part("Get Power", 0, params_start),
            KenwoodCommand::AutoInfo(Some(on)) => {
                let state = on_off(*on);
                f.command_part("Auto Info", 0, params_start);
                f.plain(" ");
                f.value(present, params_start, params_end, "state", state.to_owned(), state.to_owned(), SegmentType::Status);
            },
            KenwoodCommand::AutoInfo(None) => f.command_part("Get Auto Info", 0, params_start),
            KenwoodCommand::ControlBand(Some(b)) => {
                f.command_part("Control Band", 0, params_start);
                f.plain(" ");
                f.value(present, params_start, params_end, "band", decimal_text(*b as u64, &[]), decimal_text(*b as u64, &[]), SegmentType::Data);
            },
            KenwoodCommand::ControlBand(None) => f.command_part("Get Control Band", 0, params_start),
            KenwoodCommand::TransmitBand(Some(b)) => {
                f.command_part("TX Band", 0, params_start);
                f.plain(" ");
                f.value(present, params_start, params_end, "band", decimal_text(*b as u64, &[]), decimal_text(*b as u64, &[]), SegmentType::Data);
            },
            KenwoodCommand::TransmitBand(None) => f.command_part("Get TX Band", 0, params_start),
            KenwoodCommand::Unknown(s) => {
                if present {
                    f.seg(params_start, params_end, "params", tail_text(s, 2), SegmentType::Data);
                }
                f.part_at(s.clone(), SegmentType::Command, 0, params_start);
            },
        }
        proof {
            assert(summary_model(*f) =~= summary_model(f0) + kenwood_summary(self@, params_start, params_end_of(raw_bytes@)));
            assert(segments_model(*f) =~= segments_model(f0) + kenwood_param_segments(self@, params_start, params_end_of(raw_bytes@)));
        }
    }
}

/// A FlexRadio `ZZ` command read as Kenwood: valid text starting `ZZ`
/// with at least four bytes.
pub open spec fn kenwood_flex_frame(raw: Seq<u8>) -> bool {
    raw.len() >= 4 && raw[0] == 90u8 && raw[1] == 90u8 && vstd::utf8::valid_utf8(raw)
}

/// Where a Kenwood command's parameters start.
pub open spec fn kenwood_params_start(raw: Seq<u8>) -> usize {
    if kenwood_flex_frame(raw) {
        4
    } else {
        2
    }
}

/// The name a Kenwood command's summary starts with (an unknown command is
/// shown as its text).
pub open spec fn kenwood_title(m: crate::kenwood::KenwoodModel) -> Seq<char> {
    match m {
        crate::kenwood::KenwoodModel::FrequencyA(Some(_)) => "VFO A"@,
        crate::kenwood::KenwoodModel::FrequencyB(Some(_)) => "VFO B"@,
        crate::kenwood::KenwoodModel::FrequencyA(None) => "Get Freq VFO A"@,
        crate::kenwood::KenwoodModel::FrequencyB(None) => "Get Freq VFO B"@,
        crate::kenwood::KenwoodModel::Mode(Some(_)) => "Mode"@,
        crate::kenwood::KenwoodModel::Mode(None) => "Get Mode"@,
        crate::kenwood::KenwoodModel::Transmit(Some(_)) => "PTT"@,
        crate::kenwood::KenwoodModel::Receive => "PTT"@,
        crate::kenwood::KenwoodModel::Transmit(None) => "Get PTT"@,
        crate::kenwood::KenwoodModel::Id(Some(_)) => "ID"@,
        crate::kenwood::KenwoodModel::Id(None) => "Get ID"@,
        crate::kenwood::KenwoodModel::Info(Some(_)) => "Status"@,
        crate::kenwood::KenwoodModel::Info(None) => "Get Status"@,
        crate::kenwood::KenwoodModel::VfoSelect(Some(_)) => "VFO"@,
        crate::kenwood::KenwoodModel::VfoSelect(None) => "Get VFO"@,
        crate::kenwood::KenwoodModel::Split(Some(_)) => "Split"@,
        crate::kenwood::KenwoodModel::Split(None) => "Get Split"@,
        crate::kenwood::KenwoodModel::Power(Some(_)) => "Power"@,
        crate::kenwood::KenwoodModel::Power(None) => "Get Power"@,
        crate::kenwood::KenwoodModel::AutoInfo(Some(_)) => "Auto Info"@,
        crate::kenwood::KenwoodModel::AutoInfo(None) => "Get Auto Info"@,
        crate::kenwood::KenwoodModel::ControlBand(Some(_)) => "Control Band"@,
        crate::kenwood::KenwoodModel::ControlBand(None) => "Get Control Band"@,
        crate::kenwood::KenwoodModel::TransmitBand(Some(_)) => "TX Band"@,
        crate::kenwood::KenwoodModel::TransmitBand(None) => "Get TX Band"@,
        crate::kenwood::KenwoodModel::Unknown(text) => text,
    }
}

/// `"ON"` or `"OFF"`.
pub open spec fn on_off_text(b: bool) -> Seq<char> {
    if b {
        "ON"@
    } else {
        "OFF"@
    }
}

/// The value a Kenwood command's summary shows after its name, where it is
/// a state, a VFO letter or an identifier.
pub open spec fn kenwood_shown_value(m: crate::kenwood::KenwoodModel) -> Option<Seq<char>> {
    match m {
        crate::kenwood::KenwoodModel::Transmit(Some(on)) => Some(on_off_text(on)),
        crate::kenwood::KenwoodModel::Receive => Some("OFF"@),
        crate::kenwood::KenwoodModel::Split(Some(on)) => Some(on_off_text(on)),
        crate::kenwood::KenwoodModel::Power(Some(on)) => Some(on_off_text(on)),
        crate::kenwood::KenwoodModel::AutoInfo(Some(on)) => Some(on_off_text(on)),
        crate::kenwood::KenwoodModel::VfoSelect(Some(v)) => Some(if v == 0 { "A"@ } else { "B"@ }),
        crate::kenwood::KenwoodModel::Id(Some(id)) => Some(id),
        _ => None,
    }
}

/// What a Kenwood command's summary shows after its name, for parameters
/// in `ps..pe`.
pub open spec fn kenwood_value_parts(m: crate::kenwood::KenwoodModel, ps: usize, pe: usize) -> Seq<PartModel> {
    let at = range_if(ps < pe, ps, pe);
    let sp: PartModel = (" "@, SegmentType::Data, None);
    match m {
        crate::kenwood::KenwoodModel::FrequencyA(Some(hz)) => seq![sp, (frequency_text(hz), SegmentType::Frequency, at)],
        crate::kenwood::KenwoodModel::FrequencyB(Some(hz)) => seq![sp, (frequency_text(hz), SegmentType::Frequency, at)],
        crate::kenwood::KenwoodModel::Mode(Some(md)) => seq![sp, (kenwood_mode_name(md), SegmentType::Mode, at)],
        crate::kenwood::KenwoodModel::Transmit(Some(on)) => seq![sp, (on_off_text(on), SegmentType::Status, None)],
        crate::kenwood::KenwoodModel::Receive => seq![sp, ("OFF"@, SegmentType::Status, None)],
        crate::kenwood::KenwoodModel::Id(Some(id)) => seq![sp, (id, SegmentType::Data, at)],
        crate::kenwood::KenwoodModel::Info(Some(info)) => seq![
            (": "@, SegmentType::Data, None),
            (
                frequency_text(info.frequency_hz),
                SegmentType::Frequency,
                range_if(ps + 11 <= pe, ps, (ps + 11) as usize),
            ),
        ],
        crate::kenwood::KenwoodModel::VfoSelect(Some(v)) => seq![sp, (if v == 0 { "A"@ } else { "B"@ }, SegmentType::Data, at)],
        crate::kenwood::KenwoodModel::Split(Some(on)) => seq![sp, (on_off_text(on), SegmentType::Status, at)],
        crate::kenwood::KenwoodModel::Power(Some(on)) => seq![sp, (on_off_text(on), SegmentType::Status, at)],
        crate::kenwood::KenwoodModel::AutoInfo(Some(on)) => seq![sp, (on_off_text(on), SegmentType::Status, at)],
        crate::kenwood::KenwoodModel::ControlBand(Some(b)) => seq![sp, (wire_text(crate::text::dec(b as nat)), SegmentType::Data, at)],
        crate::kenwood::KenwoodModel::TransmitBand(Some(b)) => seq![sp, (wire_text(crate::text::dec(b as nat)), SegmentType::Data, at)],
        _ => Seq::empty(),
    }
}

/// The summary of a Kenwood command whose name takes bytes `0..ps` and
/// whose parameters take `ps..pe`: its name, then its value.
pub open spec fn kenwood_summary(m: crate::kenwood::KenwoodModel, ps: usize, pe: usize) -> Seq<PartModel> {
    seq![(kenwood_title(m), SegmentType::Command, Some(0usize..ps))] + kenwood_value_parts(m, ps, pe)
}

/// The segments a Kenwood command's parameters in `ps..pe` take.
pub open spec fn kenwood_param_segments(m: crate::kenwood::KenwoodModel, ps: usize, pe: usize) -> Seq<SegModel> {
    let present = ps < pe;
    match m {
        crate::kenwood::KenwoodModel::FrequencyA(Some(hz)) => seg_if(present, (ps..pe, "freq"@, frequency_text(hz), SegmentType::Frequency)),
        crate::kenwood::KenwoodModel::FrequencyB(Some(hz)) => seg_if(present, (ps..pe, "freq"@, frequency_text(hz), SegmentType::Frequency)),
        crate::kenwood::KenwoodModel::Mode(Some(md)) => seg_if(present, (ps..pe, "mode"@, kenwood_mode_name(md), SegmentType::Mode)),
        crate::kenwood::KenwoodModel::Id(Some(id)) => seg_if(present, (ps..pe, "id"@, id, SegmentType::Data)),
        crate::kenwood::KenwoodModel::Info(Some(info)) => seg_if(
            ps + 11 <= pe,
            (ps..(ps + 11) as usize, "freq"@, frequency_text(info.frequency_hz), SegmentType::Frequency),
        ) + seg_if(ps + 11 < pe, ((ps + 11) as usize..pe, "status"@, "flags"@, SegmentType::Status)),
        crate::kenwood::KenwoodModel::VfoSelect(Some(v)) => seg_if(
            present,
            (ps..pe, "vfo"@, if v == 0 { "A"@ } else { "B"@ }, SegmentType::Data),
        ),
        crate::kenwood::KenwoodModel::Split(Some(on)) => seg_if(present, (ps..pe, "split"@, on_off_text(on), SegmentType::Status)),
        crate::kenwood::KenwoodModel::Power(Some(on)) => seg_if(present, (ps..pe, "power"@, on_off_text(on), SegmentType::Status)),
        crate::kenwood::KenwoodModel::AutoInfo(Some(on)) => seg_if(present, (ps..pe, "state"@, on_off_text(on), SegmentType::Status)),
        crate::kenwood::KenwoodModel::ControlBand(Some(b)) => seg_if(
            present,
            (ps..pe, "band"@, wire_text(crate::text::dec(b as nat)), SegmentType::Data),
        ),
        crate::kenwood::KenwoodModel::TransmitBand(Some(b)) => seg_if(
            present,
            (ps..pe, "band"@, wire_text(crate::text::dec(b as nat)), SegmentType::Data),
        ),
        crate::kenwood::KenwoodModel::Unknown(text) => seg_if(
            present,
            (
                ps..pe,
                "params"@,
                bytes_text_spec(vstd::utf8::encode_utf8(text), 2, vstd::utf8::encode_utf8(text).len() as int),
                SegmentType::Data,
            ),
        ),
        _ => Seq::empty(),
    }
}

/// The text of a command's name bytes `0..end` when the frame is valid
/// text that long, empty otherwise.
pub open spec fn name_text(raw: Seq<u8>, end: int) -> Seq<char> {
    if vstd::utf8::valid_utf8(raw) && raw.len() >= end {
        bytes_text_spec(raw, 0, end)
    } else {
        Seq::empty()
    }
}

/// The terminator segment of a text frame that ends with `;`.
pub open spec fn end_segment(raw: Seq<u8>) -> Seq<SegModel> {
    seg_if(
        raw.len() > 0 && raw.last() == 59u8,
        ((raw.len() - 1) as usize..raw.len() as usize, "end"@, ";"@, SegmentType::Terminator),
    )
}

/// The segments of a Kenwood frame: the two-letter command (and the next
/// two letters of a FlexRadio `ZZ` command), the parameters, and the
/// terminator when there is one.
pub open spec fn kenwood_segments(m: crate::kenwood::KenwoodModel, raw: Seq<u8>) -> Seq<SegModel> {
    let ps = kenwood_params_start(raw);
    seq![(0usize..2usize, "cmd"@, name_text(raw, 2), SegmentType::Command)] + (if kenwood_flex_frame(raw) {
        seq![(2usize..4usize, "subcmd"@, bytes_text_spec(raw, 2, 4), SegmentType::Command)]
    } else {
        Seq::empty()
    }) + kenwood_param_segments(m, ps, params_end_of(raw)) + end_segment(raw)
}

impl FrameAnnotation for KenwoodCommand {
    /// Segments: the two-letter command (and, for a FlexRadio `ZZ` command,
    /// the two letters after it), the parameters, and the terminator when
    /// present; a `ZZ` command is annotated as Flex.
    #[verifier::rlimit(100)]
    #[verifier::spinoff_prover]
    fn annotate(&self, raw_bytes: &[u8]) -> (r: AnnotatedFrame)
        ensures
            kenwood_flex_frame(raw_bytes@) ==> r.protocol@ == "Flex"@,
            !kenwood_flex_frame(raw_bytes@) ==> r.protocol@ == "Kenwood"@,
            summary_linked(r),
            match self {
                KenwoodCommand::FrequencyA(Some(hz)) => text_frequency_shown(r, raw_bytes@, kenwood_params_start(raw_bytes@), *hz)
                    && summary_shows(r, frequency_text(*hz)),
                KenwoodCommand::FrequencyB(Some(hz)) => text_frequency_shown(r, raw_bytes@, kenwood_params_start(raw_bytes@), *hz)
                    && summary_shows(r, frequency_text(*hz)),
                KenwoodCommand::Mode(Some(m)) => summary_shows(r, kenwood_mode_name(*m)),
                _ => true,
            },
            summary_shows(r, kenwood_title(self@)),
            kenwood_shown_value(self@) matches Some(v) ==> summary_shows(r, v),
            summary_model(r) == kenwood_summary(self@, kenwood_params_start(raw_bytes@), params_end_of(raw_bytes@)),
            segments_model(r) == kenwood_segments(self@, raw_bytes@),
    {
        let data_len = raw_bytes.len();
        let valid = crate::text::str_from_utf8(raw_bytes).is_some();
        let prefix = if valid && data_len >= 2 {
            bytes_text(raw_bytes, 0, 2)
        } else {
            String::new()
        };
        let is_flex = valid && data_len >= 4 && raw_bytes[0] == 90u8 && raw_bytes[1] == 90u8;
        let protocol: &'static str = if is_flex {
            "Flex"
        } else {
            "Kenwood"
        };
        let mut f = AnnotatedFrame::empty(protocol);
        f.seg(0, 2, "cmd", prefix, SegmentType::Command);
        proof {
            assert(segments_model(f) =~= seq![(0usize..2usize, "cmd"@, name_text(raw_bytes@, 2), SegmentType::Command)]);
            assert(summary_model(f) =~= Seq::<PartModel>::empty());
        }
        if is_flex {
            f.seg(2, 4, "subcmd", bytes_text(raw_bytes, 2, 4), SegmentType::Command);
            proof {
                assert(has_segment(f.segments@, 0, 2));
                assert(covered(f.segments@, 0, 4));
            }
            self.create_kenwood_summary(raw_bytes, &mut f, 4);
        } else {
            proof {
                assert(covered(f.segments@, 0, 2));
            }
            self.create_kenwood_summary(raw_bytes, &mut f, 2);
        }
        let ghost fm = f;
        if ends_with_semicolon(raw_bytes) {
            f.seg(data_len - 1, data_len, "end", ";".to_owned(), SegmentType::Terminator);
            proof {
                if let KenwoodCommand::FrequencyA(Some(hz)) = self {
                    let ps: usize = if is_flex { 4 } else { 2 };
                    if ps < params_end_of(raw_bytes@) {
                        let j = choose|j: int| 0 <= j < fm.segments@.len() && (#[trigger] fm.segments@[j]).range == (ps..params_end_of(raw_bytes@))
                            && fm.segments@[j].segment_type == SegmentType::Frequency && fm.segments@[j].value@ == frequency_text(*hz);
                        assert(f.segments@[j] == fm.segments@[j]);
                    }
                }
                if let KenwoodCommand::FrequencyB(Some(hz)) = self {
                    let ps: usize = if is_flex { 4 } else { 2 };
                    if ps < params_end_of(raw_bytes@) {
                        let j = choose|j: int| 0 <= j < fm.segments@.len() && (#[trigger] fm.segments@[j]).range == (ps..params_end_of(raw_bytes@))
                            && fm.segments@[j].segment_type == SegmentType::Frequency && fm.segments@[j].value@ == frequency_text(*hz);
                        assert(f.segments@[j] == fm.segments@[j]);
                    }
                }
            }
        }
        proof {
            assert(summary_model(f) =~= kenwood_summary(self@, kenwood_params_start(raw_bytes@), params_end_of(raw_bytes@)));
            assert(segments_model(f) =~= kenwood_segments(self@, raw_bytes@));
        }
        f
    }
}

/// A FlexRadio frame with a `ZZ` command: valid text starting `ZZ`.
pub open spec fn zz_frame(raw: Seq<u8>) -> bool {
    raw.len() >= 2 && raw[0] == 90u8 && raw[1] == 90u8 && vstd::utf8::valid_utf8(raw)
}

/// Where a FlexRadio command's parameters start.
pub open spec fn flex_params_start(raw: Seq<u8>) -> usize {
    if zz_frame(raw) {
        4
    } else {
        2
    }
}

/// The name a Kenwood command wrapped in a FlexRadio one is summarised by:
/// the Kenwood name for the commands FlexRadio shares, `Kenwood` otherwise.
pub open spec fn flex_kenwood_title(m: crate::kenwood::KenwoodModel) -> Seq<char> {
    match m {
        crate::kenwood::KenwoodModel::Mode(_) => "Kenwood"@,
        crate::kenwood::KenwoodModel::Info(_) => "Kenwood"@,
        crate::kenwood::KenwoodModel::AutoInfo(_) => "Kenwood"@,
        crate::kenwood::KenwoodModel::ControlBand(_) => "Kenwood"@,
        crate::kenwood::KenwoodModel::TransmitBand(_) => "Kenwood"@,
        crate::kenwood::KenwoodModel::Unknown(_) => "Kenwood"@,
        _ => kenwood_title(m),
    }
}

/// The value shown after the name of a Kenwood command wrapped in a
/// FlexRadio one.
pub open spec fn flex_kenwood_shown_value(m: crate::kenwood::KenwoodModel) -> Option<Seq<char>> {
    match m {
        crate::kenwood::KenwoodModel::AutoInfo(_) => None,
        _ => kenwood_shown_value(m),
    }
}

/// The name a FlexRadio command's summary starts with (an unknown command
/// is shown as its text).
pub open spec fn flex_title(m: crate::flex::FlexModel) -> Seq<char> {
    match m {
        crate::flex::FlexModel::Kenwood(k) => flex_kenwood_title(k),
        crate::flex::FlexModel::Mode(Some(_)) => "Mode"@,
        crate::flex::FlexModel::Mode(None) => "Get Mode"@,
        crate::flex::FlexModel::Info(Some(_)) => "Status"@,
        crate::flex::FlexModel::Info(None) => "Get Status"@,
        crate::flex::FlexModel::AudioGain(Some(_)) => "Audio Gain"@,
        crate::flex::FlexModel::AudioGain(None) => "Get Audio Gain"@,
        crate::flex::FlexModel::RfPower(Some(_)) => "RF Power"@,
        crate::flex::FlexModel::RfPower(None) => "Get RF Power"@,
        crate::flex::FlexModel::SMeter(Some(_)) => "S-Meter"@,
        crate::flex::FlexModel::SMeter(None) => "Read S-Meter"@,
        crate::flex::FlexModel::AgcMode(Some(_)) => "AGC"@,
        crate::flex::FlexModel::AgcMode(None) => "Get AGC"@,
        crate::flex::FlexModel::NoiseReduction(Some(_)) => "NR"@,
        crate::flex::FlexModel::NoiseReduction(None) => "Get NR"@,
        crate::flex::FlexModel::AutoInfo(Some(_)) => "Auto Info"@,
        crate::flex::FlexModel::AutoInfo(None) => "Get Auto Info"@,
        crate::flex::FlexModel::Unknown(text) => text,
    }
}

/// The state shown after a FlexRadio command's name, where it is one.
pub open spec fn flex_shown_value(m: crate::flex::FlexModel) -> Option<Seq<char>> {
    match m {
        crate::flex::FlexModel::Kenwood(k) => flex_kenwood_shown_value(k),
        crate::flex::FlexModel::NoiseReduction(Some(on)) => Some(on_off_text(on)),
        crate::flex::FlexModel::AutoInfo(Some(on)) => Some(on_off_text(on)),
        _ => None,
    }
}

/// What the summary of a Kenwood command wrapped in a FlexRadio one shows
/// after its name, for parameters in `ps..pe`.
pub open spec fn flex_kenwood_value_parts(m: crate::kenwood::KenwoodModel, ps: usize, pe: usize) -> Seq<PartModel> {
    let at = range_if(ps < pe, ps, pe);
    let sp: PartModel = (" "@, SegmentType::Data, None);
    match m {
        crate::kenwood::KenwoodModel::FrequencyA(Some(hz)) => seq![sp, (frequency_text(hz), SegmentType::Frequency, at)],
        crate::kenwood::KenwoodModel::FrequencyB(Some(hz)) => seq![sp, (frequency_text(hz), SegmentType::Frequency, at)],
        crate::kenwood::KenwoodModel::Transmit(Some(on)) => seq![sp, (on_off_text(on), SegmentType::Status, None)],
        crate::kenwood::KenwoodModel::Receive => seq![sp, ("OFF"@, SegmentType::Status, None)],
        crate::kenwood::KenwoodModel::Id(Some(id)) => seq![sp, (id, SegmentType::Data, at)],
        crate::kenwood::KenwoodModel::VfoSelect(Some(v)) => seq![sp, (if v == 0 { "A"@ } else { "B"@ }, SegmentType::Data, at)],
        crate::kenwood::KenwoodModel::Split(Some(on)) => seq![sp, (on_off_text(on), SegmentType::Status, at)],
        crate::kenwood::KenwoodModel::Power(Some(on)) => seq![sp, (on_off_text(on), SegmentType::Status, at)],
        _ => Seq::empty(),
    }
}

/// The segments the parameters of a Kenwood command wrapped in a FlexRadio
/// one take.
pub open spec fn flex_kenwood_param_segments(m: crate::kenwood::KenwoodModel, ps: usize, pe: usize) -> Seq<SegModel> {
    let present = ps < pe;
    match m {
        crate::kenwood::KenwoodModel::FrequencyA(Some(hz)) => seg_if(present, (ps..pe, "freq"@, frequency_text(hz), SegmentType::Frequency)),
        crate::kenwood::KenwoodModel::FrequencyB(Some(hz)) => seg_if(present, (ps..pe, "freq"@, frequency_text(hz), SegmentType::Frequency)),
        crate::kenwood::KenwoodModel::Id(Some(id)) => seg_if(present, (ps..pe, "id"@, id, SegmentType::Data)),
        crate::kenwood::KenwoodModel::VfoSelect(Some(v)) => seg_if(
            present,
            (ps..pe, "vfo"@, if v == 0 { "A"@ } else { "B"@ }, SegmentType::Data),
        ),
        crate::kenwood::KenwoodModel::Split(Some(on)) => seg_if(present, (ps..pe, "split"@, on_off_text(on), SegmentType::Status)),
        crate::kenwood::KenwoodModel::Power(Some(on)) => seg_if(present, (ps..pe, "power"@, on_off_text(on), SegmentType::Status)),
        _ => Seq::empty(),
    }
}

/// What a FlexRadio command's summary shows after its name.
pub open spec fn flex_value_parts(m: crate::flex::FlexModel, ps: usize, pe: usize) -> Seq<PartModel> {
    let at = range_if(ps < pe, ps, pe);
    let sp: PartModel = (" "@, SegmentType::Data, None);
    match m {
        crate::flex::FlexModel::Kenwood(k) => flex_kenwood_value_parts(k, ps, pe),
        crate::flex::FlexModel::Mode(Some(md)) => seq![sp, (flex_mode_name(md), SegmentType::Mode, at)],
        crate::flex::FlexModel::Info(Some(info)) => seq![
            (": "@, SegmentType::Data, None),
            (
                frequency_text(info.frequency_hz),
                SegmentType::Frequency,
                range_if(ps + 11 <= pe, ps, (ps + 11) as usize),
            ),
        ],
        crate::flex::FlexModel::AudioGain(Some(g)) => seq![sp, (wire_text(crate::text::dec(g as nat)), SegmentType::Data, None)],
        crate::flex::FlexModel::RfPower(Some(p)) => seq![sp, (wire_text(crate::text::dec(p as nat)), SegmentType::Data, None)],
        crate::flex::FlexModel::SMeter(Some(v)) => seq![sp, (wire_text(crate::text::dec_signed(v as int)), SegmentType::Data, None)],
        crate::flex::FlexModel::AgcMode(Some(a)) => seq![sp, (wire_text(crate::text::dec(a as nat)), SegmentType::Data, None)],
        crate::flex::FlexModel::NoiseReduction(Some(on)) => seq![sp, (on_off_text(on), SegmentType::Status, None)],
        crate::flex::FlexModel::AutoInfo(Some(on)) => seq![sp, (on_off_text(on), SegmentType::Status, at)],
        _ => Seq::empty(),
    }
}

/// The summary of a FlexRadio command whose name takes bytes `0..cl` and
/// whose parameters take `ps..pe`: its name, then its value.
pub open spec fn flex_summary_parts(m: crate::flex::FlexModel, cl: usize, ps: usize, pe: usize) -> Seq<PartModel> {
    seq![(flex_title(m), SegmentType::Command, Some(0usize..cl))] + flex_value_parts(m, ps, pe)
}

/// The segments a FlexRadio command's parameters take.
pub open spec fn flex_param_segments(m: crate::flex::FlexModel, cl: usize, ps: usize, pe: usize) -> Seq<SegModel> {
    let present = ps < pe;
    match m {
        crate::flex::FlexModel::Kenwood(k) => flex_kenwood_param_segments(k, ps, pe),
        crate::flex::FlexModel::Mode(Some(md)) => seg_if(present, (ps..pe, "mode"@, flex_mode_name(md), SegmentType::Mode)),
        crate::flex::FlexModel::Info(Some(info)) => seg_if(
            ps + 11 <= pe,
            (ps..(ps + 11) as usize, "freq"@, frequency_text(info.frequency_hz), SegmentType::Frequency),
        ) + seg_if(ps + 11 < pe, ((ps + 11) as usize..pe, "status"@, "flags"@, SegmentType::Status)),
        crate::flex::FlexModel::AutoInfo(Some(on)) => seg_if(present, (ps..pe, "state"@, on_off_text(on), SegmentType::Status)),
        crate::flex::FlexModel::Unknown(text) => seg_if(
            present,
            (
                ps..pe,
                "params"@,
                bytes_text_spec(vstd::utf8::encode_utf8(text), cl as int, vstd::utf8::encode_utf8(text).len() as int),
                SegmentType::Data,
            ),
        ),
        _ => Seq::empty(),
    }
}

/// The segments of a FlexRadio frame: the command name (four letters for a
/// `ZZ` command), the parameters, and the terminator when there is one.
pub open spec fn flex_segments(m: crate::flex::FlexModel, raw: Seq<u8>) -> Seq<SegModel> {
    let cl = flex_params_start(raw);
    seq![(0usize..cl, "cmd"@, name_text(raw, cl as int), SegmentType::Command)] + flex_param_segments(
        m,
        cl,
        cl,
        params_end_of(raw),
    ) + end_segment(raw)
}

/// The summary of a FlexRadio command wrapping a Kenwood one.
#[verifier::rlimit(100)]
#[verifier::spinoff_prover]
fn flex_kenwood_summary(kw: &KenwoodCommand, f: &mut AnnotatedFrame, cmd_len: usize, params_start: usize, params_end: usize)
    requires
        summary_linked(*old(f)),
        covered(old(f).segments@, 0, cmd_len),
    ensures
        final(f).protocol == old(f).protocol,
        summary_linked(*final(f)),
        old(f).segments@.len() <= final(f).segments@.len(),
        forall|i: int| 0 <= i < old(f).segments@.len() ==> final(f).segments@[i] == old(f).segments@[i],
        params_start < params_end ==> match kw {
            KenwoodCommand::FrequencyA(Some(hz)) => shows_frequency(*final(f), params_start, params_end, *hz),
            KenwoodCommand::FrequencyB(Some(hz)) => shows_frequency(*final(f), params_start, params_end, *hz),
            _ => true,
        },
        match kw {
            KenwoodCommand::FrequencyA(Some(hz)) => summary_shows(*final(f), frequency_text(*hz)),
            KenwoodCommand::FrequencyB(Some(hz)) => summary_shows(*final(f), frequency_text(*hz)),
            _ => true,
        },
        summary_shows(*final(f), flex_kenwood_title(kw@)),
        flex_kenwood_shown_value(kw@) matches Some(v) ==> summary_shows(*final(f), v),
        summary_model(*final(f)) == summary_model(*old(f)) + seq![
            (flex_kenwood_title(kw@), SegmentType::Command, Some(0usize..cmd_len)),
        ] + flex_kenwood_value_parts(kw@, params_start, params_end),
        segments_model(*final(f)) == segments_model(*old(f)) + flex_kenwood_param_segments(kw@, params_start, params_end),
{
    let present = params_start < params_end;
    let ghost f0 = *f;
    let ghost k = f.segments@.len();
    match kw {
        KenwoodCommand::FrequencyA(Some(hz)) | KenwoodCommand::FrequencyB(Some(hz)) => {
            let title = if matches!(kw, KenwoodCommand::FrequencyA(_)) {
                "VFO A"
            } else {
                "VFO B"
            };
            f.command_part(title, 0, cmd_len);
            f.plain(" ");
            f.value(present, params_start, params_end, "freq", format_frequency(*hz), format_frequency(*hz), SegmentType::Frequency);
            proof {
                if present {
                    assert(f.segments@[k as int].range == (params_start..params_end));
                }
            }
        },
        KenwoodCommand::FrequencyA(None) | KenwoodCommand::FrequencyB(None) => {
            let title = if matches!(kw, KenwoodCommand::FrequencyA(_)) {
                "Get Freq VFO A"
            } else {
                "Get Freq VFO B"
            };
            f.command_part(title, 0, cmd_len);
        },
        KenwoodCommand::Transmit(Some(true)) => {
            f.command_part("PTT", 0, cmd_len);
            f.plain(" ");
            f.part("ON".to_owned(), SegmentType::Status);
        },
        KenwoodCommand::Transmit(Some(false)) | KenwoodCommand::Receive => {
            f.command_part("PTT", 0, cmd_len);
            f.plain(" ");
            f.part("OFF".to_owned(), SegmentType::Status);
        },
        KenwoodCommand::Transmit(None) => f.command_part("Get PTT", 0, cmd_len),
        KenwoodCommand::Id(Some(id)) => {
            f.command_part("ID", 0, cmd_len);
            f.plain(" ");
            f.value(present, params_start, params_end, "id", id.clone(), id.clone(), SegmentType::Data);
        },
        KenwoodCommand::Id(None) => f.command_part("Get ID", 0, cmd_len),
        KenwoodCommand::VfoSelect(Some(v)) => {
            let vfo = vfo_letter(*v);
            f.command_part("VFO", 0, cmd_len);
            f.plain(" ");
            f.value(present, params_start, params_end, "vfo", vfo.to_owned(), vfo.to_owned(), SegmentType::Data);
        },
        KenwoodCommand::VfoSelect(None) => f.command_part("Get VFO", 0, cmd_len),
        KenwoodCommand::Split(Some(on)) => {
            let state = on_off(*on);
            f.command_part("Split", 0, cmd_len);
            f.plain(" ");
            f.value(present, params_start, params_end, "split", state.to_owned(), state.to_owned(), SegmentType::Status);
        },
        KenwoodCommand::Split(None) => f.command_part("Get Split", 0, cmd_len),
        KenwoodCommand::Power(Some(on)) => {
            let state = on_off(*on);
            f.command_part("Power", 0, cmd_len);
            f.plain(" ");
            f.value(present, params_start, params_end, "power", state.to_owned(), state.to_owned(), SegmentType::Status);
        },
        KenwoodCommand::Power(None) => f.command_part("Get Power", 0, cmd_len),
        _ => f.command_part("Kenwood", 0, cmd_len),
    }
    proof {
        assert(summary_model(*f) =~= summary_model(f0) + seq![(flex_kenwood_title(kw@), SegmentType::Command, Some(0usize..cmd_len))] + flex_kenwood_value_parts(kw@, params_start, params_end));
        assert(segments_model(*f) =~= segments_model(f0) + flex_kenwood_param_segments(kw@, params_start, params_end));
    }
}

/// The summary of a FlexRadio command.
#[verifier::rlimit(100)]
#[verifier::spinoff_prover]
fn flex_summary(cmd: &FlexCommand, f: &mut AnnotatedFrame, cmd_len: usize, params_start: usize, params_end: usize)
    requires
        summary_linked(*old(f)),
        covered(old(f).segments@, 0, cmd_len),
        params_start <= 4,
    ensures
        final(f).protocol == old(f).protocol,
        summary_linked(*final(f)),
        old(f).segments@.len() <= final(f).segments@.len(),
        forall|i: int| 0 <= i < old(f).segments@.len() ==> final(f).segments@[i] == old(f).segments@[i],
        params_start < params_end ==> match cmd {
            FlexCommand::Kenwood(KenwoodCommand::FrequencyA(Some(hz))) => shows_frequency(*final(f), params_start, params_end, *hz),
            FlexCommand::Kenwood(KenwoodCommand::FrequencyB(Some(hz))) => shows_frequency(*final(f), params_start, params_end, *hz),
            _ => true,
        },
        match cmd {
            FlexCommand::Kenwood(KenwoodCommand::FrequencyA(Some(hz))) => summary_shows(*final(f), frequency_text(*hz)),
            FlexCommand::Kenwood(KenwoodCommand::FrequencyB(Some(hz))) => summary_shows(*final(f), frequency_text(*hz)),
            FlexCommand::Mode(Some(m)) => summary_shows(*final(f), flex_mode_name(*m)),
            _ => true,
        },
        summary_shows(*final(f), flex_title(cmd@)),
        flex_shown_value(cmd@) matches Some(v) ==> summary_shows(*final(f), v),
        summary_model(*final(f)) == summary_model(*old(f)) + flex_summary_parts(cmd@, cmd_len, params_start, params_end),
        segments_model(*final(f)) == segments_model(*old(f)) + flex_param_segments(cmd@, cmd_len, params_start, params_end),
{
    let present = params_start < params_end;
    let ghost f0 = *f;
    match cmd {
        FlexCommand::Kenwood(kw) => flex_kenwood_summary(kw, f, cmd_len, params_start, params_end),
        FlexCommand::Mode(Some(m)) => {
            let name = format_flex_mode(*m);
            f.command_part("Mode", 0, cmd_len);
            f.plain(" ");
            f.value(present, params_start, params_end, "mode", name.to_owned(), name.to_owned(), SegmentType::Mode);
        },
        FlexCommand::Mode(None) => f.command_part("Get Mode", 0, cmd_len),
        FlexCommand::Info(Some(info)) => {
            let freq_end = params_start + 11;
            f.command_part("Status", 0, cmd_len);
            f.plain(": ");
            f.value(
                freq_end <= params_end,
                params_start,
                freq_end,
                "freq",
                format_frequency(info.frequency_hz),
                format_frequency(info.frequency_hz),
                SegmentType::Frequency,
            );
            if freq_end < params_end {
                f.seg(freq_end, params_end, "status", "flags".to_owned(), SegmentType::Status);
            }
        },
        FlexCommand::Info(None) => f.command_part("Get Status", 0, cmd_len),
        FlexCommand::AudioGain(Some(g)) => {
            f.command_part("Audio Gain", 0, cmd_len);
            f.plain(" ");
            f.part(decimal_text(*g as u64, &[]), SegmentType::Data);
        },
        FlexCommand::AudioGain(None) => f.command_part("Get Audio Gain", 0, cmd_len),
        FlexCommand::RfPower(Some(p)) => {
            f.command_part("RF Power", 0, cmd_len);
            f.plain(" ");
            f.part(decimal_text(*p as u64, &[]), SegmentType::Data);
        },
        FlexCommand::RfPower(None) => f.command_part("Get RF Power", 0, cmd_len),
        FlexCommand::SMeter(Some(v)) => {
            f.command_part("S-Meter", 0, cmd_len);
            f.plain(" ");
            f.part(signed_text(*v as i32), SegmentType::Data);
        },
        FlexCommand::SMeter(None) => f.command_part("Read S-Meter", 0, cmd_len),
        FlexCommand::AgcMode(Some(m)) => {
            f.command_part("AGC", 0, cmd_len);
            f.plain(" ");
            f.part(decimal_text(*m as u64, &[]), SegmentType::Data);
        },
        FlexCommand::AgcMode(None) => f.command_part("Get AGC", 0, cmd_len),
        FlexCommand::NoiseReduction(Some(on)) => {
            f.command_part("NR", 0, cmd_len);
            f.plain(" ");
            f.part(on_off(*on).to_owned(), SegmentType::Status);
        },
        FlexCommand::NoiseReduction(None) => f.command_part("Get NR", 0, cmd_len),
        FlexCommand::AutoInfo(Some(on)) => {
            let state = on_off(*on);
            f.command_part("Auto Info", 0, cmd_len);
            f.plain(" ");
            f.value(present, params_start, params_end, "state", state.to_owned(), state.to_owned(), SegmentType::Status);
        },
        FlexCommand::AutoInfo(None) => f.command_part("Get Auto Info", 0, cmd_len),
        FlexCommand::Unknown(s) => {
            if present {
                f.seg(params_start, params_end, "params", tail_text(s, cmd_len), SegmentType::Data);
            }
            f.part_at(s.clone(), SegmentType::Command, 0, cmd_len);
        },
    }
    proof {
        assert(summary_model(*f) =~= summary_model(f0) + flex_summary_parts(cmd@, cmd_len, params_start, params_end));
        assert(segments_model(*f) =~= segments_model(f0) + flex_param_segments(cmd@, cmd_len, params_start, params_end));
    }
}

impl FrameAnnotation for FlexCommand {
    /// Segments: the command (four letters for `ZZ` commands, two
    /// otherwise), the parameters, and the terminator when present.
    #[verifier::rlimit(100)]
    #[verifier::spinoff_prover]
    fn annotate(&self, raw_bytes: &[u8]) -> (r: AnnotatedFrame)
        ensures
            r.protocol@ == "Flex"@,
            summary_linked(r),
            match self {
                FlexCommand::Kenwood(KenwoodCommand::FrequencyA(Some(hz))) => text_frequency_shown(r, raw_bytes@, flex_params_start(raw_bytes@), *hz)
                    && summary_shows(r, frequency_text(*hz)),
                FlexCommand::Kenwood(KenwoodCommand::FrequencyB(Some(hz))) => text_frequency_shown(r, raw_bytes@, flex_params_start(raw_bytes@), *hz)
                    && summary_shows(r, frequency_text(*hz)),
                FlexCommand::Mode(Some(m)) => summary_shows(r, flex_mode_name(*m)),
                _ => true,
            },
            summary_shows(r, flex_title(self@)),
            flex_shown_value(self@) matches Some(v) ==> summary_shows(r, v),
            summary_model(r) == flex_summary_parts(
                self@,
                flex_params_start(raw_bytes@),
                flex_params_start(raw_bytes@),
                params_end_of(raw_bytes@),
            ),
            segments_model(r) == flex_segments(self@, raw_bytes@),
    {
        let data_len = raw_bytes.len();
        let valid = crate::text::str_from_utf8(raw_bytes).is_some();
        let is_zz = valid && data_len >= 2 && raw_bytes[0] == 90u8 && raw_bytes[1] == 90u8;
        let cmd_len: usize = if is_zz {
            4
        } else {
            2
        };
        let params_start = cmd_len;
        let params_end = if ends_with_semicolon(raw_bytes) {
            data_len - 1
        } else {
            data_len
        };
        let mut f = AnnotatedFrame::empty("Flex");
        let cmd_text = if valid && data_len >= cmd_len {
            bytes_text(raw_bytes, 0, cmd_len)
        } else {
            String::new()
        };
        f.seg(0, cmd_len, "cmd", cmd_text, SegmentType::Command);
        proof {
            assert(segments_model(f) =~= seq![
                (0usize..cmd_len, "cmd"@, name_text(raw_bytes@, cmd_len as int), SegmentType::Command),
            ]);
            assert(summary_model(f) =~= Seq::<PartModel>::empty());
        }
        proof {
            assert(covered(f.segments@, 0, cmd_len));
        }
        flex_summary(self, &mut f, cmd_len, params_start, params_end);
        let ghost fm = f;
        if ends_with_semicolon(raw_bytes) {
            f.seg(data_len - 1, data_len, "end", ";".to_owned(), SegmentType::Terminator);
            proof {
                lemma_shows_kept(fm, f, raw_bytes@, params_start);
            }
        }
        proof {
            assert(summary_model(f) =~= flex_summary_parts(
                self@,
                flex_params_start(raw_bytes@),
                flex_params_start(raw_bytes@),
                params_end_of(raw_bytes@),
            ));
            assert(segments_model(f) =~= flex_segments(self@, raw_bytes@));
        }
        f
    }
}

/// Adding segments keeps what the earlier ones showed.
proof fn lemma_shows_kept(a: AnnotatedFrame, b: AnnotatedFrame, raw: Seq<u8>, start: usize)
    requires
        b.segments@.len() >= a.segments@.len(),
        forall|i: int| 0 <= i < a.segments@.len() ==> b.segments@[i] == a.segments@[i],
    ensures
        forall|hz: u64| text_frequency_shown(a, raw, start, hz) ==> text_frequency_shown(b, raw, start, hz),
{
    assert forall|hz: u64| text_frequency_shown(a, raw, start, hz) implies text_frequency_shown(b, raw, start, hz) by {
        if start < params_end_of(raw) {
            let j = choose|j: int| 0 <= j < a.segments@.len() && (#[trigger] a.segments@[j]).range == (start..params_end_of(raw))
                && a.segments@[j].segment_type == SegmentType::Frequency && a.segments@[j].value@ == frequency_text(hz);
            assert(b.segments@[j] == a.segments@[j]);
        }
    }
}

/// The name a Yaesu ASCII command's summary starts with (an unknown
/// command is shown as its text).
pub open spec fn yaesu_ascii_title(m: crate::yaesu_ascii::YaesuAsciiModel) -> Seq<char> {
    match m {
        crate::yaesu_ascii::YaesuAsciiModel::FrequencyA(Some(_)) => "VFO A"@,
        crate::yaesu_ascii::YaesuAsciiModel::FrequencyB(Some(_)) => "VFO B"@,
        crate::yaesu_ascii::YaesuAsciiModel::FrequencyA(None) => "Get Freq VFO A"@,
        crate::yaesu_ascii::YaesuAsciiModel::FrequencyB(None) => "Get Freq VFO B"@,
        crate::yaesu_ascii::YaesuAsciiModel::Mode { mode: Some(_), .. } => "Mode"@,
        crate::yaesu_ascii::YaesuAsciiModel::Mode { mode: None, .. } => "Get Mode"@,
        crate::yaesu_ascii::YaesuAsciiModel::Transmit(Some(_)) => "PTT"@,
        crate::yaesu_ascii::YaesuAsciiModel::Transmit(None) => "Get PTT"@,
        crate::yaesu_ascii::YaesuAsciiModel::Id(Some(_)) => "ID"@,
        crate::yaesu_ascii::YaesuAsciiModel::Id(None) => "Get ID"@,
        crate::yaesu_ascii::YaesuAsciiModel::Info(Some(_)) => "Status"@,
        crate::yaesu_ascii::YaesuAsciiModel::Info(None) => "Get Status"@,
        crate::yaesu_ascii::YaesuAsciiModel::VfoSelect(Some(_)) => "VFO"@,
        crate::yaesu_ascii::YaesuAsciiModel::VfoSelect(None) => "Get VFO"@,
        crate::yaesu_ascii::YaesuAsciiModel::Split(Some(_)) => "Split"@,
        crate::yaesu_ascii::YaesuAsciiModel::Split(None) => "Get Split"@,
        crate::yaesu_ascii::YaesuAsciiModel::Power(Some(_)) => "Power"@,
        crate::yaesu_ascii::YaesuAsciiModel::Power(None) => "Get Power"@,
        crate::yaesu_ascii::YaesuAsciiModel::AutoInfo(Some(_)) => "Auto Info"@,
        crate::yaesu_ascii::YaesuAsciiModel::AutoInfo(None) => "Get Auto Info"@,
        crate::yaesu_ascii::YaesuAsciiModel::SMeter(Some(_)) => "S-Meter"@,
        crate::yaesu_ascii::YaesuAsciiModel::SMeter(None) => "Read S-Meter"@,
        crate::yaesu_ascii::YaesuAsciiModel::RfPower(Some(_)) => "RF Power"@,
        crate::yaesu_ascii::YaesuAsciiModel::RfPower(None) => "Get RF Power"@,
        crate::yaesu_ascii::YaesuAsciiModel::Unknown(text) => text,
    }
}

/// The value a Yaesu ASCII command's summary shows after its name, where
/// it is a state, a VFO letter or an identifier.
pub open spec fn yaesu_ascii_shown_value(m: crate::yaesu_ascii::YaesuAsciiModel) -> Option<Seq<char>> {
    match m {
        crate::yaesu_ascii::YaesuAsciiModel::Transmit(Some(tx)) => Some(
            if tx == 0 {
                "OFF"@
            } else if tx == 1 {
                "ON"@
            } else if tx == 2 {
                "TUNE"@
            } else {
                "?"@
            },
        ),
        crate::yaesu_ascii::YaesuAsciiModel::Id(Some(id)) => Some(id),
        crate::yaesu_ascii::YaesuAsciiModel::VfoSelect(Some(v)) => Some(if v == 0 { "A"@ } else { "B"@ }),
        crate::yaesu_ascii::YaesuAsciiModel::Split(Some(on)) => Some(on_off_text(on)),
        crate::yaesu_ascii::YaesuAsciiModel::Power(Some(on)) => Some(on_off_text(on)),
        crate::yaesu_ascii::YaesuAsciiModel::AutoInfo(Some(on)) => Some(on_off_text(on)),
        _ => None,
    }
}

/// The transmit state a Yaesu ASCII `TX` value shows.
pub open spec fn ya_tx_text(tx: u8) -> Seq<char> {
    if tx == 0 {
        "OFF"@
    } else if tx == 1 {
        "ON"@
    } else if tx == 2 {
        "TUNE"@
    } else {
        "?"@
    }
}

/// What a Yaesu ASCII command's summary shows after its name, for
/// parameters in `2..pe`.
pub open spec fn yaesu_ascii_value_parts(m: crate::yaesu_ascii::YaesuAsciiModel, pe: usize) -> Seq<PartModel> {
    let at = range_if(2 < pe, 2, pe);
    let sp: PartModel = (" "@, SegmentType::Data, None);
    match m {
        crate::yaesu_ascii::YaesuAsciiModel::FrequencyA(Some(hz)) => seq![sp, (frequency_text(hz), SegmentType::Frequency, at)],
        crate::yaesu_ascii::YaesuAsciiModel::FrequencyB(Some(hz)) => seq![sp, (frequency_text(hz), SegmentType::Frequency, at)],
        crate::yaesu_ascii::YaesuAsciiModel::Mode { mode: Some(md), .. } => seq![sp, (yaesu_ascii_mode_name(md), SegmentType::Mode, range_if(3 < pe, 3, pe))],
        crate::yaesu_ascii::YaesuAsciiModel::Transmit(Some(tx)) => seq![sp, (ya_tx_text(tx), SegmentType::Status, at)],
        crate::yaesu_ascii::YaesuAsciiModel::Id(Some(id)) => seq![sp, (id, SegmentType::Data, at)],
        crate::yaesu_ascii::YaesuAsciiModel::Info(Some(info)) => seq![
            (": "@, SegmentType::Data, None),
            (frequency_text(info.frequency_hz), SegmentType::Frequency, range_if(14 <= pe, 5, 14)),
        ],
        crate::yaesu_ascii::YaesuAsciiModel::VfoSelect(Some(v)) => seq![sp, (if v == 0 { "A"@ } else { "B"@ }, SegmentType::Data, at)],
        crate::yaesu_ascii::YaesuAsciiModel::Split(Some(on)) => seq![sp, (on_off_text(on), SegmentType::Status, at)],
        crate::yaesu_ascii::YaesuAsciiModel::Power(Some(on)) => seq![sp, (on_off_text(on), SegmentType::Status, at)],
        crate::yaesu_ascii::YaesuAsciiModel::AutoInfo(Some(on)) => seq![sp, (on_off_text(on), SegmentType::Status, at)],
        crate::yaesu_ascii::YaesuAsciiModel::SMeter(Some(v)) => seq![sp, (wire_text(crate::text::dec(v as nat)), SegmentType::Data, None)],
        crate::yaesu_ascii::YaesuAsciiModel::RfPower(Some(p)) => seq![sp, (wire_text(crate::text::dec(p as nat) + seq![37u8]), SegmentType::Data, None)],
        _ => Seq::empty(),
    }
}

/// The summary of a Yaesu ASCII command: its name, linked to the two
/// command letters, then its value.
pub open spec fn yaesu_ascii_summary(m: crate::yaesu_ascii::YaesuAsciiModel, pe: usize) -> Seq<PartModel> {
    seq![(yaesu_ascii_title(m), SegmentType::Command, Some(0usize..2usize))] + yaesu_ascii_value_parts(m, pe)
}

/// The segments a Yaesu ASCII command's parameters in `2..pe` take.
pub open spec fn yaesu_ascii_param_segments(m: crate::yaesu_ascii::YaesuAsciiModel, pe: usize) -> Seq<SegModel> {
    let present = 2 < pe;
    match m {
        crate::yaesu_ascii::YaesuAsciiModel::FrequencyA(Some(hz)) => seg_if(present, (2usize..pe, "freq"@, frequency_text(hz), SegmentType::Frequency)),
        crate::yaesu_ascii::YaesuAsciiModel::FrequencyB(Some(hz)) => seg_if(present, (2usize..pe, "freq"@, frequency_text(hz), SegmentType::Frequency)),
        crate::yaesu_ascii::YaesuAsciiModel::Mode { receiver, mode: Some(md) } => seg_if(
            3 < pe,
            (2usize..3usize, "rx"@, wire_text(seq![82u8, 88] + crate::text::dec(receiver as nat)), SegmentType::Data),
        ) + seg_if(3 < pe, (3usize..pe, "mode"@, yaesu_ascii_mode_name(md), SegmentType::Mode)),
        crate::yaesu_ascii::YaesuAsciiModel::Transmit(Some(tx)) => seg_if(present, (2usize..pe, "state"@, ya_tx_text(tx), SegmentType::Status)),
        crate::yaesu_ascii::YaesuAsciiModel::Id(Some(id)) => seg_if(present, (2usize..pe, "id"@, id, SegmentType::Data)),
        crate::yaesu_ascii::YaesuAsciiModel::Info(Some(info)) => seg_if(
            14 <= pe,
            (5usize..14usize, "freq"@, frequency_text(info.frequency_hz), SegmentType::Frequency),
        ) + seg_if(14 < pe, (14usize..pe, "status"@, "flags"@, SegmentType::Status)),
        crate::yaesu_ascii::YaesuAsciiModel::VfoSelect(Some(v)) => seg_if(
            present,
            (2usize..pe, "vfo"@, if v == 0 { "A"@ } else { "B"@ }, SegmentType::Data),
        ),
        crate::yaesu_ascii::YaesuAsciiModel::Split(Some(on)) => seg_if(present, (2usize..pe, "split"@, on_off_text(on), SegmentType::Status)),
        crate::yaesu_ascii::YaesuAsciiModel::Power(Some(on)) => seg_if(present, (2usize..pe, "power"@, on_off_text(on), SegmentType::Status)),
        crate::yaesu_ascii::YaesuAsciiModel::AutoInfo(Some(on)) => seg_if(present, (2usize..pe, "state"@, on_off_text(on), SegmentType::Status)),
        crate::yaesu_ascii::YaesuAsciiModel::Unknown(text) => seg_if(
            present,
            (
                2usize..pe,
                "params"@,
                bytes_text_spec(vstd::utf8::encode_utf8(text), 2, vstd::utf8::encode_utf8(text).len() as int),
                SegmentType::Data,
            ),
        ),
        _ => Seq::empty(),
    }
}

/// The segments of a Yaesu ASCII frame: the two command letters, the
/// parameters, and the terminator when there is one.
pub open spec fn yaesu_ascii_segments(m: crate::yaesu_ascii::YaesuAsciiModel, raw: Seq<u8>) -> Seq<SegModel> {
    seq![(0usize..2usize, "cmd"@, name_text(raw, 2), SegmentType::Command)] + yaesu_ascii_param_segments(
        m,
        params_end_of(raw),
    ) + end_segment(raw)
}

impl FrameAnnotation for YaesuAsciiCommand {
    /// Segments: the two-letter command, the parameters, and the
    /// terminator when present.
    #[verifier::rlimit(100)]
    #[verifier::spinoff_prover]
    fn annotate(&self, raw_bytes: &[u8]) -> (r: AnnotatedFrame)
        ensures
            r.protocol@ == "Yaesu ASCII"@,
            summary_linked(r),
            match self {
                YaesuAsciiCommand::FrequencyA(Some(hz)) => text_frequency_shown(r, raw_bytes@, 2, *hz) && summary_shows(
                    r,
                    frequency_text(*hz),
                ),
                YaesuAsciiCommand::FrequencyB(Some(hz)) => text_frequency_shown(r, raw_bytes@, 2, *hz) && summary_shows(
                    r,
                    frequency_text(*hz),
                ),
                YaesuAsciiCommand::Mode { mode: Some(m), .. } => summary_shows(r, yaesu_ascii_mode_name(*m)),
                _ => true,
            },
            summary_shows(r, yaesu_ascii_title(self@)),
            yaesu_ascii_shown_value(self@) matches Some(v) ==> summary_shows(r, v),
            summary_model(r) == yaesu_ascii_summary(self@, params_end_of(raw_bytes@)),
            segments_model(r) == yaesu_ascii_segments(self@, raw_bytes@),
    {
        let data_len = raw_bytes.len();
        let valid = crate::text::str_from_utf8(raw_bytes).is_some();
        let prefix = if valid && data_len >= 2 {
            bytes_text(raw_bytes, 0, 2)
        } else {
            String::new()
        };
        let mut f = AnnotatedFrame::empty("Yaesu ASCII");
        f.seg(0, 2, "cmd", prefix, SegmentType::Command);
        let ghost k = f.segments@.len();
        proof {
            assert(segments_model(f) =~= seq![(0usize..2usize, "cmd"@, name_text(raw_bytes@, 2), SegmentType::Command)]);
            assert(summary_model(f) =~= Seq::<PartModel>::empty());
        }
        proof {
            assert(covered(f.segments@, 0, 2));
        }
        let params_start: usize = 2;
        let params_end = if ends_with_semicolon(raw_bytes) {
            data_len - 1
        } else {
            data_len
        };
        let present = params_start < params_end;
        match self {
            YaesuAsciiCommand::FrequencyA(Some(hz)) | YaesuAsciiCommand::FrequencyB(Some(hz)) => {
                let title = if matches!(self, YaesuAsciiCommand::FrequencyA(_)) {
                    "VFO A"
                } else {
                    "VFO B"
                };
                f.command_part(title, 0, 2);
                f.plain(" ");
                f.value(present, params_start, params_end, "freq", format_frequency(*hz), format_frequency(*hz), SegmentType::Frequency);
                proof {
                    if present {
                        assert(f.segments@[k as int].range == (params_start..params_end));
                    }
                }
            },
            YaesuAsciiCommand::FrequencyA(None) | YaesuAsciiCommand::FrequencyB(None) => {
                let title = if matches!(self, YaesuAsciiCommand::FrequencyA(_)) {
                    "Get Freq VFO A"
                } else {
                    "Get Freq VFO B"
                };
                f.command_part(title, 0, 2);
            },
            YaesuAsciiCommand::Mode { receiver, mode: Some(m) } => {
                let name = format_yaesu_ascii_mode(*m);
                let both = params_start + 1 < params_end;
                if both {
                    f.seg(2, 3, "rx", decimal_text_prefixed(&[82u8, 88], *receiver as u64), SegmentType::Data);
                }
                f.command_part("Mode", 0, 2);
                f.plain(" ");
                f.value(both, 3, params_end, "mode", name.to_owned(), name.to_owned(), SegmentType::Mode);
            },
            YaesuAsciiCommand::Mode { mode: None, .. } => f.command_part("Get Mode", 0, 2),
            YaesuAsciiCommand::Transmit(Some(tx)) => {
                let state = if *tx == 0 {
                    "OFF"
                } else if *tx == 1 {
                    "ON"
                } else if *tx == 2 {
                    "TUNE"
                } else {
                    "?"
                };
                f.command_part("PTT", 0, 2);
                f.plain(" ");
                f.value(present, params_start, params_end, "state", state.to_owned(), state.to_owned(), SegmentType::Status);
            },
            YaesuAsciiCommand::Transmit(None) => f.command_part("Get PTT", 0, 2),
            YaesuAsciiCommand::Id(Some(id)) => {
                f.command_part("ID", 0, 2);
                f.plain(" ");
                f.value(present, params_start, params_end, "id", id.clone(), id.clone(), SegmentType::Data);
            },
            YaesuAsciiCommand::Id(None) => f.command_part("Get ID", 0, 2),
            YaesuAsciiCommand::Info(Some(info)) => {
                f.command_part("Status", 0, 2);
                f.plain(": ");
                f.value(
                    14 <= params_end,
                    5,
                    14,
                    "freq",
                    format_frequency(info.frequency_hz),
                    format_frequency(info.frequency_hz),
                    SegmentType::Frequency,
                );
                if 14 < params_end {
                    f.seg(14, params_end, "status", "flags".to_owned(), SegmentType::Status);
                }
            },
            YaesuAsciiCommand::Info(None) => f.command_part("Get Status", 0, 2),
            YaesuAsciiCommand::VfoSelect(Some(v)) => {
                let vfo = vfo_letter(*v);
                f.command_part("VFO", 0, 2);
                f.plain(" ");
                f.value(present, params_start, params_end, "vfo", vfo.to_owned(), vfo.to_owned(), SegmentType::Data);
            },
            YaesuAsciiCommand::VfoSelect(None) => f.command_part("Get VFO", 0, 2),
            YaesuAsciiCommand::Split(Some(on)) => {
                let state = on_off(*on);
                f.command_part("Split", 0, 2);
                f.plain(" ");
                f.value(present, params_start, params_end, "split", state.to_owned(), state.to_owned(), SegmentType::Status);
            },
            YaesuAsciiCommand::Split(None) => f.command_part("Get Split", 0, 2),
            YaesuAsciiCommand::Power(Some(on)) => {
                let state = on_off(*on);
                f.command_part("Power", 0, 2);
                f.plain(" ");
                f.value(present, params_start, params_end, "power", state.to_owned(), state.to_owned(), SegmentType::Status);
            },
            YaesuAsciiCommand::Power(None) => f.command_part("Get Power", 0, 2),
            YaesuAsciiCommand::AutoInfo(Some(on)) => {
                let state = on_off(*on);
                f.command_part("Auto Info", 0, 2);
                f.plain(" ");
                f.value(present, params_start, params_end, "state", state.to_owned(), state.to_owned(), SegmentType::Status);
            },
            YaesuAsciiCommand::AutoInfo(None) => f.command_part("Get Auto Info", 0, 2),
            YaesuAsciiCommand::SMeter(Some(v)) => {
                f.command_part("S-Meter", 0, 2);
                f.plain(" ");
                f.part(decimal_text(*v as u64, &[]), SegmentType::Data);
            },
            YaesuAsciiCommand::SMeter(None) => f.command_part("Read S-Meter", 0, 2),
            YaesuAsciiCommand::RfPower(Some(p)) => {
                f.command_part("RF Power", 0, 2);
                f.plain(" ");
                f.part(percent_text(*p), SegmentType::Data);
            },
            YaesuAsciiCommand::RfPower(None) => f.command_part("Get RF Power", 0, 2),
            YaesuAsciiCommand::Unknown(s) => {
                if present {
                    f.seg(params_start, params_end, "params", tail_text(s, 2), SegmentType::Data);
                }
                f.part_at(s.clone(), SegmentType::Command, 0, 2);
            },
        }
        let ghost fm = f;
        if ends_with_semicolon(raw_bytes) {
            f.seg(data_len - 1, data_len, "end", ";".to_owned(), SegmentType::Terminator);
            proof {
                lemma_shows_kept(fm, f, raw_bytes@, 2);
            }
        }
        proof {
            assert(summary_model(f) =~= yaesu_ascii_summary(self@, params_end_of(raw_bytes@)));
            assert(segments_model(f) =~= yaesu_ascii_segments(self@, raw_bytes@));
        }
        f
    }
}

/// A prefix followed by a decimal value.
fn decimal_text_prefixed(prefix: &[u8], n: u64) -> (r: String)
    ensures
        r@ == wire_text(prefix@ + crate::text::dec(n as nat)),
{
    let mut v: Vec<u8> = Vec::new();
    push_all(&mut v, prefix);
    push_dec(&mut v, n);
    proof {
        assert(v@ =~= prefix@ + crate::text::dec(n as nat));
    }
    text_from_bytes(v.as_slice())
}

// ---------------------------------------------------------------------------
// Decoding raw data for display
// ---------------------------------------------------------------------------

/// `s` without its trailing `;`s.
pub open spec fn trim_semicolons(s: Seq<u8>) -> Seq<u8>
    decreases s.len(),
{
    if s.len() > 0 && s.last() == 59u8 {
        trim_semicolons(s.drop_last())
    } else {
        s
    }
}

/// Text a text-protocol decoder accepts: printable ASCII (which includes
/// `;`) with at least two characters before any trailing `;`s.
pub open spec fn text_frame_ok(data: Seq<u8>) -> bool {
    &&& forall|i: int| 0 <= i < data.len() ==> 33 <= #[trigger] data[i] <= 126
    &&& trim_semicolons(data).len() >= 2
}

/// A text codec fed `data` finds a complete command in it.
pub open spec fn text_command_found(data: Seq<u8>) -> bool {
    next_frame(crate::stream::buffer_after_push(Seq::empty(), data), 59u8) is Some
}

/// A CI-V frame: at least six bytes, a double preamble, a terminator last.
pub open spec fn civ_frame_ok(data: Seq<u8>) -> bool {
    data.len() >= 6 && data[0] == PREAMBLE && data[1] == PREAMBLE && data.last() == TERMINATOR
}

/// The first `;`-terminated command a text decoder reads from `data`,
/// without its `;`.
pub open spec fn first_text_command(data: Seq<u8>) -> Seq<u8> {
    match next_frame(crate::stream::buffer_after_push(Seq::empty(), data), 59u8) {
        Some((f, _)) => f.drop_last(),
        None => Seq::empty(),
    }
}

/// The frequency a Kenwood command sets or reports, if it names one.
pub open spec fn kenwood_frequency(m: crate::kenwood::KenwoodModel) -> Option<u64> {
    match m {
        crate::kenwood::KenwoodModel::FrequencyA(Some(hz)) => Some(hz),
        crate::kenwood::KenwoodModel::FrequencyB(Some(hz)) => Some(hz),
        _ => None,
    }
}

/// The frequency that a decoder for protocol `p` reads from `data`, when
/// the command it finds sets or reports one.
pub open spec fn decoded_frequency(p: Protocol, data: Seq<u8>) -> Option<u64> {
    match p {
        Protocol::IcomCIV => match crate::icom::civ_next(crate::stream::buffer_after_push(Seq::empty(), data)).0 {
            Some((m, _)) => match m.command {
                crate::icom::CivTypeModel::SetFrequency { hz } => Some(hz),
                crate::icom::CivTypeModel::FrequencyReport { hz } => Some(hz),
                _ => None,
            },
            None => None,
        },
        Protocol::Yaesu => if data.len() == 5 && data[4] == 0x01u8 {
            Some(crate::yaesu::yaesu_bcd_frequency(data) as u64)
        } else {
            None
        },
        Protocol::Kenwood => kenwood_frequency(crate::kenwood::kenwood_decode(first_text_command(data))),
        Protocol::Elecraft => kenwood_frequency(crate::kenwood::kenwood_decode(first_text_command(data))),
        Protocol::FlexRadio => match crate::flex::flex_decode(first_text_command(data)) {
            crate::flex::FlexModel::Kenwood(m) => kenwood_frequency(m),
            _ => None,
        },
        Protocol::YaesuAscii => match crate::yaesu_ascii::ya_decode(first_text_command(data)) {
            crate::yaesu_ascii::YaesuAsciiModel::FrequencyA(Some(hz)) => Some(hz),
            crate::yaesu_ascii::YaesuAsciiModel::FrequencyB(Some(hz)) => Some(hz),
            _ => None,
        },
    }
}

/// The summary of a decoded frame shows the frequency that the decoder for
/// `p` reads from `data`, if any.
pub open spec fn shows_decoded_frequency(f: AnnotatedFrame, p: Protocol, data: Seq<u8>) -> bool {
    decoded_frequency(p, data) matches Some(hz) ==> summary_shows(f, frequency_text(hz))
}

/// The segments of a CI-V frame whose command does not parse: preamble,
/// addresses and command byte in hex, the data length, the terminator.
pub open spec fn civ_unparsed_segments(data: Seq<u8>) -> Seq<SegModel> {
    let n = data.len();
    seq![
        (0usize..2usize, "preamble"@, "FE FE"@, SegmentType::Preamble),
        (2usize..3usize, "to"@, wire_text(crate::text::hex2(data[2])), SegmentType::Address),
        (3usize..4usize, "from"@, wire_text(crate::text::hex2(data[3])), SegmentType::Address),
        (4usize..5usize, "cmd"@, wire_text(crate::text::hex2(data[4])), SegmentType::Command),
    ] + seg_if(
        n > 6,
        (
            5usize..(n - 1) as usize,
            "data"@,
            wire_text(crate::text::dec((n - 6) as nat) + seq![32u8, 98, 121, 116, 101, 115]),
            SegmentType::Data,
        ),
    ) + seq![((n - 1) as usize..n as usize, "end"@, "FD"@, SegmentType::Terminator)]
}

/// The frame a decoder for protocol `p` makes of `data` is the annotation
/// of the command it reads there: for the text protocols that of the first
/// `;`-terminated command, for Yaesu that of the 5-byte command, for CI-V
/// that of the first frame when its command parses, and otherwise its
/// addresses, command byte and data length.
pub open spec fn decoded_layout_is(p: Protocol, data: Seq<u8>, f: AnnotatedFrame) -> bool {
    let pe = params_end_of(data);
    match p {
        Protocol::IcomCIV => match crate::icom::civ_next(crate::stream::buffer_after_push(Seq::empty(), data)).0 {
            Some((m, _)) => segments_model(f) == civ_head_segments(m.to_addr, m.from_addr, data) + civ_body_segments(
                m.command,
                data.len(),
            ) && summary_model(f) == civ_summary(m.command, data.len()),
            None => segments_model(f) == civ_unparsed_segments(data) && summary_model(f) == seq![
                (wire_text(seq![99u8, 109, 100, 61] + crate::text::hex2(data[4])), SegmentType::Data, None::<std::ops::Range<usize>>),
            ],
        },
        Protocol::Yaesu => exists|c: YaesuCommand|
            crate::yaesu::yaesu_command_is(data, c) && segments_model(f) == yaesu_segments(c, data) && summary_model(f)
                == #[trigger] yaesu_summary(c),
        Protocol::Kenwood => {
            let m = crate::kenwood::kenwood_decode(first_text_command(data));
            segments_model(f) == kenwood_segments(m, data) && summary_model(f) == kenwood_summary(
                m,
                kenwood_params_start(data),
                pe,
            )
        },
        Protocol::Elecraft => {
            let m = crate::kenwood::kenwood_decode(first_text_command(data));
            segments_model(f) == kenwood_segments(m, data) && summary_model(f) == kenwood_summary(
                m,
                kenwood_params_start(data),
                pe,
            )
        },
        Protocol::FlexRadio => {
            let m = crate::flex::flex_decode(first_text_command(data));
            segments_model(f) == flex_segments(m, data) && summary_model(f) == flex_summary_parts(
                m,
                flex_params_start(data),
                flex_params_start(data),
                pe,
            )
        },
        Protocol::YaesuAscii => {
            let m = crate::yaesu_ascii::ya_decode(first_text_command(data));
            segments_model(f) == yaesu_ascii_segments(m, data) && summary_model(f) == yaesu_ascii_summary(m, pe)
        },
    }
}

/// The protocol whose reading of text the detecting decoder keeps: FlexRadio
/// for text starting `ZZ`, Kenwood otherwise.
pub open spec fn detected_text_protocol(data: Seq<u8>) -> Protocol {
    if data.len() >= 2 && data[0] == 90u8 && data[1] == 90u8 {
        Protocol::FlexRadio
    } else {
        Protocol::Kenwood
    }
}

/// The name the detecting decoder gives a text frame: `Flex` for text
/// starting `ZZ`, `Kenwood` otherwise.
pub open spec fn detected_text_name(data: Seq<u8>) -> Seq<char> {
    if detected_text_protocol(data) == Protocol::FlexRadio {
        "Flex"@
    } else {
        "Kenwood"@
    }
}

/// Whether `data` is text a text-protocol decoder accepts.
fn text_frame_check(data: &[u8]) -> (r: bool)
    ensures
        r == text_frame_ok(data@),
{
    let mut i: usize = 0;
    while i < data.len()
        invariant
            i <= data@.len(),
            forall|j: int| 0 <= j < i ==> 33 <= #[trigger] data@[j] <= 126,
        decreases data.len() - i,
    {
        if data[i] < 33 || data[i] > 126 {
            return false;
        }
        i = i + 1;
    }
    let mut n: usize = data.len();
    proof {
        assert(data@.subrange(0, n as int) =~= data@);
    }
    while n > 0 && data[n - 1] == 59u8
        invariant
            n <= data@.len(),
            trim_semicolons(data@.subrange(0, n as int)) == trim_semicolons(data@),
        decreases n,
    {
        proof {
            assert(data@.subrange(0, n as int).drop_last() =~= data@.subrange(0, n - 1));
        }
        n = n - 1;
    }
    proof {
        assert(trim_semicolons(data@.subrange(0, n as int)) == data@.subrange(0, n as int));
    }
    n >= 2
}

/// Decode CI-V data: a well-framed CI-V frame is annotated from its
/// command, or minimally (addresses, command byte, data length) when the
/// command does not parse.
fn try_decode_civ(data: &[u8]) -> (r: Option<AnnotatedFrame>)
    ensures
        r is Some <==> civ_frame_ok(data@),
        r matches Some(f) ==> f.protocol@ == "CI-V"@ && summary_linked(f)
            && shows_decoded_frequency(f, Protocol::IcomCIV, data@) && decoded_layout_is(Protocol::IcomCIV, data@, f),
{
    if data.len() < 6 || data[0] != PREAMBLE || data[1] != PREAMBLE {
        return None;
    }
    if data[data.len() - 1] != TERMINATOR {
        return None;
    }
    let mut codec = CivCodec::new();
    ProtocolCodec::push_bytes(&mut codec, data);
    match ProtocolCodec::next_command(&mut codec) {
        Some(cmd) => Some(cmd.annotate(data)),
        None => {
            let n = data.len();
            let mut f = AnnotatedFrame::empty("CI-V");
            proof {
                assert(segments_model(f) =~= Seq::<SegModel>::empty());
                assert(summary_model(f) =~= Seq::<PartModel>::empty());
            }
            f.seg(0, 2, "preamble", "FE FE".to_owned(), SegmentType::Preamble);
            f.seg(2, 3, "to", hex_text(data[2]), SegmentType::Address);
            f.seg(3, 4, "from", hex_text(data[3]), SegmentType::Address);
            f.seg(4, 5, "cmd", hex_text(data[4]), SegmentType::Command);
            if n > 6 {
                f.seg(5, n - 1, "data", decimal_text((n - 6) as u64, &[32u8, 98, 121, 116, 101, 115]), SegmentType::Data);
            }
            f.seg(n - 1, n, "end", "FD".to_owned(), SegmentType::Terminator);
            f.part(prefixed_hex_text(&[99u8, 109, 100, 61], data[4]), SegmentType::Data);
            proof {
                assert(segments_model(f) =~= civ_unparsed_segments(data@));
                assert(summary_model(f) =~= seq![
                    (wire_text(seq![99u8, 109, 100, 61] + crate::text::hex2(data@[4])), SegmentType::Data, None::<std::ops::Range<usize>>),
                ]);
            }
            Some(f)
        },
    }
}

/// Decode a 5-byte Yaesu command.
fn try_decode_yaesu(data: &[u8]) -> (r: Option<AnnotatedFrame>)
    ensures
        r is Some <==> data@.len() == 5,
        r matches Some(f) ==> f.protocol@ == "Yaesu"@ && summary_linked(f)
            && shows_decoded_frequency(f, Protocol::Yaesu, data@) && decoded_layout_is(Protocol::Yaesu, data@, f),
{
    if data.len() != 5 {
        return None;
    }
    let mut codec = YaesuCodec::new();
    ProtocolCodec::push_bytes(&mut codec, data);
    proof {
        assert(Seq::<u8>::empty() + data@ =~= data@);
    }
    match ProtocolCodec::next_command(&mut codec) {
        Some(cmd) => {
            let f = cmd.annotate(data);
            proof {
                assert(data@.subrange(0, 5) =~= data@);
                assert(summary_model(f) == yaesu_summary(cmd));
            }
            Some(f)
        },
        None => None,
    }
}

/// Decode Kenwood text with a Kenwood codec.
fn decode_with_kenwood(data: &[u8]) -> (r: Option<AnnotatedFrame>)
    ensures
        r is Some <==> text_command_found(data@),
        r matches Some(f) ==> summary_linked(f) && (kenwood_flex_frame(data@) ==> f.protocol@ == "Flex"@)
            && (!kenwood_flex_frame(data@) ==> f.protocol@ == "Kenwood"@)
            && shows_decoded_frequency(f, Protocol::Kenwood, data@) && decoded_layout_is(Protocol::Kenwood, data@, f),
{
    let mut codec = KenwoodCodec::new();
    ProtocolCodec::push_bytes(&mut codec, data);
    match ProtocolCodec::next_command(&mut codec) {
        Some(cmd) => Some(cmd.annotate(data)),
        None => None,
    }
}

/// Decode Kenwood/FlexRadio text, reading `ZZ` commands as FlexRadio's.
fn try_decode_kenwood(data: &[u8]) -> (r: Option<AnnotatedFrame>)
    ensures
        r is Some <==> text_frame_ok(data@) && text_command_found(data@),
        r matches Some(f) ==> summary_linked(f) && f.protocol@ == detected_text_name(data@)
            && shows_decoded_frequency(f, detected_text_protocol(data@), data@)
            && decoded_layout_is(detected_text_protocol(data@), data@, f),
{
    if !text_frame_check(data) {
        return None;
    }
    if data[0] == 90u8 && data[1] == 90u8 {
        let mut codec = FlexCodec::new();
        ProtocolCodec::push_bytes(&mut codec, data);
        if let Some(cmd) = ProtocolCodec::next_command(&mut codec) {
            return Some(cmd.annotate(data));
        }
    }
    decode_with_kenwood(data)
}

/// Decode Kenwood text only (no FlexRadio detection).
fn try_decode_kenwood_only(data: &[u8]) -> (r: Option<AnnotatedFrame>)
    ensures
        r is Some <==> text_frame_ok(data@) && text_command_found(data@),
        r matches Some(f) ==> summary_linked(f) && (kenwood_flex_frame(data@) ==> f.protocol@ == "Flex"@)
            && (!kenwood_flex_frame(data@) ==> f.protocol@ == "Kenwood"@)
            && shows_decoded_frequency(f, Protocol::Kenwood, data@) && decoded_layout_is(Protocol::Kenwood, data@, f),
{
    if !text_frame_check(data) {
        return None;
    }
    decode_with_kenwood(data)
}

/// Decode Elecraft text: the Kenwood reading, named Elecraft.
fn try_decode_elecraft(data: &[u8]) -> (r: Option<AnnotatedFrame>)
    ensures
        r is Some <==> text_frame_ok(data@) && text_command_found(data@),
        r matches Some(f) ==> summary_linked(f) && f.protocol@ == "Elecraft"@
            && shows_decoded_frequency(f, Protocol::Elecraft, data@) && decoded_layout_is(Protocol::Elecraft, data@, f),
{
    if !text_frame_check(data) {
        return None;
    }
    match decode_with_kenwood(data) {
        Some(mut f) => {
            f.protocol = "Elecraft";
            Some(f)
        },
        None => None,
    }
}

/// Decode FlexRadio text.
fn try_decode_flex(data: &[u8]) -> (r: Option<AnnotatedFrame>)
    ensures
        r is Some <==> text_frame_ok(data@) && text_command_found(data@),
        r matches Some(f) ==> summary_linked(f) && f.protocol@ == "Flex"@
            && shows_decoded_frequency(f, Protocol::FlexRadio, data@) && decoded_layout_is(Protocol::FlexRadio, data@, f),
{
    if !text_frame_check(data) {
        return None;
    }
    let mut codec = FlexCodec::new();
    ProtocolCodec::push_bytes(&mut codec, data);
    match ProtocolCodec::next_command(&mut codec) {
        Some(cmd) => Some(cmd.annotate(data)),
        None => None,
    }
}

/// Decode Yaesu ASCII text.
fn try_decode_yaesu_ascii(data: &[u8]) -> (r: Option<AnnotatedFrame>)
    ensures
        r is Some <==> text_frame_ok(data@) && text_command_found(data@),
        r matches Some(f) ==> summary_linked(f) && f.protocol@ == "Yaesu ASCII"@
            && shows_decoded_frequency(f, Protocol::YaesuAscii, data@) && decoded_layout_is(Protocol::YaesuAscii, data@, f),
{
    if !text_frame_check(data) {
        return None;
    }
    let mut codec = YaesuAsciiCodec::new();
    ProtocolCodec::push_bytes(&mut codec, data);
    match ProtocolCodec::next_command(&mut codec) {
        Some(cmd) => Some(cmd.annotate(data)),
        None => None,
    }
}

/// The name a decoder gives frames of a protocol (a Kenwood decoder names
/// FlexRadio `ZZ` frames Flex).
pub open spec fn hinted_name(p: Protocol, data: Seq<u8>) -> Seq<char> {
    match p {
        Protocol::IcomCIV => "CI-V"@,
        Protocol::Yaesu => "Yaesu"@,
        Protocol::YaesuAscii => "Yaesu ASCII"@,
        Protocol::Kenwood => if kenwood_flex_frame(data) {
            "Flex"@
        } else {
            "Kenwood"@
        },
        Protocol::Elecraft => "Elecraft"@,
        Protocol::FlexRadio => "Flex"@,
    }
}

/// Whether a decoder for protocol `p` reads `data`.
pub open spec fn hinted_decodes(p: Protocol, data: Seq<u8>) -> bool {
    match p {
        Protocol::IcomCIV => civ_frame_ok(data),
        Protocol::Yaesu => data.len() == 5,
        _ => text_frame_ok(data) && text_command_found(data),
    }
}

/// Try to decode raw data with an optional protocol hint
///
/// With a hint, that protocol's decoder is used. Without one, data that
/// starts like a CI-V frame is read as CI-V, then text as
/// Kenwood/FlexRadio, then five bytes as a Yaesu command.
pub fn decode_and_annotate_with_hint(data: &[u8], protocol_hint: Option<Protocol>) -> (r: Option<AnnotatedFrame>)
    ensures
        r matches Some(f) ==> summary_linked(f),
        protocol_hint matches Some(p) ==> {
            &&& r is Some <==> hinted_decodes(p, data@)
            &&& r matches Some(f) ==> f.protocol@ == hinted_name(p, data@) && shows_decoded_frequency(f, p, data@)
                && decoded_layout_is(p, data@, f)
        },
        protocol_hint is None ==> {
            let civ_start = data@.len() >= 6 && data@[0] == PREAMBLE && data@[1] == PREAMBLE;
            let text = text_frame_ok(data@) && text_command_found(data@);
            &&& civ_start ==> (r is Some <==> civ_frame_ok(data@)) && (r matches Some(f) ==> f.protocol@ == "CI-V"@
                && shows_decoded_frequency(f, Protocol::IcomCIV, data@) && decoded_layout_is(Protocol::IcomCIV, data@, f))
            &&& !civ_start && text ==> (r matches Some(f) && f.protocol@ == detected_text_name(data@)
                && shows_decoded_frequency(f, detected_text_protocol(data@), data@)
                && decoded_layout_is(detected_text_protocol(data@), data@, f))
            &&& !civ_start && !text ==> (r is Some <==> data@.len() == 5) && (r matches Some(f) ==> f.protocol@
                == "Yaesu"@ && shows_decoded_frequency(f, Protocol::Yaesu, data@) && decoded_layout_is(Protocol::Yaesu, data@, f))
        },
{
    if let Some(protocol) = protocol_hint {
        return match protocol {
            Protocol::IcomCIV => try_decode_civ(data),
            Protocol::Yaesu => try_decode_yaesu(data),
            Protocol::YaesuAscii => try_decode_yaesu_ascii(data),
            Protocol::Kenwood => try_decode_kenwood_only(data),
            Protocol::Elecraft => try_decode_elecraft(data),
            Protocol::FlexRadio => try_decode_flex(data),
        };
    }
    if data.len() >= 6 && data[0] == PREAMBLE && data[1] == PREAMBLE {
        return try_decode_civ(data);
    }
    if let Some(frame) = try_decode_kenwood(data) {
        return Some(frame);
    }
    if data.len() == 5 {
        return try_decode_yaesu(data);
    }
    None
}

/// Try to decode raw data and return an annotated frame, detecting the
/// protocol.
pub fn decode_and_annotate(data: &[u8]) -> (r: Option<AnnotatedFrame>)
    ensures
        r matches Some(f) ==> summary_linked(f),
        ({
            let civ_start = data@.len() >= 6 && data@[0] == PREAMBLE && data@[1] == PREAMBLE;
            let text = text_frame_ok(data@) && text_command_found(data@);
            &&& civ_start ==> (r is Some <==> civ_frame_ok(data@)) && (r matches Some(f) ==> f.protocol@ == "CI-V"@
                && shows_decoded_frequency(f, Protocol::IcomCIV, data@) && decoded_layout_is(Protocol::IcomCIV, data@, f))
            &&& !civ_start && text ==> (r matches Some(f) && f.protocol@ == detected_text_name(data@)
                && shows_decoded_frequency(f, detected_text_protocol(data@), data@)
                && decoded_layout_is(detected_text_protocol(data@), data@, f))
            &&& !civ_start && !text ==> (r is Some <==> data@.len() == 5) && (r matches Some(f) ==> f.protocol@
                == "Yaesu"@ && shows_decoded_frequency(f, Protocol::Yaesu, data@) && decoded_layout_is(Protocol::Yaesu, data@, f))
        }),
{
    decode_and_annotate_with_hint(data, None)
}

/// The CI-V mode bytes follow Icom's table, and the names the monitor
/// shows for the bytes agree with the modes they read as: 0x00 LSB,
/// 0x01 USB, 0x02 AM, 0x03 CW, 0x04 RTTY, 0x05 FM, 0x06 CW-R, 0x07 RTTY-R,
/// 0x08 DATA-L, 0x09 DATA-U. Each of these modes is written as its own
/// byte, so a mode byte reads as the mode named after it and back.
pub proof fn law_civ_mode_table(b: u8, m: OperatingMode)
    ensures
        crate::icom::civ_mode_spec(0x00) == OperatingMode::Lsb,
        crate::icom::civ_mode_spec(0x01) == OperatingMode::Usb,
        crate::icom::civ_mode_spec(0x02) == OperatingMode::Am,
        crate::icom::civ_mode_spec(0x03) == OperatingMode::Cw,
        crate::icom::civ_mode_spec(0x04) == OperatingMode::Rtty,
        crate::icom::civ_mode_spec(0x05) == OperatingMode::Fm,
        crate::icom::civ_mode_spec(0x06) == OperatingMode::CwR,
        crate::icom::civ_mode_spec(0x07) == OperatingMode::RttyR,
        b <= 0x09 ==> mode_text(crate::icom::civ_mode_spec(b)) == civ_mode_name(b),
        b <= 0x09 ==> match crate::icom::civ_to_response(crate::icom::CivTypeModel::ModeReport { mode: b, filter: 1 }) {
            crate::command::ResponseModel::Mode { mode } => mode_text(mode) == civ_mode_name(b),
            _ => false,
        },
        (m == OperatingMode::Lsb || m == OperatingMode::Usb || m == OperatingMode::Am || m == OperatingMode::Cw
            || m == OperatingMode::Rtty || m == OperatingMode::Fm || m == OperatingMode::CwR || m
            == OperatingMode::RttyR || m == OperatingMode::DataL || m == OperatingMode::DataU) ==> civ_mode_name(
            crate::icom::civ_mode_number(m),
        ) == mode_text(m) && crate::icom::civ_mode_spec(crate::icom::civ_mode_number(m)) == m,
{
}

/// The Yaesu binary mode bytes follow Yaesu's table, and the names the
/// monitor shows for the bytes agree with the modes they read as: 0x00 LSB,
/// 0x01 USB, 0x02 CW, 0x03 CW-R, 0x04 AM, 0x06 and 0x08 FM, 0x0A DIG,
/// 0x0C PKT. Each of LSB, USB, CW, CW-R, AM, FM, DIG and PKT is written as
/// a byte named after it that reads back as it.
pub proof fn law_yaesu_mode_table(b: u8, m: OperatingMode)
    ensures
        crate::yaesu::yaesu_mode_spec(0x00) == OperatingMode::Lsb,
        crate::yaesu::yaesu_mode_spec(0x01) == OperatingMode::Usb,
        crate::yaesu::yaesu_mode_spec(0x02) == OperatingMode::Cw,
        crate::yaesu::yaesu_mode_spec(0x03) == OperatingMode::CwR,
        crate::yaesu::yaesu_mode_spec(0x04) == OperatingMode::Am,
        crate::yaesu::yaesu_mode_spec(0x06) == OperatingMode::Fm,
        crate::yaesu::yaesu_mode_spec(0x08) == OperatingMode::Fm,
        crate::yaesu::yaesu_mode_spec(0x0A) == OperatingMode::Dig,
        crate::yaesu::yaesu_mode_spec(0x0C) == OperatingMode::Pkt,
        (b <= 0x04 || b == 0x06 || b == 0x08 || b == 0x0A || b == 0x0C) ==> mode_text(
            crate::yaesu::yaesu_mode_spec(b),
        ) == yaesu_mode_name(b),
        (b <= 0x04 || b == 0x06 || b == 0x08 || b == 0x0A || b == 0x0C) ==> match crate::yaesu::yaesu_to_response(
            crate::yaesu::YaesuCommand::SetMode { mode: b },
        ) {
            crate::command::ResponseModel::Mode { mode } => mode_text(mode) == yaesu_mode_name(b),
            _ => false,
        },
        (m == OperatingMode::Lsb || m == OperatingMode::Usb || m == OperatingMode::Cw || m == OperatingMode::CwR
            || m == OperatingMode::Am || m == OperatingMode::Fm || m == OperatingMode::Dig || m
            == OperatingMode::Pkt) ==> yaesu_mode_name(crate::yaesu::yaesu_mode_number(m)) == mode_text(m)
            && crate::yaesu::yaesu_mode_spec(crate::yaesu::yaesu_mode_number(m)) == m,
{
}

/// The Kenwood mode digits follow Kenwood's table, and the names the
/// monitor shows for the digits agree with the modes they read as: 1 LSB,
/// 2 USB, 3 CW, 4 FM, 5 AM, 6 RTTY, 7 CW-R, 8 DATA-L, 9 RTTY-R, 10 DATA-U.
/// Each of these modes is written as the digit named after it.
pub proof fn law_kenwood_mode_table(b: u8, m: OperatingMode)
    ensures
        crate::kenwood::kenwood_mode_spec(1) == OperatingMode::Lsb,
        crate::kenwood::kenwood_mode_spec(2) == OperatingMode::Usb,
        crate::kenwood::kenwood_mode_spec(3) == OperatingMode::Cw,
        crate::kenwood::kenwood_mode_spec(4) == OperatingMode::Fm,
        crate::kenwood::kenwood_mode_spec(5) == OperatingMode::Am,
        crate::kenwood::kenwood_mode_spec(6) == OperatingMode::Rtty,
        crate::kenwood::kenwood_mode_spec(7) == OperatingMode::CwR,
        1 <= b <= 10 ==> mode_text(crate::kenwood::kenwood_mode_spec(b)) == kenwood_mode_name(b),
        (m == OperatingMode::Lsb || m == OperatingMode::Usb || m == OperatingMode::Cw || m == OperatingMode::Fm
            || m == OperatingMode::Am || m == OperatingMode::Rtty || m == OperatingMode::CwR || m
            == OperatingMode::DataL || m == OperatingMode::RttyR || m == OperatingMode::DataU) ==> kenwood_mode_name(
            crate::kenwood::kenwood_mode_number(m),
        ) == mode_text(m) && crate::kenwood::kenwood_mode_spec(crate::kenwood::kenwood_mode_number(m)) == m,
{
}

/// The FlexRadio mode codes follow SmartSDR's table, each code standing
/// for the mode the monitor names: 0 LSB, 1 USB, 2 DSB, 3 CW-L, 4 CW-U,
/// 5 FM, 6 AM, 7 DIG-U, 8 SPEC, 9 DIG-L, 10 SAM, 11 NFM, 12 DFM,
/// 20 FreeDV, 30 RTTY, 40 D-STAR; no other code names a mode.
pub proof fn law_flex_mode_table(c: u8)
    ensures
        crate::flex::flex_mode_of_code(0) == Some(FlexMode::Lsb),
        crate::flex::flex_mode_of_code(1) == Some(FlexMode::Usb),
        crate::flex::flex_mode_of_code(2) == Some(FlexMode::Dsb),
        crate::flex::flex_mode_of_code(3) == Some(FlexMode::CwL),
        crate::flex::flex_mode_of_code(4) == Some(FlexMode::CwU),
        crate::flex::flex_mode_of_code(5) == Some(FlexMode::Fm),
        crate::flex::flex_mode_of_code(6) == Some(FlexMode::Am),
        crate::flex::flex_mode_of_code(7) == Some(FlexMode::DigU),
        crate::flex::flex_mode_of_code(8) == Some(FlexMode::Spec),
        crate::flex::flex_mode_of_code(9) == Some(FlexMode::DigL),
        crate::flex::flex_mode_of_code(10) == Some(FlexMode::Sam),
        crate::flex::flex_mode_of_code(11) == Some(FlexMode::Nfm),
        crate::flex::flex_mode_of_code(12) == Some(FlexMode::Dfm),
        crate::flex::flex_mode_of_code(20) == Some(FlexMode::Fdv),
        crate::flex::flex_mode_of_code(30) == Some(FlexMode::Rtty),
        crate::flex::flex_mode_of_code(40) == Some(FlexMode::Dstar),
        (c > 12 && c != 20 && c != 30 && c != 40) ==> crate::flex::flex_mode_of_code(c) is None,
        crate::flex::flex_mode_of_code(c) matches Some(md) ==> crate::flex::flex_code(md) == c,
{
}

} // verus!
