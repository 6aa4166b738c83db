//! Yaesu CAT Protocol (binary)
//!
//! Classic Yaesu radios (FT-817/857/897) take 5-byte binary commands:
//! `[P1] [P2] [P3] [P4] [CMD]`, four parameter bytes and an opcode.
//!
//! Frequencies are BCD in bytes 0-3, most significant digit pair first, with
//! 10 Hz resolution (8 digits): 14.250.00 MHz is `0x14 0x25 0x00 0x00`.

pub mod rx_status;
pub mod tx_status;

use vstd::arithmetic::div_mod::{
    lemma_breakdown, lemma_div_denominator, lemma_fundamental_div_mod_converse_div,
    lemma_fundamental_div_mod_converse_mod,
};
use vstd::prelude::*;
use vstd::slice::{slice_subrange, slice_to_vec};

use crate::command::{OperatingMode, RadioRequest, RadioResponse, RequestModel, ResponseModel, Vfo};
use crate::error::ParseError;
use crate::icom::{bcd_byte_value, bcd_low_byte, lemma_bcd_byte_digits};
use crate::protocol::{
    EncodeCommand, FromRadioRequest, FromRadioResponse, ProtocolCodec, RadioCodec, ToRadioRequest,
    ToRadioResponse,
};
use crate::text::{push_all, push_hex2, text_from_bytes};

verus! {

/// Standard Yaesu command length
pub const COMMAND_LEN: usize = 5;

/// Yaesu command opcodes (FT-817/857/897 compatible)
#[derive(Debug, Clone, Copy, PartialEq, Eq, Structural)]
pub enum YaesuOpcode {
    /// Lock on (0x00)
    LockOn,
    /// Lock off (0x80)
    LockOff,
    /// Set frequency (0x01, P1-P4 = BCD freq)
    SetFrequency,
    /// Set mode (0x07, P1 = mode)
    SetMode,
    /// Toggle VFO (0x81)
    ToggleVfo,
    /// Split on (0x02)
    SplitOn,
    /// Split off (0x82)
    SplitOff,
    /// Clarifier on (0x05)
    ClarOn,
    /// Clarifier off (0x85)
    ClarOff,
    /// Clarifier frequency (0xF5)
    ClarFreq,
    /// PTT on (0x08, TX)
    PttOn,
    /// PTT off (0x88, RX)
    PttOff,
    /// Read RX status (0xE7)
    ReadRxStatus,
    /// Read TX status (0xF7)
    ReadTxStatus,
    /// Read frequency and mode (0x03)
    ReadFreqMode,
    /// Power on (0x0F)
    PowerOn,
    /// Power off (0x8F)
    PowerOff,
}

/// The wire byte of each opcode.
pub open spec fn yaesu_opcode_byte(o: YaesuOpcode) -> u8 {
    match o {
        YaesuOpcode::LockOn => 0x00,
        YaesuOpcode::LockOff => 0x80,
        YaesuOpcode::SetFrequency => 0x01,
        YaesuOpcode::SetMode => 0x07,
        YaesuOpcode::ToggleVfo => 0x81,
        YaesuOpcode::SplitOn => 0x02,
        YaesuOpcode::SplitOff => 0x82,
        YaesuOpcode::ClarOn => 0x05,
        YaesuOpcode::ClarOff => 0x85,
        YaesuOpcode::ClarFreq => 0xF5,
        YaesuOpcode::PttOn => 0x08,
        YaesuOpcode::PttOff => 0x88,
        YaesuOpcode::ReadRxStatus => 0xE7,
        YaesuOpcode::ReadTxStatus => 0xF7,
        YaesuOpcode::ReadFreqMode => 0x03,
        YaesuOpcode::PowerOn => 0x0F,
        YaesuOpcode::PowerOff => 0x8F,
    }
}

/// The opcode a byte names, if any.
pub open spec fn yaesu_opcode_of(b: u8) -> Option<YaesuOpcode> {
    if exists|o: YaesuOpcode| yaesu_opcode_byte(o) == b {
        Some(choose|o: YaesuOpcode| yaesu_opcode_byte(o) == b)
    } else {
        None
    }
}

/// Distinct opcodes have distinct bytes.
pub proof fn lemma_yaesu_opcode_byte_injective(a: YaesuOpcode, b: YaesuOpcode)
    ensures
        yaesu_opcode_byte(a) == yaesu_opcode_byte(b) ==> a == b,
{
}

impl YaesuOpcode {
    /// The wire byte of this opcode.
    pub fn code(&self) -> (r: u8)
        ensures
            r == yaesu_opcode_byte(*self),
    {
        match self {
            YaesuOpcode::LockOn => 0x00,
            YaesuOpcode::LockOff => 0x80,
            YaesuOpcode::SetFrequency => 0x01,
            YaesuOpcode::SetMode => 0x07,
            YaesuOpcode::ToggleVfo => 0x81,
            YaesuOpcode::SplitOn => 0x02,
            YaesuOpcode::SplitOff => 0x82,
            YaesuOpcode::ClarOn => 0x05,
            YaesuOpcode::ClarOff => 0x85,
            YaesuOpcode::ClarFreq => 0xF5,
            YaesuOpcode::PttOn => 0x08,
            YaesuOpcode::PttOff => 0x88,
            YaesuOpcode::ReadRxStatus => 0xE7,
            YaesuOpcode::ReadTxStatus => 0xF7,
            YaesuOpcode::ReadFreqMode => 0x03,
            YaesuOpcode::PowerOn => 0x0F,
            YaesuOpcode::PowerOff => 0x8F,
        }
    }
}

impl TryFrom<u8> for YaesuOpcode {
    type Error = ParseError;

    fn try_from(value: u8) -> (r: Result<Self, ParseError>)
        ensures
            r matches Ok(o) ==> yaesu_opcode_byte(o) == value && yaesu_opcode_of(value) == Some(o),
            r is Err <==> yaesu_opcode_of(value) is None,
            r matches Err(e) ==> e is UnknownCommand,
    {
        let r = match value {
            0x00 => Ok(Self::LockOn),
            0x80 => Ok(Self::LockOff),
            0x01 => Ok(Self::SetFrequency),
            0x07 => Ok(Self::SetMode),
            0x81 => Ok(Self::ToggleVfo),
            0x02 => Ok(Self::SplitOn),
            0x82 => Ok(Self::SplitOff),
            0x05 => Ok(Self::ClarOn),
            0x85 => Ok(Self::ClarOff),
            0xF5 => Ok(Self::ClarFreq),
            0x08 => Ok(Self::PttOn),
            0x88 => Ok(Self::PttOff),
            0xE7 => Ok(Self::ReadRxStatus),
            0xF7 => Ok(Self::ReadTxStatus),
            0x03 => Ok(Self::ReadFreqMode),
            0x0F => Ok(Self::PowerOn),
            0x8F => Ok(Self::PowerOff),
            _ => {
                let mut msg: Vec<u8> = Vec::new();
                push_all(&mut msg, "Yaesu opcode 0x".as_bytes());
                push_hex2(&mut msg, value);
                Err(ParseError::UnknownCommand(text_from_bytes(msg.as_slice())))
            },
        };
        proof {
            match r {
                Ok(o) => {
                    let w = choose|d: YaesuOpcode| yaesu_opcode_byte(d) == value;
                    lemma_yaesu_opcode_byte_injective(o, w);
                },
                Err(_) => {
                    assert forall|o: YaesuOpcode| yaesu_opcode_byte(o) != value by {
                        match o {
                            _ => {},
                        }
                    }
                },
            }
        }
        r
    }
}

/// The error of a failed conversion carries a formatted message, which spec
/// code cannot name, so `try_from` states its result in its own `ensures`
/// rather than through `try_from_spec`.
impl vstd::std_specs::convert::TryFromSpecImpl<u8> for YaesuOpcode {
    open spec fn obeys_try_from_spec() -> bool {
        false
    }

    open spec fn try_from_spec(v: u8) -> Result<Self, ParseError> {
        match yaesu_opcode_of(v) {
            Some(o) => Ok(o),
            None => Err(ParseError::UnknownCommand(arbitrary())),
        }
    }
}

/// Yaesu protocol command
#[derive(Debug, Clone, Copy, PartialEq, Eq)]
pub enum YaesuCommand {
    /// Set frequency (10 Hz resolution on the wire)
    SetFrequency { hz: u64 },
    /// Read frequency/mode response
    FrequencyModeReport { hz: u64, mode: u8 },
    /// Read frequency/mode query
    GetFrequencyMode,
    /// Set operating mode
    SetMode { mode: u8 },
    /// PTT on
    PttOn,
    /// PTT off
    PttOff,
    /// Toggle VFO A/B
    ToggleVfo,
    /// Split on
    SplitOn,
    /// Split off
    SplitOff,
    /// Read RX status
    ReadRxStatus,
    /// RX status response
    RxStatusReport { status: u8 },
    /// Read TX status
    ReadTxStatus,
    /// TX status response
    TxStatusReport { status: u8 },
    /// Power on
    PowerOn,
    /// Power off
    PowerOff,
    /// Lock on
    LockOn,
    /// Lock off
    LockOff,
    /// Unknown command
    Unknown { bytes: [u8; 5] },
}

// ---------------------------------------------------------------------------
// Big-endian BCD frequencies
// ---------------------------------------------------------------------------

/// The frequency in the first four bytes: eight BCD digits, most significant
/// first, in units of 10 Hz.
pub open spec fn yaesu_bcd_frequency(s: Seq<u8>) -> nat {
    10 * (((bcd_byte_value(s[0]) * 100 + bcd_byte_value(s[1])) * 100 + bcd_byte_value(
        s[2],
    )) * 100 + bcd_byte_value(s[3]))
}

/// The four BCD bytes for the lowest eight digits of `h`, most significant
/// pair first.
pub open spec fn yaesu_bcd4(h: nat) -> Seq<u8> {
    seq![
        bcd_low_byte(h / 1_000_000),
        bcd_low_byte(h / 10_000),
        bcd_low_byte(h / 100),
        bcd_low_byte(h),
    ]
}

/// Convert big-endian BCD bytes to frequency in Hz. Classic Yaesu format: 4
/// bytes = 8 BCD digits, 10 Hz resolution.
pub fn bcd_to_frequency_be(bytes: &[u8; 5]) -> (r: u64)
    ensures
        r == yaesu_bcd_frequency(bytes@),
{
    let mut freq: u64 = 0;
    let mut i: usize = 0;
    while i < 4
        invariant
            i <= 4,
            bytes@.len() == 5,
            i == 0 ==> freq == 0,
            i == 1 ==> freq == bcd_byte_value(bytes@[0]),
            i == 2 ==> freq == bcd_byte_value(bytes@[0]) * 100 + bcd_byte_value(bytes@[1]),
            i == 3 ==> freq == (bcd_byte_value(bytes@[0]) * 100 + bcd_byte_value(bytes@[1]))
                * 100 + bcd_byte_value(bytes@[2]),
            i == 4 ==> freq == ((bcd_byte_value(bytes@[0]) * 100 + bcd_byte_value(bytes@[1]))
                * 100 + bcd_byte_value(bytes@[2])) * 100 + bcd_byte_value(bytes@[3]),
            freq <= partial_bound(i as nat),
        decreases 4 - i,
    {
        let byte = bytes[i];
        let high = (byte / 16) as u64;
        let low = (byte % 16) as u64;
        assert(high * 10 + low <= 165);
        assert(partial_bound(i as nat) <= 1_666_665) by {
            reveal_with_fuel(partial_bound, 5);
        }
        freq = freq * 100 + high * 10 + low;
        i = i + 1;
    }
    assert(partial_bound(4) == 166_666_665) by {
        reveal_with_fuel(partial_bound, 5);
    }
    freq * 10
}

/// The largest value `i` unvalidated byte pairs can reach (each at most 165).
pub open spec fn partial_bound(i: nat) -> nat
    decreases i,
{
    if i == 0 {
        0
    } else {
        100 * partial_bound((i - 1) as nat) + 165
    }
}

/// Convert frequency in Hz to big-endian BCD bytes (4 bytes), dropping the
/// unit digit (10 Hz resolution).
pub fn frequency_to_bcd_be(hz: u64) -> (r: Vec<u8>)
    ensures
        r@ == yaesu_bcd4((hz / 10) as nat),
{
    let r0 = hz / 10;
    let b3 = bcd_byte(r0);
    let r1 = r0 / 100;
    let b2 = bcd_byte(r1);
    let r2 = r1 / 100;
    let b1 = bcd_byte(r2);
    let r3 = r2 / 100;
    let b0 = bcd_byte(r3);
    proof {
        lemma_div_denominator(r0 as int, 100, 100);
        lemma_div_denominator(r0 as int, 10_000, 100);
    }
    let r = vec![b0, b1, b2, b3];
    proof {
        assert(r@ =~= yaesu_bcd4(r0 as nat));
    }
    r
}

/// The BCD byte of the two lowest decimal digits of `h`.
fn bcd_byte(h: u64) -> (r: u8)
    ensures
        r == bcd_low_byte(h as nat),
{
    let low = (h % 10) as u8;
    let high = ((h / 10) % 10) as u8;
    high * 16 + low
}

/// The byte for the two lowest digits of `n` reads back as `n % 100`.
pub proof fn lemma_bcd_low_byte_value(n: nat)
    ensures
        bcd_byte_value(bcd_low_byte(n)) == n % 100,
{
    lemma_bcd_byte_digits((n / 10) % 10, n % 10);
    lemma_breakdown(n as int, 10, 10);
}

/// BCD round trip: the four bytes written for a frequency read back as the
/// frequency to 10 Hz resolution, modulo the eight digits they hold.
pub proof fn law_yaesu_bcd_roundtrip(hz: u64, last: u8)
    ensures
        yaesu_bcd_frequency(yaesu_bcd4((hz / 10) as nat).push(last)) == 10 * ((hz / 10) as nat
            % 100_000_000),
        hz < 1_000_000_000 ==> yaesu_bcd_frequency(yaesu_bcd4((hz / 10) as nat).push(last)) == hz
            / 10 * 10,
{
    let h = (hz / 10) as nat;
    let s = yaesu_bcd4(h).push(last);
    lemma_bcd_low_byte_value(h / 1_000_000);
    lemma_bcd_low_byte_value(h / 10_000);
    lemma_bcd_low_byte_value(h / 100);
    lemma_bcd_low_byte_value(h);
    lemma_breakdown(h as int, 100, 1_000_000);
    lemma_breakdown((h / 100) as int, 100, 10_000);
    lemma_breakdown((h / 10_000) as int, 100, 100);
    lemma_div_denominator(h as int, 100, 100);
    lemma_div_denominator(h as int, 10_000, 100);
    assert(s[0] == bcd_low_byte(h / 1_000_000));
    assert(s[3] == bcd_low_byte(h));
    if hz < 1_000_000_000 {
        assert(h < 100_000_000);
        assert(h % 100_000_000 == h) by {
            lemma_fundamental_div_mod_converse_mod(h as int, 100_000_000, 0, h as int);
        }
    }
}

// ---------------------------------------------------------------------------
// Command grammar (specification)
// ---------------------------------------------------------------------------

/// `c` is what the 5-byte command `b` denotes: the opcode in the last byte
/// selects the command, a frequency is BCD in the first four bytes, a mode
/// is the first byte, and any other opcode is kept as raw bytes.
pub open spec fn yaesu_command_is(b: Seq<u8>, c: YaesuCommand) -> bool {
    let op = b[4];
    if op == 0x01 {
        c == YaesuCommand::SetFrequency { hz: yaesu_bcd_frequency(b) as u64 }
    } else if op == 0x03 {
        c == YaesuCommand::GetFrequencyMode
    } else if op == 0x07 {
        c == YaesuCommand::SetMode { mode: b[0] }
    } else if op == 0x08 {
        c == YaesuCommand::PttOn
    } else if op == 0x88 {
        c == YaesuCommand::PttOff
    } else if op == 0x81 {
        c == YaesuCommand::ToggleVfo
    } else if op == 0x02 {
        c == YaesuCommand::SplitOn
    } else if op == 0x82 {
        c == YaesuCommand::SplitOff
    } else if op == 0xE7 {
        c == YaesuCommand::ReadRxStatus
    } else if op == 0xF7 {
        c == YaesuCommand::ReadTxStatus
    } else if op == 0x0F {
        c == YaesuCommand::PowerOn
    } else if op == 0x8F {
        c == YaesuCommand::PowerOff
    } else if op == 0x00 {
        c == YaesuCommand::LockOn
    } else if op == 0x80 {
        c == YaesuCommand::LockOff
    } else {
        c matches YaesuCommand::Unknown { bytes } && bytes@ == b
    }
}

/// Byte `i` of `b`, or 0 past its end.
pub open spec fn yaesu_byte_or_zero(b: Seq<u8>, i: int) -> u8 {
    if 0 <= i < b.len() {
        b[i]
    } else {
        0
    }
}

/// `c` is what a response of `b.len()` bytes denotes: five or more bytes are
/// a frequency/mode report, a single byte is an RX status, anything else is
/// kept raw (padded with zeros to five bytes).
pub open spec fn yaesu_response_is(b: Seq<u8>, c: YaesuCommand) -> bool {
    if b.len() >= 5 {
        c == YaesuCommand::FrequencyModeReport {
            hz: yaesu_bcd_frequency(b) as u64,
            mode: b[4],
        }
    } else if b.len() == 1 {
        c == YaesuCommand::RxStatusReport { status: b[0] }
    } else {
        c matches YaesuCommand::Unknown { bytes } && bytes@ == seq![
            yaesu_byte_or_zero(b, 0),
            yaesu_byte_or_zero(b, 1),
            yaesu_byte_or_zero(b, 2),
            yaesu_byte_or_zero(b, 3),
            yaesu_byte_or_zero(b, 4),
        ]
    }
}

/// The number of bytes the codec takes next: the announced response length,
/// or a command's five bytes.
pub open spec fn yaesu_take_len(expected: Option<usize>) -> nat {
    match expected {
        Some(n) => n as nat,
        None => COMMAND_LEN as nat,
    }
}

/// `c` is what the codec makes of the `taken` bytes given the announced
/// length.
pub open spec fn yaesu_decoded_is(expected: Option<usize>, taken: Seq<u8>, c: YaesuCommand) -> bool {
    if yaesu_take_len(expected) == 5 {
        yaesu_command_is(taken, c)
    } else {
        yaesu_response_is(taken, c)
    }
}

/// The five wire bytes of a command (one byte for a status report).
pub open spec fn yaesu_encode(c: YaesuCommand) -> Seq<u8> {
    match c {
        YaesuCommand::SetFrequency { hz } => yaesu_bcd4((hz / 10) as nat).push(0x01),
        YaesuCommand::GetFrequencyMode => seq![0u8, 0, 0, 0, 0x03],
        YaesuCommand::FrequencyModeReport { hz, mode } => yaesu_bcd4((hz / 10) as nat).push(mode),
        YaesuCommand::SetMode { mode } => seq![mode, 0, 0, 0, 0x07],
        YaesuCommand::PttOn => seq![0u8, 0, 0, 0, 0x08],
        YaesuCommand::PttOff => seq![0u8, 0, 0, 0, 0x88],
        YaesuCommand::ToggleVfo => seq![0u8, 0, 0, 0, 0x81],
        YaesuCommand::SplitOn => seq![0u8, 0, 0, 0, 0x02],
        YaesuCommand::SplitOff => seq![0u8, 0, 0, 0, 0x82],
        YaesuCommand::ReadRxStatus => seq![0u8, 0, 0, 0, 0xE7],
        YaesuCommand::RxStatusReport { status } => seq![status],
        YaesuCommand::ReadTxStatus => seq![0u8, 0, 0, 0, 0xF7],
        YaesuCommand::TxStatusReport { status } => seq![status],
        YaesuCommand::PowerOn => seq![0u8, 0, 0, 0, 0x0F],
        YaesuCommand::PowerOff => seq![0u8, 0, 0, 0, 0x8F],
        YaesuCommand::LockOn => seq![0u8, 0, 0, 0, 0x00],
        YaesuCommand::LockOff => seq![0u8, 0, 0, 0, 0x80],
        YaesuCommand::Unknown { bytes } => bytes@,
    }
}

// ---------------------------------------------------------------------------
// Conversions (specification)
// ---------------------------------------------------------------------------

pub open spec fn yaesu_mode_spec(mode: u8) -> OperatingMode {
    match mode {
        0x00 => OperatingMode::Lsb,
        0x01 => OperatingMode::Usb,
        0x02 => OperatingMode::Cw,
        0x03 => OperatingMode::CwR,
        0x04 => OperatingMode::Am,
        0x06 => OperatingMode::Fm,
        0x08 => OperatingMode::Fm,
        0x0A => OperatingMode::Dig,
        0x0C => OperatingMode::Pkt,
        _ => OperatingMode::Usb,
    }
}

pub open spec fn yaesu_mode_number(mode: OperatingMode) -> u8 {
    match mode {
        OperatingMode::Lsb => 0x00,
        OperatingMode::Usb => 0x01,
        OperatingMode::Cw => 0x02,
        OperatingMode::CwR => 0x03,
        OperatingMode::Am => 0x04,
        OperatingMode::Fm | OperatingMode::FmN => 0x08,
        OperatingMode::Dig | OperatingMode::DigU | OperatingMode::DigL => 0x0A,
        OperatingMode::Data | OperatingMode::DataU | OperatingMode::DataL => 0x0A,
        OperatingMode::Pkt => 0x0C,
        OperatingMode::Rtty | OperatingMode::RttyR => 0x0A,
    }
}

/// What a command means coming from a radio.
pub open spec fn yaesu_to_response(c: YaesuCommand) -> ResponseModel {
    match c {
        YaesuCommand::SetFrequency { hz } => ResponseModel::Frequency { hz },
        YaesuCommand::FrequencyModeReport { hz, mode } => ResponseModel::Status {
            frequency_hz: Some(hz),
            mode: Some(yaesu_mode_spec(mode)),
            ptt: None,
            vfo: None,
        },
        YaesuCommand::SetMode { mode } => ResponseModel::Mode { mode: yaesu_mode_spec(mode) },
        YaesuCommand::PttOn => ResponseModel::Ptt { active: true },
        YaesuCommand::PttOff => ResponseModel::Ptt { active: false },
        YaesuCommand::ToggleVfo => ResponseModel::Vfo { vfo: Vfo::B },
        YaesuCommand::SplitOn => ResponseModel::Vfo { vfo: Vfo::Split },
        YaesuCommand::SplitOff => ResponseModel::Vfo { vfo: Vfo::A },
        YaesuCommand::RxStatusReport { status } => ResponseModel::Status {
            frequency_hz: None,
            mode: None,
            ptt: Some((status & rx_status::SQUELCH_OPEN) != 0),
            vfo: None,
        },
        YaesuCommand::TxStatusReport { status } => ResponseModel::Ptt {
            active: (status & tx_status::METER_MASK) > 0,
        },
        YaesuCommand::Unknown { bytes } => ResponseModel::Unknown { data: bytes@ },
        _ => ResponseModel::Unknown { data: Seq::empty() },
    }
}

/// What a command means going to a radio.
pub open spec fn yaesu_to_request(c: YaesuCommand) -> RequestModel {
    match c {
        YaesuCommand::SetFrequency { hz } => RequestModel::SetFrequency { hz },
        YaesuCommand::GetFrequencyMode => RequestModel::GetFrequency,
        YaesuCommand::SetMode { mode } => RequestModel::SetMode { mode: yaesu_mode_spec(mode) },
        YaesuCommand::PttOn => RequestModel::SetPtt { active: true },
        YaesuCommand::PttOff => RequestModel::SetPtt { active: false },
        YaesuCommand::ToggleVfo => RequestModel::SetVfo { vfo: Vfo::B },
        YaesuCommand::SplitOn => RequestModel::SetVfo { vfo: Vfo::Split },
        YaesuCommand::SplitOff => RequestModel::SetVfo { vfo: Vfo::A },
        YaesuCommand::ReadRxStatus => RequestModel::GetStatus,
        YaesuCommand::ReadTxStatus => RequestModel::GetPtt,
        YaesuCommand::PowerOn => RequestModel::SetPower { on: true },
        YaesuCommand::PowerOff => RequestModel::SetPower { on: false },
        YaesuCommand::Unknown { bytes } => RequestModel::Unknown { data: bytes@ },
        _ => RequestModel::Unknown { data: Seq::empty() },
    }
}

pub open spec fn yaesu_from_request(r: RequestModel) -> Option<YaesuCommand> {
    match r {
        RequestModel::SetFrequency { hz } => Some(YaesuCommand::SetFrequency { hz }),
        RequestModel::GetFrequency => Some(YaesuCommand::GetFrequencyMode),
        RequestModel::SetMode { mode } => Some(YaesuCommand::SetMode { mode: yaesu_mode_number(mode) }),
        RequestModel::GetMode => Some(YaesuCommand::GetFrequencyMode),
        RequestModel::SetPtt { active } => Some(
            if active {
                YaesuCommand::PttOn
            } else {
                YaesuCommand::PttOff
            },
        ),
        RequestModel::GetPtt => Some(YaesuCommand::ReadTxStatus),
        RequestModel::GetStatus => Some(YaesuCommand::ReadRxStatus),
        RequestModel::SetVfo { vfo } => Some(
            if vfo is Split {
                YaesuCommand::SplitOn
            } else {
                YaesuCommand::ToggleVfo
            },
        ),
        RequestModel::SetPower { on } => Some(
            if on {
                YaesuCommand::PowerOn
            } else {
                YaesuCommand::PowerOff
            },
        ),
        _ => None,
    }
}

/// The command that passes a radio's report on to a Yaesu device: a
/// frequency or mode is set, PTT is switched.
pub open spec fn yaesu_from_response(r: ResponseModel) -> Option<YaesuCommand> {
    match r {
        ResponseModel::Frequency { hz } => Some(YaesuCommand::SetFrequency { hz }),
        ResponseModel::Mode { mode } => Some(YaesuCommand::SetMode { mode: yaesu_mode_number(mode) }),
        ResponseModel::Ptt { active } => Some(
            if active {
                YaesuCommand::PttOn
            } else {
                YaesuCommand::PttOff
            },
        ),
        _ => None,
    }
}

// ---------------------------------------------------------------------------
// Codec
// ---------------------------------------------------------------------------

/// Streaming Yaesu protocol codec
pub struct YaesuCodec {
    buffer: Vec<u8>,
    /// Expected response length (for handling variable responses)
    expected_response_len: Option<usize>,
}

impl View for YaesuCodec {
    /// The buffered bytes and the announced response length.
    type V = (Seq<u8>, Option<usize>);

    closed spec fn view(&self) -> (Seq<u8>, Option<usize>) {
        (self.buffer@, self.expected_response_len)
    }
}

impl YaesuCodec {
    /// Create a new Yaesu codec
    pub fn new() -> (r: Self)
        ensures
            r@ == (Seq::<u8>::empty(), None::<usize>),
    {
        YaesuCodec { buffer: Vec::new(), expected_response_len: None }
    }

    /// Set expected response length for next read
    pub fn expect_response(&mut self, len: usize)
        ensures
            final(self)@ == (old(self)@.0, Some(len)),
    {
        self.expected_response_len = Some(len);
    }

    /// Parse a 5-byte command
    fn parse_command(bytes: &[u8; 5]) -> (r: YaesuCommand)
        ensures
            yaesu_command_is(bytes@, r),
    {
        let opcode = bytes[4];
        match opcode {
            0x01 => YaesuCommand::SetFrequency { hz: bcd_to_frequency_be(bytes) },
            0x03 => YaesuCommand::GetFrequencyMode,
            0x07 => YaesuCommand::SetMode { mode: bytes[0] },
            0x08 => YaesuCommand::PttOn,
            0x88 => YaesuCommand::PttOff,
            0x81 => YaesuCommand::ToggleVfo,
            0x02 => YaesuCommand::SplitOn,
            0x82 => YaesuCommand::SplitOff,
            0xE7 => YaesuCommand::ReadRxStatus,
            0xF7 => YaesuCommand::ReadTxStatus,
            0x0F => YaesuCommand::PowerOn,
            0x8F => YaesuCommand::PowerOff,
            0x00 => YaesuCommand::LockOn,
            0x80 => YaesuCommand::LockOff,
            _ => YaesuCommand::Unknown { bytes: *bytes },
        }
    }

    /// Parse a frequency/mode response
    fn parse_freq_mode_response(bytes: &[u8]) -> (r: YaesuCommand)
        ensures
            yaesu_response_is(bytes@, r),
    {
        if bytes.len() >= 5 {
            let arr: [u8; 5] = [bytes[0], bytes[1], bytes[2], bytes[3], 0];
            let hz = bcd_to_frequency_be(&arr);
            YaesuCommand::FrequencyModeReport { hz, mode: bytes[4] }
        } else if bytes.len() == 1 {
            YaesuCommand::RxStatusReport { status: bytes[0] }
        } else {
            let arr: [u8; 5] = [
                byte_or_zero(bytes, 0),
                byte_or_zero(bytes, 1),
                byte_or_zero(bytes, 2),
                byte_or_zero(bytes, 3),
                byte_or_zero(bytes, 4),
            ];
            proof {
                assert(arr@ =~= seq![
                    yaesu_byte_or_zero(bytes@, 0),
                    yaesu_byte_or_zero(bytes@, 1),
                    yaesu_byte_or_zero(bytes@, 2),
                    yaesu_byte_or_zero(bytes@, 3),
                    yaesu_byte_or_zero(bytes@, 4),
                ]);
            }
            YaesuCommand::Unknown { bytes: arr }
        }
    }
}

fn byte_or_zero(b: &[u8], i: usize) -> (r: u8)
    ensures
        r == yaesu_byte_or_zero(b@, i as int),
{
    if i < b.len() {
        b[i]
    } else {
        0
    }
}

impl Default for YaesuCodec {
    fn default() -> (r: Self)
        ensures
            r@ == (Seq::<u8>::empty(), None::<usize>),
    {
        Self::new()
    }
}

impl ProtocolCodec for YaesuCodec {
    type Command = YaesuCommand;

    fn push_bytes(&mut self, data: &[u8])
        ensures
            final(self)@ == (old(self)@.0 + data@, old(self)@.1),
    {
        push_all(&mut self.buffer, data);
    }

    fn next_command(&mut self) -> (r: Option<YaesuCommand>)
        ensures
            old(self)@.0.len() < yaesu_take_len(old(self)@.1) ==> r is None && final(self)@ == old(self)@,
            old(self)@.0.len() >= yaesu_take_len(old(self)@.1) ==> {
                let n = yaesu_take_len(old(self)@.1) as int;
                &&& r matches Some(c) && yaesu_decoded_is(old(self)@.1, old(self)@.0.subrange(0, n), c)
                &&& final(self)@ == (old(self)@.0.subrange(n, old(self)@.0.len() as int), None::<usize>)
            },
    {
        match self.next_command_with_bytes() {
            Some((c, _)) => Some(c),
            None => None,
        }
    }

    fn next_command_with_bytes(&mut self) -> (r: Option<(YaesuCommand, Vec<u8>)>)
        ensures
            old(self)@.0.len() < yaesu_take_len(old(self)@.1) ==> r is None && final(self)@ == old(self)@,
            old(self)@.0.len() >= yaesu_take_len(old(self)@.1) ==> {
                let n = yaesu_take_len(old(self)@.1) as int;
                &&& r matches Some((c, bytes)) && bytes@ == old(self)@.0.subrange(0, n)
                    && yaesu_decoded_is(old(self)@.1, bytes@, c)
                &&& final(self)@ == (old(self)@.0.subrange(n, old(self)@.0.len() as int), None::<usize>)
            },
    {
        let len = match self.expected_response_len {
            Some(n) => n,
            None => COMMAND_LEN,
        };
        if self.buffer.len() < len {
            return None;
        }
        let bytes = slice_to_vec(slice_subrange(self.buffer.as_slice(), 0, len));
        let rest = slice_to_vec(slice_subrange(self.buffer.as_slice(), len, self.buffer.len()));
        self.buffer = rest;
        self.expected_response_len = None;
        if len == 5 {
            let arr: [u8; 5] = [bytes[0], bytes[1], bytes[2], bytes[3], bytes[4]];
            proof {
                assert(arr@ =~= bytes@);
            }
            Some((Self::parse_command(&arr), bytes))
        } else {
            let c = Self::parse_freq_mode_response(bytes.as_slice());
            Some((c, bytes))
        }
    }

    fn clear(&mut self)
        ensures
            final(self)@ == (Seq::<u8>::empty(), None::<usize>),
    {
        self.buffer.clear();
        self.expected_response_len = None;
    }
}

// ---------------------------------------------------------------------------
// Conversions
// ---------------------------------------------------------------------------

/// Convert Yaesu mode byte to OperatingMode
pub(crate) fn yaesu_mode_to_operating_mode(mode: u8) -> (r: OperatingMode)
    ensures
        r == yaesu_mode_spec(mode),
{
    match mode {
        0x00 => OperatingMode::Lsb,
        0x01 => OperatingMode::Usb,
        0x02 => OperatingMode::Cw,
        0x03 => OperatingMode::CwR,
        0x04 => OperatingMode::Am,
        0x06 => OperatingMode::Fm,
        0x08 => OperatingMode::Fm,
        0x0A => OperatingMode::Dig,
        0x0C => OperatingMode::Pkt,
        _ => OperatingMode::Usb,
    }
}

/// Convert OperatingMode to Yaesu mode byte
pub(crate) fn operating_mode_to_yaesu(mode: OperatingMode) -> (r: u8)
    ensures
        r == yaesu_mode_number(mode),
{
    match mode {
        OperatingMode::Lsb => 0x00,
        OperatingMode::Usb => 0x01,
        OperatingMode::Cw => 0x02,
        OperatingMode::CwR => 0x03,
        OperatingMode::Am => 0x04,
        OperatingMode::Fm | OperatingMode::FmN => 0x08,
        OperatingMode::Dig | OperatingMode::DigU | OperatingMode::DigL => 0x0A,
        OperatingMode::Data | OperatingMode::DataU | OperatingMode::DataL => 0x0A,
        OperatingMode::Pkt => 0x0C,
        OperatingMode::Rtty | OperatingMode::RttyR => 0x0A,
    }
}

impl ToRadioResponse for YaesuCommand {
    fn to_radio_response(&self) -> (r: RadioResponse)
        ensures
            r@ == yaesu_to_response(*self),
    {
        match self {
            YaesuCommand::SetFrequency { hz } => RadioResponse::Frequency { hz: *hz },
            YaesuCommand::FrequencyModeReport { hz, mode } => RadioResponse::Status {
                frequency_hz: Some(*hz),
                mode: Some(yaesu_mode_to_operating_mode(*mode)),
                ptt: None,
                vfo: None,
            },
            YaesuCommand::SetMode { mode } => RadioResponse::Mode {
                mode: yaesu_mode_to_operating_mode(*mode),
            },
            YaesuCommand::PttOn => RadioResponse::Ptt { active: true },
            YaesuCommand::PttOff => RadioResponse::Ptt { active: false },
            YaesuCommand::ToggleVfo => RadioResponse::Vfo { vfo: Vfo::B },
            YaesuCommand::SplitOn => RadioResponse::Vfo { vfo: Vfo::Split },
            YaesuCommand::SplitOff => RadioResponse::Vfo { vfo: Vfo::A },
            YaesuCommand::RxStatusReport { status } => RadioResponse::Status {
                frequency_hz: None,
                mode: None,
                ptt: Some((*status & rx_status::SQUELCH_OPEN) != 0),
                vfo: None,
            },
            YaesuCommand::TxStatusReport { status } => RadioResponse::Ptt {
                active: (*status & tx_status::METER_MASK) > 0,
            },
            YaesuCommand::Unknown { bytes } => RadioResponse::Unknown {
                data: slice_to_vec(bytes.as_slice()),
            },
            _ => RadioResponse::Unknown { data: Vec::new() },
        }
    }
}

impl ToRadioRequest for YaesuCommand {
    fn to_radio_request(&self) -> (r: RadioRequest)
        ensures
            r@ == yaesu_to_request(*self),
    {
        match self {
            YaesuCommand::SetFrequency { hz } => RadioRequest::SetFrequency { hz: *hz },
            YaesuCommand::GetFrequencyMode => RadioRequest::GetFrequency,
            YaesuCommand::SetMode { mode } => RadioRequest::SetMode {
                mode: yaesu_mode_to_operating_mode(*mode),
            },
            YaesuCommand::PttOn => RadioRequest::SetPtt { active: true },
            YaesuCommand::PttOff => RadioRequest::SetPtt { active: false },
            YaesuCommand::ToggleVfo => RadioRequest::SetVfo { vfo: Vfo::B },
            YaesuCommand::SplitOn => RadioRequest::SetVfo { vfo: Vfo::Split },
            YaesuCommand::SplitOff => RadioRequest::SetVfo { vfo: Vfo::A },
            YaesuCommand::ReadRxStatus => RadioRequest::GetStatus,
            YaesuCommand::ReadTxStatus => RadioRequest::GetPtt,
            YaesuCommand::PowerOn => RadioRequest::SetPower { on: true },
            YaesuCommand::PowerOff => RadioRequest::SetPower { on: false },
            YaesuCommand::Unknown { bytes } => RadioRequest::Unknown {
                data: slice_to_vec(bytes.as_slice()),
            },
            _ => RadioRequest::Unknown { data: Vec::new() },
        }
    }
}

impl FromRadioRequest for YaesuCommand {
    fn from_radio_request(req: &RadioRequest) -> (r: Option<YaesuCommand>)
        ensures
            r == yaesu_from_request(req@),
    {
        match req {
            RadioRequest::SetFrequency { hz } => Some(YaesuCommand::SetFrequency { hz: *hz }),
            RadioRequest::GetFrequency => Some(YaesuCommand::GetFrequencyMode),
            RadioRequest::SetMode { mode } => Some(
                YaesuCommand::SetMode { mode: operating_mode_to_yaesu(*mode) },
            ),
            RadioRequest::GetMode => Some(YaesuCommand::GetFrequencyMode),
            RadioRequest::SetPtt { active } => Some(
                if *active {
                    YaesuCommand::PttOn
                } else {
                    YaesuCommand::PttOff
                },
            ),
            RadioRequest::GetPtt => Some(YaesuCommand::ReadTxStatus),
            RadioRequest::GetStatus => Some(YaesuCommand::ReadRxStatus),
            RadioRequest::SetVfo { vfo } => Some(
                match vfo {
                    Vfo::Split => YaesuCommand::SplitOn,
                    _ => YaesuCommand::ToggleVfo,
                },
            ),
            RadioRequest::SetPower { on } => Some(
                if *on {
                    YaesuCommand::PowerOn
                } else {
                    YaesuCommand::PowerOff
                },
            ),
            _ => None,
        }
    }
}

impl FromRadioResponse for YaesuCommand {
    fn from_radio_response(resp: &RadioResponse) -> (r: Option<YaesuCommand>)
        ensures
            r == yaesu_from_response(resp@),
    {
        match resp {
            RadioResponse::Frequency { hz } => Some(YaesuCommand::SetFrequency { hz: *hz }),
            RadioResponse::Mode { mode } => Some(
                YaesuCommand::SetMode { mode: operating_mode_to_yaesu(*mode) },
            ),
            RadioResponse::Ptt { active } => Some(
                if *active {
                    YaesuCommand::PttOn
                } else {
                    YaesuCommand::PttOff
                },
            ),
            _ => None,
        }
    }
}

/// Five bytes: four zero parameters and an opcode.
fn opcode_only(op: u8) -> (r: Vec<u8>)
    ensures
        r@ == seq![0u8, 0, 0, 0, op],
{
    let r = vec![0u8, 0u8, 0u8, 0u8, op];
    proof {
        assert(r@ =~= seq![0u8, 0, 0, 0, op]);
    }
    r
}

impl EncodeCommand for YaesuCommand {
    fn encode(&self) -> (r: Vec<u8>)
        ensures
            r@ == yaesu_encode(*self),
    {
        match self {
            YaesuCommand::SetFrequency { hz } => {
                let mut bytes = frequency_to_bcd_be(*hz);
                bytes.push(0x01);
                bytes
            },
            YaesuCommand::GetFrequencyMode => opcode_only(0x03),
            YaesuCommand::FrequencyModeReport { hz, mode } => {
                let mut bytes = frequency_to_bcd_be(*hz);
                bytes.push(*mode);
                bytes
            },
            YaesuCommand::SetMode { mode } => {
                let r = vec![*mode, 0x00, 0x00, 0x00, 0x07];
                proof {
                    assert(r@ =~= seq![*mode, 0, 0, 0, 0x07]);
                }
                r
            },
            YaesuCommand::PttOn => opcode_only(0x08),
            YaesuCommand::PttOff => opcode_only(0x88),
            YaesuCommand::ToggleVfo => opcode_only(0x81),
            YaesuCommand::SplitOn => opcode_only(0x02),
            YaesuCommand::SplitOff => opcode_only(0x82),
            YaesuCommand::ReadRxStatus => opcode_only(0xE7),
            YaesuCommand::RxStatusReport { status } => {
                let r = vec![*status];
                proof {
                    assert(r@ =~= seq![*status]);
                }
                r
            },
            YaesuCommand::ReadTxStatus => opcode_only(0xF7),
            YaesuCommand::TxStatusReport { status } => {
                let r = vec![*status];
                proof {
                    assert(r@ =~= seq![*status]);
                }
                r
            },
            YaesuCommand::PowerOn => opcode_only(0x0F),
            YaesuCommand::PowerOff => opcode_only(0x8F),
            YaesuCommand::LockOn => opcode_only(0x00),
            YaesuCommand::LockOff => opcode_only(0x80),
            YaesuCommand::Unknown { bytes } => slice_to_vec(bytes.as_slice()),
        }
    }
}

impl RadioCodec for YaesuCodec {
    fn push_bytes(&mut self, data: &[u8])
        ensures
            final(self)@ == (old(self)@.0 + data@, old(self)@.1),
    {
        push_all(&mut self.buffer, data);
    }

    fn next_response(&mut self) -> (r: Option<RadioResponse>)
        ensures
            old(self)@.0.len() < yaesu_take_len(old(self)@.1) ==> r is None && final(self)@ == old(self)@,
            old(self)@.0.len() >= yaesu_take_len(old(self)@.1) ==> {
                let n = yaesu_take_len(old(self)@.1) as int;
                &&& r matches Some(resp) && exists|c: YaesuCommand|
                    yaesu_decoded_is(old(self)@.1, old(self)@.0.subrange(0, n), c) && resp@
                        == yaesu_to_response(c)
                &&& final(self)@ == (old(self)@.0.subrange(n, old(self)@.0.len() as int), None::<usize>)
            },
    {
        match ProtocolCodec::next_command(self) {
            Some(c) => Some(c.to_radio_response()),
            None => None,
        }
    }

    fn next_response_with_bytes(&mut self) -> (r: Option<(RadioResponse, Vec<u8>)>)
        ensures
            old(self)@.0.len() < yaesu_take_len(old(self)@.1) ==> r is None && final(self)@ == old(self)@,
            old(self)@.0.len() >= yaesu_take_len(old(self)@.1) ==> {
                let n = yaesu_take_len(old(self)@.1) as int;
                &&& r matches Some((resp, bytes)) && bytes@ == old(self)@.0.subrange(0, n)
                    && exists|c: YaesuCommand| yaesu_decoded_is(old(self)@.1, bytes@, c) && resp@
                        == yaesu_to_response(c)
                &&& final(self)@ == (old(self)@.0.subrange(n, old(self)@.0.len() as int), None::<usize>)
            },
    {
        match ProtocolCodec::next_command_with_bytes(self) {
            Some((c, bytes)) => Some((c.to_radio_response(), bytes)),
            None => None,
        }
    }

    fn next_request(&mut self) -> (r: Option<RadioRequest>)
        ensures
            old(self)@.0.len() < yaesu_take_len(old(self)@.1) ==> r is None && final(self)@ == old(self)@,
            old(self)@.0.len() >= yaesu_take_len(old(self)@.1) ==> {
                let n = yaesu_take_len(old(self)@.1) as int;
                &&& r matches Some(req) && exists|c: YaesuCommand|
                    yaesu_decoded_is(old(self)@.1, old(self)@.0.subrange(0, n), c) && req@
                        == yaesu_to_request(c)
                &&& final(self)@ == (old(self)@.0.subrange(n, old(self)@.0.len() as int), None::<usize>)
            },
    {
        match ProtocolCodec::next_command(self) {
            Some(c) => Some(c.to_radio_request()),
            None => None,
        }
    }

    fn next_request_with_bytes(&mut self) -> (r: Option<(RadioRequest, Vec<u8>)>)
        ensures
            old(self)@.0.len() < yaesu_take_len(old(self)@.1) ==> r is None && final(self)@ == old(self)@,
            old(self)@.0.len() >= yaesu_take_len(old(self)@.1) ==> {
                let n = yaesu_take_len(old(self)@.1) as int;
                &&& r matches Some((req, bytes)) && bytes@ == old(self)@.0.subrange(0, n)
                    && exists|c: YaesuCommand| yaesu_decoded_is(old(self)@.1, bytes@, c) && req@
                        == yaesu_to_request(c)
                &&& final(self)@ == (old(self)@.0.subrange(n, old(self)@.0.len() as int), None::<usize>)
            },
    {
        match ProtocolCodec::next_command_with_bytes(self) {
            Some((c, bytes)) => Some((c.to_radio_request(), bytes)),
            None => None,
        }
    }

    fn clear(&mut self)
        ensures
            final(self)@ == (Seq::<u8>::empty(), None::<usize>),
    {
        self.buffer.clear();
        self.expected_response_len = None;
    }
}

/// Generate a probe command to detect Yaesu radios: the read
/// frequency/mode command.
pub fn probe_command() -> (r: Vec<u8>)
    ensures
        r@ == seq![0u8, 0, 0, 0, 0x03],
{
    opcode_only(0x03)
}

/// Expected response length for the probe command: frequency (4 bytes) and
/// mode (1 byte).
pub fn probe_response_len() -> (r: usize)
    ensures
        r == 5,
{
    5
}

/// Commands the codec reads back as themselves: any five-byte command
/// except a frequency that is not a whole multiple of 10 Hz below 10^9 Hz,
/// a report, or raw bytes carrying a known opcode.
pub open spec fn yaesu_wire_form(c: YaesuCommand) -> bool {
    match c {
        YaesuCommand::SetFrequency { hz } => hz % 10 == 0 && hz < 1_000_000_000,
        YaesuCommand::FrequencyModeReport { .. } => false,
        YaesuCommand::RxStatusReport { .. } => false,
        YaesuCommand::TxStatusReport { .. } => false,
        YaesuCommand::Unknown { bytes } => yaesu_opcode_of(bytes@[4]) is None,
        _ => true,
    }
}

/// Round trip through the stream: a five-byte command encoded and pushed
/// into an idle codec comes back out unchanged, and the codec is left idle.
pub proof fn law_yaesu_encode_then_parse(c: YaesuCommand)
    requires
        yaesu_wire_form(c),
    ensures
        yaesu_encode(c).len() == COMMAND_LEN,
        yaesu_take_len(None) == yaesu_encode(c).len(),
        yaesu_decoded_is(None, yaesu_encode(c), c),
        yaesu_encode(c).subrange(COMMAND_LEN as int, COMMAND_LEN as int) == Seq::<u8>::empty(),
        Seq::<u8>::empty().len() < yaesu_take_len(None),
{
    let e = yaesu_encode(c);
    match c {
        YaesuCommand::SetFrequency { hz } => {
            law_yaesu_bcd_roundtrip(hz, 0x01);
            assert(hz / 10 * 10 == hz);
        },
        YaesuCommand::Unknown { bytes } => {
            let b = bytes@[4];
            if b == 0x00 || b == 0x80 || b == 0x01 || b == 0x03 || b == 0x07 || b == 0x81 || b == 0x02
                || b == 0x82 || b == 0xE7 || b == 0xF7 || b == 0x0F || b == 0x8F || b == 0x08 || b
                == 0x88 {
                let o = if b == 0x00 {
                    YaesuOpcode::LockOn
                } else if b == 0x80 {
                    YaesuOpcode::LockOff
                } else if b == 0x01 {
                    YaesuOpcode::SetFrequency
                } else if b == 0x03 {
                    YaesuOpcode::ReadFreqMode
                } else if b == 0x07 {
                    YaesuOpcode::SetMode
                } else if b == 0x81 {
                    YaesuOpcode::ToggleVfo
                } else if b == 0x02 {
                    YaesuOpcode::SplitOn
                } else if b == 0x82 {
                    YaesuOpcode::SplitOff
                } else if b == 0xE7 {
                    YaesuOpcode::ReadRxStatus
                } else if b == 0xF7 {
                    YaesuOpcode::ReadTxStatus
                } else if b == 0x0F {
                    YaesuOpcode::PowerOn
                } else if b == 0x8F {
                    YaesuOpcode::PowerOff
                } else if b == 0x08 {
                    YaesuOpcode::PttOn
                } else {
                    YaesuOpcode::PttOff
                };
                assert(yaesu_opcode_byte(o) == b);
            }
        },
        _ => {},
    }
    assert(e.subrange(COMMAND_LEN as int, COMMAND_LEN as int) =~= Seq::<u8>::empty());
}

} // verus!
