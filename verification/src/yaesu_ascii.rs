//! Yaesu ASCII CAT Protocol
//!
//! Modern Yaesu radios (FT-991, FT-991A, FTDX-101D, FTDX-10, FT-710) use an
//! ASCII protocol similar to Kenwood, with semicolon-terminated commands.
//!
//! Differences from Kenwood:
//! - frequencies have 9 digits (1 Hz resolution): `FA014250000;`
//! - the mode command carries a receiver selector: `MD02;` (0 = main, 2 = USB)
//! - mode codes go up to `E` (C4FM, DATA-FM, ...)
//! - ID responses: FT-991 = 0570, FTDX-101D = 0681, FTDX-10 = 0761

pub mod radio_ids;

use vstd::prelude::*;
use vstd::slice::{slice_subrange, slice_to_vec};
use vstd::string::StringSliceAdditionalSpecFns;
use vstd::utf8::encode_utf8;

use crate::command::{OperatingMode, RadioRequest, RadioResponse, RequestModel, ResponseModel, Vfo};
use crate::error::ParseError;
use crate::kenwood::{
    ascii2, flag_digit, is_zero_param, is_zero_text, opt_flag, push2, push_flag, vfo_from_digit,
    vfo_of_digit,
};
use crate::protocol::{
    EncodeCommand, FromRadioRequest, FromRadioResponse, ProtocolCodec, RadioCodec, ToRadioRequest,
    ToRadioResponse,
};
use crate::stream::{buffer_after_push, next_frame, push_limited, take_frame, lemma_first_index_of_found};
use crate::text::{
    all_digits, dec, dec_padded, is_digit, parse_i32, parse_i32_spec, parse_u16, parse_u16_spec,
    parse_u64, parse_u64_spec, parse_u8, parse_u8_spec, push_all, push_dec, push_dec_padded,
    text_from_bytes, wire_text,
};

verus! {

broadcast use vstd::utf8::group_utf8_lib;

/// Yaesu ASCII frequency digit count (9 digits = 1 Hz resolution up to 999 MHz)
pub const FREQ_DIGITS: usize = 9;

/// Yaesu ASCII protocol command
#[derive(Debug, Clone, PartialEq, Eq)]
pub enum YaesuAsciiCommand {
    /// Set/get VFO A frequency: FA014250000;
    FrequencyA(Option<u64>),
    /// Set/get VFO B frequency: FB007074000;
    FrequencyB(Option<u64>),
    /// Set/get mode: MD02; (P1 = receiver 0 = main, P2 = mode)
    Mode {
        /// Receiver selector (0=main, 1=sub if available)
        receiver: u8,
        /// Mode value (None = query)
        mode: Option<u8>,
    },
    /// Transmit: TX0; (0=off) or TX1; (1=on) or TX2; (tune)
    Transmit(Option<u8>),
    /// Radio identification query: ID;
    Id(Option<String>),
    /// Information/status query: IF...;
    Info(Option<YaesuAsciiInfo>),
    /// VFO select: VS0; (0=VFO A, 1=VFO B)
    VfoSelect(Option<u8>),
    /// Split mode: ST0; or ST1;
    Split(Option<bool>),
    /// Power on/off: PS0; or PS1;
    Power(Option<bool>),
    /// Auto-information mode: AI0; (off) or AI1; (on) or AI; (query)
    AutoInfo(Option<bool>),
    /// S-meter/power meter read: SM0; (returns SM0xxx;)
    SMeter(Option<u16>),
    /// RF power output setting: PC000-100;
    RfPower(Option<u8>),
    /// Unknown/unrecognized command
    Unknown(String),
}

/// Parsed IF (information) response data for Yaesu ASCII
#[derive(Debug, Clone, Copy, PartialEq, Eq)]
pub struct YaesuAsciiInfo {
    /// Memory channel number
    pub memory_channel: u16,
    /// Current frequency in Hz
    pub frequency_hz: u64,
    /// Clarifier direction (+/-)
    pub clar_direction: i8,
    /// RIT/XIT offset in Hz
    pub clar_offset: i32,
    /// Clarifier on/off
    pub clar_on: bool,
    /// Operating mode
    pub mode: u8,
    /// VFO/Memory mode (0=VFO, 1=Memory)
    pub vfo_memory: u8,
    /// CTCSS/DCS status
    pub ctcss_dcs: u8,
    /// TX status (0=RX, 1=TX)
    pub tx: bool,
    /// Operating status
    pub operation: u8,
}

/// The mathematical value of a `YaesuAsciiCommand`.
pub enum YaesuAsciiModel {
    FrequencyA(Option<u64>),
    FrequencyB(Option<u64>),
    Mode { receiver: u8, mode: Option<u8> },
    Transmit(Option<u8>),
    Id(Option<Seq<char>>),
    Info(Option<YaesuAsciiInfo>),
    VfoSelect(Option<u8>),
    Split(Option<bool>),
    Power(Option<bool>),
    AutoInfo(Option<bool>),
    SMeter(Option<u16>),
    RfPower(Option<u8>),
    Unknown(Seq<char>),
}

impl View for YaesuAsciiCommand {
    type V = YaesuAsciiModel;

    open spec fn view(&self) -> YaesuAsciiModel {
        match self {
            YaesuAsciiCommand::FrequencyA(f) => YaesuAsciiModel::FrequencyA(*f),
            YaesuAsciiCommand::FrequencyB(f) => YaesuAsciiModel::FrequencyB(*f),
            YaesuAsciiCommand::Mode { receiver, mode } => YaesuAsciiModel::Mode {
                receiver: *receiver,
                mode: *mode,
            },
            YaesuAsciiCommand::Transmit(t) => YaesuAsciiModel::Transmit(*t),
            YaesuAsciiCommand::Id(id) => YaesuAsciiModel::Id(
                match id {
                    Some(s) => Some(s@),
                    None => None,
                },
            ),
            YaesuAsciiCommand::Info(i) => YaesuAsciiModel::Info(*i),
            YaesuAsciiCommand::VfoSelect(v) => YaesuAsciiModel::VfoSelect(*v),
            YaesuAsciiCommand::Split(s) => YaesuAsciiModel::Split(*s),
            YaesuAsciiCommand::Power(p) => YaesuAsciiModel::Power(*p),
            YaesuAsciiCommand::AutoInfo(a) => YaesuAsciiModel::AutoInfo(*a),
            YaesuAsciiCommand::SMeter(v) => YaesuAsciiModel::SMeter(*v),
            YaesuAsciiCommand::RfPower(v) => YaesuAsciiModel::RfPower(*v),
            YaesuAsciiCommand::Unknown(s) => YaesuAsciiModel::Unknown(s@),
        }
    }
}

// ---------------------------------------------------------------------------
// Mode characters and numbers
// ---------------------------------------------------------------------------

/// The mode number a mode character denotes: `0`-`9`, then `A`-`E` (either
/// case) for 10-14.
pub open spec fn ya_mode_of_char(c: u8) -> Option<u8> {
    if 48 <= c <= 57 {
        Some((c - 48) as u8)
    } else if 65 <= c <= 69 {
        Some((c - 55) as u8)
    } else if 97 <= c <= 101 {
        Some((c - 87) as u8)
    } else {
        None
    }
}

/// The character written for a mode number: `1`-`9`, `A`-`E`, and `2`
/// (USB) for anything else.
pub open spec fn ya_char_of_mode(mode: u8) -> u8 {
    if 1 <= mode <= 9 {
        (48 + mode) as u8
    } else if 10 <= mode <= 14 {
        (55 + mode) as u8
    } else {
        50u8
    }
}

/// The error a malformed frame (without its terminator) gives:
/// `InvalidFrame` with its reason for a short frame, an `IF` report that is
/// too short, or a bad receiver, TX value, VFO, S-meter reading or power;
/// `InvalidFrequency` with the parameters for a bad frequency;
/// `InvalidMode` with the character for a bad mode character.
pub open spec fn ya_error_is(cmd: Seq<u8>, e: ParseError) -> bool {
    if cmd.len() < 2 {
        e matches ParseError::InvalidFrame(m) && m@ == "command too short"@
    } else {
        let a = cmd[0];
        let b = cmd[1];
        let p = cmd.subrange(2, cmd.len() as int);
        if a == 70u8 && (b == 65u8 || b == 66u8) {
            e matches ParseError::InvalidFrequency(t) && t@ == wire_text(p)
        } else if a == 77u8 && b == 68u8 {
            if p.len() >= 2 && parse_u8_spec(p.subrange(0, 1)) is Some {
                e matches ParseError::InvalidMode(t) && t@ == wire_text(seq![p[1]])
            } else {
                e matches ParseError::InvalidFrame(m) && m@ == "invalid receiver"@
            }
        } else if a == 84u8 && b == 88u8 {
            e matches ParseError::InvalidFrame(m) && m@ == "invalid TX value"@
        } else if a == 73u8 && b == 70u8 {
            e matches ParseError::InvalidFrame(m) && m@ == "IF response too short"@
        } else if a == 86u8 && b == 83u8 {
            e matches ParseError::InvalidFrame(m) && m@ == "invalid VFO"@
        } else if a == 83u8 && b == 77u8 {
            e matches ParseError::InvalidFrame(m) && m@ == "invalid S-meter"@
        } else {
            e matches ParseError::InvalidFrame(m) && m@ == "invalid power"@
        }
    }
}

/// Parse Yaesu mode character to numeric value
fn parse_yaesu_mode_char(c: u8) -> (r: Result<u8, ParseError>)
    ensures
        r matches Ok(m) ==> ya_mode_of_char(c) == Some(m),
        r is Err <==> ya_mode_of_char(c) is None,
        r matches Err(e) ==> e matches ParseError::InvalidMode(t) && t@ == wire_text(seq![c]),
{
    if 48 <= c && c <= 57 {
        Ok(c - 48)
    } else if 65 <= c && c <= 69 {
        Ok(c - 55)
    } else if 97 <= c && c <= 101 {
        Ok(c - 87)
    } else {
        let mut msg: Vec<u8> = Vec::new();
        msg.push(c);
        Err(ParseError::InvalidMode(text_from_bytes(msg.as_slice())))
    }
}

/// Convert Yaesu mode to character for encoding
fn yaesu_mode_to_char(mode: u8) -> (r: u8)
    ensures
        r == ya_char_of_mode(mode),
{
    if 1 <= mode && mode <= 9 {
        48 + mode
    } else if 10 <= mode && mode <= 14 {
        55 + mode
    } else {
        50
    }
}

pub open spec fn ya_mode_spec(mode: u8) -> OperatingMode {
    match mode {
        1 => OperatingMode::Lsb,
        2 => OperatingMode::Usb,
        3 => OperatingMode::Cw,
        4 => OperatingMode::Fm,
        5 => OperatingMode::Am,
        6 => OperatingMode::Rtty,
        7 => OperatingMode::CwR,
        8 => OperatingMode::DataL,
        9 => OperatingMode::RttyR,
        10 => OperatingMode::Data,
        11 => OperatingMode::FmN,
        12 => OperatingMode::DataU,
        13 => OperatingMode::Am,
        14 => OperatingMode::Fm,
        _ => OperatingMode::Usb,
    }
}

pub open spec fn ya_mode_number(mode: OperatingMode) -> u8 {
    match mode {
        OperatingMode::Lsb => 1,
        OperatingMode::Usb => 2,
        OperatingMode::Cw => 3,
        OperatingMode::Fm => 4,
        OperatingMode::Am => 5,
        OperatingMode::Rtty => 6,
        OperatingMode::CwR => 7,
        OperatingMode::DataL | OperatingMode::DigL => 8,
        OperatingMode::RttyR => 9,
        OperatingMode::Data | OperatingMode::Dig | OperatingMode::Pkt => 10,
        OperatingMode::FmN => 11,
        OperatingMode::DataU | OperatingMode::DigU => 12,
    }
}

/// Convert Yaesu ASCII mode number to OperatingMode
pub(crate) fn yaesu_mode_to_operating_mode(mode: u8) -> (r: OperatingMode)
    ensures
        r == ya_mode_spec(mode),
{
    match mode {
        1 => OperatingMode::Lsb,
        2 => OperatingMode::Usb,
        3 => OperatingMode::Cw,
        4 => OperatingMode::Fm,
        5 => OperatingMode::Am,
        6 => OperatingMode::Rtty,
        7 => OperatingMode::CwR,
        8 => OperatingMode::DataL,
        9 => OperatingMode::RttyR,
        10 => OperatingMode::Data,
        11 => OperatingMode::FmN,
        12 => OperatingMode::DataU,
        13 => OperatingMode::Am,
        14 => OperatingMode::Fm,
        _ => OperatingMode::Usb,
    }
}

/// Convert OperatingMode to Yaesu ASCII mode number
pub(crate) fn operating_mode_to_yaesu(mode: OperatingMode) -> (r: u8)
    ensures
        r == ya_mode_number(mode),
{
    match mode {
        OperatingMode::Lsb => 1,
        OperatingMode::Usb => 2,
        OperatingMode::Cw => 3,
        OperatingMode::Fm => 4,
        OperatingMode::Am => 5,
        OperatingMode::Rtty => 6,
        OperatingMode::CwR => 7,
        OperatingMode::DataL | OperatingMode::DigL => 8,
        OperatingMode::RttyR => 9,
        OperatingMode::Data | OperatingMode::Dig | OperatingMode::Pkt => 10,
        OperatingMode::FmN => 11,
        OperatingMode::DataU | OperatingMode::DigU => 12,
    }
}

/// Mode characters round trip: every mode number from 1 to 14 is written as
/// a character that reads back as that number, and every mode the encoder
/// picks is in that range.
pub proof fn law_ya_mode_char_roundtrip(mode: u8)
    ensures
        1 <= mode <= 14 ==> ya_mode_of_char(ya_char_of_mode(mode)) == Some(mode),
        1 <= ya_mode_number(ya_mode_spec(mode)) <= 12,
{
}

// ---------------------------------------------------------------------------
// Wire grammar (specification)
// ---------------------------------------------------------------------------

pub open spec fn or_zero<T>(v: Option<T>, zero: T) -> T {
    match v {
        Some(x) => x,
        None => zero,
    }
}

/// The clarifier direction sign character: `+` is 1, `-` is -1.
pub open spec fn clar_sign(c: u8) -> i8 {
    if c == 43u8 {
        1
    } else if c == 45u8 {
        -1i8
    } else {
        0
    }
}

/// The IF report: 3-digit memory channel, 9-digit frequency, clarifier
/// sign at 12 and 4-digit offset at 13, clarifier flag at 17, TX flag at 19,
/// mode character at 20 (USB when absent or unreadable), VFO/memory digit at
/// 21.
pub open spec fn ya_parse_info(p: Seq<u8>) -> Option<YaesuAsciiInfo> {
    if p.len() < 20 {
        None
    } else {
        let dir = clar_sign(p[12]);
        Some(
            YaesuAsciiInfo {
                memory_channel: or_zero(parse_u16_spec(p.subrange(0, 3)), 0u16),
                frequency_hz: or_zero(parse_u64_spec(p.subrange(3, 12)), 0u64),
                clar_direction: dir,
                clar_offset: (or_zero(parse_i32_spec(p.subrange(13, 17)), 0i32) * dir) as i32,
                clar_on: p[17] == 49u8,
                mode: if p.len() > 20 {
                    or_zero(ya_mode_of_char(p[20]), 2u8)
                } else {
                    2u8
                },
                vfo_memory: if p.len() > 21 && is_digit(p[21]) {
                    (p[21] - 48) as u8
                } else {
                    0u8
                },
                ctcss_dcs: 0,
                tx: p[19] == 49u8,
                operation: 0,
            },
        )
    }
}

/// The command a frame (without its terminator) denotes, or `None` when it
/// is malformed.
pub open spec fn ya_parse(cmd: Seq<u8>) -> Option<YaesuAsciiModel> {
    if cmd.len() < 2 {
        None
    } else {
        let a = cmd[0];
        let b = cmd[1];
        let p = cmd.subrange(2, cmd.len() as int);
        if a == 70u8 && (b == 65u8 || b == 66u8) {
            let f = if p.len() == 0 {
                Some(None)
            } else {
                match parse_u64_spec(p) {
                    Some(v) => Some(Some(v)),
                    None => None,
                }
            };
            match f {
                Some(x) => Some(
                    if b == 65u8 {
                        YaesuAsciiModel::FrequencyA(x)
                    } else {
                        YaesuAsciiModel::FrequencyB(x)
                    },
                ),
                None => None,
            }
        } else if a == 77u8 && b == 68u8 {
            if p.len() == 0 {
                Some(YaesuAsciiModel::Mode { receiver: 0, mode: None })
            } else if p.len() == 1 {
                match parse_u8_spec(p) {
                    Some(r) => Some(YaesuAsciiModel::Mode { receiver: r, mode: None }),
                    None => None,
                }
            } else {
                match parse_u8_spec(p.subrange(0, 1)) {
                    Some(r) => match ya_mode_of_char(p[1]) {
                        Some(m) => Some(YaesuAsciiModel::Mode { receiver: r, mode: Some(m) }),
                        None => None,
                    },
                    None => None,
                }
            }
        } else if a == 84u8 && b == 88u8 {
            if p.len() == 0 {
                Some(YaesuAsciiModel::Transmit(Some(1)))
            } else {
                match parse_u8_spec(p) {
                    Some(t) => Some(YaesuAsciiModel::Transmit(Some(t))),
                    None => None,
                }
            }
        } else if a == 73u8 && b == 68u8 {
            Some(
                YaesuAsciiModel::Id(
                    if p.len() == 0 {
                        None
                    } else {
                        Some(wire_text(p))
                    },
                ),
            )
        } else if a == 73u8 && b == 70u8 {
            if p.len() == 0 {
                Some(YaesuAsciiModel::Info(None))
            } else {
                match ya_parse_info(p) {
                    Some(i) => Some(YaesuAsciiModel::Info(Some(i))),
                    None => None,
                }
            }
        } else if a == 86u8 && b == 83u8 {
            if p.len() == 0 {
                Some(YaesuAsciiModel::VfoSelect(None))
            } else {
                match parse_u8_spec(p) {
                    Some(v) => Some(YaesuAsciiModel::VfoSelect(Some(v))),
                    None => None,
                }
            }
        } else if a == 83u8 && b == 84u8 {
            Some(YaesuAsciiModel::Split(opt_flag(p)))
        } else if a == 80u8 && b == 83u8 {
            Some(YaesuAsciiModel::Power(opt_flag(p)))
        } else if a == 65u8 && b == 73u8 {
            Some(YaesuAsciiModel::AutoInfo(opt_flag(p)))
        } else if a == 83u8 && b == 77u8 {
            if p.len() <= 1 {
                Some(YaesuAsciiModel::SMeter(None))
            } else {
                match parse_u16_spec(p.subrange(1, p.len() as int)) {
                    Some(v) => Some(YaesuAsciiModel::SMeter(Some(v))),
                    None => None,
                }
            }
        } else if a == 80u8 && b == 67u8 {
            if p.len() == 0 {
                Some(YaesuAsciiModel::RfPower(None))
            } else {
                match parse_u8_spec(p) {
                    Some(v) => Some(YaesuAsciiModel::RfPower(Some(v))),
                    None => None,
                }
            }
        } else {
            Some(YaesuAsciiModel::Unknown(wire_text(cmd)))
        }
    }
}

/// What the streaming codec yields for a frame: its command, or an
/// `Unknown` holding the frame text when it is malformed.
pub open spec fn ya_decode(cmd: Seq<u8>) -> YaesuAsciiModel {
    match ya_parse(cmd) {
        Some(m) => m,
        None => YaesuAsciiModel::Unknown(wire_text(cmd)),
    }
}

/// The body (everything before the `;`) of a command's encoding.
pub open spec fn ya_body(m: YaesuAsciiModel) -> Seq<u8> {
    match m {
        YaesuAsciiModel::FrequencyA(Some(hz)) => ascii2(70u8, 65u8) + dec_padded(hz as nat, 9),
        YaesuAsciiModel::FrequencyA(None) => ascii2(70u8, 65u8),
        YaesuAsciiModel::FrequencyB(Some(hz)) => ascii2(70u8, 66u8) + dec_padded(hz as nat, 9),
        YaesuAsciiModel::FrequencyB(None) => ascii2(70u8, 66u8),
        YaesuAsciiModel::Mode { receiver, mode: Some(md) } => ascii2(77u8, 68u8) + dec(
            receiver as nat,
        ).push(ya_char_of_mode(md)),
        YaesuAsciiModel::Mode { receiver, mode: None } => ascii2(77u8, 68u8) + dec(receiver as nat),
        YaesuAsciiModel::Transmit(Some(t)) => ascii2(84u8, 88u8) + dec(t as nat),
        YaesuAsciiModel::Transmit(None) => ascii2(84u8, 88u8),
        YaesuAsciiModel::Id(Some(id)) => ascii2(73u8, 68u8) + encode_utf8(id),
        YaesuAsciiModel::Id(None) => ascii2(73u8, 68u8),
        YaesuAsciiModel::Info(_) => ascii2(73u8, 70u8),
        YaesuAsciiModel::VfoSelect(Some(v)) => ascii2(86u8, 83u8) + dec(v as nat),
        YaesuAsciiModel::VfoSelect(None) => ascii2(86u8, 83u8),
        YaesuAsciiModel::Split(Some(s)) => ascii2(83u8, 84u8) + flag_digit(s),
        YaesuAsciiModel::Split(None) => ascii2(83u8, 84u8),
        YaesuAsciiModel::Power(Some(on)) => ascii2(80u8, 83u8) + flag_digit(on),
        YaesuAsciiModel::Power(None) => ascii2(80u8, 83u8),
        YaesuAsciiModel::AutoInfo(Some(e)) => ascii2(65u8, 73u8) + flag_digit(e),
        YaesuAsciiModel::AutoInfo(None) => ascii2(65u8, 73u8),
        YaesuAsciiModel::SMeter(Some(v)) => ascii2(83u8, 77u8) + seq![48u8] + dec_padded(v as nat, 3),
        YaesuAsciiModel::SMeter(None) => ascii2(83u8, 77u8) + seq![48u8],
        YaesuAsciiModel::RfPower(Some(p)) => ascii2(80u8, 67u8) + dec_padded(p as nat, 3),
        YaesuAsciiModel::RfPower(None) => ascii2(80u8, 67u8),
        YaesuAsciiModel::Unknown(s) => encode_utf8(s),
    }
}

/// The full wire encoding: the body and a `;`.
pub open spec fn ya_encode(m: YaesuAsciiModel) -> Seq<u8> {
    ya_body(m).push(59u8)
}

// ---------------------------------------------------------------------------
// Conversions (specification)
// ---------------------------------------------------------------------------

pub open spec fn ya_to_response(m: YaesuAsciiModel) -> ResponseModel {
    match m {
        YaesuAsciiModel::FrequencyA(Some(hz)) => ResponseModel::Frequency { hz },
        YaesuAsciiModel::FrequencyB(Some(hz)) => ResponseModel::Frequency { hz },
        YaesuAsciiModel::Mode { mode: Some(md), .. } => ResponseModel::Mode { mode: ya_mode_spec(md) },
        YaesuAsciiModel::Transmit(Some(tx)) => ResponseModel::Ptt { active: tx != 0 },
        YaesuAsciiModel::Id(Some(id)) => ResponseModel::Id { id },
        YaesuAsciiModel::Info(Some(info)) => ResponseModel::Status {
            frequency_hz: Some(info.frequency_hz),
            mode: Some(ya_mode_spec(info.mode)),
            ptt: Some(info.tx),
            vfo: Some(vfo_of_digit(info.vfo_memory)),
        },
        YaesuAsciiModel::VfoSelect(Some(v)) => ResponseModel::Vfo { vfo: vfo_of_digit(v) },
        YaesuAsciiModel::Split(Some(s)) => ResponseModel::Vfo {
            vfo: if s {
                Vfo::Split
            } else {
                Vfo::A
            },
        },
        YaesuAsciiModel::AutoInfo(Some(enabled)) => ResponseModel::AutoInfo { enabled },
        YaesuAsciiModel::Unknown(s) => ResponseModel::Unknown { data: encode_utf8(s) },
        _ => ResponseModel::Unknown { data: Seq::empty() },
    }
}

pub open spec fn ya_to_request(m: YaesuAsciiModel) -> RequestModel {
    match m {
        YaesuAsciiModel::FrequencyA(Some(hz)) => RequestModel::SetFrequency { hz },
        YaesuAsciiModel::FrequencyA(None) => RequestModel::GetFrequency,
        YaesuAsciiModel::FrequencyB(Some(hz)) => RequestModel::SetFrequency { hz },
        YaesuAsciiModel::FrequencyB(None) => RequestModel::GetFrequency,
        YaesuAsciiModel::Mode { mode: Some(md), .. } => RequestModel::SetMode {
            mode: ya_mode_spec(md),
        },
        YaesuAsciiModel::Mode { mode: None, .. } => RequestModel::GetMode,
        YaesuAsciiModel::Transmit(Some(tx)) => RequestModel::SetPtt { active: tx != 0 },
        YaesuAsciiModel::Transmit(None) => RequestModel::GetPtt,
        YaesuAsciiModel::Id(None) => RequestModel::GetId,
        YaesuAsciiModel::Info(None) => RequestModel::GetStatus,
        YaesuAsciiModel::VfoSelect(Some(v)) => RequestModel::SetVfo { vfo: vfo_of_digit(v) },
        YaesuAsciiModel::VfoSelect(None) => RequestModel::GetVfo,
        YaesuAsciiModel::Split(Some(s)) => RequestModel::SetVfo {
            vfo: if s {
                Vfo::Split
            } else {
                Vfo::A
            },
        },
        YaesuAsciiModel::Split(None) => RequestModel::GetVfo,
        YaesuAsciiModel::Power(Some(on)) => RequestModel::SetPower { on },
        YaesuAsciiModel::AutoInfo(Some(enabled)) => RequestModel::SetAutoInfo { enabled },
        YaesuAsciiModel::AutoInfo(None) => RequestModel::GetAutoInfo,
        YaesuAsciiModel::Unknown(s) => RequestModel::Unknown { data: encode_utf8(s) },
        _ => RequestModel::Unknown { data: Seq::empty() },
    }
}

pub open spec fn ya_vfo_model(vfo: Vfo) -> YaesuAsciiModel {
    match vfo {
        Vfo::A => YaesuAsciiModel::VfoSelect(Some(0)),
        Vfo::B => YaesuAsciiModel::VfoSelect(Some(1)),
        Vfo::Split => YaesuAsciiModel::Split(Some(true)),
        Vfo::Memory => YaesuAsciiModel::VfoSelect(Some(0)),
    }
}

pub open spec fn ya_from_request(r: RequestModel) -> Option<YaesuAsciiModel> {
    match r {
        RequestModel::SetFrequency { hz } => Some(YaesuAsciiModel::FrequencyA(Some(hz))),
        RequestModel::GetFrequency => Some(YaesuAsciiModel::FrequencyA(None)),
        RequestModel::SetMode { mode } => Some(
            YaesuAsciiModel::Mode { receiver: 0, mode: Some(ya_mode_number(mode)) },
        ),
        RequestModel::GetMode => Some(YaesuAsciiModel::Mode { receiver: 0, mode: None }),
        RequestModel::SetPtt { active } => Some(
            YaesuAsciiModel::Transmit(
                Some(
                    if active {
                        1
                    } else {
                        0
                    },
                ),
            ),
        ),
        RequestModel::GetPtt => Some(YaesuAsciiModel::Transmit(None)),
        RequestModel::SetVfo { vfo } => Some(ya_vfo_model(vfo)),
        RequestModel::GetVfo => Some(YaesuAsciiModel::VfoSelect(None)),
        RequestModel::GetId => Some(YaesuAsciiModel::Id(None)),
        RequestModel::GetStatus => Some(YaesuAsciiModel::Info(None)),
        RequestModel::SetPower { on } => Some(YaesuAsciiModel::Power(Some(on))),
        RequestModel::SetAutoInfo { enabled } => Some(YaesuAsciiModel::AutoInfo(Some(enabled))),
        RequestModel::GetAutoInfo => Some(YaesuAsciiModel::AutoInfo(None)),
        _ => None,
    }
}

pub open spec fn ya_from_response(r: ResponseModel) -> Option<YaesuAsciiModel> {
    match r {
        ResponseModel::Frequency { hz } => Some(YaesuAsciiModel::FrequencyA(Some(hz))),
        ResponseModel::Mode { mode } => Some(
            YaesuAsciiModel::Mode { receiver: 0, mode: Some(ya_mode_number(mode)) },
        ),
        ResponseModel::Ptt { active } => Some(
            YaesuAsciiModel::Transmit(
                Some(
                    if active {
                        1
                    } else {
                        0
                    },
                ),
            ),
        ),
        ResponseModel::Vfo { vfo } => Some(ya_vfo_model(vfo)),
        ResponseModel::Id { id } => Some(YaesuAsciiModel::Id(Some(id))),
        ResponseModel::AutoInfo { enabled } => Some(YaesuAsciiModel::AutoInfo(Some(enabled))),
        _ => None,
    }
}

// ---------------------------------------------------------------------------
// Codec
// ---------------------------------------------------------------------------

/// Streaming Yaesu ASCII protocol codec
pub struct YaesuAsciiCodec {
    buffer: Vec<u8>,
}

impl View for YaesuAsciiCodec {
    type V = Seq<u8>;

    closed spec fn view(&self) -> Seq<u8> {
        self.buffer@
    }
}

fn u16_or_zero(p: &[u8]) -> (r: u16)
    ensures
        r == or_zero(parse_u16_spec(p@), 0u16),
{
    match parse_u16(p) {
        Some(v) => v,
        None => 0,
    }
}

impl YaesuAsciiCodec {
    /// Create a new Yaesu ASCII codec
    pub fn new() -> (r: Self)
        ensures
            r@ == Seq::<u8>::empty(),
    {
        YaesuAsciiCodec { buffer: Vec::new() }
    }

    /// Parse IF response parameters
    fn parse_info(params: &[u8]) -> (r: Result<YaesuAsciiInfo, ParseError>)
        ensures
            r matches Ok(i) ==> ya_parse_info(params@) == Some(i),
            r is Err <==> ya_parse_info(params@) is None,
            r matches Err(e) ==> e matches ParseError::InvalidFrame(m) && m@ == "IF response too short"@,
    {
        if params.len() < 20 {
            return Err(ParseError::InvalidFrame("IF response too short".to_owned()));
        }
        let memory_channel = u16_or_zero(slice_subrange(params, 0, 3));
        let frequency_hz = match parse_u64(slice_subrange(params, 3, 12)) {
            Some(f) => f,
            None => 0,
        };
        let c = params[12];
        let clar_direction: i8 = if c == 43u8 {
            1
        } else if c == 45u8 {
            -1
        } else {
            0
        };
        let raw_offset = match parse_i32(slice_subrange(params, 13, 17)) {
            Some(v) => v,
            None => 0,
        };
        proof {
            lemma_four_chars_small(params@.subrange(13, 17), raw_offset);
        }
        assert(-9999 <= raw_offset * (clar_direction as i32) <= 9999) by (nonlinear_arith)
            requires
                -9999 <= raw_offset <= 9999,
                -1 <= clar_direction <= 1,
        ;
        let clar_offset = raw_offset * (clar_direction as i32);
        let mode = if params.len() > 20 {
            match parse_yaesu_mode_char(params[20]) {
                Ok(m) => m,
                Err(_) => 2,
            }
        } else {
            2
        };
        let vfo_memory = if params.len() > 21 && params[21] >= 48 && params[21] <= 57 {
            params[21] - 48
        } else {
            0
        };
        Ok(
            YaesuAsciiInfo {
                memory_channel,
                frequency_hz,
                clar_direction,
                clar_offset,
                clar_on: params[17] == 49u8,
                mode,
                vfo_memory,
                ctcss_dcs: 0,
                tx: params[19] == 49u8,
                operation: 0,
            },
        )
    }

    /// Parse a complete command (without terminator)
    fn parse_command(cmd: &[u8]) -> (r: Result<YaesuAsciiCommand, ParseError>)
        ensures
            r matches Ok(c) ==> ya_parse(cmd@) == Some(c@),
            r is Err <==> ya_parse(cmd@) is None,
            r matches Err(e) ==> ya_error_is(cmd@, e),
    {
        if cmd.len() < 2 {
            return Err(ParseError::InvalidFrame("command too short".to_owned()));
        }
        let a = cmd[0];
        let b = cmd[1];
        let params = slice_subrange(cmd, 2, cmd.len());
        if a == 70u8 && (b == 65u8 || b == 66u8) {
            let f = if params.len() == 0 {
                None
            } else {
                match parse_u64(params) {
                    Some(f) => Some(f),
                    None => {
                        return Err(ParseError::InvalidFrequency(text_from_bytes(params)));
                    },
                }
            };
            if b == 65u8 {
                Ok(YaesuAsciiCommand::FrequencyA(f))
            } else {
                Ok(YaesuAsciiCommand::FrequencyB(f))
            }
        } else if a == 77u8 && b == 68u8 {
            if params.len() == 0 {
                Ok(YaesuAsciiCommand::Mode { receiver: 0, mode: None })
            } else if params.len() == 1 {
                match parse_u8(params) {
                    Some(r) => Ok(YaesuAsciiCommand::Mode { receiver: r, mode: None }),
                    None => Err(ParseError::InvalidFrame("invalid receiver".to_owned())),
                }
            } else {
                match parse_u8(slice_subrange(params, 0, 1)) {
                    Some(r) => match parse_yaesu_mode_char(params[1]) {
                        Ok(m) => Ok(YaesuAsciiCommand::Mode { receiver: r, mode: Some(m) }),
                        Err(e) => Err(e),
                    },
                    None => Err(ParseError::InvalidFrame("invalid receiver".to_owned())),
                }
            }
        } else if a == 84u8 && b == 88u8 {
            if params.len() == 0 {
                Ok(YaesuAsciiCommand::Transmit(Some(1)))
            } else {
                match parse_u8(params) {
                    Some(t) => Ok(YaesuAsciiCommand::Transmit(Some(t))),
                    None => Err(ParseError::InvalidFrame("invalid TX value".to_owned())),
                }
            }
        } else if a == 73u8 && b == 68u8 {
            if params.len() == 0 {
                Ok(YaesuAsciiCommand::Id(None))
            } else {
                Ok(YaesuAsciiCommand::Id(Some(text_from_bytes(params))))
            }
        } else if a == 73u8 && b == 70u8 {
            if params.len() == 0 {
                Ok(YaesuAsciiCommand::Info(None))
            } else {
                match Self::parse_info(params) {
                    Ok(info) => Ok(YaesuAsciiCommand::Info(Some(info))),
                    Err(e) => Err(e),
                }
            }
        } else if a == 86u8 && b == 83u8 {
            if params.len() == 0 {
                Ok(YaesuAsciiCommand::VfoSelect(None))
            } else {
                match parse_u8(params) {
                    Some(v) => Ok(YaesuAsciiCommand::VfoSelect(Some(v))),
                    None => Err(ParseError::InvalidFrame("invalid VFO".to_owned())),
                }
            }
        } else if a == 83u8 && b == 84u8 {
            Ok(YaesuAsciiCommand::Split(Self::flag(params)))
        } else if a == 80u8 && b == 83u8 {
            Ok(YaesuAsciiCommand::Power(Self::flag(params)))
        } else if a == 65u8 && b == 73u8 {
            Ok(YaesuAsciiCommand::AutoInfo(Self::flag(params)))
        } else if a == 83u8 && b == 77u8 {
            if params.len() <= 1 {
                Ok(YaesuAsciiCommand::SMeter(None))
            } else {
                match parse_u16(slice_subrange(params, 1, params.len())) {
                    Some(v) => Ok(YaesuAsciiCommand::SMeter(Some(v))),
                    None => Err(ParseError::InvalidFrame("invalid S-meter".to_owned())),
                }
            }
        } else if a == 80u8 && b == 67u8 {
            if params.len() == 0 {
                Ok(YaesuAsciiCommand::RfPower(None))
            } else {
                match parse_u8(params) {
                    Some(v) => Ok(YaesuAsciiCommand::RfPower(Some(v))),
                    None => Err(ParseError::InvalidFrame("invalid power".to_owned())),
                }
            }
        } else {
            Ok(YaesuAsciiCommand::Unknown(text_from_bytes(cmd)))
        }
    }

    /// An optional on/off parameter.
    fn flag(params: &[u8]) -> (r: Option<bool>)
        ensures
            r == opt_flag(params@),
    {
        if params.len() == 0 {
            None
        } else {
            Some(!is_zero_param(params))
        }
    }

    /// Decodes one frame (without its terminator); malformed frames become
    /// `Unknown` with the frame text.
    pub(crate) fn decode_frame(cmd: &[u8]) -> (r: YaesuAsciiCommand)
        ensures
            r@ == ya_decode(cmd@),
    {
        match Self::parse_command(cmd) {
            Ok(c) => c,
            Err(_) => YaesuAsciiCommand::Unknown(text_from_bytes(cmd)),
        }
    }
}

/// A number read from four characters has at most four digits.
proof fn lemma_four_chars_small(p: Seq<u8>, v: i32)
    requires
        p.len() == 4,
        v == or_zero(parse_i32_spec(p), 0i32),
    ensures
        -9999 <= v <= 9999,
{
    if let Some(x) = parse_i32_spec(p) {
        crate::text::lemma_parse_signed_bound(p, i32::MIN as int, i32::MAX as int);
    }
}

impl Default for YaesuAsciiCodec {
    fn default() -> (r: Self)
        ensures
            r@ == Seq::<u8>::empty(),
    {
        Self::new()
    }
}

impl ProtocolCodec for YaesuAsciiCodec {
    type Command = YaesuAsciiCommand;

    fn push_bytes(&mut self, data: &[u8])
        ensures
            final(self)@ == buffer_after_push(old(self)@, data@),
    {
        push_limited(&mut self.buffer, data);
    }

    fn next_command(&mut self) -> (r: Option<YaesuAsciiCommand>)
        ensures
            next_frame(old(self)@, 59u8) matches Some((f, rest)) ==> {
                &&& r matches Some(c) && c@ == ya_decode(f.drop_last())
                &&& final(self)@ == rest
            },
            next_frame(old(self)@, 59u8) is None ==> r is None && final(self)@ == old(self)@,
    {
        match self.next_command_with_bytes() {
            Some((c, _)) => Some(c),
            None => None,
        }
    }

    fn next_command_with_bytes(&mut self) -> (r: Option<(YaesuAsciiCommand, Vec<u8>)>)
        ensures
            next_frame(old(self)@, 59u8) matches Some((f, rest)) ==> {
                &&& r matches Some((c, bytes)) && c@ == ya_decode(f.drop_last()) && bytes@ == f
                &&& final(self)@ == rest
            },
            next_frame(old(self)@, 59u8) is None ==> r is None && final(self)@ == old(self)@,
    {
        match take_frame(&mut self.buffer, 59u8) {
            None => None,
            Some(frame) => {
                proof {
                    lemma_first_index_of_found(old(self)@, 59u8);
                }
                let body = slice_subrange(frame.as_slice(), 0, frame.len() - 1);
                proof {
                    assert(body@ =~= frame@.drop_last());
                }
                let cmd = Self::decode_frame(body);
                Some((cmd, frame))
            },
        }
    }

    fn clear(&mut self)
        ensures
            final(self)@ == Seq::<u8>::empty(),
    {
        self.buffer.clear();
    }
}

// ---------------------------------------------------------------------------
// Conversions
// ---------------------------------------------------------------------------

fn ya_vfo_command(vfo: Vfo) -> (r: YaesuAsciiCommand)
    ensures
        r@ == ya_vfo_model(vfo),
{
    match vfo {
        Vfo::A => YaesuAsciiCommand::VfoSelect(Some(0)),
        Vfo::B => YaesuAsciiCommand::VfoSelect(Some(1)),
        Vfo::Split => YaesuAsciiCommand::Split(Some(true)),
        Vfo::Memory => YaesuAsciiCommand::VfoSelect(Some(0)),
    }
}

impl ToRadioResponse for YaesuAsciiCommand {
    fn to_radio_response(&self) -> (r: RadioResponse)
        ensures
            r@ == ya_to_response(self@),
    {
        match self {
            YaesuAsciiCommand::FrequencyA(Some(hz)) => RadioResponse::Frequency { hz: *hz },
            YaesuAsciiCommand::FrequencyB(Some(hz)) => RadioResponse::Frequency { hz: *hz },
            YaesuAsciiCommand::Mode { mode: Some(m), .. } => RadioResponse::Mode {
                mode: yaesu_mode_to_operating_mode(*m),
            },
            YaesuAsciiCommand::Transmit(Some(tx)) => RadioResponse::Ptt { active: *tx != 0 },
            YaesuAsciiCommand::Id(Some(id)) => RadioResponse::Id { id: id.clone() },
            YaesuAsciiCommand::Info(Some(info)) => RadioResponse::Status {
                frequency_hz: Some(info.frequency_hz),
                mode: Some(yaesu_mode_to_operating_mode(info.mode)),
                ptt: Some(info.tx),
                vfo: Some(vfo_from_digit(info.vfo_memory)),
            },
            YaesuAsciiCommand::VfoSelect(Some(v)) => RadioResponse::Vfo { vfo: vfo_from_digit(*v) },
            YaesuAsciiCommand::Split(Some(s)) => RadioResponse::Vfo {
                vfo: if *s {
                    Vfo::Split
                } else {
                    Vfo::A
                },
            },
            YaesuAsciiCommand::AutoInfo(Some(enabled)) => RadioResponse::AutoInfo {
                enabled: *enabled,
            },
            YaesuAsciiCommand::Unknown(s) => RadioResponse::Unknown {
                data: slice_to_vec(s.as_str().as_bytes()),
            },
            _ => RadioResponse::Unknown { data: Vec::new() },
        }
    }
}

impl ToRadioRequest for YaesuAsciiCommand {
    fn to_radio_request(&self) -> (r: RadioRequest)
        ensures
            r@ == ya_to_request(self@),
    {
        match self {
            YaesuAsciiCommand::FrequencyA(Some(hz)) => RadioRequest::SetFrequency { hz: *hz },
            YaesuAsciiCommand::FrequencyA(None) => RadioRequest::GetFrequency,
            YaesuAsciiCommand::FrequencyB(Some(hz)) => RadioRequest::SetFrequency { hz: *hz },
            YaesuAsciiCommand::FrequencyB(None) => RadioRequest::GetFrequency,
            YaesuAsciiCommand::Mode { mode: Some(m), .. } => RadioRequest::SetMode {
                mode: yaesu_mode_to_operating_mode(*m),
            },
            YaesuAsciiCommand::Mode { mode: None, .. } => RadioRequest::GetMode,
            YaesuAsciiCommand::Transmit(Some(tx)) => RadioRequest::SetPtt { active: *tx != 0 },
            YaesuAsciiCommand::Transmit(None) => RadioRequest::GetPtt,
            YaesuAsciiCommand::Id(None) => RadioRequest::GetId,
            YaesuAsciiCommand::Info(None) => RadioRequest::GetStatus,
            YaesuAsciiCommand::VfoSelect(Some(v)) => RadioRequest::SetVfo { vfo: vfo_from_digit(*v) },
            YaesuAsciiCommand::VfoSelect(None) => RadioRequest::GetVfo,
            YaesuAsciiCommand::Split(Some(s)) => RadioRequest::SetVfo {
                vfo: if *s {
                    Vfo::Split
                } else {
                    Vfo::A
                },
            },
            YaesuAsciiCommand::Split(None) => RadioRequest::GetVfo,
            YaesuAsciiCommand::Power(Some(on)) => RadioRequest::SetPower { on: *on },
            YaesuAsciiCommand::AutoInfo(Some(enabled)) => RadioRequest::SetAutoInfo {
                enabled: *enabled,
            },
            YaesuAsciiCommand::AutoInfo(None) => RadioRequest::GetAutoInfo,
            YaesuAsciiCommand::Unknown(s) => RadioRequest::Unknown {
                data: slice_to_vec(s.as_str().as_bytes()),
            },
            _ => RadioRequest::Unknown { data: Vec::new() },
        }
    }
}

impl FromRadioRequest for YaesuAsciiCommand {
    fn from_radio_request(req: &RadioRequest) -> (r: Option<YaesuAsciiCommand>)
        ensures
            r matches Some(c) ==> ya_from_request(req@) == Some(c@),
            r is None <==> ya_from_request(req@) is None,
    {
        match req {
            RadioRequest::SetFrequency { hz } => Some(YaesuAsciiCommand::FrequencyA(Some(*hz))),
            RadioRequest::GetFrequency => Some(YaesuAsciiCommand::FrequencyA(None)),
            RadioRequest::SetMode { mode } => Some(
                YaesuAsciiCommand::Mode { receiver: 0, mode: Some(operating_mode_to_yaesu(*mode)) },
            ),
            RadioRequest::GetMode => Some(YaesuAsciiCommand::Mode { receiver: 0, mode: None }),
            RadioRequest::SetPtt { active } => Some(
                YaesuAsciiCommand::Transmit(
                    Some(
                        if *active {
                            1
                        } else {
                            0
                        },
                    ),
                ),
            ),
            RadioRequest::GetPtt => Some(YaesuAsciiCommand::Transmit(None)),
            RadioRequest::SetVfo { vfo } => Some(ya_vfo_command(*vfo)),
            RadioRequest::GetVfo => Some(YaesuAsciiCommand::VfoSelect(None)),
            RadioRequest::GetId => Some(YaesuAsciiCommand::Id(None)),
            RadioRequest::GetStatus => Some(YaesuAsciiCommand::Info(None)),
            RadioRequest::SetPower { on } => Some(YaesuAsciiCommand::Power(Some(*on))),
            RadioRequest::SetAutoInfo { enabled } => Some(
                YaesuAsciiCommand::AutoInfo(Some(*enabled)),
            ),
            RadioRequest::GetAutoInfo => Some(YaesuAsciiCommand::AutoInfo(None)),
            _ => None,
        }
    }
}

impl FromRadioResponse for YaesuAsciiCommand {
    fn from_radio_response(resp: &RadioResponse) -> (r: Option<YaesuAsciiCommand>)
        ensures
            r matches Some(c) ==> ya_from_response(resp@) == Some(c@),
            r is None <==> ya_from_response(resp@) is None,
    {
        match resp {
            RadioResponse::Frequency { hz } => Some(YaesuAsciiCommand::FrequencyA(Some(*hz))),
            RadioResponse::Mode { mode } => Some(
                YaesuAsciiCommand::Mode { receiver: 0, mode: Some(operating_mode_to_yaesu(*mode)) },
            ),
            RadioResponse::Ptt { active } => Some(
                YaesuAsciiCommand::Transmit(
                    Some(
                        if *active {
                            1
                        } else {
                            0
                        },
                    ),
                ),
            ),
            RadioResponse::Vfo { vfo } => Some(ya_vfo_command(*vfo)),
            RadioResponse::Id { id } => Some(YaesuAsciiCommand::Id(Some(id.clone()))),
            RadioResponse::AutoInfo { enabled } => Some(YaesuAsciiCommand::AutoInfo(Some(*enabled))),
            _ => None,
        }
    }
}

impl YaesuAsciiCommand {
    /// The bytes before the terminator.
    pub(crate) fn encode_body(&self, out: &mut Vec<u8>)
        ensures
            final(out)@ == old(out)@ + ya_body(self@),
    {
        match self {
            YaesuAsciiCommand::FrequencyA(f) => {
                push2(out, 70u8, 65u8);
                if let Some(hz) = f {
                    push_dec_padded(out, *hz, 9);
                }
            },
            YaesuAsciiCommand::FrequencyB(f) => {
                push2(out, 70u8, 66u8);
                if let Some(hz) = f {
                    push_dec_padded(out, *hz, 9);
                }
            },
            YaesuAsciiCommand::Mode { receiver, mode } => {
                push2(out, 77u8, 68u8);
                push_dec(out, *receiver as u64);
                if let Some(m) = mode {
                    out.push(yaesu_mode_to_char(*m));
                }
            },
            YaesuAsciiCommand::Transmit(t) => {
                push2(out, 84u8, 88u8);
                if let Some(t) = t {
                    push_dec(out, *t as u64);
                }
            },
            YaesuAsciiCommand::Id(id) => {
                push2(out, 73u8, 68u8);
                if let Some(id) = id {
                    push_all(out, id.as_str().as_bytes());
                }
            },
            YaesuAsciiCommand::Info(_) => {
                push2(out, 73u8, 70u8);
            },
            YaesuAsciiCommand::VfoSelect(v) => {
                push2(out, 86u8, 83u8);
                if let Some(v) = v {
                    push_dec(out, *v as u64);
                }
            },
            YaesuAsciiCommand::Split(s) => {
                push2(out, 83u8, 84u8);
                if let Some(s) = s {
                    push_flag(out, *s);
                }
            },
            YaesuAsciiCommand::Power(p) => {
                push2(out, 80u8, 83u8);
                if let Some(p) = p {
                    push_flag(out, *p);
                }
            },
            YaesuAsciiCommand::AutoInfo(a) => {
                push2(out, 65u8, 73u8);
                if let Some(a) = a {
                    push_flag(out, *a);
                }
            },
            YaesuAsciiCommand::SMeter(v) => {
                push2(out, 83u8, 77u8);
                out.push(48u8);
                if let Some(v) = v {
                    push_dec_padded(out, *v as u64, 3);
                }
            },
            YaesuAsciiCommand::RfPower(p) => {
                push2(out, 80u8, 67u8);
                if let Some(p) = p {
                    push_dec_padded(out, *p as u64, 3);
                }
            },
            YaesuAsciiCommand::Unknown(s) => {
                push_all(out, s.as_str().as_bytes());
            },
        }
        proof {
            assert(out@ =~= old(out)@ + ya_body(self@));
        }
    }
}

impl EncodeCommand for YaesuAsciiCommand {
    fn encode(&self) -> (r: Vec<u8>)
        ensures
            r@ == ya_encode(self@),
    {
        let mut out: Vec<u8> = Vec::new();
        self.encode_body(&mut out);
        out.push(59u8);
        proof {
            assert(Seq::<u8>::empty() + ya_body(self@) =~= ya_body(self@));
        }
        out
    }
}

impl RadioCodec for YaesuAsciiCodec {
    fn push_bytes(&mut self, data: &[u8])
        ensures
            final(self)@ == buffer_after_push(old(self)@, data@),
    {
        push_limited(&mut self.buffer, data);
    }

    fn next_response(&mut self) -> (r: Option<RadioResponse>)
        ensures
            next_frame(old(self)@, 59u8) matches Some((f, rest)) ==> {
                &&& r matches Some(resp) && resp@ == ya_to_response(ya_decode(f.drop_last()))
                &&& final(self)@ == rest
            },
            next_frame(old(self)@, 59u8) is None ==> r is None && final(self)@ == old(self)@,
    {
        match ProtocolCodec::next_command(self) {
            Some(c) => Some(c.to_radio_response()),
            None => None,
        }
    }

    fn next_response_with_bytes(&mut self) -> (r: Option<(RadioResponse, Vec<u8>)>)
        ensures
            next_frame(old(self)@, 59u8) matches Some((f, rest)) ==> {
                &&& r matches Some((resp, bytes)) && resp@ == ya_to_response(ya_decode(f.drop_last()))
                    && bytes@ == f
                &&& final(self)@ == rest
            },
            next_frame(old(self)@, 59u8) is None ==> r is None && final(self)@ == old(self)@,
    {
        match ProtocolCodec::next_command_with_bytes(self) {
            Some((c, bytes)) => Some((c.to_radio_response(), bytes)),
            None => None,
        }
    }

    fn next_request(&mut self) -> (r: Option<RadioRequest>)
        ensures
            next_frame(old(self)@, 59u8) matches Some((f, rest)) ==> {
                &&& r matches Some(req) && req@ == ya_to_request(ya_decode(f.drop_last()))
                &&& final(self)@ == rest
            },
            next_frame(old(self)@, 59u8) is None ==> r is None && final(self)@ == old(self)@,
    {
        match ProtocolCodec::next_command(self) {
            Some(c) => Some(c.to_radio_request()),
            None => None,
        }
    }

    fn next_request_with_bytes(&mut self) -> (r: Option<(RadioRequest, Vec<u8>)>)
        ensures
            next_frame(old(self)@, 59u8) matches Some((f, rest)) ==> {
                &&& r matches Some((req, bytes)) && req@ == ya_to_request(ya_decode(f.drop_last()))
                    && bytes@ == f
                &&& final(self)@ == rest
            },
            next_frame(old(self)@, 59u8) is None ==> r is None && final(self)@ == old(self)@,
    {
        match ProtocolCodec::next_command_with_bytes(self) {
            Some((c, bytes)) => Some((c.to_radio_request(), bytes)),
            None => None,
        }
    }

    fn clear(&mut self)
        ensures
            final(self)@ == Seq::<u8>::empty(),
    {
        self.buffer.clear();
    }
}

/// Generate a probe command to detect Yaesu ASCII radios
pub fn probe_command() -> (r: Vec<u8>)
    ensures
        r@ == seq![73u8, 68u8, 59u8],
{
    let r = vec![73u8, 68u8, 59u8];
    proof {
        assert(r@ =~= seq![73u8, 68u8, 59u8]);
    }
    r
}

/// A Yaesu ASCII ID answer: `ID`, four digits, `;`.
pub open spec fn is_yaesu_ascii_id_response(data: Seq<u8>) -> bool {
    data.len() >= 6 && data[0] == 73u8 && data[1] == 68u8 && data.last() == 59u8 && data.len() - 3
        == 4 && all_digits(data.subrange(2, data.len() - 1))
}

/// Check if a response looks like a valid Yaesu ASCII ID response
pub fn is_valid_id_response(data: &[u8]) -> (r: bool)
    ensures
        r == is_yaesu_ascii_id_response(data@),
{
    if data.len() >= 6 && data[0] == 73u8 && data[1] == 68u8 && data[data.len() - 1] == 59u8 {
        let id_part = slice_subrange(data, 2, data.len() - 1);
        id_part.len() == 4 && crate::kenwood::all_ascii_digits(id_part)
    } else {
        false
    }
}

/// The UTF-8 bytes of the known Yaesu ASCII radio IDs.
pub open spec fn is_known_yaesu_id_bytes(b: Seq<u8>) -> bool {
    b == seq![48u8, 53, 55, 48] || b == seq![48u8, 54, 55, 48] || b == seq![48u8, 54, 56, 49] || b
        == seq![48u8, 54, 56, 50] || b == seq![48u8, 55, 54, 49] || b == seq![48u8, 56, 48, 48]
}

/// Four bytes equal to `a b c d`.
fn bytes4_eq(s: &[u8], a: u8, b: u8, c: u8, d: u8) -> (r: bool)
    ensures
        r == (s@ == seq![a, b, c, d]),
{
    if s.len() == 4 && s[0] == a && s[1] == b && s[2] == c && s[3] == d {
        proof {
            assert(s@ =~= seq![a, b, c, d]);
        }
        true
    } else {
        proof {
            if s@ == seq![a, b, c, d] {
                assert(s@[0] == a && s@[1] == b && s@[2] == c && s@[3] == d);
            }
        }
        false
    }
}

/// Check if an ID string matches a known Yaesu ASCII radio (FT-991 `0570`,
/// FT-991A `0670`, FTDX-101D `0681`, FTDX-101MP `0682`, FTDX-10 `0761`,
/// FT-710 `0800`).
pub fn is_known_yaesu_ascii_id(id: &str) -> (r: bool)
    ensures
        r == is_known_yaesu_id_bytes(id.spec_bytes()),
{
    let b = id.as_bytes();
    bytes4_eq(b, 48, 53, 55, 48) || bytes4_eq(b, 48, 54, 55, 48) || bytes4_eq(b, 48, 54, 56, 49)
        || bytes4_eq(b, 48, 54, 56, 50) || bytes4_eq(b, 48, 55, 54, 49) || bytes4_eq(
        b,
        48,
        56,
        48,
        48,
    )
}

/// The commands whose encoding reads back as themselves: frequencies,
/// modes of a one-digit receiver (with a mode number from 1 to 14),
/// transmit states, identifiers (non-empty, without `;`), VFO selection,
/// split, power, auto-information, S-meter readings and RF power.
pub open spec fn ya_wire_form(m: YaesuAsciiModel) -> bool {
    match m {
        YaesuAsciiModel::FrequencyA(_) => true,
        YaesuAsciiModel::FrequencyB(_) => true,
        YaesuAsciiModel::Mode { receiver, mode } => receiver <= 9 && (mode matches Some(md) ==> 1 <= md <= 14),
        YaesuAsciiModel::Id(Some(id)) => id.len() > 0 && !encode_utf8(id).contains(59u8),
        YaesuAsciiModel::Id(None) => true,
        YaesuAsciiModel::SMeter(_) => true,
        YaesuAsciiModel::Transmit(Some(_)) => true,
        YaesuAsciiModel::VfoSelect(_) => true,
        YaesuAsciiModel::Split(_) => true,
        YaesuAsciiModel::Power(_) => true,
        YaesuAsciiModel::AutoInfo(_) => true,
        YaesuAsciiModel::RfPower(_) => true,
        _ => false,
    }
}

/// Zero-padded digits hold no `;`.
proof fn lemma_padded_digits_no_semicolon(n: nat, width: nat)
    ensures
        !dec_padded(n, width).contains(59u8),
{
    crate::text::lemma_dec_padded_value(n, width);
    let d = dec_padded(n, width);
    if d.contains(59u8) {
        let i = choose|i: int| 0 <= i < d.len() && d[i] == 59u8;
        assert(is_digit(d[i]));
    }
}

/// A command name followed by padded digits: the name, then the digits.
proof fn lemma_padded_field(a: u8, b: u8, n: nat, width: nat)
    requires
        a != 59u8,
        b != 59u8,
    ensures
        (ascii2(a, b) + dec_padded(n, width))[0] == a,
        (ascii2(a, b) + dec_padded(n, width))[1] == b,
        (ascii2(a, b) + dec_padded(n, width)).subrange(2, (ascii2(a, b) + dec_padded(n, width)).len() as int)
            == dec_padded(n, width),
        !(ascii2(a, b) + dec_padded(n, width)).contains(59u8),
        dec_padded(n, width).len() > 0,
{
    let p = dec_padded(n, width);
    crate::kenwood::lemma_prefix_split(a, b, p);
    lemma_padded_digits_no_semicolon(n, width);
    crate::text::lemma_dec_padded_value(n, width);
    let body = ascii2(a, b) + p;
    if body.contains(59u8) {
        let i = choose|i: int| 0 <= i < body.len() && body[i] == 59u8;
        if i >= 2 {
            assert(p[i - 2] == 59u8);
        }
    }
}

/// A mode command of a one-digit receiver reads back as itself.
#[verifier::rlimit(50)]
proof fn lemma_ya_mode_decodes(m: YaesuAsciiModel)
    requires
        ya_wire_form(m),
        m is Mode,
    ensures
        ya_decode(ya_body(m)) == m,
        !ya_body(m).contains(59u8),
{
    match m {
        YaesuAsciiModel::Mode { receiver, mode } => {
            let d = dec(receiver as nat);
            assert(d == seq![(48 + receiver) as u8]);
            crate::text::lemma_parse_u8_dec_padded(receiver, 0);
            assert(crate::text::dec_padded(receiver as nat, 0) == d);
            let p = match mode {
                Some(md) => d.push(ya_char_of_mode(md)),
                None => d,
            };
            let body = ascii2(77u8, 68u8) + p;
            assert(body == ya_body(m));
            crate::kenwood::lemma_prefix_split(77u8, 68u8, p);
            if let Some(md) = mode {
                law_ya_mode_char_roundtrip(md);
                assert(p.subrange(0, 1) =~= d);
            }
            assert(!body.contains(59u8)) by {
                if body.contains(59u8) {
                    let i = choose|i: int| 0 <= i < body.len() && body[i] == 59u8;
                    assert(body[i] != 59u8);
                }
            }
        },
        _ => {},
    }
}

/// An identifier command reads back as itself.
#[verifier::rlimit(50)]
proof fn lemma_ya_id_decodes(m: YaesuAsciiModel)
    requires
        ya_wire_form(m),
        m is Id,
    ensures
        ya_decode(ya_body(m)) == m,
        !ya_body(m).contains(59u8),
{
    match m {
        YaesuAsciiModel::Id(id) => {
            let p = match id {
                Some(t) => encode_utf8(t),
                None => Seq::<u8>::empty(),
            };
            crate::kenwood::lemma_prefix_split(73u8, 68u8, p);
            if let Some(t) = id {
                vstd::utf8::encode_utf8_valid_utf8(t);
                vstd::utf8::encode_utf8_decode_utf8(t);
                assert(p.len() > 0) by {
                    if p.len() == 0 {
                        assert(p =~= Seq::<u8>::empty());
                        assert(vstd::utf8::decode_utf8(Seq::<u8>::empty()) =~= Seq::<char>::empty());
                    }
                }
            } else {
                assert(ascii2(73u8, 68u8) + p =~= ascii2(73u8, 68u8));
            }
            let body = ascii2(73u8, 68u8) + p;
            assert(!body.contains(59u8)) by {
                if body.contains(59u8) {
                    let i = choose|i: int| 0 <= i < body.len() && body[i] == 59u8;
                    if i >= 2 {
                        assert(p[i - 2] == 59u8);
                    }
                }
            }
        },
        _ => {},
    }
}

/// An S-meter command reads back as itself.
#[verifier::rlimit(50)]
proof fn lemma_ya_smeter_decodes(m: YaesuAsciiModel)
    requires
        ya_wire_form(m),
        m is SMeter,
    ensures
        ya_decode(ya_body(m)) == m,
        !ya_body(m).contains(59u8),
{
    match m {
        YaesuAsciiModel::SMeter(v) => {
            let p = match v {
                Some(x) => seq![48u8] + dec_padded(x as nat, 3),
                None => seq![48u8],
            };
            let body = ascii2(83u8, 77u8) + p;
            assert(body == ya_body(m));
            crate::kenwood::lemma_prefix_split(83u8, 77u8, p);
            if let Some(x) = v {
                crate::text::lemma_dec_padded_value(x as nat, 3);
                lemma_padded_digits_no_semicolon(x as nat, 3);
                assert(p.subrange(1, p.len() as int) =~= dec_padded(x as nat, 3));
                assert(crate::text::parse_u16_spec(dec_padded(x as nat, 3)) == Some(x));
            }
            assert(!body.contains(59u8)) by {
                if body.contains(59u8) {
                    let i = choose|i: int| 0 <= i < body.len() && body[i] == 59u8;
                    if i >= 3 {
                        if let Some(x) = v {
                            assert(dec_padded(x as nat, 3)[i - 3] == 59u8);
                            assert(dec_padded(x as nat, 3).contains(59u8));
                        }
                    }
                }
            }
        },
        _ => {},
    }
}

/// The body of a wire-form command reads back as the command and holds no
/// `;`.
proof fn lemma_ya_body_decodes(m: YaesuAsciiModel)
    requires
        ya_wire_form(m),
    ensures
        ya_decode(ya_body(m)) == m,
        !ya_body(m).contains(59u8),
{
    match m {
        YaesuAsciiModel::FrequencyA(Some(hz)) => {
            lemma_padded_field(70u8, 65u8, hz as nat, 9);
            crate::text::lemma_parse_u64_dec_padded(hz, 9);
        },
        YaesuAsciiModel::FrequencyB(Some(hz)) => {
            lemma_padded_field(70u8, 66u8, hz as nat, 9);
            crate::text::lemma_parse_u64_dec_padded(hz, 9);
        },
        YaesuAsciiModel::RfPower(Some(v)) => {
            lemma_padded_field(80u8, 67u8, v as nat, 3);
            crate::text::lemma_parse_u8_dec_padded(v, 3);
        },
        YaesuAsciiModel::Transmit(Some(t)) => {
            crate::kenwood::lemma_u8_field_case(84u8, 88u8, Some(t));
            crate::text::lemma_dec_digits(t as nat);
        },
        YaesuAsciiModel::VfoSelect(v) => {
            crate::kenwood::lemma_u8_field_case(86u8, 83u8, v);
            if let Some(x) = v {
                crate::text::lemma_dec_digits(x as nat);
            }
        },
        YaesuAsciiModel::Split(t) => {
            crate::kenwood::lemma_flag_case(83u8, 84u8, t);
        },
        YaesuAsciiModel::Power(t) => {
            crate::kenwood::lemma_flag_case(80u8, 83u8, t);
        },
        YaesuAsciiModel::AutoInfo(t) => {
            crate::kenwood::lemma_flag_case(65u8, 73u8, t);
        },
        YaesuAsciiModel::Mode { .. } => lemma_ya_mode_decodes(m),
        YaesuAsciiModel::Id(_) => lemma_ya_id_decodes(m),
        YaesuAsciiModel::SMeter(_) => lemma_ya_smeter_decodes(m),
        _ => {
            let body = ya_body(m);
            assert(!body.contains(59u8)) by {
                if body.contains(59u8) {
                    let i = choose|i: int| 0 <= i < body.len() && body[i] == 59u8;
                    assert(body[i] != 59u8);
                }
            }
        },
    }
}

/// Round trip through the stream: a wire-form command encoded and pushed
/// into an empty codec comes back out, as one frame, as the same command,
/// and leaves the codec empty, so that the next read finds nothing.
pub proof fn law_ya_encode_then_parse(m: YaesuAsciiModel)
    requires
        ya_wire_form(m),
        ya_encode(m).len() <= 4 * crate::stream::MAX_BUFFERED_FRAME,
    ensures
        next_frame(buffer_after_push(Seq::empty(), ya_encode(m)), 59u8) == Some(
            (ya_encode(m), Seq::<u8>::empty()),
        ),
        ya_decode(ya_encode(m).drop_last()) == m,
        next_frame(Seq::<u8>::empty(), 59u8) is None,
{
    lemma_ya_body_decodes(m);
    let e = ya_encode(m);
    let body = ya_body(m);
    assert(Seq::<u8>::empty() + e =~= e);
    assert(e.drop_last() =~= body);
    assert forall|j: int| 0 <= j < e.len() - 1 implies e[j] != 59u8 by {
        assert(e[j] == body[j]);
        if e[j] == 59u8 {
            assert(body.contains(59u8));
        }
    }
    crate::stream::law_frame_split(e, Seq::<u8>::empty(), 59u8);
    assert(e + Seq::<u8>::empty() =~= e);
}

/// An IF status report built from a memory channel `m` (three digits) and
/// a frequency `f` written in `FREQ_DIGITS` digits, followed by the rest of
/// the report, reads back that channel and that frequency; the radio is
/// transmitting exactly when report offset 19 is `1`, and the mode is read
/// from the character at offset 20 (USB when there is none or it is not a
/// mode character). The common status carries the frequency.
pub proof fn law_ya_if_report(m: u16, f: u64, rest: Seq<u8>)
    requires
        m < 1000,
        f < 1_000_000_000,
        rest.len() >= 8,
    ensures
        ({
            let p = dec_padded(m as nat, 3) + dec_padded(f as nat, FREQ_DIGITS as nat) + rest;
            &&& match ya_parse_info(p) {
                Some(i) => {
                    &&& i.frequency_hz == f
                    &&& i.memory_channel == m
                    &&& i.tx == (rest[7] == 49u8)
                    &&& rest.len() > 8 ==> i.mode == or_zero(ya_mode_of_char(rest[8]), 2u8)
                },
                None => false,
            }
            &&& match ya_decode(ascii2(73u8, 70u8) + p) {
                YaesuAsciiModel::Info(Some(i)) => i.frequency_hz == f,
                _ => false,
            }
            &&& match ya_to_response(ya_decode(ascii2(73u8, 70u8) + p)) {
                ResponseModel::Status { frequency_hz, .. } => frequency_hz == Some(f),
                _ => false,
            }
        }),
{
    let dm = dec_padded(m as nat, 3);
    let df = dec_padded(f as nat, FREQ_DIGITS as nat);
    let p = dm + df + rest;
    reveal_with_fuel(crate::text::pow10, 10);
    crate::text::lemma_dec_len_bound(m as nat, 3, crate::text::pow10(3));
    crate::text::lemma_dec_len_bound(f as nat, 9, crate::text::pow10(9));
    crate::text::lemma_dec_padded_value(m as nat, 3);
    crate::text::lemma_dec_padded_value(f as nat, 9);
    assert(dm.len() == 3);
    assert(df.len() == 9);
    crate::text::lemma_parse_u64_dec_padded(f, 9);
    assert(p.subrange(0, 3) =~= dm);
    assert(p.subrange(3, 12) =~= df);
    assert(p[19] == rest[7]);
    if rest.len() > 8 {
        assert(p[20] == rest[8]);
    }
    assert(crate::text::parse_u16_spec(dm) == Some(m));
    crate::kenwood::lemma_prefix_split(73u8, 70u8, p);
}

/// The Yaesu ASCII mode numbers follow Yaesu's table (1 LSB, 2 USB, 3 CW,
/// 4 FM, 5 AM, 6 RTTY, 7 CW-R, 8 DATA-L, 9 RTTY-R, 10 DATA, 11 FM-N,
/// 12 DATA-U, 13 AM, 14 FM), and are written as one character: `1`-`9`
/// for 1 to 9, `A`-`E` for 10 to 14; either case of `A`-`E` reads back.
pub proof fn law_ya_mode_table(n: u8)
    ensures
        ya_mode_spec(1) == OperatingMode::Lsb,
        ya_mode_spec(2) == OperatingMode::Usb,
        ya_mode_spec(3) == OperatingMode::Cw,
        ya_mode_spec(4) == OperatingMode::Fm,
        ya_mode_spec(5) == OperatingMode::Am,
        ya_mode_spec(6) == OperatingMode::Rtty,
        ya_mode_spec(7) == OperatingMode::CwR,
        ya_mode_spec(8) == OperatingMode::DataL,
        ya_mode_spec(9) == OperatingMode::RttyR,
        ya_mode_spec(10) == OperatingMode::Data,
        ya_mode_spec(11) == OperatingMode::FmN,
        ya_mode_spec(12) == OperatingMode::DataU,
        1 <= n <= 9 ==> ya_char_of_mode(n) == 48 + n,
        10 <= n <= 14 ==> ya_char_of_mode(n) == 55 + n && ya_mode_of_char((87 + n) as u8) == Some(n),
        1 <= n <= 14 ==> ya_mode_of_char(ya_char_of_mode(n)) == Some(n),
{
}

} // verus!
