//! Kenwood CAT Protocol
//!
//! The Kenwood protocol uses ASCII semicolon-terminated commands with
//! 2-letter command prefixes: `XXppppp;` where `XX` is the command code and
//! `ppppp` its parameters. Requests and responses share the format.
//!
//! Common commands: `FA`/`FB` (VFO frequency), `MD` (mode), `TX`/`RX`
//! (transmit/receive), `ID` (identification), `IF` (status).

use vstd::prelude::*;
use vstd::slice::{slice_subrange, slice_to_vec};
use vstd::utf8::{decode_utf8, encode_utf8, valid_utf8};

use crate::command::{OperatingMode, RadioRequest, RadioResponse, RequestModel, ResponseModel, Vfo};
use crate::error::ParseError;
use crate::protocol::{
    EncodeCommand, FromRadioRequest, FromRadioResponse, ProtocolCodec, RadioCodec, ToRadioRequest,
    ToRadioResponse,
};
use crate::stream::{
    buffer_after_push, first_index_of, lemma_first_index_of, lemma_first_index_of_found,
    next_frame, push_limited, take_frame, MAX_BUFFERED_FRAME,
};
use crate::text::{
    all_digits, dec, dec_padded, is_digit, lemma_dec_digits, lemma_dec_padded_value,
    lemma_parse_u64_dec_padded, lemma_parse_u8_dec_padded, parse_i16, parse_i16_spec, parse_u64, parse_u64_spec,
    parse_u8, parse_u8_spec, push_all, push_dec, push_dec_padded, text_from_bytes, wire_text,
};

verus! {

broadcast use vstd::utf8::group_utf8_lib;

/// Kenwood protocol command
#[derive(Debug, Clone, PartialEq, Eq)]
pub enum KenwoodCommand {
    /// Set/get VFO A frequency: FA00014250000;
    FrequencyA(Option<u64>),
    /// Set/get VFO B frequency: FB00007074000;
    FrequencyB(Option<u64>),
    /// Set/get mode: MD1; (1=LSB, 2=USB, 3=CW, etc.)
    Mode(Option<u8>),
    /// Transmit: TX0; or TX1;
    Transmit(Option<bool>),
    /// Receive: RX;
    Receive,
    /// Radio identification query: ID;
    Id(Option<String>),
    /// Information/status query: IF...;
    Info(Option<KenwoodInfo>),
    /// VFO select: FR0; (0=VFO A, 1=VFO B)
    VfoSelect(Option<u8>),
    /// Split mode: FT0; or FT1;
    Split(Option<bool>),
    /// Power on/off: PS0; or PS1;
    Power(Option<bool>),
    /// Auto-information mode: AI0; (off) or AI2; (on) or AI; (query)
    AutoInfo(Option<bool>),
    /// Control band (which VFO has front panel control): CB; (query), CB0; or CB1;
    ControlBand(Option<u8>),
    /// Transmit band (which VFO is selected for TX): TB; (query), TB0; or TB1;
    TransmitBand(Option<u8>),
    /// Unknown/unrecognized command
    Unknown(String),
}

/// Parsed IF (information) response data
#[derive(Debug, Clone, Copy, PartialEq, Eq)]
pub struct KenwoodInfo {
    /// Current frequency in Hz
    pub frequency_hz: u64,
    /// RIT/XIT offset
    pub rit_offset: i16,
    /// RIT enabled
    pub rit_on: bool,
    /// XIT enabled
    pub xit_on: bool,
    /// Memory channel
    pub memory_channel: u8,
    /// TX enabled (PTT)
    pub tx: bool,
    /// Operating mode
    pub mode: u8,
    /// VFO (0=A, 1=B)
    pub vfo: u8,
    /// Scan status
    pub scan: bool,
    /// Split operation
    pub split: bool,
    /// CTCSS tone
    pub tone: u8,
}

/// The mathematical value of a `KenwoodCommand`.
pub enum KenwoodModel {
    FrequencyA(Option<u64>),
    FrequencyB(Option<u64>),
    Mode(Option<u8>),
    Transmit(Option<bool>),
    Receive,
    Id(Option<Seq<char>>),
    Info(Option<KenwoodInfo>),
    VfoSelect(Option<u8>),
    Split(Option<bool>),
    Power(Option<bool>),
    AutoInfo(Option<bool>),
    ControlBand(Option<u8>),
    TransmitBand(Option<u8>),
    Unknown(Seq<char>),
}

impl View for KenwoodCommand {
    type V = KenwoodModel;

    open spec fn view(&self) -> KenwoodModel {
        match self {
            KenwoodCommand::FrequencyA(f) => KenwoodModel::FrequencyA(*f),
            KenwoodCommand::FrequencyB(f) => KenwoodModel::FrequencyB(*f),
            KenwoodCommand::Mode(m) => KenwoodModel::Mode(*m),
            KenwoodCommand::Transmit(t) => KenwoodModel::Transmit(*t),
            KenwoodCommand::Receive => KenwoodModel::Receive,
            KenwoodCommand::Id(id) => KenwoodModel::Id(
                match id {
                    Some(s) => Some(s@),
                    None => None,
                },
            ),
            KenwoodCommand::Info(i) => KenwoodModel::Info(*i),
            KenwoodCommand::VfoSelect(v) => KenwoodModel::VfoSelect(*v),
            KenwoodCommand::Split(s) => KenwoodModel::Split(*s),
            KenwoodCommand::Power(p) => KenwoodModel::Power(*p),
            KenwoodCommand::AutoInfo(a) => KenwoodModel::AutoInfo(*a),
            KenwoodCommand::ControlBand(b) => KenwoodModel::ControlBand(*b),
            KenwoodCommand::TransmitBand(b) => KenwoodModel::TransmitBand(*b),
            KenwoodCommand::Unknown(s) => KenwoodModel::Unknown(s@),
        }
    }
}

// ---------------------------------------------------------------------------
// Wire grammar (specification)
// ---------------------------------------------------------------------------

/// Bytes `p[i..j]`, clamped to the end of `p`.
pub open spec fn field(p: Seq<u8>, i: int, j: int) -> Seq<u8> {
    p.subrange(i, j)
}

pub open spec fn or_zero_u8(v: Option<u8>) -> u8 {
    match v {
        Some(x) => x,
        None => 0,
    }
}

pub open spec fn or_zero_i16(v: Option<i16>) -> i16 {
    match v {
        Some(x) => x,
        None => 0,
    }
}

/// The IF (status) report, TS-2000 layout: 11-digit frequency at 0, 5-digit
/// step at 11, 5-digit RIT/XIT offset at 16, RIT flag at 21, XIT flag at 22,
/// memory channel at 23..25, TX flag at 27, mode at 28, VFO at 29, scan at 30,
/// split at 31 and the tone number from 32 on.
pub open spec fn kenwood_parse_info(p: Seq<u8>) -> Option<KenwoodInfo> {
    if p.len() < 33 {
        None
    } else {
        match parse_u64_spec(p.subrange(0, 11)) {
            None => None,
            Some(f) => Some(
                KenwoodInfo {
                    frequency_hz: f,
                    rit_offset: or_zero_i16(parse_i16_spec(p.subrange(16, 21))),
                    rit_on: p[21] == 49u8,
                    xit_on: p[22] == 49u8,
                    memory_channel: or_zero_u8(parse_u8_spec(p.subrange(23, 25))),
                    tx: p[27] != 48u8,
                    mode: or_zero_u8(parse_u8_spec(p.subrange(28, 29))),
                    vfo: or_zero_u8(parse_u8_spec(p.subrange(29, 30))),
                    scan: p[30] == 49u8,
                    split: p[31] == 49u8,
                    tone: or_zero_u8(parse_u8_spec(p.subrange(32, p.len() as int))),
                },
            ),
        }
    }
}

/// Parameters that are exactly the text `0`.
pub open spec fn is_zero_text(p: Seq<u8>) -> bool {
    p == seq![48u8]
}

pub open spec fn opt_u64_field(p: Seq<u8>) -> Option<Option<u64>> {
    if p.len() == 0 {
        Some(None)
    } else {
        match parse_u64_spec(p) {
            Some(f) => Some(Some(f)),
            None => None,
        }
    }
}

pub open spec fn opt_u8_field(p: Seq<u8>) -> Option<Option<u8>> {
    if p.len() == 0 {
        Some(None)
    } else {
        match parse_u8_spec(p) {
            Some(f) => Some(Some(f)),
            None => None,
        }
    }
}

/// A flag parameter: absent, or anything other than `0` for on.
pub open spec fn opt_flag(p: Seq<u8>) -> Option<bool> {
    if p.len() == 0 {
        None
    } else {
        Some(!is_zero_text(p))
    }
}

pub open spec fn wrap_u64(v: Option<Option<u64>>, f: spec_fn(Option<u64>) -> KenwoodModel) -> Option<KenwoodModel> {
    match v {
        Some(x) => Some(f(x)),
        None => None,
    }
}

pub open spec fn wrap_u8(v: Option<Option<u8>>, f: spec_fn(Option<u8>) -> KenwoodModel) -> Option<KenwoodModel> {
    match v {
        Some(x) => Some(f(x)),
        None => None,
    }
}

/// The command a frame (without its terminator) denotes, or `None` when the
/// frame is malformed.
pub open spec fn kenwood_parse(cmd: Seq<u8>) -> Option<KenwoodModel> {
    if cmd.len() < 2 {
        None
    } else {
        let a = cmd[0];
        let b = cmd[1];
        let p = cmd.subrange(2, cmd.len() as int);
        if a == 70u8 && b == 65u8 {
            wrap_u64(opt_u64_field(p), |x| KenwoodModel::FrequencyA(x))
        } else if a == 70u8 && b == 66u8 {
            wrap_u64(opt_u64_field(p), |x| KenwoodModel::FrequencyB(x))
        } else if a == 77u8 && b == 68u8 {
            wrap_u8(opt_u8_field(p), |x| KenwoodModel::Mode(x))
        } else if a == 84u8 && b == 88u8 {
            Some(KenwoodModel::Transmit(Some(p.len() == 0 || !is_zero_text(p))))
        } else if a == 82u8 && b == 88u8 {
            Some(KenwoodModel::Receive)
        } else if a == 73u8 && b == 68u8 {
            Some(KenwoodModel::Id(if p.len() == 0 { None } else { Some(wire_text(p)) }))
        } else if a == 73u8 && b == 70u8 {
            if p.len() == 0 {
                Some(KenwoodModel::Info(None))
            } else {
                match kenwood_parse_info(p) {
                    Some(i) => Some(KenwoodModel::Info(Some(i))),
                    None => None,
                }
            }
        } else if a == 70u8 && b == 82u8 {
            wrap_u8(opt_u8_field(p), |x| KenwoodModel::VfoSelect(x))
        } else if a == 70u8 && b == 84u8 {
            Some(KenwoodModel::Split(opt_flag(p)))
        } else if a == 80u8 && b == 83u8 {
            Some(KenwoodModel::Power(opt_flag(p)))
        } else if a == 65u8 && b == 73u8 {
            Some(KenwoodModel::AutoInfo(opt_flag(p)))
        } else if a == 67u8 && b == 66u8 {
            wrap_u8(opt_u8_field(p), |x| KenwoodModel::ControlBand(x))
        } else if a == 84u8 && b == 66u8 {
            wrap_u8(opt_u8_field(p), |x| KenwoodModel::TransmitBand(x))
        } else {
            Some(KenwoodModel::Unknown(wire_text(cmd)))
        }
    }
}

/// The error an `IF` report's parameters that do not parse give:
/// `InvalidFrame` when they are too short, `InvalidFrequency` with the
/// frequency digits otherwise.
pub open spec fn kenwood_info_error_is(p: Seq<u8>, e: ParseError) -> bool {
    if p.len() < 33 {
        e matches ParseError::InvalidFrame(m) && m@ == "IF response too short"@
    } else {
        e matches ParseError::InvalidFrequency(t) && t@ == wire_text(p.subrange(0, 11))
    }
}

/// The error a malformed frame (without its terminator) gives:
/// `InvalidFrame` when it is shorter than a command name or a VFO or band
/// number is bad, `InvalidFrequency` with the parameters when a frequency
/// is bad, `InvalidMode` with the parameters when a mode is bad, and for
/// an `IF` report what `kenwood_info_error_is` says.
pub open spec fn kenwood_error_is(cmd: Seq<u8>, e: ParseError) -> bool {
    if cmd.len() < 2 {
        e matches ParseError::InvalidFrame(m) && m@ == "command too short"@
    } else {
        let a = cmd[0];
        let b = cmd[1];
        let p = cmd.subrange(2, cmd.len() as int);
        if a == 70u8 && (b == 65u8 || b == 66u8) {
            e matches ParseError::InvalidFrequency(t) && t@ == wire_text(p)
        } else if a == 77u8 && b == 68u8 {
            e matches ParseError::InvalidMode(t) && t@ == wire_text(p)
        } else if a == 73u8 && b == 70u8 {
            kenwood_info_error_is(p, e)
        } else if a == 70u8 && b == 82u8 {
            e matches ParseError::InvalidFrame(m) && m@ == "invalid VFO"@
        } else if a == 67u8 && b == 66u8 {
            e matches ParseError::InvalidFrame(m) && m@ == "invalid control band"@
        } else {
            e matches ParseError::InvalidFrame(m) && m@ == "invalid transmit band"@
        }
    }
}

/// What the streaming codec yields for a frame: its command, or an
/// `Unknown` holding the frame text when it is malformed.
pub open spec fn kenwood_decode(cmd: Seq<u8>) -> KenwoodModel {
    match kenwood_parse(cmd) {
        Some(m) => m,
        None => KenwoodModel::Unknown(wire_text(cmd)),
    }
}

pub open spec fn ascii2(a: u8, b: u8) -> Seq<u8> {
    seq![a, b]
}

pub open spec fn flag_digit(on: bool) -> Seq<u8> {
    if on {
        seq![49u8]
    } else {
        seq![48u8]
    }
}

/// The body (everything before the `;` terminator) of a command's encoding.
pub open spec fn kenwood_body(m: KenwoodModel) -> Seq<u8> {
    match m {
        KenwoodModel::FrequencyA(Some(hz)) => ascii2(70u8, 65u8) + dec_padded(hz as nat, 11),
        KenwoodModel::FrequencyA(None) => ascii2(70u8, 65u8),
        KenwoodModel::FrequencyB(Some(hz)) => ascii2(70u8, 66u8) + dec_padded(hz as nat, 11),
        KenwoodModel::FrequencyB(None) => ascii2(70u8, 66u8),
        KenwoodModel::Mode(Some(md)) => ascii2(77u8, 68u8) + dec(md as nat),
        KenwoodModel::Mode(None) => ascii2(77u8, 68u8),
        KenwoodModel::Transmit(Some(t)) => ascii2(84u8, 88u8) + flag_digit(t),
        KenwoodModel::Transmit(None) => ascii2(84u8, 88u8),
        KenwoodModel::Receive => ascii2(82u8, 88u8),
        KenwoodModel::Id(Some(id)) => ascii2(73u8, 68u8) + encode_utf8(id),
        KenwoodModel::Id(None) => ascii2(73u8, 68u8),
        KenwoodModel::Info(_) => ascii2(73u8, 70u8),
        KenwoodModel::VfoSelect(Some(v)) => ascii2(70u8, 82u8) + dec(v as nat),
        KenwoodModel::VfoSelect(None) => ascii2(70u8, 82u8),
        KenwoodModel::Split(Some(s)) => ascii2(70u8, 84u8) + flag_digit(s),
        KenwoodModel::Split(None) => ascii2(70u8, 84u8),
        KenwoodModel::Power(Some(on)) => ascii2(80u8, 83u8) + flag_digit(on),
        KenwoodModel::Power(None) => ascii2(80u8, 83u8),
        KenwoodModel::AutoInfo(Some(e)) => ascii2(65u8, 73u8) + (if e {
            seq![50u8]
        } else {
            seq![48u8]
        }),
        KenwoodModel::AutoInfo(None) => ascii2(65u8, 73u8),
        KenwoodModel::ControlBand(Some(b)) => ascii2(67u8, 66u8) + dec(b as nat),
        KenwoodModel::ControlBand(None) => ascii2(67u8, 66u8),
        KenwoodModel::TransmitBand(Some(b)) => ascii2(84u8, 66u8) + dec(b as nat),
        KenwoodModel::TransmitBand(None) => ascii2(84u8, 66u8),
        KenwoodModel::Unknown(s) => encode_utf8(s),
    }
}

/// The full wire encoding of a command: its body and a `;`.
pub open spec fn kenwood_encode(m: KenwoodModel) -> Seq<u8> {
    kenwood_body(m).push(59u8)
}

// ---------------------------------------------------------------------------
// Mode numbers
// ---------------------------------------------------------------------------

pub open spec fn kenwood_mode_spec(mode: u8) -> OperatingMode {
    match mode {
        1 => OperatingMode::Lsb,
        2 => OperatingMode::Usb,
        3 => OperatingMode::Cw,
        4 => OperatingMode::Fm,
        5 => OperatingMode::Am,
        6 => OperatingMode::Rtty,
        7 => OperatingMode::CwR,
        8 => OperatingMode::DataL,
        9 => OperatingMode::RttyR,
        10 => OperatingMode::DataU,
        _ => OperatingMode::Usb,
    }
}

pub open spec fn kenwood_mode_number(mode: OperatingMode) -> u8 {
    match mode {
        OperatingMode::Lsb => 1,
        OperatingMode::Usb => 2,
        OperatingMode::Cw => 3,
        OperatingMode::Fm => 4,
        OperatingMode::FmN => 4,
        OperatingMode::Am => 5,
        OperatingMode::Rtty => 6,
        OperatingMode::CwR => 7,
        OperatingMode::DataL | OperatingMode::DigL | OperatingMode::Dig => 8,
        OperatingMode::RttyR => 9,
        OperatingMode::DataU | OperatingMode::DigU | OperatingMode::Data | OperatingMode::Pkt => 10,
    }
}

/// Convert Kenwood mode number to OperatingMode
pub(crate) fn kenwood_mode_to_operating_mode(mode: u8) -> (r: OperatingMode)
    ensures
        r == kenwood_mode_spec(mode),
{
    match mode {
        1 => OperatingMode::Lsb,
        2 => OperatingMode::Usb,
        3 => OperatingMode::Cw,
        4 => OperatingMode::Fm,
        5 => OperatingMode::Am,
        6 => OperatingMode::Rtty,
        7 => OperatingMode::CwR,
        8 => OperatingMode::DataL,
        9 => OperatingMode::RttyR,
        10 => OperatingMode::DataU,
        _ => OperatingMode::Usb,
    }
}

/// Convert OperatingMode to Kenwood mode number
pub(crate) fn operating_mode_to_kenwood(mode: OperatingMode) -> (r: u8)
    ensures
        r == kenwood_mode_number(mode),
{
    match mode {
        OperatingMode::Lsb => 1,
        OperatingMode::Usb => 2,
        OperatingMode::Cw => 3,
        OperatingMode::Fm => 4,
        OperatingMode::FmN => 4,
        OperatingMode::Am => 5,
        OperatingMode::Rtty => 6,
        OperatingMode::CwR => 7,
        OperatingMode::DataL | OperatingMode::DigL | OperatingMode::Dig => 8,
        OperatingMode::RttyR => 9,
        OperatingMode::DataU | OperatingMode::DigU | OperatingMode::Data | OperatingMode::Pkt => 10,
    }
}

/// Every mode number the encoder writes reads back as a mode that writes the
/// same number, and the ten Kenwood modes survive the round trip unchanged.
pub proof fn law_kenwood_mode_roundtrip(mode: OperatingMode)
    ensures
        kenwood_mode_number(kenwood_mode_spec(kenwood_mode_number(mode))) == kenwood_mode_number(
            mode,
        ),
        1 <= kenwood_mode_number(mode) <= 10,
        (mode is Lsb || mode is Usb || mode is Cw || mode is Fm || mode is Am || mode is Rtty
            || mode is CwR || mode is DataL || mode is RttyR || mode is DataU) ==> kenwood_mode_spec(
            kenwood_mode_number(mode),
        ) == mode,
{
}

// ---------------------------------------------------------------------------
// Conversions to and from the protocol-neutral model
// ---------------------------------------------------------------------------

pub open spec fn vfo_of_digit(v: u8) -> Vfo {
    if v == 0 {
        Vfo::A
    } else {
        Vfo::B
    }
}

pub open spec fn kenwood_to_response(m: KenwoodModel) -> ResponseModel {
    match m {
        KenwoodModel::FrequencyA(Some(hz)) => ResponseModel::Frequency { hz },
        KenwoodModel::FrequencyB(Some(hz)) => ResponseModel::Frequency { hz },
        KenwoodModel::Mode(Some(md)) => ResponseModel::Mode { mode: kenwood_mode_spec(md) },
        KenwoodModel::Transmit(Some(tx)) => ResponseModel::Ptt { active: tx },
        KenwoodModel::Receive => ResponseModel::Ptt { active: false },
        KenwoodModel::Id(Some(id)) => ResponseModel::Id { id },
        KenwoodModel::Info(Some(info)) => ResponseModel::Status {
            frequency_hz: Some(info.frequency_hz),
            mode: Some(kenwood_mode_spec(info.mode)),
            ptt: Some(info.tx),
            vfo: Some(vfo_of_digit(info.vfo)),
        },
        KenwoodModel::VfoSelect(Some(v)) => ResponseModel::Vfo { vfo: vfo_of_digit(v) },
        KenwoodModel::Split(Some(s)) => ResponseModel::Vfo {
            vfo: if s {
                Vfo::Split
            } else {
                Vfo::A
            },
        },
        KenwoodModel::AutoInfo(Some(enabled)) => ResponseModel::AutoInfo { enabled },
        KenwoodModel::ControlBand(Some(band)) => ResponseModel::ControlBand { band },
        KenwoodModel::TransmitBand(Some(band)) => ResponseModel::TransmitBand { band },
        KenwoodModel::Unknown(s) => ResponseModel::Unknown { data: encode_utf8(s) },
        _ => ResponseModel::Unknown { data: Seq::empty() },
    }
}

pub open spec fn kenwood_to_request(m: KenwoodModel) -> RequestModel {
    match m {
        KenwoodModel::FrequencyA(Some(hz)) => RequestModel::SetFrequency { hz },
        KenwoodModel::FrequencyA(None) => RequestModel::GetFrequency,
        KenwoodModel::FrequencyB(Some(hz)) => RequestModel::SetFrequency { hz },
        KenwoodModel::FrequencyB(None) => RequestModel::GetFrequency,
        KenwoodModel::Mode(Some(md)) => RequestModel::SetMode { mode: kenwood_mode_spec(md) },
        KenwoodModel::Mode(None) => RequestModel::GetMode,
        KenwoodModel::Transmit(Some(tx)) => RequestModel::SetPtt { active: tx },
        KenwoodModel::Transmit(None) => RequestModel::GetPtt,
        KenwoodModel::Receive => RequestModel::SetPtt { active: false },
        KenwoodModel::Id(None) => RequestModel::GetId,
        KenwoodModel::Info(None) => RequestModel::GetStatus,
        KenwoodModel::VfoSelect(Some(v)) => RequestModel::SetVfo { vfo: vfo_of_digit(v) },
        KenwoodModel::VfoSelect(None) => RequestModel::GetVfo,
        KenwoodModel::Split(Some(s)) => RequestModel::SetVfo {
            vfo: if s {
                Vfo::Split
            } else {
                Vfo::A
            },
        },
        KenwoodModel::Split(None) => RequestModel::GetVfo,
        KenwoodModel::Power(Some(on)) => RequestModel::SetPower { on },
        KenwoodModel::AutoInfo(Some(enabled)) => RequestModel::SetAutoInfo { enabled },
        KenwoodModel::AutoInfo(None) => RequestModel::GetAutoInfo,
        KenwoodModel::ControlBand(None) => RequestModel::GetControlBand,
        KenwoodModel::TransmitBand(None) => RequestModel::GetTransmitBand,
        KenwoodModel::Unknown(s) => RequestModel::Unknown { data: encode_utf8(s) },
        _ => RequestModel::Unknown { data: Seq::empty() },
    }
}

pub open spec fn vfo_select_model(vfo: Vfo) -> KenwoodModel {
    match vfo {
        Vfo::A => KenwoodModel::VfoSelect(Some(0)),
        Vfo::B => KenwoodModel::VfoSelect(Some(1)),
        Vfo::Split => KenwoodModel::Split(Some(true)),
        Vfo::Memory => KenwoodModel::VfoSelect(Some(2)),
    }
}

pub open spec fn kenwood_from_request(r: RequestModel) -> Option<KenwoodModel> {
    match r {
        RequestModel::SetFrequency { hz } => Some(KenwoodModel::FrequencyA(Some(hz))),
        RequestModel::GetFrequency => Some(KenwoodModel::FrequencyA(None)),
        RequestModel::SetMode { mode } => Some(KenwoodModel::Mode(Some(kenwood_mode_number(mode)))),
        RequestModel::GetMode => Some(KenwoodModel::Mode(None)),
        RequestModel::SetPtt { active } => if active {
            Some(KenwoodModel::Transmit(Some(true)))
        } else {
            Some(KenwoodModel::Receive)
        },
        RequestModel::GetPtt => Some(KenwoodModel::Transmit(None)),
        RequestModel::SetVfo { vfo } => Some(vfo_select_model(vfo)),
        RequestModel::GetVfo => Some(KenwoodModel::VfoSelect(None)),
        RequestModel::GetId => Some(KenwoodModel::Id(None)),
        RequestModel::GetStatus => Some(KenwoodModel::Info(None)),
        RequestModel::SetPower { on } => Some(KenwoodModel::Power(Some(on))),
        RequestModel::SetAutoInfo { enabled } => Some(KenwoodModel::AutoInfo(Some(enabled))),
        RequestModel::GetAutoInfo => Some(KenwoodModel::AutoInfo(None)),
        RequestModel::GetControlBand => Some(KenwoodModel::ControlBand(None)),
        RequestModel::GetTransmitBand => Some(KenwoodModel::TransmitBand(None)),
        RequestModel::Unknown { .. } => None,
    }
}

pub open spec fn kenwood_from_response(r: ResponseModel) -> Option<KenwoodModel> {
    match r {
        ResponseModel::Frequency { hz } => Some(KenwoodModel::FrequencyA(Some(hz))),
        ResponseModel::Mode { mode } => Some(KenwoodModel::Mode(Some(kenwood_mode_number(mode)))),
        ResponseModel::Ptt { active } => Some(KenwoodModel::Transmit(Some(active))),
        ResponseModel::Vfo { vfo } => Some(vfo_select_model(vfo)),
        ResponseModel::Id { id } => Some(KenwoodModel::Id(Some(id))),
        ResponseModel::AutoInfo { enabled } => Some(KenwoodModel::AutoInfo(Some(enabled))),
        ResponseModel::ControlBand { band } => Some(KenwoodModel::ControlBand(Some(band))),
        ResponseModel::TransmitBand { band } => Some(KenwoodModel::TransmitBand(Some(band))),
        ResponseModel::Status { .. } => None,
        ResponseModel::Unknown { .. } => None,
    }
}

// ---------------------------------------------------------------------------
// Codec
// ---------------------------------------------------------------------------

/// Streaming Kenwood protocol codec
pub struct KenwoodCodec {
    buffer: Vec<u8>,
}

impl View for KenwoodCodec {
    type V = Seq<u8>;

    closed spec fn view(&self) -> Seq<u8> {
        self.buffer@
    }
}

/// Tests whether the bytes are exactly the text `0`.
pub(crate) fn is_zero_param(p: &[u8]) -> (r: bool)
    ensures
        r == is_zero_text(p@),
{
    if p.len() == 1 && p[0] == 48u8 {
        proof {
            assert(p@ =~= seq![48u8]);
        }
        true
    } else {
        false
    }
}

impl KenwoodCodec {
    /// Create a new Kenwood codec
    pub fn new() -> (r: Self)
        ensures
            r@ == Seq::<u8>::empty(),
    {
        KenwoodCodec { buffer: Vec::new() }
    }

    /// Parse IF response parameters
    fn parse_info(params: &[u8]) -> (r: Result<KenwoodInfo, ParseError>)
        ensures
            r matches Ok(i) ==> kenwood_parse_info(params@) == Some(i),
            r is Err <==> kenwood_parse_info(params@) is None,
            r matches Err(e) ==> kenwood_info_error_is(params@, e),
    {
        if params.len() < 33 {
            return Err(ParseError::InvalidFrame("IF response too short".to_owned()));
        }
        let frequency_hz = match parse_u64(slice_subrange(params, 0, 11)) {
            Some(f) => f,
            None => {
                return Err(ParseError::InvalidFrequency(text_from_bytes(slice_subrange(params, 0, 11))));
            },
        };
        let rit_offset = match parse_i16(slice_subrange(params, 16, 21)) {
            Some(v) => v,
            None => 0,
        };
        let memory_channel = match parse_u8(slice_subrange(params, 23, 25)) {
            Some(v) => v,
            None => 0,
        };
        let mode = match parse_u8(slice_subrange(params, 28, 29)) {
            Some(v) => v,
            None => 0,
        };
        let vfo = match parse_u8(slice_subrange(params, 29, 30)) {
            Some(v) => v,
            None => 0,
        };
        let tone = match parse_u8(slice_subrange(params, 32, params.len())) {
            Some(v) => v,
            None => 0,
        };
        Ok(
            KenwoodInfo {
                frequency_hz,
                rit_offset,
                rit_on: params[21] == 49u8,
                xit_on: params[22] == 49u8,
                memory_channel,
                tx: params[27] != 48u8,
                mode,
                vfo,
                scan: params[30] == 49u8,
                split: params[31] == 49u8,
                tone,
            },
        )
    }

    /// Parse a complete command (without terminator)
    fn parse_command(cmd: &[u8]) -> (r: Result<KenwoodCommand, ParseError>)
        ensures
            r matches Ok(c) ==> kenwood_parse(cmd@) == Some(c@),
            r is Err <==> kenwood_parse(cmd@) is None,
            r matches Err(e) ==> kenwood_error_is(cmd@, e),
    {
        if cmd.len() < 2 {
            return Err(ParseError::InvalidFrame("command too short".to_owned()));
        }
        let a = cmd[0];
        let b = cmd[1];
        let params = slice_subrange(cmd, 2, cmd.len());
        if a == 70u8 && (b == 65u8 || b == 66u8) {
            let f = if params.len() == 0 {
                None
            } else {
                match parse_u64(params) {
                    Some(f) => Some(f),
                    None => {
                        return Err(ParseError::InvalidFrequency(text_from_bytes(params)));
                    },
                }
            };
            if b == 65u8 {
                Ok(KenwoodCommand::FrequencyA(f))
            } else {
                Ok(KenwoodCommand::FrequencyB(f))
            }
        } else if a == 77u8 && b == 68u8 {
            if params.len() == 0 {
                Ok(KenwoodCommand::Mode(None))
            } else {
                match parse_u8(params) {
                    Some(m) => Ok(KenwoodCommand::Mode(Some(m))),
                    None => Err(ParseError::InvalidMode(text_from_bytes(params))),
                }
            }
        } else if a == 84u8 && b == 88u8 {
            Ok(KenwoodCommand::Transmit(Some(params.len() == 0 || !is_zero_param(params))))
        } else if a == 82u8 && b == 88u8 {
            Ok(KenwoodCommand::Receive)
        } else if a == 73u8 && b == 68u8 {
            if params.len() == 0 {
                Ok(KenwoodCommand::Id(None))
            } else {
                Ok(KenwoodCommand::Id(Some(text_from_bytes(params))))
            }
        } else if a == 73u8 && b == 70u8 {
            if params.len() == 0 {
                Ok(KenwoodCommand::Info(None))
            } else {
                match Self::parse_info(params) {
                    Ok(info) => Ok(KenwoodCommand::Info(Some(info))),
                    Err(e) => Err(e),
                }
            }
        } else if a == 70u8 && b == 82u8 {
            Self::parse_u8_command(params, 0)
        } else if a == 70u8 && b == 84u8 {
            Ok(KenwoodCommand::Split(Self::flag(params)))
        } else if a == 80u8 && b == 83u8 {
            Ok(KenwoodCommand::Power(Self::flag(params)))
        } else if a == 65u8 && b == 73u8 {
            Ok(KenwoodCommand::AutoInfo(Self::flag(params)))
        } else if a == 67u8 && b == 66u8 {
            Self::parse_u8_command(params, 1)
        } else if a == 84u8 && b == 66u8 {
            Self::parse_u8_command(params, 2)
        } else {
            Ok(KenwoodCommand::Unknown(text_from_bytes(cmd)))
        }
    }

    /// An optional on/off parameter.
    fn flag(params: &[u8]) -> (r: Option<bool>)
        ensures
            r == opt_flag(params@),
    {
        if params.len() == 0 {
            None
        } else {
            Some(!is_zero_param(params))
        }
    }

    /// `FR`, `CB` or `TB` (`which` = 0, 1, 2) with an optional number.
    fn parse_u8_command(params: &[u8], which: u8) -> (r: Result<KenwoodCommand, ParseError>)
        requires
            which <= 2,
        ensures
            ({
                let f: spec_fn(Option<u8>) -> KenwoodModel = if which == 0 {
                    |x| KenwoodModel::VfoSelect(x)
                } else if which == 1 {
                    |x| KenwoodModel::ControlBand(x)
                } else {
                    |x| KenwoodModel::TransmitBand(x)
                };
                &&& r matches Ok(c) ==> wrap_u8(opt_u8_field(params@), f) == Some(c@)
                &&& r is Err <==> opt_u8_field(params@) is None
                &&& r matches Err(e) ==> e matches ParseError::InvalidFrame(m) && m@ == (if which == 0 {
                    "invalid VFO"@
                } else if which == 1 {
                    "invalid control band"@
                } else {
                    "invalid transmit band"@
                })
            }),
    {
        let v = if params.len() == 0 {
            None
        } else {
            match parse_u8(params) {
                Some(v) => Some(v),
                None => {
                    let msg: &str = if which == 0 {
                        "invalid VFO"
                    } else if which == 1 {
                        "invalid control band"
                    } else {
                        "invalid transmit band"
                    };
                    return Err(ParseError::InvalidFrame(msg.to_owned()));
                },
            }
        };
        if which == 0 {
            Ok(KenwoodCommand::VfoSelect(v))
        } else if which == 1 {
            Ok(KenwoodCommand::ControlBand(v))
        } else {
            Ok(KenwoodCommand::TransmitBand(v))
        }
    }

    /// Decodes one frame (without its terminator); malformed frames become
    /// `Unknown` with the frame text.
    pub(crate) fn decode_frame(cmd: &[u8]) -> (r: KenwoodCommand)
        ensures
            r@ == kenwood_decode(cmd@),
    {
        match Self::parse_command(cmd) {
            Ok(c) => c,
            Err(_) => KenwoodCommand::Unknown(text_from_bytes(cmd)),
        }
    }
}

impl Default for KenwoodCodec {
    fn default() -> (r: Self)
        ensures
            r@ == Seq::<u8>::empty(),
    {
        Self::new()
    }
}

impl ProtocolCodec for KenwoodCodec {
    type Command = KenwoodCommand;

    fn push_bytes(&mut self, data: &[u8])
        ensures
            final(self)@ == buffer_after_push(old(self)@, data@),
    {
        push_limited(&mut self.buffer, data);
    }

    fn next_command(&mut self) -> (r: Option<KenwoodCommand>)
        ensures
            next_frame(old(self)@, 59u8) matches Some((f, rest)) ==> {
                &&& r matches Some(c) && c@ == kenwood_decode(f.drop_last())
                &&& final(self)@ == rest
            },
            next_frame(old(self)@, 59u8) is None ==> r is None && final(self)@ == old(self)@,
    {
        match self.next_command_with_bytes() {
            Some((c, _)) => Some(c),
            None => None,
        }
    }

    fn next_command_with_bytes(&mut self) -> (r: Option<(KenwoodCommand, Vec<u8>)>)
        ensures
            next_frame(old(self)@, 59u8) matches Some((f, rest)) ==> {
                &&& r matches Some((c, bytes)) && c@ == kenwood_decode(f.drop_last()) && bytes@
                    == f
                &&& final(self)@ == rest
            },
            next_frame(old(self)@, 59u8) is None ==> r is None && final(self)@ == old(self)@,
    {
        match take_frame(&mut self.buffer, 59u8) {
            None => None,
            Some(frame) => {
                proof {
                    lemma_first_index_of_found(old(self)@, 59u8);
                }
                let body = slice_subrange(frame.as_slice(), 0, frame.len() - 1);
                proof {
                    assert(body@ =~= frame@.drop_last());
                }
                let cmd = Self::decode_frame(body);
                Some((cmd, frame))
            },
        }
    }

    fn clear(&mut self)
        ensures
            final(self)@ == Seq::<u8>::empty(),
    {
        self.buffer.clear();
    }
}

impl KenwoodCommand {
    /// A copy with the same value.
    pub fn duplicate(&self) -> (r: Self)
        ensures
            r@ == self@,
    {
        match self {
            KenwoodCommand::FrequencyA(f) => KenwoodCommand::FrequencyA(*f),
            KenwoodCommand::FrequencyB(f) => KenwoodCommand::FrequencyB(*f),
            KenwoodCommand::Mode(m) => KenwoodCommand::Mode(*m),
            KenwoodCommand::Transmit(t) => KenwoodCommand::Transmit(*t),
            KenwoodCommand::Receive => KenwoodCommand::Receive,
            KenwoodCommand::Id(None) => KenwoodCommand::Id(None),
            KenwoodCommand::Id(Some(s)) => KenwoodCommand::Id(Some(s.clone())),
            KenwoodCommand::Info(i) => KenwoodCommand::Info(*i),
            KenwoodCommand::VfoSelect(v) => KenwoodCommand::VfoSelect(*v),
            KenwoodCommand::Split(s) => KenwoodCommand::Split(*s),
            KenwoodCommand::Power(p) => KenwoodCommand::Power(*p),
            KenwoodCommand::AutoInfo(a) => KenwoodCommand::AutoInfo(*a),
            KenwoodCommand::ControlBand(b) => KenwoodCommand::ControlBand(*b),
            KenwoodCommand::TransmitBand(b) => KenwoodCommand::TransmitBand(*b),
            KenwoodCommand::Unknown(s) => KenwoodCommand::Unknown(s.clone()),
        }
    }
}

pub(crate) fn vfo_from_digit(v: u8) -> (r: Vfo)
    ensures
        r == vfo_of_digit(v),
{
    if v == 0 {
        Vfo::A
    } else {
        Vfo::B
    }
}

impl ToRadioResponse for KenwoodCommand {
    fn to_radio_response(&self) -> (r: RadioResponse)
        ensures
            r@ == kenwood_to_response(self@),
    {
        match self {
            KenwoodCommand::FrequencyA(Some(hz)) => RadioResponse::Frequency { hz: *hz },
            KenwoodCommand::FrequencyB(Some(hz)) => RadioResponse::Frequency { hz: *hz },
            KenwoodCommand::Mode(Some(m)) => RadioResponse::Mode {
                mode: kenwood_mode_to_operating_mode(*m),
            },
            KenwoodCommand::Transmit(Some(tx)) => RadioResponse::Ptt { active: *tx },
            KenwoodCommand::Receive => RadioResponse::Ptt { active: false },
            KenwoodCommand::Id(Some(id)) => RadioResponse::Id { id: id.clone() },
            KenwoodCommand::Info(Some(info)) => RadioResponse::Status {
                frequency_hz: Some(info.frequency_hz),
                mode: Some(kenwood_mode_to_operating_mode(info.mode)),
                ptt: Some(info.tx),
                vfo: Some(vfo_from_digit(info.vfo)),
            },
            KenwoodCommand::VfoSelect(Some(v)) => RadioResponse::Vfo { vfo: vfo_from_digit(*v) },
            KenwoodCommand::Split(Some(s)) => RadioResponse::Vfo {
                vfo: if *s {
                    Vfo::Split
                } else {
                    Vfo::A
                },
            },
            KenwoodCommand::AutoInfo(Some(enabled)) => RadioResponse::AutoInfo { enabled: *enabled },
            KenwoodCommand::ControlBand(Some(band)) => RadioResponse::ControlBand { band: *band },
            KenwoodCommand::TransmitBand(Some(band)) => RadioResponse::TransmitBand { band: *band },
            KenwoodCommand::Unknown(s) => RadioResponse::Unknown {
                data: slice_to_vec(s.as_str().as_bytes()),
            },
            _ => RadioResponse::Unknown { data: Vec::new() },
        }
    }
}

impl ToRadioRequest for KenwoodCommand {
    fn to_radio_request(&self) -> (r: RadioRequest)
        ensures
            r@ == kenwood_to_request(self@),
    {
        match self {
            KenwoodCommand::FrequencyA(Some(hz)) => RadioRequest::SetFrequency { hz: *hz },
            KenwoodCommand::FrequencyA(None) => RadioRequest::GetFrequency,
            KenwoodCommand::FrequencyB(Some(hz)) => RadioRequest::SetFrequency { hz: *hz },
            KenwoodCommand::FrequencyB(None) => RadioRequest::GetFrequency,
            KenwoodCommand::Mode(Some(m)) => RadioRequest::SetMode {
                mode: kenwood_mode_to_operating_mode(*m),
            },
            KenwoodCommand::Mode(None) => RadioRequest::GetMode,
            KenwoodCommand::Transmit(Some(tx)) => RadioRequest::SetPtt { active: *tx },
            KenwoodCommand::Transmit(None) => RadioRequest::GetPtt,
            KenwoodCommand::Receive => RadioRequest::SetPtt { active: false },
            KenwoodCommand::Id(None) => RadioRequest::GetId,
            KenwoodCommand::Info(None) => RadioRequest::GetStatus,
            KenwoodCommand::VfoSelect(Some(v)) => RadioRequest::SetVfo { vfo: vfo_from_digit(*v) },
            KenwoodCommand::VfoSelect(None) => RadioRequest::GetVfo,
            KenwoodCommand::Split(Some(s)) => RadioRequest::SetVfo {
                vfo: if *s {
                    Vfo::Split
                } else {
                    Vfo::A
                },
            },
            KenwoodCommand::Split(None) => RadioRequest::GetVfo,
            KenwoodCommand::Power(Some(on)) => RadioRequest::SetPower { on: *on },
            KenwoodCommand::AutoInfo(Some(enabled)) => RadioRequest::SetAutoInfo {
                enabled: *enabled,
            },
            KenwoodCommand::AutoInfo(None) => RadioRequest::GetAutoInfo,
            KenwoodCommand::ControlBand(None) => RadioRequest::GetControlBand,
            KenwoodCommand::TransmitBand(None) => RadioRequest::GetTransmitBand,
            KenwoodCommand::Unknown(s) => RadioRequest::Unknown {
                data: slice_to_vec(s.as_str().as_bytes()),
            },
            _ => RadioRequest::Unknown { data: Vec::new() },
        }
    }
}

fn vfo_select_command(vfo: Vfo) -> (r: KenwoodCommand)
    ensures
        r@ == vfo_select_model(vfo),
{
    match vfo {
        Vfo::A => KenwoodCommand::VfoSelect(Some(0)),
        Vfo::B => KenwoodCommand::VfoSelect(Some(1)),
        Vfo::Split => KenwoodCommand::Split(Some(true)),
        Vfo::Memory => KenwoodCommand::VfoSelect(Some(2)),
    }
}

impl FromRadioRequest for KenwoodCommand {
    fn from_radio_request(req: &RadioRequest) -> (r: Option<KenwoodCommand>)
        ensures
            r matches Some(c) ==> kenwood_from_request(req@) == Some(c@),
            r is None <==> kenwood_from_request(req@) is None,
    {
        match req {
            RadioRequest::SetFrequency { hz } => Some(KenwoodCommand::FrequencyA(Some(*hz))),
            RadioRequest::GetFrequency => Some(KenwoodCommand::FrequencyA(None)),
            RadioRequest::SetMode { mode } => Some(
                KenwoodCommand::Mode(Some(operating_mode_to_kenwood(*mode))),
            ),
            RadioRequest::GetMode => Some(KenwoodCommand::Mode(None)),
            RadioRequest::SetPtt { active } => if *active {
                Some(KenwoodCommand::Transmit(Some(true)))
            } else {
                Some(KenwoodCommand::Receive)
            },
            RadioRequest::GetPtt => Some(KenwoodCommand::Transmit(None)),
            RadioRequest::SetVfo { vfo } => Some(vfo_select_command(*vfo)),
            RadioRequest::GetVfo => Some(KenwoodCommand::VfoSelect(None)),
            RadioRequest::GetId => Some(KenwoodCommand::Id(None)),
            RadioRequest::GetStatus => Some(KenwoodCommand::Info(None)),
            RadioRequest::SetPower { on } => Some(KenwoodCommand::Power(Some(*on))),
            RadioRequest::SetAutoInfo { enabled } => Some(KenwoodCommand::AutoInfo(Some(*enabled))),
            RadioRequest::GetAutoInfo => Some(KenwoodCommand::AutoInfo(None)),
            RadioRequest::GetControlBand => Some(KenwoodCommand::ControlBand(None)),
            RadioRequest::GetTransmitBand => Some(KenwoodCommand::TransmitBand(None)),
            RadioRequest::Unknown { .. } => None,
        }
    }
}

impl FromRadioResponse for KenwoodCommand {
    fn from_radio_response(resp: &RadioResponse) -> (r: Option<KenwoodCommand>)
        ensures
            r matches Some(c) ==> kenwood_from_response(resp@) == Some(c@),
            r is None <==> kenwood_from_response(resp@) is None,
    {
        match resp {
            RadioResponse::Frequency { hz } => Some(KenwoodCommand::FrequencyA(Some(*hz))),
            RadioResponse::Mode { mode } => Some(
                KenwoodCommand::Mode(Some(operating_mode_to_kenwood(*mode))),
            ),
            RadioResponse::Ptt { active } => Some(KenwoodCommand::Transmit(Some(*active))),
            RadioResponse::Vfo { vfo } => Some(vfo_select_command(*vfo)),
            RadioResponse::Id { id } => Some(KenwoodCommand::Id(Some(id.clone()))),
            RadioResponse::AutoInfo { enabled } => Some(KenwoodCommand::AutoInfo(Some(*enabled))),
            RadioResponse::ControlBand { band } => Some(KenwoodCommand::ControlBand(Some(*band))),
            RadioResponse::TransmitBand { band } => Some(KenwoodCommand::TransmitBand(Some(*band))),
            RadioResponse::Status { .. } => None,
            RadioResponse::Unknown { .. } => None,
        }
    }
}

/// Appends the two-letter prefix `a b`.
pub(crate) fn push2(out: &mut Vec<u8>, a: u8, b: u8)
    ensures
        final(out)@ == old(out)@ + ascii2(a, b),
{
    out.push(a);
    out.push(b);
    proof {
        assert(old(out)@ + ascii2(a, b) =~= old(out)@.push(a).push(b));
    }
}

/// Appends `1` or `0`.
pub(crate) fn push_flag(out: &mut Vec<u8>, on: bool)
    ensures
        final(out)@ == old(out)@ + flag_digit(on),
{
    out.push(if on {
        49u8
    } else {
        48u8
    });
    proof {
        assert(old(out)@ + flag_digit(on) =~= old(out)@.push(if on {
            49u8
        } else {
            48u8
        }));
    }
}

impl KenwoodCommand {
    /// The bytes before the terminator.
    pub(crate) fn encode_body(&self, out: &mut Vec<u8>)
        ensures
            final(out)@ == old(out)@ + kenwood_body(self@),
    {
        match self {
            KenwoodCommand::FrequencyA(f) => {
                push2(out, 70u8, 65u8);
                if let Some(hz) = f {
                    push_dec_padded(out, *hz, 11);
                }
            },
            KenwoodCommand::FrequencyB(f) => {
                push2(out, 70u8, 66u8);
                if let Some(hz) = f {
                    push_dec_padded(out, *hz, 11);
                }
            },
            KenwoodCommand::Mode(m) => {
                push2(out, 77u8, 68u8);
                if let Some(m) = m {
                    push_dec(out, *m as u64);
                }
            },
            KenwoodCommand::Transmit(t) => {
                push2(out, 84u8, 88u8);
                if let Some(t) = t {
                    push_flag(out, *t);
                }
            },
            KenwoodCommand::Receive => {
                push2(out, 82u8, 88u8);
            },
            KenwoodCommand::Id(id) => {
                push2(out, 73u8, 68u8);
                if let Some(id) = id {
                    push_all(out, id.as_str().as_bytes());
                }
            },
            KenwoodCommand::Info(_) => {
                push2(out, 73u8, 70u8);
            },
            KenwoodCommand::VfoSelect(v) => {
                push2(out, 70u8, 82u8);
                if let Some(v) = v {
                    push_dec(out, *v as u64);
                }
            },
            KenwoodCommand::Split(s) => {
                push2(out, 70u8, 84u8);
                if let Some(s) = s {
                    push_flag(out, *s);
                }
            },
            KenwoodCommand::Power(p) => {
                push2(out, 80u8, 83u8);
                if let Some(p) = p {
                    push_flag(out, *p);
                }
            },
            KenwoodCommand::AutoInfo(a) => {
                push2(out, 65u8, 73u8);
                if let Some(a) = a {
                    out.push(if *a {
                        50u8
                    } else {
                        48u8
                    });
                    proof {
                        assert(old(out)@ + kenwood_body(self@) =~= old(out)@ + ascii2(65u8, 73u8)
                            + seq![
                            if *a {
                                50u8
                            } else {
                                48u8
                            },
                        ]);
                    }
                }
            },
            KenwoodCommand::ControlBand(b) => {
                push2(out, 67u8, 66u8);
                if let Some(b) = b {
                    push_dec(out, *b as u64);
                }
            },
            KenwoodCommand::TransmitBand(b) => {
                push2(out, 84u8, 66u8);
                if let Some(b) = b {
                    push_dec(out, *b as u64);
                }
            },
            KenwoodCommand::Unknown(s) => {
                push_all(out, s.as_str().as_bytes());
            },
        }
    }
}

impl EncodeCommand for KenwoodCommand {
    fn encode(&self) -> (r: Vec<u8>)
        ensures
            r@ == kenwood_encode(self@),
    {
        let mut out: Vec<u8> = Vec::new();
        self.encode_body(&mut out);
        out.push(59u8);
        proof {
            assert(Seq::<u8>::empty() + kenwood_body(self@) =~= kenwood_body(self@));
        }
        out
    }
}

impl RadioCodec for KenwoodCodec {
    fn push_bytes(&mut self, data: &[u8])
        ensures
            final(self)@ == buffer_after_push(old(self)@, data@),
    {
        push_limited(&mut self.buffer, data);
    }

    fn next_response(&mut self) -> (r: Option<RadioResponse>)
        ensures
            next_frame(old(self)@, 59u8) matches Some((f, rest)) ==> {
                &&& r matches Some(resp) && resp@ == kenwood_to_response(kenwood_decode(f.drop_last()))
                &&& final(self)@ == rest
            },
            next_frame(old(self)@, 59u8) is None ==> r is None && final(self)@ == old(self)@,
    {
        match ProtocolCodec::next_command(self) {
            Some(c) => Some(c.to_radio_response()),
            None => None,
        }
    }

    fn next_response_with_bytes(&mut self) -> (r: Option<(RadioResponse, Vec<u8>)>)
        ensures
            next_frame(old(self)@, 59u8) matches Some((f, rest)) ==> {
                &&& r matches Some((resp, bytes)) && resp@ == kenwood_to_response(
                    kenwood_decode(f.drop_last()),
                ) && bytes@ == f
                &&& final(self)@ == rest
            },
            next_frame(old(self)@, 59u8) is None ==> r is None && final(self)@ == old(self)@,
    {
        match ProtocolCodec::next_command_with_bytes(self) {
            Some((c, bytes)) => Some((c.to_radio_response(), bytes)),
            None => None,
        }
    }

    fn next_request(&mut self) -> (r: Option<RadioRequest>)
        ensures
            next_frame(old(self)@, 59u8) matches Some((f, rest)) ==> {
                &&& r matches Some(req) && req@ == kenwood_to_request(kenwood_decode(f.drop_last()))
                &&& final(self)@ == rest
            },
            next_frame(old(self)@, 59u8) is None ==> r is None && final(self)@ == old(self)@,
    {
        match ProtocolCodec::next_command(self) {
            Some(c) => Some(c.to_radio_request()),
            None => None,
        }
    }

    fn next_request_with_bytes(&mut self) -> (r: Option<(RadioRequest, Vec<u8>)>)
        ensures
            next_frame(old(self)@, 59u8) matches Some((f, rest)) ==> {
                &&& r matches Some((req, bytes)) && req@ == kenwood_to_request(
                    kenwood_decode(f.drop_last()),
                ) && bytes@ == f
                &&& final(self)@ == rest
            },
            next_frame(old(self)@, 59u8) is None ==> r is None && final(self)@ == old(self)@,
    {
        match ProtocolCodec::next_command_with_bytes(self) {
            Some((c, bytes)) => Some((c.to_radio_request(), bytes)),
            None => None,
        }
    }

    fn clear(&mut self)
        ensures
            final(self)@ == Seq::<u8>::empty(),
    {
        self.buffer.clear();
    }
}

/// Generate a probe command to detect Kenwood radios
pub fn probe_command() -> (r: Vec<u8>)
    ensures
        r@ == seq![73u8, 68u8, 59u8],
{
    let r = vec![73u8, 68u8, 59u8];
    proof {
        assert(r@ =~= seq![73u8, 68u8, 59u8]);
    }
    r
}

/// An ID answer: at least five bytes, `ID`, then digits, then `;`.
pub open spec fn is_kenwood_id_response(data: Seq<u8>) -> bool {
    data.len() >= 5 && data[0] == 73u8 && data[1] == 68u8 && data.last() == 59u8 && all_digits(
        data.subrange(2, data.len() - 1),
    )
}

/// Tests whether every byte of `s` is an ASCII digit.
pub fn all_ascii_digits(s: &[u8]) -> (r: bool)
    ensures
        r == all_digits(s@),
{
    let mut i: usize = 0;
    while i < s.len()
        invariant
            i <= s@.len(),
            forall|j: int| 0 <= j < i ==> is_digit(#[trigger] s@[j]),
        decreases s.len() - i,
    {
        if s[i] < 48u8 || s[i] > 57u8 {
            return false;
        }
        i = i + 1;
    }
    true
}

/// Check if a response looks like a valid Kenwood ID response
pub fn is_valid_id_response(data: &[u8]) -> (r: bool)
    ensures
        r == is_kenwood_id_response(data@),
{
    if data.len() >= 5 && data[0] == 73u8 && data[1] == 68u8 && data[data.len() - 1] == 59u8 {
        all_ascii_digits(slice_subrange(data, 2, data.len() - 1))
    } else {
        false
    }
}

// ---------------------------------------------------------------------------
// Round trip: what the encoder writes, the codec reads back
// ---------------------------------------------------------------------------

/// Commands whose encoding reads back as themselves: everything but the
/// `TX` query (read as "transmit"), a filled-in `IF` report (encoded as the
/// bare query), raw unknown text, and an ID that is empty or holds a `;`.
pub open spec fn kenwood_wire_form(m: KenwoodModel) -> bool {
    match m {
        KenwoodModel::Transmit(None) => false,
        KenwoodModel::Info(Some(_)) => false,
        KenwoodModel::Unknown(_) => false,
        KenwoodModel::Id(Some(id)) => id.len() > 0 && !encode_utf8(id).contains(59u8),
        _ => true,
    }
}

pub proof fn lemma_prefix_split(a: u8, b: u8, p: Seq<u8>)
    ensures
        (ascii2(a, b) + p).len() == p.len() + 2,
        (ascii2(a, b) + p)[0] == a,
        (ascii2(a, b) + p)[1] == b,
        (ascii2(a, b) + p).subrange(2, p.len() + 2int) == p,
{
    assert((ascii2(a, b) + p).subrange(2, p.len() + 2int) =~= p);
}

pub proof fn lemma_parse_u8_dec(v: u8)
    ensures
        opt_u8_field(dec(v as nat)) == Some(Some(v)),
        !dec(v as nat).contains(59u8),
{
    lemma_parse_u8_dec_padded(v, 0);
    lemma_dec_digits(v as nat);
    assert(dec_padded(v as nat, 0) == dec(v as nat));
    no_semicolon_in_digits(dec(v as nat));
}

proof fn lemma_parse_u64_dec11(hz: u64)
    ensures
        opt_u64_field(dec_padded(hz as nat, 11)) == Some(Some(hz)),
        !dec_padded(hz as nat, 11).contains(59u8),
{
    lemma_parse_u64_dec_padded(hz, 11);
    lemma_dec_padded_value(hz as nat, 11);
    no_semicolon_in_digits(dec_padded(hz as nat, 11));
}

pub proof fn no_semicolon_in_digits(s: Seq<u8>)
    requires
        all_digits(s),
    ensures
        !s.contains(59u8),
{
    if s.contains(59u8) {
        let i = choose|i: int| 0 <= i < s.len() && s[i] == 59u8;
        assert(is_digit(s[i]));
    }
}

/// The body of a wire-form command decodes back to that command, and holds
/// no terminator.
pub proof fn lemma_kenwood_body_decodes(m: KenwoodModel)
    requires
        kenwood_wire_form(m),
    ensures
        kenwood_decode(kenwood_body(m)) == m,
        !kenwood_body(m).contains(59u8),
{
    let body = kenwood_body(m);
    match m {
        KenwoodModel::FrequencyA(f) => {
            let p = match f {
                Some(hz) => dec_padded(hz as nat, 11),
                None => Seq::<u8>::empty(),
            };
            if let Some(hz) = f {
                lemma_parse_u64_dec11(hz);
            } else {
                assert(ascii2(70u8, 65u8) + p =~= ascii2(70u8, 65u8));
            }
            lemma_prefix_split(70u8, 65u8, p);
        },
        KenwoodModel::FrequencyB(f) => {
            let p = match f {
                Some(hz) => dec_padded(hz as nat, 11),
                None => Seq::<u8>::empty(),
            };
            if let Some(hz) = f {
                lemma_parse_u64_dec11(hz);
            } else {
                assert(ascii2(70u8, 66u8) + p =~= ascii2(70u8, 66u8));
            }
            lemma_prefix_split(70u8, 66u8, p);
        },
        KenwoodModel::Mode(v) => {
            lemma_u8_field_case(77u8, 68u8, v);
        },
        KenwoodModel::VfoSelect(v) => {
            lemma_u8_field_case(70u8, 82u8, v);
        },
        KenwoodModel::ControlBand(v) => {
            lemma_u8_field_case(67u8, 66u8, v);
        },
        KenwoodModel::TransmitBand(v) => {
            lemma_u8_field_case(84u8, 66u8, v);
        },
        KenwoodModel::Transmit(t) => {
            lemma_flag_case(84u8, 88u8, t);
        },
        KenwoodModel::Split(t) => {
            lemma_flag_case(70u8, 84u8, t);
        },
        KenwoodModel::Power(t) => {
            lemma_flag_case(80u8, 83u8, t);
        },
        KenwoodModel::AutoInfo(t) => {
            let p = match t {
                Some(e) => if e {
                    seq![50u8]
                } else {
                    seq![48u8]
                },
                None => Seq::<u8>::empty(),
            };
            lemma_prefix_split(65u8, 73u8, p);
            if t is None {
                assert(ascii2(65u8, 73u8) + p =~= ascii2(65u8, 73u8));
            }
            assert(seq![50u8] != seq![48u8]) by {
                assert(seq![50u8][0] != seq![48u8][0]);
            }
            assert(!body.contains(59u8)) by {
                if body.contains(59u8) {
                    let i = choose|i: int| 0 <= i < body.len() && body[i] == 59u8;
                    assert(body[i] != 59u8);
                }
            }
        },
        KenwoodModel::Receive => {
            assert(!body.contains(59u8)) by {
                if body.contains(59u8) {
                    let i = choose|i: int| 0 <= i < body.len() && body[i] == 59u8;
                    assert(body[i] != 59u8);
                }
            }
        },
        KenwoodModel::Info(i) => {
            assert(!body.contains(59u8)) by {
                if body.contains(59u8) {
                    let i = choose|i: int| 0 <= i < body.len() && body[i] == 59u8;
                    assert(body[i] != 59u8);
                }
            }
        },
        KenwoodModel::Id(id) => {
            let p = match id {
                Some(t) => encode_utf8(t),
                None => Seq::<u8>::empty(),
            };
            lemma_prefix_split(73u8, 68u8, p);
            if let Some(t) = id {
                assert(p.len() > 0) by {
                    if p.len() == 0 {
                        assert(p =~= Seq::<u8>::empty());
                        assert(decode_utf8(p) == t);
                        assert(decode_utf8(Seq::<u8>::empty()) =~= Seq::<char>::empty());
                    }
                }
                assert(valid_utf8(p));
                assert(decode_utf8(p) == t);
            } else {
                assert(ascii2(73u8, 68u8) + p =~= ascii2(73u8, 68u8));
            }
            assert(!body.contains(59u8)) by {
                if body.contains(59u8) {
                    let i = choose|i: int| 0 <= i < body.len() && body[i] == 59u8;
                    if i >= 2 {
                        assert(p[i - 2] == 59u8);
                    }
                }
            }
        },
        KenwoodModel::Unknown(_) => {},
    }
}

pub proof fn lemma_u8_field_case(a: u8, b: u8, v: Option<u8>)
    ensures
        ({
            let p = match v {
                Some(x) => dec(x as nat),
                None => Seq::<u8>::empty(),
            };
            &&& opt_u8_field(p) == Some(v)
            &&& (ascii2(a, b) + p)[0] == a
            &&& (ascii2(a, b) + p)[1] == b
            &&& (ascii2(a, b) + p).len() >= 2
            &&& (ascii2(a, b) + p).subrange(2, (ascii2(a, b) + p).len() as int) == p
            &&& (a != 59u8 && b != 59u8) ==> !(ascii2(a, b) + p).contains(59u8)
            &&& v is None ==> ascii2(a, b) + p == ascii2(a, b)
        }),
{
    let p = match v {
        Some(x) => dec(x as nat),
        None => Seq::<u8>::empty(),
    };
    lemma_prefix_split(a, b, p);
    if let Some(x) = v {
        lemma_parse_u8_dec(x);
    } else {
        assert(ascii2(a, b) + p =~= ascii2(a, b));
    }
    let body = ascii2(a, b) + p;
    if a != 59u8 && b != 59u8 && body.contains(59u8) {
        let i = choose|i: int| 0 <= i < body.len() && body[i] == 59u8;
        if i >= 2 {
            assert(p[i - 2] == 59u8);
        }
    }
}

pub proof fn lemma_flag_case(a: u8, b: u8, t: Option<bool>)
    ensures
        ({
            let p = match t {
                Some(x) => flag_digit(x),
                None => Seq::<u8>::empty(),
            };
            &&& t matches Some(x) ==> opt_flag(p) == Some(x) && (p.len() == 0 || !is_zero_text(p)) == x
            &&& t is None ==> opt_flag(p) is None && ascii2(a, b) + p == ascii2(a, b)
            &&& (ascii2(a, b) + p)[0] == a
            &&& (ascii2(a, b) + p)[1] == b
            &&& (ascii2(a, b) + p).len() >= 2
            &&& (ascii2(a, b) + p).subrange(2, (ascii2(a, b) + p).len() as int) == p
            &&& (a != 59u8 && b != 59u8) ==> !(ascii2(a, b) + p).contains(59u8)
        }),
{
    let p = match t {
        Some(x) => flag_digit(x),
        None => Seq::<u8>::empty(),
    };
    lemma_prefix_split(a, b, p);
    assert(seq![49u8] != seq![48u8]) by {
        assert(seq![49u8][0] != seq![48u8][0]);
    }
    if t is None {
        assert(ascii2(a, b) + p =~= ascii2(a, b));
    }
    let body = ascii2(a, b) + p;
    if a != 59u8 && b != 59u8 && body.contains(59u8) {
        let i = choose|i: int| 0 <= i < body.len() && body[i] == 59u8;
        if i >= 2 {
            assert(p[i - 2] == 59u8);
        }
    }
}

/// Round trip through the stream: a wire-form command encoded and pushed
/// into an empty codec comes back out, as one frame, as the same command,
/// and leaves the codec empty.
pub proof fn law_kenwood_encode_then_parse(m: KenwoodModel)
    requires
        kenwood_wire_form(m),
        kenwood_encode(m).len() <= 4 * MAX_BUFFERED_FRAME,
    ensures
        next_frame(buffer_after_push(Seq::empty(), kenwood_encode(m)), 59u8) == Some(
            (kenwood_encode(m), Seq::<u8>::empty()),
        ),
        kenwood_decode(kenwood_encode(m).drop_last()) == m,
        next_frame(Seq::<u8>::empty(), 59u8) is None,
{
    lemma_kenwood_body_decodes(m);
    let e = kenwood_encode(m);
    let body = kenwood_body(m);
    assert(Seq::<u8>::empty() + e =~= e);
    assert(e.drop_last() =~= body);
    assert forall|j: int| 0 <= j < e.len() - 1 implies e[j] != 59u8 by {
        assert(e[j] == body[j]);
    }
    lemma_first_index_of(e, 59u8, e.len() - 1);
    assert(e.subrange(0, e.len() as int) =~= e);
    assert(e.subrange(e.len() as int, e.len() as int) =~= Seq::<u8>::empty());
}

/// Two wire-form commands sent back to back come out of the stream one
/// after the other, each as itself.
pub proof fn law_kenwood_frames_in_order(m1: KenwoodModel, m2: KenwoodModel)
    requires
        kenwood_wire_form(m1),
        kenwood_wire_form(m2),
        kenwood_encode(m1).len() + kenwood_encode(m2).len() <= 4 * MAX_BUFFERED_FRAME,
    ensures
        next_frame(buffer_after_push(Seq::empty(), kenwood_encode(m1) + kenwood_encode(m2)), 59u8) == Some(
            (kenwood_encode(m1), kenwood_encode(m2)),
        ),
        next_frame(kenwood_encode(m2), 59u8) == Some((kenwood_encode(m2), Seq::<u8>::empty())),
        kenwood_decode(kenwood_encode(m1).drop_last()) == m1,
        kenwood_decode(kenwood_encode(m2).drop_last()) == m2,
{
    let e1 = kenwood_encode(m1);
    let e2 = kenwood_encode(m2);
    law_kenwood_encode_then_parse(m1);
    law_kenwood_encode_then_parse(m2);
    assert(Seq::<u8>::empty() + e1 =~= e1);
    assert(Seq::<u8>::empty() + e2 =~= e2);
    assert(Seq::<u8>::empty() + (e1 + e2) =~= e1 + e2);
    lemma_first_index_of_found(e1, 59u8);
    assert(e1.subrange(0, e1.len() as int) =~= e1);
    crate::stream::law_frame_split(e1, e2, 59u8);
}

/// An IF status report is read from the places of its wire text: the
/// frequency is the value of the first eleven parameter digits, the radio
/// is transmitting exactly when the TX/RX character (parameter offset 27)
/// is not `0`, RIT is on when offset 21 is `1`, split when offset 31 is
/// `1`, and the mode and VFO are the digits at offsets 28 and 29; the
/// common status carries that frequency and PTT state.
pub proof fn law_kenwood_if_report(p: Seq<u8>)
    requires
        p.len() >= 33,
        crate::text::all_digits(p.subrange(0, 11)),
    ensures
        match kenwood_decode(ascii2(73u8, 70u8) + p) {
            KenwoodModel::Info(Some(i)) => {
                &&& i.frequency_hz == crate::text::digits_value(p.subrange(0, 11))
                &&& i.tx == (p[27] != 48u8)
                &&& i.rit_on == (p[21] == 49u8)
                &&& i.split == (p[31] == 49u8)
                &&& crate::text::is_digit(p[28]) ==> i.mode == p[28] - 48
                &&& crate::text::is_digit(p[29]) ==> i.vfo == p[29] - 48
                &&& match kenwood_to_response(KenwoodModel::Info(Some(i))) {
                    ResponseModel::Status { frequency_hz, ptt, .. } => frequency_hz == Some(i.frequency_hz) && ptt
                        == Some(p[27] != 48u8),
                    _ => false,
                }
            },
            _ => false,
        },
{
    lemma_prefix_split(73u8, 70u8, p);
    crate::text::lemma_parse_u64_digits(p.subrange(0, 11));
    if crate::text::is_digit(p[28]) {
        assert(p.subrange(28, 29) =~= seq![p[28]]);
        crate::text::lemma_parse_one_digit(p[28]);
    }
    if crate::text::is_digit(p[29]) {
        assert(p.subrange(29, 30) =~= seq![p[29]]);
        crate::text::lemma_parse_one_digit(p[29]);
    }
}

} // verus!
