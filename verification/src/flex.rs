//! FlexRadio SmartSDR CAT Protocol
//!
//! FlexRadio uses a Kenwood-compatible ASCII protocol with extensions.
//! Commands are semicolon-terminated and come in two forms:
//! - standard Kenwood 2-letter commands (FA, FB, MD, TX, RX, ID, IF)
//! - FlexRadio extended 4-letter ZZ commands (ZZFA, ZZFB, ZZMD, ZZTX, ZZIF)
//!
//! The codec wraps a `KenwoodCodec`: standard commands are read by it, and
//! frames it does not know are tried as ZZ commands.
//!
//! Model identification (answer to `ID;`): 904 = FLEX-6700, 905 = FLEX-6500,
//! 906 = FLEX-6700R, 907 = FLEX-6300, 908 = FLEX-6400, 909 = FLEX-6600,
//! 910 = FLEX-6400M, 911 = FLEX-6600M, 912 = FLEX-8400, 913 = FLEX-8600.

use vstd::prelude::*;
use vstd::slice::{slice_subrange, slice_to_vec};
use vstd::string::StringSliceAdditionalSpecFns;
use vstd::utf8::{encode_utf8, valid_utf8};

use crate::command::{OperatingMode, RadioRequest, RadioResponse, RequestModel, ResponseModel, Vfo};
use crate::kenwood::{
    all_ascii_digits, ascii2, flag_digit, is_zero_param, kenwood_decode, kenwood_encode,
    kenwood_from_request, kenwood_from_response, kenwood_to_request, kenwood_to_response, opt_flag,
    push2, push_flag, vfo_from_digit, vfo_of_digit, KenwoodCodec, KenwoodCommand, KenwoodModel,
};
use crate::protocol::{
    EncodeCommand, FromRadioRequest, FromRadioResponse, ProtocolCodec, RadioCodec, ToRadioRequest,
    ToRadioResponse,
};
use crate::stream::{buffer_after_push, next_frame};
use crate::text::{
    all_digits, dec, dec_padded, parse_i16, parse_i16_spec, parse_i32, parse_i32_spec, parse_u16,
    parse_u16_spec, parse_u32, parse_u32_spec, parse_u64, parse_u64_spec, parse_u8, parse_u8_spec,
    push_all, push_dec, push_dec_padded, str_from_utf8, text_from_bytes,
};

verus! {

/// FlexRadio protocol command
#[derive(Debug, Clone, PartialEq, Eq)]
pub enum FlexCommand {
    /// Base Kenwood command (for compatible commands like FA, FB, TX, RX, ID, FR, FT, PS)
    Kenwood(KenwoodCommand),
    /// Mode with FlexRadio's extended mode set: ZZMD01; or MD1;
    Mode(Option<FlexMode>),
    /// FlexRadio extended status: ZZIF...;
    Info(Option<FlexInfo>),
    /// Audio gain: ZZAG000; (0-100)
    AudioGain(Option<u8>),
    /// RF power level: ZZPC000; (0-100)
    RfPower(Option<u8>),
    /// S-meter read: ZZSM;
    SMeter(Option<i16>),
    /// AGC mode: ZZGT0;
    AgcMode(Option<u8>),
    /// Noise reduction: ZZNR0;
    NoiseReduction(Option<bool>),
    /// Auto-information mode: AI0; (off) or AI1; (on) or AI; (query)
    AutoInfo(Option<bool>),
    /// Unknown/unrecognized command (the text kept as received)
    Unknown(String),
}

/// FlexRadio operating mode (ZZMD values)
#[derive(Debug, Clone, Copy, PartialEq, Eq, Structural)]
pub enum FlexMode {
    /// LSB (00)
    Lsb,
    /// USB (01)
    Usb,
    /// DSB (02)
    Dsb,
    /// CW Lower (03)
    CwL,
    /// CW Upper (04)
    CwU,
    /// FM (05)
    Fm,
    /// AM (06)
    Am,
    /// Digital Upper (07)
    DigU,
    /// Spectrum (08)
    Spec,
    /// Digital Lower (09)
    DigL,
    /// Synchronous AM (10)
    Sam,
    /// Narrow FM (11)
    Nfm,
    /// Digital FM (12)
    Dfm,
    /// FreeDV (20)
    Fdv,
    /// RTTY (30)
    Rtty,
    /// D-STAR (40)
    Dstar,
}

pub open spec fn flex_code(m: FlexMode) -> u8 {
    match m {
        FlexMode::Lsb => 0,
        FlexMode::Usb => 1,
        FlexMode::Dsb => 2,
        FlexMode::CwL => 3,
        FlexMode::CwU => 4,
        FlexMode::Fm => 5,
        FlexMode::Am => 6,
        FlexMode::DigU => 7,
        FlexMode::Spec => 8,
        FlexMode::DigL => 9,
        FlexMode::Sam => 10,
        FlexMode::Nfm => 11,
        FlexMode::Dfm => 12,
        FlexMode::Fdv => 20,
        FlexMode::Rtty => 30,
        FlexMode::Dstar => 40,
    }
}

pub open spec fn flex_mode_of_code(code: u8) -> Option<FlexMode> {
    match code {
        0 => Some(FlexMode::Lsb),
        1 => Some(FlexMode::Usb),
        2 => Some(FlexMode::Dsb),
        3 => Some(FlexMode::CwL),
        4 => Some(FlexMode::CwU),
        5 => Some(FlexMode::Fm),
        6 => Some(FlexMode::Am),
        7 => Some(FlexMode::DigU),
        8 => Some(FlexMode::Spec),
        9 => Some(FlexMode::DigL),
        10 => Some(FlexMode::Sam),
        11 => Some(FlexMode::Nfm),
        12 => Some(FlexMode::Dfm),
        20 => Some(FlexMode::Fdv),
        30 => Some(FlexMode::Rtty),
        40 => Some(FlexMode::Dstar),
        _ => None,
    }
}

pub open spec fn flex_from_kenwood_mode(mode: u8) -> FlexMode {
    match mode {
        1 => FlexMode::Lsb,
        2 => FlexMode::Usb,
        3 => FlexMode::CwU,
        4 => FlexMode::Fm,
        5 => FlexMode::Am,
        6 => FlexMode::Rtty,
        7 => FlexMode::CwL,
        9 => FlexMode::Rtty,
        _ => FlexMode::Usb,
    }
}

pub open spec fn flex_to_operating(m: FlexMode) -> OperatingMode {
    match m {
        FlexMode::Lsb => OperatingMode::Lsb,
        FlexMode::Usb => OperatingMode::Usb,
        FlexMode::Dsb | FlexMode::Am | FlexMode::Sam => OperatingMode::Am,
        FlexMode::CwL => OperatingMode::Cw,
        FlexMode::CwU => OperatingMode::CwR,
        FlexMode::Fm | FlexMode::Dfm => OperatingMode::Fm,
        FlexMode::Nfm => OperatingMode::FmN,
        FlexMode::DigU | FlexMode::Fdv | FlexMode::Dstar => OperatingMode::DigU,
        FlexMode::DigL => OperatingMode::DigL,
        FlexMode::Spec => OperatingMode::Data,
        FlexMode::Rtty => OperatingMode::Rtty,
    }
}

pub open spec fn flex_from_operating(mode: OperatingMode) -> FlexMode {
    match mode {
        OperatingMode::Lsb => FlexMode::Lsb,
        OperatingMode::Usb => FlexMode::Usb,
        OperatingMode::Cw => FlexMode::CwL,
        OperatingMode::CwR => FlexMode::CwU,
        OperatingMode::Am => FlexMode::Am,
        OperatingMode::Fm => FlexMode::Fm,
        OperatingMode::FmN => FlexMode::Nfm,
        OperatingMode::Dig | OperatingMode::DigU | OperatingMode::DataU | OperatingMode::Data
        | OperatingMode::Pkt => FlexMode::DigU,
        OperatingMode::DigL | OperatingMode::DataL => FlexMode::DigL,
        OperatingMode::Rtty => FlexMode::Rtty,
        OperatingMode::RttyR => FlexMode::Rtty,
    }
}

impl FlexMode {
    /// Convert from ZZMD parameter value
    pub fn from_code(code: u8) -> (r: Option<Self>)
        ensures
            r == flex_mode_of_code(code),
    {
        match code {
            0 => Some(Self::Lsb),
            1 => Some(Self::Usb),
            2 => Some(Self::Dsb),
            3 => Some(Self::CwL),
            4 => Some(Self::CwU),
            5 => Some(Self::Fm),
            6 => Some(Self::Am),
            7 => Some(Self::DigU),
            8 => Some(Self::Spec),
            9 => Some(Self::DigL),
            10 => Some(Self::Sam),
            11 => Some(Self::Nfm),
            12 => Some(Self::Dfm),
            20 => Some(Self::Fdv),
            30 => Some(Self::Rtty),
            40 => Some(Self::Dstar),
            _ => None,
        }
    }

    /// Convert from Kenwood mode number (1-10)
    pub fn from_kenwood_mode(mode: u8) -> (r: Self)
        ensures
            r == flex_from_kenwood_mode(mode),
    {
        match mode {
            1 => Self::Lsb,
            2 => Self::Usb,
            3 => Self::CwU,
            4 => Self::Fm,
            5 => Self::Am,
            6 => Self::Rtty,
            7 => Self::CwL,
            9 => Self::Rtty,
            _ => Self::Usb,
        }
    }

    /// Convert to ZZMD parameter value
    pub fn to_code(self) -> (r: u8)
        ensures
            r == flex_code(self),
    {
        match self {
            Self::Lsb => 0,
            Self::Usb => 1,
            Self::Dsb => 2,
            Self::CwL => 3,
            Self::CwU => 4,
            Self::Fm => 5,
            Self::Am => 6,
            Self::DigU => 7,
            Self::Spec => 8,
            Self::DigL => 9,
            Self::Sam => 10,
            Self::Nfm => 11,
            Self::Dfm => 12,
            Self::Fdv => 20,
            Self::Rtty => 30,
            Self::Dstar => 40,
        }
    }

    /// Convert to standard OperatingMode
    pub fn to_operating_mode(self) -> (r: OperatingMode)
        ensures
            r == flex_to_operating(self),
    {
        match self {
            Self::Lsb => OperatingMode::Lsb,
            Self::Usb => OperatingMode::Usb,
            Self::Dsb | Self::Am | Self::Sam => OperatingMode::Am,
            Self::CwL => OperatingMode::Cw,
            Self::CwU => OperatingMode::CwR,
            Self::Fm | Self::Dfm => OperatingMode::Fm,
            Self::Nfm => OperatingMode::FmN,
            Self::DigU | Self::Fdv | Self::Dstar => OperatingMode::DigU,
            Self::DigL => OperatingMode::DigL,
            Self::Spec => OperatingMode::Data,
            Self::Rtty => OperatingMode::Rtty,
        }
    }

    /// Convert from standard OperatingMode
    pub fn from_operating_mode(mode: OperatingMode) -> (r: Self)
        ensures
            r == flex_from_operating(mode),
    {
        match mode {
            OperatingMode::Lsb => Self::Lsb,
            OperatingMode::Usb => Self::Usb,
            OperatingMode::Cw => Self::CwL,
            OperatingMode::CwR => Self::CwU,
            OperatingMode::Am => Self::Am,
            OperatingMode::Fm => Self::Fm,
            OperatingMode::FmN => Self::Nfm,
            OperatingMode::Dig | OperatingMode::DigU | OperatingMode::DataU | OperatingMode::Data
            | OperatingMode::Pkt => Self::DigU,
            OperatingMode::DigL | OperatingMode::DataL => Self::DigL,
            OperatingMode::Rtty => Self::Rtty,
            OperatingMode::RttyR => Self::Rtty,
        }
    }
}

/// Mode codes round trip: every Flex mode's code reads back as that mode,
/// and every code that names a mode is that mode's code. The common modes
/// (those with a standard counterpart of their own) survive the trip
/// through `OperatingMode`.
pub proof fn law_flex_mode_code_roundtrip(m: FlexMode, code: u8)
    ensures
        flex_mode_of_code(flex_code(m)) == Some(m),
        flex_mode_of_code(code) matches Some(n) ==> flex_code(n) == code,
        (m is Lsb || m is Usb || m is CwL || m is CwU || m is Fm || m is Am || m is DigU
            || m is DigL || m is Nfm || m is Rtty) ==> flex_from_operating(flex_to_operating(m))
            == m,
{
}

/// A `ZZ` command body of ASCII text: the Kenwood reading does not know it
/// and keeps it as its text, which encodes back to the body.
proof fn lemma_zz_body_unknown_to_kenwood(body: Seq<u8>)
    requires
        body.len() >= 4,
        body[0] == 90u8,
        body[1] == 90u8,
        forall|i: int| 0 <= i < body.len() ==> #[trigger] body[i] < 128,
    ensures
        kenwood_decode(body) == KenwoodModel::Unknown(crate::text::wire_text(body)),
        encode_utf8(crate::text::wire_text(body)) == body,
{
    let chars = Seq::new(body.len(), |i: int| body[i] as char);
    assert(vstd::utf8::is_ascii_chars(chars)) by {
        assert forall|i: int| 0 <= i < chars.len() implies (chars[i] as nat) < 128 by {
            assert(body[i] < 128);
        }
    }
    vstd::utf8::is_ascii_chars_encode_utf8(chars);
    assert(encode_utf8(chars) =~= body);
    vstd::utf8::encode_utf8_valid_utf8(chars);
    vstd::utf8::decode_utf8_encode_utf8(body);
}

/// A `ZZFA`/`ZZFB` body with a frequency's digits reads as that frequency.
proof fn lemma_zz_frequency_parses(y: u8, hz: u64)
    requires
        y == 65u8 || y == 66u8,
    ensures
        flex_parse_zz(zz_prefix(70u8, y) + dec_padded(hz as nat, 11)) == Some(
            FlexModel::Kenwood(
                if y == 65u8 {
                    KenwoodModel::FrequencyA(Some(hz))
                } else {
                    KenwoodModel::FrequencyB(Some(hz))
                },
            ),
        ),
{
    let digits = dec_padded(hz as nat, 11);
    crate::text::lemma_dec_padded_u64_len(hz, 11);
    crate::text::lemma_parse_u64_dec_padded(hz, 11);
    let body = zz_prefix(70u8, y) + digits;
    assert(body.subrange(4, body.len() as int) =~= digits);
    assert(zz(body, 70u8, y));
}

/// Round trip through the stream for frequencies: a `ZZFA`/`ZZFB` command
/// encoded and pushed into an empty codec comes back out, as one frame, as
/// the same frequency command, and leaves the codec empty.
pub proof fn law_flex_frequency_encode_then_parse(k: KenwoodModel)
    requires
        k matches KenwoodModel::FrequencyA(Some(_)) || k matches KenwoodModel::FrequencyB(Some(_)),
    ensures
        next_frame(buffer_after_push(Seq::empty(), flex_encode(FlexModel::Kenwood(k))), 59u8) == Some(
            (flex_encode(FlexModel::Kenwood(k)), Seq::<u8>::empty()),
        ),
        flex_decode(flex_encode(FlexModel::Kenwood(k)).drop_last()) == FlexModel::Kenwood(k),
        next_frame(Seq::<u8>::empty(), 59u8) is None,
{
    let (y, hz) = match k {
        KenwoodModel::FrequencyA(Some(hz)) => (65u8, hz),
        KenwoodModel::FrequencyB(Some(hz)) => (66u8, hz),
        _ => (0u8, 0u64),
    };
    let digits = dec_padded(hz as nat, 11);
    crate::text::lemma_dec_padded_u64_len(hz, 11);
    let body = zz_prefix(70u8, y) + digits;
    let e = body.push(59u8);
    assert(e == flex_encode(FlexModel::Kenwood(k)));
    assert(e.drop_last() =~= body);
    assert forall|j: int| 0 <= j < body.len() implies #[trigger] body[j] < 128 && body[j] != 59u8 by {
        if j >= 4 {
            assert(body[j] == digits[j - 4]);
            assert(crate::text::is_digit(digits[j - 4]));
        }
    }
    assert(Seq::<u8>::empty() + e =~= e);
    assert forall|j: int| 0 <= j < e.len() - 1 implies e[j] != 59u8 by {
        assert(e[j] == body[j]);
    }
    crate::stream::lemma_first_index_of(e, 59u8, e.len() - 1);
    assert(e.subrange(0, e.len() as int) =~= e);
    assert(e.subrange(e.len() as int, e.len() as int) =~= Seq::<u8>::empty());
    lemma_zz_body_unknown_to_kenwood(body);
    lemma_zz_frequency_parses(y, hz);
}

/// Parsed ZZIF response data
#[derive(Debug, Clone, Copy, PartialEq, Eq)]
pub struct FlexInfo {
    /// Current frequency in Hz
    pub frequency_hz: u64,
    /// Frequency step size
    pub step_size: u32,
    /// RIT/XIT offset in Hz
    pub rit_offset: i32,
    /// RIT enabled
    pub rit_on: bool,
    /// XIT enabled
    pub xit_on: bool,
    /// TX enabled (PTT)
    pub tx: bool,
    /// Operating mode
    pub mode: FlexMode,
    /// VFO (0=A, 1=B)
    pub vfo: u8,
    /// Split operation
    pub split: bool,
}

/// The mathematical value of a `FlexCommand`.
pub enum FlexModel {
    Kenwood(KenwoodModel),
    Mode(Option<FlexMode>),
    Info(Option<FlexInfo>),
    AudioGain(Option<u8>),
    RfPower(Option<u8>),
    SMeter(Option<i16>),
    AgcMode(Option<u8>),
    NoiseReduction(Option<bool>),
    AutoInfo(Option<bool>),
    Unknown(Seq<char>),
}

impl View for FlexCommand {
    type V = FlexModel;

    open spec fn view(&self) -> FlexModel {
        match self {
            FlexCommand::Kenwood(k) => FlexModel::Kenwood(k@),
            FlexCommand::Mode(m) => FlexModel::Mode(*m),
            FlexCommand::Info(i) => FlexModel::Info(*i),
            FlexCommand::AudioGain(v) => FlexModel::AudioGain(*v),
            FlexCommand::RfPower(v) => FlexModel::RfPower(*v),
            FlexCommand::SMeter(v) => FlexModel::SMeter(*v),
            FlexCommand::AgcMode(v) => FlexModel::AgcMode(*v),
            FlexCommand::NoiseReduction(v) => FlexModel::NoiseReduction(*v),
            FlexCommand::AutoInfo(v) => FlexModel::AutoInfo(*v),
            FlexCommand::Unknown(s) => FlexModel::Unknown(s@),
        }
    }
}

// ---------------------------------------------------------------------------
// Grammar (specification)
// ---------------------------------------------------------------------------

pub open spec fn or_else<T>(v: Option<T>, d: T) -> T {
    match v {
        Some(x) => x,
        None => d,
    }
}

/// The ZZIF report: 11-digit frequency, 4-digit step (1 when unreadable),
/// 6-character RIT offset, RIT/XIT flags at 21/22, TX flag at 23, 2-digit
/// mode at 24 (USB when unknown), VFO digit at 26, split flag at 27.
pub open spec fn flex_parse_info(p: Seq<u8>) -> Option<FlexInfo> {
    if p.len() < 28 {
        None
    } else {
        match parse_u64_spec(p.subrange(0, 11)) {
            None => None,
            Some(f) => Some(
                FlexInfo {
                    frequency_hz: f,
                    step_size: or_else(parse_u32_spec(p.subrange(11, 15)), 1u32),
                    rit_offset: or_else(parse_i32_spec(p.subrange(15, 21)), 0i32),
                    rit_on: p[21] == 49u8,
                    xit_on: p[22] == 49u8,
                    tx: p[23] != 48u8,
                    mode: or_else(
                        flex_mode_of_code(or_else(parse_u8_spec(p.subrange(24, 26)), 1u8)),
                        FlexMode::Usb,
                    ),
                    vfo: or_else(parse_u8_spec(p.subrange(26, 27)), 0u8),
                    split: p[27] == 49u8,
                },
            ),
        }
    }
}

/// `b` is `Z Z x y` followed by the parameters.
pub open spec fn zz(b: Seq<u8>, x: u8, y: u8) -> bool {
    b[2] == x && b[3] == y
}

/// The ZZ command a frame's text (as UTF-8 bytes) denotes, if it is one.
pub open spec fn flex_parse_zz(b: Seq<u8>) -> Option<FlexModel> {
    if b.len() < 4 || b[0] != 90u8 || b[1] != 90u8 {
        None
    } else {
        let p = b.subrange(4, b.len() as int);
        if zz(b, 70u8, 65u8) {
            Some(
                FlexModel::Kenwood(
                    KenwoodModel::FrequencyA(
                        if p.len() == 0 {
                            None
                        } else {
                            parse_u64_spec(p)
                        },
                    ),
                ),
            )
        } else if zz(b, 70u8, 66u8) {
            Some(
                FlexModel::Kenwood(
                    KenwoodModel::FrequencyB(
                        if p.len() == 0 {
                            None
                        } else {
                            parse_u64_spec(p)
                        },
                    ),
                ),
            )
        } else if zz(b, 77u8, 68u8) || zz(b, 77u8, 69u8) {
            Some(
                FlexModel::Mode(
                    if p.len() == 0 {
                        None
                    } else {
                        match parse_u8_spec(p) {
                            Some(code) => flex_mode_of_code(code),
                            None => None,
                        }
                    },
                ),
            )
        } else if zz(b, 84u8, 88u8) {
            Some(FlexModel::Kenwood(KenwoodModel::Transmit(Some(p.len() == 0 || p != seq![48u8]))))
        } else if zz(b, 73u8, 70u8) {
            Some(
                FlexModel::Info(
                    if p.len() == 0 {
                        None
                    } else {
                        flex_parse_info(p)
                    },
                ),
            )
        } else if zz(b, 70u8, 82u8) {
            Some(
                FlexModel::Kenwood(
                    KenwoodModel::VfoSelect(
                        if p.len() == 0 {
                            None
                        } else {
                            parse_u8_spec(p)
                        },
                    ),
                ),
            )
        } else if zz(b, 83u8, 87u8) {
            Some(FlexModel::Kenwood(KenwoodModel::Split(opt_flag(p))))
        } else if zz(b, 65u8, 71u8) {
            Some(FlexModel::AudioGain(parse_u8_spec(p)))
        } else if zz(b, 80u8, 67u8) {
            Some(FlexModel::RfPower(parse_u8_spec(p)))
        } else if zz(b, 83u8, 77u8) {
            Some(FlexModel::SMeter(parse_i16_spec(p)))
        } else if zz(b, 71u8, 84u8) {
            Some(FlexModel::AgcMode(parse_u8_spec(p)))
        } else if zz(b, 78u8, 82u8) {
            Some(FlexModel::NoiseReduction(opt_flag(p)))
        } else if zz(b, 65u8, 73u8) {
            Some(FlexModel::AutoInfo(opt_flag(p)))
        } else {
            None
        }
    }
}

/// How a Kenwood reading is presented: modes in the Flex mode set, the IF
/// report as a Flex status, auto-information and unknown text on their own.
pub open spec fn flex_convert_kenwood(k: KenwoodModel) -> FlexModel {
    match k {
        KenwoodModel::Mode(Some(m)) => FlexModel::Mode(Some(flex_from_kenwood_mode(m))),
        KenwoodModel::Mode(None) => FlexModel::Mode(None),
        KenwoodModel::AutoInfo(e) => FlexModel::AutoInfo(e),
        KenwoodModel::Info(Some(info)) => FlexModel::Info(
            Some(
                FlexInfo {
                    frequency_hz: info.frequency_hz,
                    step_size: 1,
                    rit_offset: info.rit_offset as i32,
                    rit_on: info.rit_on,
                    xit_on: info.xit_on,
                    tx: info.tx,
                    mode: flex_from_kenwood_mode(info.mode),
                    vfo: info.vfo,
                    split: info.split,
                },
            ),
        ),
        KenwoodModel::Info(None) => FlexModel::Info(None),
        KenwoodModel::Unknown(s) => FlexModel::Unknown(s),
        other => FlexModel::Kenwood(other),
    }
}

/// What the codec yields for a frame body.
pub open spec fn flex_decode(body: Seq<u8>) -> FlexModel {
    match kenwood_decode(body) {
        KenwoodModel::Unknown(s) => match flex_parse_zz(encode_utf8(s)) {
            Some(f) => f,
            None => FlexModel::Unknown(s),
        },
        k => flex_convert_kenwood(k),
    }
}

pub open spec fn zz_prefix(x: u8, y: u8) -> Seq<u8> {
    seq![90u8, 90u8, x, y]
}

/// The wire bytes of a command (with its terminator). Frequencies,
/// transmit, VFO and split go out as ZZ commands; other Kenwood commands
/// keep their Kenwood form.
pub open spec fn flex_encode(m: FlexModel) -> Seq<u8> {
    match m {
        FlexModel::Kenwood(k) => match k {
            KenwoodModel::FrequencyA(Some(hz)) => (zz_prefix(70u8, 65u8) + dec_padded(hz as nat, 11)).push(59u8),
            KenwoodModel::FrequencyA(None) => zz_prefix(70u8, 65u8).push(59u8),
            KenwoodModel::FrequencyB(Some(hz)) => (zz_prefix(70u8, 66u8) + dec_padded(hz as nat, 11)).push(59u8),
            KenwoodModel::FrequencyB(None) => zz_prefix(70u8, 66u8).push(59u8),
            KenwoodModel::Transmit(Some(t)) => (zz_prefix(84u8, 88u8) + flag_digit(t)).push(59u8),
            KenwoodModel::Transmit(None) => zz_prefix(84u8, 88u8).push(59u8),
            KenwoodModel::VfoSelect(Some(v)) => (zz_prefix(70u8, 82u8) + dec(v as nat)).push(59u8),
            KenwoodModel::VfoSelect(None) => zz_prefix(70u8, 82u8).push(59u8),
            KenwoodModel::Split(Some(s)) => (zz_prefix(83u8, 87u8) + flag_digit(s)).push(59u8),
            KenwoodModel::Split(None) => zz_prefix(83u8, 87u8).push(59u8),
            other => kenwood_encode(other),
        },
        FlexModel::Mode(Some(md)) => (zz_prefix(77u8, 68u8) + dec_padded(flex_code(md) as nat, 2)).push(59u8),
        FlexModel::Mode(None) => zz_prefix(77u8, 68u8).push(59u8),
        FlexModel::Info(_) => zz_prefix(73u8, 70u8).push(59u8),
        FlexModel::AudioGain(Some(g)) => (zz_prefix(65u8, 71u8) + dec_padded(g as nat, 3)).push(59u8),
        FlexModel::AudioGain(None) => zz_prefix(65u8, 71u8).push(59u8),
        FlexModel::RfPower(Some(p)) => (zz_prefix(80u8, 67u8) + dec_padded(p as nat, 3)).push(59u8),
        FlexModel::RfPower(None) => zz_prefix(80u8, 67u8).push(59u8),
        FlexModel::SMeter(_) => zz_prefix(83u8, 77u8).push(59u8),
        FlexModel::AgcMode(Some(a)) => (zz_prefix(71u8, 84u8) + dec(a as nat)).push(59u8),
        FlexModel::AgcMode(None) => zz_prefix(71u8, 84u8).push(59u8),
        FlexModel::NoiseReduction(Some(on)) => (zz_prefix(78u8, 82u8) + flag_digit(on)).push(59u8),
        FlexModel::NoiseReduction(None) => zz_prefix(78u8, 82u8).push(59u8),
        FlexModel::AutoInfo(Some(e)) => (ascii2(65u8, 73u8) + flag_digit(e)).push(59u8),
        FlexModel::AutoInfo(None) => ascii2(65u8, 73u8).push(59u8),
        FlexModel::Unknown(s) => encode_utf8(s).push(59u8),
    }
}

pub open spec fn flex_to_response(m: FlexModel) -> ResponseModel {
    match m {
        FlexModel::Kenwood(k) => kenwood_to_response(k),
        FlexModel::Mode(Some(md)) => ResponseModel::Mode { mode: flex_to_operating(md) },
        FlexModel::Info(Some(info)) => ResponseModel::Status {
            frequency_hz: Some(info.frequency_hz),
            mode: Some(flex_to_operating(info.mode)),
            ptt: Some(info.tx),
            vfo: Some(vfo_of_digit(info.vfo)),
        },
        FlexModel::AutoInfo(Some(e)) => ResponseModel::AutoInfo { enabled: e },
        FlexModel::Unknown(s) => ResponseModel::Unknown { data: encode_utf8(s) },
        _ => ResponseModel::Unknown { data: Seq::empty() },
    }
}

pub open spec fn flex_to_request(m: FlexModel) -> RequestModel {
    match m {
        FlexModel::Kenwood(k) => kenwood_to_request(k),
        FlexModel::Mode(Some(md)) => RequestModel::SetMode { mode: flex_to_operating(md) },
        FlexModel::Mode(None) => RequestModel::GetMode,
        FlexModel::Info(None) => RequestModel::GetStatus,
        FlexModel::AutoInfo(Some(e)) => RequestModel::SetAutoInfo { enabled: e },
        FlexModel::AutoInfo(None) => RequestModel::GetAutoInfo,
        FlexModel::Unknown(s) => RequestModel::Unknown { data: encode_utf8(s) },
        _ => RequestModel::Unknown { data: Seq::empty() },
    }
}

pub open spec fn flex_from_request(r: RequestModel) -> Option<FlexModel> {
    match r {
        RequestModel::SetMode { mode } => Some(FlexModel::Mode(Some(flex_from_operating(mode)))),
        RequestModel::GetMode => Some(FlexModel::Mode(None)),
        RequestModel::SetAutoInfo { enabled } => Some(FlexModel::AutoInfo(Some(enabled))),
        RequestModel::GetAutoInfo => Some(FlexModel::AutoInfo(None)),
        RequestModel::GetStatus => Some(FlexModel::Info(None)),
        _ => match kenwood_from_request(r) {
            Some(k) => Some(FlexModel::Kenwood(k)),
            None => None,
        },
    }
}

pub open spec fn flex_from_response(r: ResponseModel) -> Option<FlexModel> {
    match r {
        ResponseModel::Mode { mode } => Some(FlexModel::Mode(Some(flex_from_operating(mode)))),
        ResponseModel::AutoInfo { enabled } => Some(FlexModel::AutoInfo(Some(enabled))),
        _ => match kenwood_from_response(r) {
            Some(k) => Some(FlexModel::Kenwood(k)),
            None => None,
        },
    }
}

// ---------------------------------------------------------------------------
// Codec
// ---------------------------------------------------------------------------

/// Streaming FlexRadio protocol codec: a `KenwoodCodec` for the standard
/// commands, with the ZZ commands parsed here.
pub struct FlexCodec {
    inner: KenwoodCodec,
}

impl View for FlexCodec {
    type V = Seq<u8>;

    closed spec fn view(&self) -> Seq<u8> {
        self.inner@
    }
}

/// The bytes are exactly the text `0`.
fn is_zero_text_param(p: &[u8]) -> (r: bool)
    ensures
        r == (p@ == seq![48u8]),
{
    is_zero_param(p)
}

impl FlexCodec {
    /// Create a new FlexRadio codec
    pub fn new() -> (r: Self)
        ensures
            r@ == Seq::<u8>::empty(),
    {
        FlexCodec { inner: KenwoodCodec::new() }
    }

    /// Parse FlexRadio ZZ-prefixed commands from a frame's text bytes
    fn parse_zz_command(b: &[u8]) -> (r: Option<FlexCommand>)
        ensures
            r matches Some(c) ==> flex_parse_zz(b@) == Some(c@),
            r is None <==> flex_parse_zz(b@) is None,
    {
        if b.len() < 4 || b[0] != 90u8 || b[1] != 90u8 {
            return None;
        }
        let x = b[2];
        let y = b[3];
        let p = slice_subrange(b, 4, b.len());
        if x == 70u8 && y == 65u8 {
            Some(FlexCommand::Kenwood(KenwoodCommand::FrequencyA(Self::opt_u64(p))))
        } else if x == 70u8 && y == 66u8 {
            Some(FlexCommand::Kenwood(KenwoodCommand::FrequencyB(Self::opt_u64(p))))
        } else if x == 77u8 && (y == 68u8 || y == 69u8) {
            Some(Self::parse_mode_flex(p))
        } else if x == 84u8 && y == 88u8 {
            Some(
                FlexCommand::Kenwood(
                    KenwoodCommand::Transmit(Some(p.len() == 0 || !is_zero_text_param(p))),
                ),
            )
        } else if x == 73u8 && y == 70u8 {
            Some(Self::parse_info(p))
        } else if x == 70u8 && y == 82u8 {
            let v = if p.len() == 0 {
                None
            } else {
                parse_u8(p)
            };
            Some(FlexCommand::Kenwood(KenwoodCommand::VfoSelect(v)))
        } else if x == 83u8 && y == 87u8 {
            Some(FlexCommand::Kenwood(KenwoodCommand::Split(Self::flag(p))))
        } else if x == 65u8 && y == 71u8 {
            Some(FlexCommand::AudioGain(parse_u8(p)))
        } else if x == 80u8 && y == 67u8 {
            Some(FlexCommand::RfPower(parse_u8(p)))
        } else if x == 83u8 && y == 77u8 {
            Some(FlexCommand::SMeter(parse_i16(p)))
        } else if x == 71u8 && y == 84u8 {
            Some(FlexCommand::AgcMode(parse_u8(p)))
        } else if x == 78u8 && y == 82u8 {
            Some(FlexCommand::NoiseReduction(Self::flag(p)))
        } else if x == 65u8 && y == 73u8 {
            Some(FlexCommand::AutoInfo(Self::flag(p)))
        } else {
            None
        }
    }

    /// An optional frequency; unreadable digits leave it absent.
    fn opt_u64(p: &[u8]) -> (r: Option<u64>)
        ensures
            r == (if p@.len() == 0 {
                None
            } else {
                parse_u64_spec(p@)
            }),
    {
        if p.len() == 0 {
            None
        } else {
            parse_u64(p)
        }
    }

    /// An optional on/off parameter.
    fn flag(params: &[u8]) -> (r: Option<bool>)
        ensures
            r == opt_flag(params@),
    {
        if params.len() == 0 {
            None
        } else {
            Some(!is_zero_param(params))
        }
    }

    fn parse_mode_flex(params: &[u8]) -> (r: FlexCommand)
        ensures
            r@ == FlexModel::Mode(
                if params@.len() == 0 {
                    None
                } else {
                    match parse_u8_spec(params@) {
                        Some(code) => flex_mode_of_code(code),
                        None => None,
                    }
                },
            ),
    {
        if params.len() == 0 {
            FlexCommand::Mode(None)
        } else {
            match parse_u8(params) {
                Some(code) => FlexCommand::Mode(FlexMode::from_code(code)),
                None => FlexCommand::Mode(None),
            }
        }
    }

    fn parse_info(params: &[u8]) -> (r: FlexCommand)
        ensures
            r@ == FlexModel::Info(
                if params@.len() == 0 {
                    None
                } else {
                    flex_parse_info(params@)
                },
            ),
    {
        if params.len() == 0 {
            FlexCommand::Info(None)
        } else {
            FlexCommand::Info(Self::try_parse_flex_info(params))
        }
    }

    fn try_parse_flex_info(p: &[u8]) -> (r: Option<FlexInfo>)
        ensures
            r == flex_parse_info(p@),
    {
        if p.len() < 28 {
            return None;
        }
        let frequency_hz = match parse_u64(slice_subrange(p, 0, 11)) {
            Some(f) => f,
            None => {
                return None;
            },
        };
        let step_size = match parse_u32(slice_subrange(p, 11, 15)) {
            Some(v) => v,
            None => 1,
        };
        let rit_offset = match parse_i32(slice_subrange(p, 15, 21)) {
            Some(v) => v,
            None => 0,
        };
        let mode_code = match parse_u8(slice_subrange(p, 24, 26)) {
            Some(v) => v,
            None => 1,
        };
        let mode = match FlexMode::from_code(mode_code) {
            Some(m) => m,
            None => FlexMode::Usb,
        };
        let vfo = match parse_u8(slice_subrange(p, 26, 27)) {
            Some(v) => v,
            None => 0,
        };
        Some(
            FlexInfo {
                frequency_hz,
                step_size,
                rit_offset,
                rit_on: p[21] == 49u8,
                xit_on: p[22] == 49u8,
                tx: p[23] != 48u8,
                mode,
                vfo,
                split: p[27] == 49u8,
            },
        )
    }

    /// Convert a Kenwood command to FlexCommand, handling Mode specially
    fn convert_kenwood_command(kw: KenwoodCommand) -> (r: FlexCommand)
        ensures
            r@ == flex_convert_kenwood(kw@),
    {
        match kw {
            KenwoodCommand::Mode(Some(m)) => FlexCommand::Mode(Some(FlexMode::from_kenwood_mode(m))),
            KenwoodCommand::Mode(None) => FlexCommand::Mode(None),
            KenwoodCommand::AutoInfo(enabled) => FlexCommand::AutoInfo(enabled),
            KenwoodCommand::Info(Some(info)) => FlexCommand::Info(
                Some(
                    FlexInfo {
                        frequency_hz: info.frequency_hz,
                        step_size: 1,
                        rit_offset: info.rit_offset as i32,
                        rit_on: info.rit_on,
                        xit_on: info.xit_on,
                        tx: info.tx,
                        mode: FlexMode::from_kenwood_mode(info.mode),
                        vfo: info.vfo,
                        split: info.split,
                    },
                ),
            ),
            KenwoodCommand::Info(None) => FlexCommand::Info(None),
            KenwoodCommand::Unknown(s) => FlexCommand::Unknown(s),
            other => FlexCommand::Kenwood(other),
        }
    }
}

impl Default for FlexCodec {
    fn default() -> (r: Self)
        ensures
            r@ == Seq::<u8>::empty(),
    {
        Self::new()
    }
}

impl ProtocolCodec for FlexCodec {
    type Command = FlexCommand;

    fn push_bytes(&mut self, data: &[u8])
        ensures
            final(self)@ == buffer_after_push(old(self)@, data@),
    {
        ProtocolCodec::push_bytes(&mut self.inner, data);
    }

    fn next_command(&mut self) -> (r: Option<FlexCommand>)
        ensures
            next_frame(old(self)@, 59u8) matches Some((f, rest)) ==> {
                &&& r matches Some(c) && c@ == flex_decode(f.drop_last())
                &&& final(self)@ == rest
            },
            next_frame(old(self)@, 59u8) is None ==> r is None && final(self)@ == old(self)@,
    {
        match self.next_command_with_bytes() {
            Some((c, _)) => Some(c),
            None => None,
        }
    }

    fn next_command_with_bytes(&mut self) -> (r: Option<(FlexCommand, Vec<u8>)>)
        ensures
            next_frame(old(self)@, 59u8) matches Some((f, rest)) ==> {
                &&& r matches Some((c, bytes)) && c@ == flex_decode(f.drop_last()) && bytes@ == f
                &&& final(self)@ == rest
            },
            next_frame(old(self)@, 59u8) is None ==> r is None && final(self)@ == old(self)@,
    {
        let (kenwood_cmd, raw_bytes) = match ProtocolCodec::next_command_with_bytes(&mut self.inner) {
            Some(x) => x,
            None => {
                return None;
            },
        };
        if let KenwoodCommand::Unknown(s) = &kenwood_cmd {
            if let Some(f) = Self::parse_zz_command(s.as_str().as_bytes()) {
                return Some((f, raw_bytes));
            }
        }
        Some((Self::convert_kenwood_command(kenwood_cmd), raw_bytes))
    }

    fn clear(&mut self)
        ensures
            final(self)@ == Seq::<u8>::empty(),
    {
        ProtocolCodec::clear(&mut self.inner);
    }
}

// ---------------------------------------------------------------------------
// Conversions
// ---------------------------------------------------------------------------

impl ToRadioResponse for FlexCommand {
    fn to_radio_response(&self) -> (r: RadioResponse)
        ensures
            r@ == flex_to_response(self@),
    {
        match self {
            FlexCommand::Kenwood(kw) => kw.to_radio_response(),
            FlexCommand::Mode(Some(m)) => RadioResponse::Mode { mode: m.to_operating_mode() },
            FlexCommand::Info(Some(info)) => RadioResponse::Status {
                frequency_hz: Some(info.frequency_hz),
                mode: Some(info.mode.to_operating_mode()),
                ptt: Some(info.tx),
                vfo: Some(vfo_from_digit(info.vfo)),
            },
            FlexCommand::AutoInfo(Some(enabled)) => RadioResponse::AutoInfo { enabled: *enabled },
            FlexCommand::Unknown(s) => RadioResponse::Unknown {
                data: slice_to_vec(s.as_str().as_bytes()),
            },
            _ => RadioResponse::Unknown { data: Vec::new() },
        }
    }
}

impl ToRadioRequest for FlexCommand {
    fn to_radio_request(&self) -> (r: RadioRequest)
        ensures
            r@ == flex_to_request(self@),
    {
        match self {
            FlexCommand::Kenwood(kw) => kw.to_radio_request(),
            FlexCommand::Mode(Some(m)) => RadioRequest::SetMode { mode: m.to_operating_mode() },
            FlexCommand::Mode(None) => RadioRequest::GetMode,
            FlexCommand::Info(None) => RadioRequest::GetStatus,
            FlexCommand::AutoInfo(Some(enabled)) => RadioRequest::SetAutoInfo { enabled: *enabled },
            FlexCommand::AutoInfo(None) => RadioRequest::GetAutoInfo,
            FlexCommand::Unknown(s) => RadioRequest::Unknown {
                data: slice_to_vec(s.as_str().as_bytes()),
            },
            _ => RadioRequest::Unknown { data: Vec::new() },
        }
    }
}

impl FromRadioRequest for FlexCommand {
    fn from_radio_request(req: &RadioRequest) -> (r: Option<FlexCommand>)
        ensures
            r matches Some(c) ==> flex_from_request(req@) == Some(c@),
            r is None <==> flex_from_request(req@) is None,
    {
        match req {
            RadioRequest::SetMode { mode } => Some(
                FlexCommand::Mode(Some(FlexMode::from_operating_mode(*mode))),
            ),
            RadioRequest::GetMode => Some(FlexCommand::Mode(None)),
            RadioRequest::SetAutoInfo { enabled } => Some(FlexCommand::AutoInfo(Some(*enabled))),
            RadioRequest::GetAutoInfo => Some(FlexCommand::AutoInfo(None)),
            RadioRequest::GetStatus => Some(FlexCommand::Info(None)),
            _ => match KenwoodCommand::from_radio_request(req) {
                Some(k) => Some(FlexCommand::Kenwood(k)),
                None => None,
            },
        }
    }
}

impl FromRadioResponse for FlexCommand {
    fn from_radio_response(resp: &RadioResponse) -> (r: Option<FlexCommand>)
        ensures
            r matches Some(c) ==> flex_from_response(resp@) == Some(c@),
            r is None <==> flex_from_response(resp@) is None,
    {
        match resp {
            RadioResponse::Mode { mode } => Some(
                FlexCommand::Mode(Some(FlexMode::from_operating_mode(*mode))),
            ),
            RadioResponse::AutoInfo { enabled } => Some(FlexCommand::AutoInfo(Some(*enabled))),
            _ => match KenwoodCommand::from_radio_response(resp) {
                Some(k) => Some(FlexCommand::Kenwood(k)),
                None => None,
            },
        }
    }
}

/// Appends the four-letter prefix `Z Z x y`.
fn push_zz(out: &mut Vec<u8>, x: u8, y: u8)
    ensures
        final(out)@ == old(out)@ + zz_prefix(x, y),
{
    out.push(90u8);
    out.push(90u8);
    out.push(x);
    out.push(y);
    proof {
        assert(out@ =~= old(out)@ + zz_prefix(x, y));
    }
}

impl EncodeCommand for FlexCommand {
    fn encode(&self) -> (r: Vec<u8>)
        ensures
            r@ == flex_encode(self@),
    {
        let mut out: Vec<u8> = Vec::new();
        match self {
            FlexCommand::Kenwood(kw) => match kw {
                KenwoodCommand::FrequencyA(f) => {
                    push_zz(&mut out, 70u8, 65u8);
                    if let Some(hz) = f {
                        push_dec_padded(&mut out, *hz, 11);
                    }
                },
                KenwoodCommand::FrequencyB(f) => {
                    push_zz(&mut out, 70u8, 66u8);
                    if let Some(hz) = f {
                        push_dec_padded(&mut out, *hz, 11);
                    }
                },
                KenwoodCommand::Transmit(t) => {
                    push_zz(&mut out, 84u8, 88u8);
                    if let Some(t) = t {
                        push_flag(&mut out, *t);
                    }
                },
                KenwoodCommand::VfoSelect(v) => {
                    push_zz(&mut out, 70u8, 82u8);
                    if let Some(v) = v {
                        push_dec(&mut out, *v as u64);
                    }
                },
                KenwoodCommand::Split(s) => {
                    push_zz(&mut out, 83u8, 87u8);
                    if let Some(s) = s {
                        push_flag(&mut out, *s);
                    }
                },
                _ => {
                    return kw.encode();
                },
            },
            FlexCommand::Mode(m) => {
                push_zz(&mut out, 77u8, 68u8);
                if let Some(m) = m {
                    push_dec_padded(&mut out, m.to_code() as u64, 2);
                }
            },
            FlexCommand::Info(_) => {
                push_zz(&mut out, 73u8, 70u8);
            },
            FlexCommand::AudioGain(g) => {
                push_zz(&mut out, 65u8, 71u8);
                if let Some(g) = g {
                    push_dec_padded(&mut out, *g as u64, 3);
                }
            },
            FlexCommand::RfPower(p) => {
                push_zz(&mut out, 80u8, 67u8);
                if let Some(p) = p {
                    push_dec_padded(&mut out, *p as u64, 3);
                }
            },
            FlexCommand::SMeter(_) => {
                push_zz(&mut out, 83u8, 77u8);
            },
            FlexCommand::AgcMode(a) => {
                push_zz(&mut out, 71u8, 84u8);
                if let Some(a) = a {
                    push_dec(&mut out, *a as u64);
                }
            },
            FlexCommand::NoiseReduction(n) => {
                push_zz(&mut out, 78u8, 82u8);
                if let Some(n) = n {
                    push_flag(&mut out, *n);
                }
            },
            FlexCommand::AutoInfo(a) => {
                push2(&mut out, 65u8, 73u8);
                if let Some(a) = a {
                    push_flag(&mut out, *a);
                }
            },
            FlexCommand::Unknown(s) => {
                push_all(&mut out, s.as_str().as_bytes());
            },
        }
        out.push(59u8);
        proof {
            assert(out@ =~= flex_encode(self@));
        }
        out
    }
}

impl RadioCodec for FlexCodec {
    fn push_bytes(&mut self, data: &[u8])
        ensures
            final(self)@ == buffer_after_push(old(self)@, data@),
    {
        ProtocolCodec::push_bytes(&mut self.inner, data);
    }

    fn next_response(&mut self) -> (r: Option<RadioResponse>)
        ensures
            next_frame(old(self)@, 59u8) matches Some((f, rest)) ==> {
                &&& r matches Some(resp) && resp@ == flex_to_response(flex_decode(f.drop_last()))
                &&& final(self)@ == rest
            },
            next_frame(old(self)@, 59u8) is None ==> r is None && final(self)@ == old(self)@,
    {
        match ProtocolCodec::next_command(self) {
            Some(c) => Some(c.to_radio_response()),
            None => None,
        }
    }

    fn next_response_with_bytes(&mut self) -> (r: Option<(RadioResponse, Vec<u8>)>)
        ensures
            next_frame(old(self)@, 59u8) matches Some((f, rest)) ==> {
                &&& r matches Some((resp, bytes)) && resp@ == flex_to_response(flex_decode(f.drop_last()))
                    && bytes@ == f
                &&& final(self)@ == rest
            },
            next_frame(old(self)@, 59u8) is None ==> r is None && final(self)@ == old(self)@,
    {
        match ProtocolCodec::next_command_with_bytes(self) {
            Some((c, bytes)) => Some((c.to_radio_response(), bytes)),
            None => None,
        }
    }

    fn next_request(&mut self) -> (r: Option<RadioRequest>)
        ensures
            next_frame(old(self)@, 59u8) matches Some((f, rest)) ==> {
                &&& r matches Some(req) && req@ == flex_to_request(flex_decode(f.drop_last()))
                &&& final(self)@ == rest
            },
            next_frame(old(self)@, 59u8) is None ==> r is None && final(self)@ == old(self)@,
    {
        match ProtocolCodec::next_command(self) {
            Some(c) => Some(c.to_radio_request()),
            None => None,
        }
    }

    fn next_request_with_bytes(&mut self) -> (r: Option<(RadioRequest, Vec<u8>)>)
        ensures
            next_frame(old(self)@, 59u8) matches Some((f, rest)) ==> {
                &&& r matches Some((req, bytes)) && req@ == flex_to_request(flex_decode(f.drop_last()))
                    && bytes@ == f
                &&& final(self)@ == rest
            },
            next_frame(old(self)@, 59u8) is None ==> r is None && final(self)@ == old(self)@,
    {
        match ProtocolCodec::next_command_with_bytes(self) {
            Some((c, bytes)) => Some((c.to_radio_request(), bytes)),
            None => None,
        }
    }

    fn clear(&mut self)
        ensures
            final(self)@ == Seq::<u8>::empty(),
    {
        ProtocolCodec::clear(&mut self.inner);
    }
}

/// Generate a probe command to detect FlexRadio radios
pub fn probe_command() -> (r: Vec<u8>)
    ensures
        r@ == seq![73u8, 68u8, 59u8],
{
    let r = vec![73u8, 68u8, 59u8];
    proof {
        assert(r@ =~= seq![73u8, 68u8, 59u8]);
    }
    r
}

/// A FlexRadio ID answer: `ID`, a number from 904 to 913, `;`.
pub open spec fn is_flex_id_response(data: Seq<u8>) -> bool {
    &&& data.len() >= 5
    &&& data[0] == 73u8
    &&& data[1] == 68u8
    &&& data.last() == 59u8
    &&& all_digits(data.subrange(2, data.len() - 1))
    &&& parse_u16_spec(data.subrange(2, data.len() - 1)) matches Some(n) && 904 <= n <= 913
}

/// Check if a response looks like a valid FlexRadio ID response
pub fn is_valid_id_response(data: &[u8]) -> (r: bool)
    ensures
        r == is_flex_id_response(data@),
{
    if data.len() >= 5 && data[0] == 73u8 && data[1] == 68u8 && data[data.len() - 1] == 59u8 {
        let id_part = slice_subrange(data, 2, data.len() - 1);
        if all_ascii_digits(id_part) {
            if let Some(id_num) = parse_u16(id_part) {
                return 904 <= id_num && id_num <= 913;
            }
        }
    }
    false
}

/// Extract the model code (the digits) from an ID response
pub fn extract_model_code(data: &[u8]) -> (r: Option<&str>)
    ensures
        r is Some <==> is_flex_id_response(data@),
        r matches Some(s) ==> s.spec_bytes() == data@.subrange(2, data@.len() - 1),
{
    if is_valid_id_response(data) {
        let digits = slice_subrange(data, 2, data.len() - 1);
        proof {
            crate::text::lemma_digits_valid_utf8(digits@);
        }
        str_from_utf8(digits)
    } else {
        None
    }
}


/// A ZZIF status report is read from the places of its wire text: the
/// frequency is the value of the first eleven parameter digits, the radio
/// is transmitting exactly when the character at parameter offset 23 is
/// not `0`, RIT, XIT and split are on when offsets 21, 22 and 27 are `1`,
/// the VFO is the digit at offset 26 and the mode the one whose two-digit
/// code stands at offsets 24 and 25; the common status carries that
/// frequency and PTT state.
pub proof fn law_flex_if_report(p: Seq<u8>)
    requires
        p.len() >= 28,
        crate::text::all_digits(p.subrange(0, 11)),
    ensures
        match flex_parse_info(p) {
            Some(i) => {
                &&& i.frequency_hz == crate::text::digits_value(p.subrange(0, 11))
                &&& i.tx == (p[23] != 48u8)
                &&& i.rit_on == (p[21] == 49u8)
                &&& i.xit_on == (p[22] == 49u8)
                &&& i.split == (p[27] == 49u8)
                &&& crate::text::is_digit(p[26]) ==> i.vfo == p[26] - 48
                &&& (crate::text::is_digit(p[24]) && crate::text::is_digit(p[25]) && flex_mode_of_code(
                    (10 * (p[24] - 48) + (p[25] - 48)) as u8,
                ) is Some) ==> Some(i.mode) == flex_mode_of_code((10 * (p[24] - 48) + (p[25] - 48)) as u8)
                &&& match flex_to_response(FlexModel::Info(Some(i))) {
                    ResponseModel::Status { frequency_hz, ptt, .. } => frequency_hz == Some(i.frequency_hz) && ptt
                        == Some(p[23] != 48u8),
                    _ => false,
                }
            },
            None => false,
        },
{
    crate::text::lemma_parse_u64_digits(p.subrange(0, 11));
    if crate::text::is_digit(p[26]) {
        assert(p.subrange(26, 27) =~= seq![p[26]]);
        crate::text::lemma_parse_one_digit(p[26]);
    }
    if crate::text::is_digit(p[24]) && crate::text::is_digit(p[25]) {
        assert(p.subrange(24, 26) =~= seq![p[24], p[25]]);
        crate::text::lemma_parse_two_digits(p[24], p[25]);
    }
}

/// A whole `ZZIF` report of ASCII text decodes as a status report whose
/// PTT state is the TX character at parameter offset 23 (`0` is receive).
pub proof fn law_flex_if_frame(p: Seq<u8>)
    requires
        p.len() >= 28,
        crate::text::all_digits(p.subrange(0, 11)),
        forall|i: int| 0 <= i < p.len() ==> #[trigger] p[i] < 128,
    ensures
        match flex_decode(zz_prefix(73u8, 70u8) + p) {
            FlexModel::Info(Some(i)) => i.tx == (p[23] != 48u8) && i.frequency_hz == crate::text::digits_value(
                p.subrange(0, 11),
            ),
            _ => false,
        },
{
    let body = zz_prefix(73u8, 70u8) + p;
    assert forall|i: int| 0 <= i < body.len() implies #[trigger] body[i] < 128 by {
        if i >= 4 {
            assert(body[i] == p[i - 4]);
        }
    }
    lemma_zz_body_unknown_to_kenwood(body);
    assert(body.subrange(4, body.len() as int) =~= p);
    assert(zz(body, 73u8, 70u8));
    law_flex_if_report(p);
}

} // verus!
