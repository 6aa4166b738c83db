//! Icom CI-V Protocol
//!
//! CI-V (Communication Interface V) is used by Icom transceivers: framed,
//! variable-length binary messages with address-based routing.
//!
//! Frame format: `FE FE [to] [from] [cmd] [subcmd] [data...] FD`
//!
//! - `FE FE`: preamble
//! - `to`: destination address (radio address, or 0xE0 for the controller)
//! - `from`: source address
//! - `cmd`: command code, optionally followed by a sub-command
//! - `data`: frequencies are BCD, least significant digit pair first
//! - `FD`: terminator
//!
//! Example: 14.250.000 Hz is `00 00 25 14 00`.

use vstd::arithmetic::div_mod::{
    lemma_breakdown, lemma_div_denominator, lemma_fundamental_div_mod_converse_div,
    lemma_fundamental_div_mod_converse_mod,
};
use vstd::prelude::*;
use vstd::slice::{slice_subrange, slice_to_vec};

use crate::command::{OperatingMode, RadioRequest, RadioResponse, RequestModel, ResponseModel, Vfo};
use crate::error::ParseError;
use crate::protocol::{
    EncodeCommand, FromRadioRequest, FromRadioResponse, ProtocolCodec, RadioCodec, ToRadioRequest,
    ToRadioResponse,
};
use crate::stream::{
    buffer_after_push, first_index_of, lemma_first_index_of, lemma_first_index_of_found,
    push_limited, take_frame, MAX_BUFFERED_FRAME,
};
use crate::text::{push_all, push_hex2, text_from_bytes};

verus! {

/// CI-V frame preamble byte
pub const PREAMBLE: u8 = 0xFE;

/// CI-V frame terminator byte
pub const TERMINATOR: u8 = 0xFD;

/// Default controller address
pub const CONTROLLER_ADDR: u8 = 0xE0;

/// Broadcast address
pub const BROADCAST_ADDR: u8 = 0x00;

/// CI-V command codes
#[derive(Debug, Clone, Copy, PartialEq, Eq, Structural)]
pub enum CivCommandCode {
    /// Set/read frequency (0x00)
    Frequency,
    /// Set/read mode (0x01)
    Mode,
    /// Read frequency (0x03, from radio)
    ReadFrequency,
    /// Read mode (0x04, from radio)
    ReadMode,
    /// Set frequency (0x05, to radio)
    SetFrequency,
    /// Set mode (0x06, to radio)
    SetMode,
    /// VFO select (0x07)
    VfoSelect,
    /// Scan control (0x0E)
    Scan,
    /// Split control (0x0F)
    Split,
    /// Tuning step (0x10)
    TuningStep,
    /// Attenuator (0x11)
    Attenuator,
    /// Antenna select (0x12)
    Antenna,
    /// Announce mode (0x13)
    Announce,
    /// Various level settings (0x14)
    Level,
    /// Read meter (0x15)
    ReadMeter,
    /// Preamp (0x16)
    Preamp,
    /// AGC setting (0x17)
    Agc,
    /// NB setting (0x18)
    NoiseBlanker,
    /// PTT control (0x1C)
    Ptt,
    /// Transceive mode (0x1A)
    Transceive,
    /// OK response from radio (0xFB)
    Ack,
    /// NG (error) response from radio (0xFA)
    Ng,
}

/// The wire byte of each command code.
pub open spec fn civ_code_byte(c: CivCommandCode) -> u8 {
    match c {
        CivCommandCode::Frequency => 0x00,
        CivCommandCode::Mode => 0x01,
        CivCommandCode::ReadFrequency => 0x03,
        CivCommandCode::ReadMode => 0x04,
        CivCommandCode::SetFrequency => 0x05,
        CivCommandCode::SetMode => 0x06,
        CivCommandCode::VfoSelect => 0x07,
        CivCommandCode::Scan => 0x0E,
        CivCommandCode::Split => 0x0F,
        CivCommandCode::TuningStep => 0x10,
        CivCommandCode::Attenuator => 0x11,
        CivCommandCode::Antenna => 0x12,
        CivCommandCode::Announce => 0x13,
        CivCommandCode::Level => 0x14,
        CivCommandCode::ReadMeter => 0x15,
        CivCommandCode::Preamp => 0x16,
        CivCommandCode::Agc => 0x17,
        CivCommandCode::NoiseBlanker => 0x18,
        CivCommandCode::Ptt => 0x1C,
        CivCommandCode::Transceive => 0x1A,
        CivCommandCode::Ack => 0xFB,
        CivCommandCode::Ng => 0xFA,
    }
}

/// The command code a byte names, if any.
pub open spec fn civ_code_of(b: u8) -> Option<CivCommandCode> {
    if exists|c: CivCommandCode| civ_code_byte(c) == b {
        Some(choose|c: CivCommandCode| civ_code_byte(c) == b)
    } else {
        None
    }
}

impl CivCommandCode {
    /// The wire byte of this command code.
    pub fn code(&self) -> (r: u8)
        ensures
            r == civ_code_byte(*self),
    {
        match self {
            CivCommandCode::Frequency => 0x00,
            CivCommandCode::Mode => 0x01,
            CivCommandCode::ReadFrequency => 0x03,
            CivCommandCode::ReadMode => 0x04,
            CivCommandCode::SetFrequency => 0x05,
            CivCommandCode::SetMode => 0x06,
            CivCommandCode::VfoSelect => 0x07,
            CivCommandCode::Scan => 0x0E,
            CivCommandCode::Split => 0x0F,
            CivCommandCode::TuningStep => 0x10,
            CivCommandCode::Attenuator => 0x11,
            CivCommandCode::Antenna => 0x12,
            CivCommandCode::Announce => 0x13,
            CivCommandCode::Level => 0x14,
            CivCommandCode::ReadMeter => 0x15,
            CivCommandCode::Preamp => 0x16,
            CivCommandCode::Agc => 0x17,
            CivCommandCode::NoiseBlanker => 0x18,
            CivCommandCode::Ptt => 0x1C,
            CivCommandCode::Transceive => 0x1A,
            CivCommandCode::Ack => 0xFB,
            CivCommandCode::Ng => 0xFA,
        }
    }
}

/// Distinct codes have distinct bytes.
pub proof fn lemma_civ_code_byte_injective(a: CivCommandCode, b: CivCommandCode)
    ensures
        civ_code_byte(a) == civ_code_byte(b) ==> a == b,
{
}

impl TryFrom<u8> for CivCommandCode {
    type Error = ParseError;

    fn try_from(value: u8) -> (r: Result<Self, ParseError>)
        ensures
            r matches Ok(c) ==> civ_code_byte(c) == value && civ_code_of(value) == Some(c),
            r is Err <==> civ_code_of(value) is None,
            r matches Err(e) ==> e is UnknownCommand,
    {
        let r = match value {
            0x00 => Ok(Self::Frequency),
            0x01 => Ok(Self::Mode),
            0x03 => Ok(Self::ReadFrequency),
            0x04 => Ok(Self::ReadMode),
            0x05 => Ok(Self::SetFrequency),
            0x06 => Ok(Self::SetMode),
            0x07 => Ok(Self::VfoSelect),
            0x0E => Ok(Self::Scan),
            0x0F => Ok(Self::Split),
            0x10 => Ok(Self::TuningStep),
            0x11 => Ok(Self::Attenuator),
            0x12 => Ok(Self::Antenna),
            0x13 => Ok(Self::Announce),
            0x14 => Ok(Self::Level),
            0x15 => Ok(Self::ReadMeter),
            0x16 => Ok(Self::Preamp),
            0x17 => Ok(Self::Agc),
            0x18 => Ok(Self::NoiseBlanker),
            0x1C => Ok(Self::Ptt),
            0x1A => Ok(Self::Transceive),
            0xFB => Ok(Self::Ack),
            0xFA => Ok(Self::Ng),
            _ => {
                let mut msg: Vec<u8> = Vec::new();
                push_all(&mut msg, "CI-V cmd 0x".as_bytes());
                push_hex2(&mut msg, value);
                Err(ParseError::UnknownCommand(text_from_bytes(msg.as_slice())))
            },
        };
        proof {
            match r {
                Ok(c) => {
                    assert(civ_code_byte(c) == value);
                    let w = choose|d: CivCommandCode| civ_code_byte(d) == value;
                    lemma_civ_code_byte_injective(c, w);
                },
                Err(_) => {
                    assert forall|c: CivCommandCode| civ_code_byte(c) != value by {
                        match c {
                            _ => {},
                        }
                    }
                },
            }
        }
        r
    }
}

/// The error of a failed conversion carries a formatted message, which spec
/// code cannot name, so `try_from` states its result in its own `ensures`
/// rather than through `try_from_spec`.
impl vstd::std_specs::convert::TryFromSpecImpl<u8> for CivCommandCode {
    open spec fn obeys_try_from_spec() -> bool {
        false
    }

    open spec fn try_from_spec(v: u8) -> Result<Self, ParseError> {
        match civ_code_of(v) {
            Some(c) => Ok(c),
            None => Err(ParseError::UnknownCommand(arbitrary())),
        }
    }
}

/// Parsed CI-V command
#[derive(Debug, Clone, PartialEq, Eq)]
pub struct CivCommand {
    /// Destination address
    pub to_addr: u8,
    /// Source address
    pub from_addr: u8,
    /// Command type
    pub command: CivCommandType,
}

/// CI-V command types
#[derive(Debug, Clone, PartialEq, Eq)]
pub enum CivCommandType {
    /// Set frequency (BCD encoded Hz)
    SetFrequency { hz: u64 },
    /// Get/report frequency
    GetFrequency,
    /// Frequency response
    FrequencyReport { hz: u64 },
    /// Set mode
    SetMode { mode: u8, filter: u8 },
    /// Get mode
    GetMode,
    /// Mode response
    ModeReport { mode: u8, filter: u8 },
    /// Select VFO
    VfoSelect { vfo: u8 },
    /// Set PTT
    SetPtt { on: bool },
    /// PTT status
    PttReport { on: bool },
    /// Split on/off
    Split { on: bool },
    /// Transceive mode (auto-information): 0x1A 0x05. When enabled, the radio
    /// sends unsolicited updates.
    Transceive { enabled: bool },
    /// OK acknowledgment
    Ack,
    /// Error/NG response
    Ng,
    /// Unknown command
    Unknown { cmd: u8, subcmd: Option<u8>, data: Vec<u8> },
}

/// The mathematical value of a `CivCommandType`.
pub enum CivTypeModel {
    SetFrequency { hz: u64 },
    GetFrequency,
    FrequencyReport { hz: u64 },
    SetMode { mode: u8, filter: u8 },
    GetMode,
    ModeReport { mode: u8, filter: u8 },
    VfoSelect { vfo: u8 },
    SetPtt { on: bool },
    PttReport { on: bool },
    Split { on: bool },
    Transceive { enabled: bool },
    Ack,
    Ng,
    Unknown { cmd: u8, subcmd: Option<u8>, data: Seq<u8> },
}

/// The mathematical value of a `CivCommand`.
pub struct CivModel {
    pub to_addr: u8,
    pub from_addr: u8,
    pub command: CivTypeModel,
}

impl View for CivCommandType {
    type V = CivTypeModel;

    open spec fn view(&self) -> CivTypeModel {
        match self {
            CivCommandType::SetFrequency { hz } => CivTypeModel::SetFrequency { hz: *hz },
            CivCommandType::GetFrequency => CivTypeModel::GetFrequency,
            CivCommandType::FrequencyReport { hz } => CivTypeModel::FrequencyReport { hz: *hz },
            CivCommandType::SetMode { mode, filter } => CivTypeModel::SetMode {
                mode: *mode,
                filter: *filter,
            },
            CivCommandType::GetMode => CivTypeModel::GetMode,
            CivCommandType::ModeReport { mode, filter } => CivTypeModel::ModeReport {
                mode: *mode,
                filter: *filter,
            },
            CivCommandType::VfoSelect { vfo } => CivTypeModel::VfoSelect { vfo: *vfo },
            CivCommandType::SetPtt { on } => CivTypeModel::SetPtt { on: *on },
            CivCommandType::PttReport { on } => CivTypeModel::PttReport { on: *on },
            CivCommandType::Split { on } => CivTypeModel::Split { on: *on },
            CivCommandType::Transceive { enabled } => CivTypeModel::Transceive { enabled: *enabled },
            CivCommandType::Ack => CivTypeModel::Ack,
            CivCommandType::Ng => CivTypeModel::Ng,
            CivCommandType::Unknown { cmd, subcmd, data } => CivTypeModel::Unknown {
                cmd: *cmd,
                subcmd: *subcmd,
                data: data@,
            },
        }
    }
}

impl View for CivCommand {
    type V = CivModel;

    open spec fn view(&self) -> CivModel {
        CivModel { to_addr: self.to_addr, from_addr: self.from_addr, command: self.command@ }
    }
}

// ---------------------------------------------------------------------------
// BCD frequencies (least significant digit pair first)
// ---------------------------------------------------------------------------

/// Both nibbles of the byte are decimal digits.
pub open spec fn bcd_byte_valid(b: u8) -> bool {
    b % 16 <= 9 && b / 16 <= 9
}

/// The two-digit value of a BCD byte: high nibble tens, low nibble units.
pub open spec fn bcd_byte_value(b: u8) -> nat {
    (b % 16 + 10 * (b / 16)) as nat
}

/// Every byte is valid BCD.
pub open spec fn all_bcd_valid(s: Seq<u8>) -> bool {
    forall|i: int| 0 <= i < s.len() ==> bcd_byte_valid(#[trigger] s[i])
}

/// The value of little-endian BCD: the first byte holds the two least
/// significant digits.
pub open spec fn bcd_le_value(s: Seq<u8>) -> nat
    decreases s.len(),
{
    if s.len() == 0 {
        0
    } else {
        bcd_byte_value(s[0]) + 100 * bcd_le_value(s.drop_first())
    }
}

/// `100^k`.
pub open spec fn pow100(k: nat) -> nat
    decreases k,
{
    if k == 0 {
        1
    } else {
        100 * pow100((k - 1) as nat)
    }
}

/// The BCD byte for the two lowest decimal digits of `h`.
pub open spec fn bcd_low_byte(h: nat) -> u8 {
    ((h / 10) % 10 * 16 + h % 10) as u8
}

/// The `k` little-endian BCD bytes of the lowest `2k` decimal digits of `h`.
pub open spec fn bcd_le_encode(h: nat, k: nat) -> Seq<u8>
    decreases k,
{
    if k == 0 {
        Seq::empty()
    } else {
        seq![bcd_low_byte(h)] + bcd_le_encode(h / 100, (k - 1) as nat)
    }
}

/// The error BCD frequency bytes that do not read as a `u64` give:
/// `InvalidBcd` with the first byte that is not valid BCD, or
/// `InvalidFrequency` when all are valid and the value is too large.
pub open spec fn civ_bcd_error_is(data: Seq<u8>, e: ParseError) -> bool {
    if all_bcd_valid(data) {
        e is InvalidFrequency
    } else {
        e matches ParseError::InvalidBcd(b) && exists|i: int|
            0 <= i < data.len() && data[i] == b && !bcd_byte_valid(b) && forall|j: int|
                0 <= j < i ==> bcd_byte_valid(#[trigger] data[j])
    }
}

/// Convert BCD-encoded bytes to frequency in Hz. CI-V uses little-endian BCD
/// (least significant digit first). The first byte with a nibble above 9 is
/// reported as `InvalidBcd`; a value beyond `u64` as `InvalidFrequency`.
pub fn bcd_to_frequency(data: &[u8]) -> (r: Result<u64, ParseError>)
    ensures
        r matches Ok(v) ==> all_bcd_valid(data@) && v == bcd_le_value(data@),
        r is Ok <==> all_bcd_valid(data@) && bcd_le_value(data@) <= u64::MAX,
        r matches Err(ParseError::InvalidBcd(b)) ==> exists|i: int|
            0 <= i < data@.len() && data@[i] == b && !bcd_byte_valid(b) && forall|j: int|
                0 <= j < i ==> bcd_byte_valid(#[trigger] data@[j]),
        !all_bcd_valid(data@) ==> r is Err && r->Err_0 is InvalidBcd,
        all_bcd_valid(data@) && bcd_le_value(data@) > u64::MAX ==> r is Err && r->Err_0 is InvalidFrequency,
        r matches Err(e) ==> civ_bcd_error_is(data@, e),
{
    let mut i: usize = 0;
    while i < data.len()
        invariant
            i <= data@.len(),
            forall|j: int| 0 <= j < i ==> bcd_byte_valid(#[trigger] data@[j]),
        decreases data.len() - i,
    {
        let b = data[i];
        if b % 16 > 9 || b / 16 > 9 {
            return Err(ParseError::InvalidBcd(b));
        }
        i = i + 1;
    }
    let n = data.len();
    let mut k: usize = n;
    let mut v: u64 = 0;
    proof {
        assert(data@.subrange(n as int, n as int) =~= Seq::<u8>::empty());
    }
    while k > 0
        invariant
            k <= n == data@.len(),
            all_bcd_valid(data@),
            v == bcd_le_value(data@.subrange(k as int, n as int)),
        decreases k,
    {
        let b = data[k - 1];
        let d: u64 = (b % 16) as u64 + 10 * (b / 16) as u64;
        proof {
            assert(data@.subrange(k - 1, n as int).drop_first() =~= data@.subrange(k as int, n as int));
            assert(bcd_byte_valid(data@[k - 1]));
        }
        match v.checked_mul(100) {
            None => {
                proof {
                    lemma_bcd_suffix_le(data@, (k - 1) as int);
                }
                return Err(ParseError::InvalidFrequency(text_from_bytes("BCD value overflows".as_bytes())));
            },
            Some(h) => match h.checked_add(d) {
                None => {
                    proof {
                        lemma_bcd_suffix_le(data@, (k - 1) as int);
                    }
                    return Err(ParseError::InvalidFrequency(text_from_bytes("BCD value overflows".as_bytes())));
                },
                Some(w) => {
                    v = w;
                },
            },
        }
        k = k - 1;
    }
    proof {
        assert(data@.subrange(0, n as int) =~= data@);
    }
    Ok(v)
}

/// A suffix of a BCD string never has a larger value than the whole.
pub proof fn lemma_bcd_suffix_le(s: Seq<u8>, i: int)
    requires
        0 <= i <= s.len(),
    ensures
        bcd_le_value(s.subrange(i, s.len() as int)) <= bcd_le_value(s),
        bcd_le_value(s.subrange(i, s.len() as int)) * 100 + bcd_byte_value(s[i - 1]) == bcd_le_value(
            s.subrange(i - 1, s.len() as int),
        ) || i == 0,
    decreases i,
{
    if i > 0 {
        let t = s.subrange(i - 1, s.len() as int);
        assert(t.drop_first() =~= s.subrange(i, s.len() as int));
        lemma_bcd_suffix_le(s, i - 1);
    } else {
        assert(s.subrange(0, s.len() as int) =~= s);
    }
}

/// Convert frequency in Hz to BCD-encoded bytes: 5 bytes (10 BCD digits),
/// little-endian.
pub fn frequency_to_bcd(hz: u64) -> (r: Vec<u8>)
    ensures
        r@ == bcd_le_encode(hz as nat, 5),
{
    let mut result: Vec<u8> = Vec::new();
    let mut remaining = hz;
    let mut i: usize = 0;
    while i < 5
        invariant
            i <= 5,
            result@ + bcd_le_encode(remaining as nat, (5 - i) as nat) == bcd_le_encode(hz as nat, 5),
        decreases 5 - i,
    {
        let low = (remaining % 10) as u8;
        let r1 = remaining / 10;
        let high = (r1 % 10) as u8;
        let r2 = r1 / 10;
        proof {
            lemma_div_denominator(remaining as int, 10, 10);
            assert(bcd_le_encode(remaining as nat, (5 - i) as nat) =~= seq![
                bcd_low_byte(remaining as nat),
            ] + bcd_le_encode(r2 as nat, (5 - i - 1) as nat));
            assert(bcd_low_byte(remaining as nat) == high * 16 + low);
        }
        let byte: u8 = high * 16 + low;
        let ghost prev = result@;
        result.push(byte);
        proof {
            assert(result@ + bcd_le_encode(r2 as nat, (5 - (i + 1)) as nat) =~= prev + (seq![byte]
                + bcd_le_encode(r2 as nat, (5 - i - 1) as nat)));
        }
        remaining = r2;
        i = i + 1;
    }
    proof {
        assert(bcd_le_encode(remaining as nat, 0) =~= Seq::<u8>::empty());
        assert(result@ + Seq::<u8>::empty() =~= result@);
    }
    result
}

/// A byte built from two decimal digits splits back into them.
pub proof fn lemma_bcd_byte_digits(hi: nat, lo: nat)
    requires
        hi < 10,
        lo < 10,
    ensures
        ((hi * 16 + lo) as u8) % 16 == lo,
        ((hi * 16 + lo) as u8) / 16 == hi,
        bcd_byte_valid((hi * 16 + lo) as u8),
        bcd_byte_value((hi * 16 + lo) as u8) == hi * 10 + lo,
{
    assert(hi * 16 + lo < 256) by (nonlinear_arith)
        requires
            hi < 10,
            lo < 10,
    ;
    let b = (hi * 16 + lo) as u8;
    assert(b == hi * 16 + lo);
    lemma_fundamental_div_mod_converse_mod(b as int, 16, hi as int, lo as int);
    lemma_fundamental_div_mod_converse_div(b as int, 16, hi as int, lo as int);
}

/// Encoding `k` bytes keeps the lowest `2k` digits, all as valid BCD.
pub proof fn lemma_bcd_encode_value(h: nat, k: nat)
    ensures
        bcd_le_encode(h, k).len() == k,
        all_bcd_valid(bcd_le_encode(h, k)),
        bcd_le_value(bcd_le_encode(h, k)) == h % pow100(k),
        pow100(k) > 0,
    decreases k,
{
    if k == 0 {
        assert(h % 1 == 0);
    } else {
        let e = bcd_le_encode(h, k);
        lemma_bcd_encode_value(h / 100, (k - 1) as nat);
        let hi = (h / 10) % 10;
        let lo = h % 10;
        lemma_bcd_byte_digits(hi, lo);
        assert(e.drop_first() =~= bcd_le_encode(h / 100, (k - 1) as nat));
        assert(e[0] == bcd_low_byte(h));
        lemma_breakdown(h as int, 10, 10);
        lemma_breakdown(h as int, 100, pow100((k - 1) as nat) as int);
        assert forall|i: int| 0 <= i < e.len() implies bcd_byte_valid(#[trigger] e[i]) by {
            if i > 0 {
                assert(e[i] == e.drop_first()[i - 1]);
            }
        }
        assert(pow100(k) == 100 * pow100((k - 1) as nat));
    }
}

/// BCD round trip: frequencies below 10^10 Hz survive encoding and decoding.
pub proof fn law_bcd_roundtrip(hz: u64)
    requires
        hz < 10_000_000_000u64,
    ensures
        all_bcd_valid(bcd_le_encode(hz as nat, 5)),
        bcd_le_value(bcd_le_encode(hz as nat, 5)) == hz,
{
    lemma_bcd_encode_value(hz as nat, 5);
    assert(pow100(5) == 10_000_000_000nat) by {
        reveal_with_fuel(pow100, 6);
    }
}

// ---------------------------------------------------------------------------
// Frame grammar (specification)
// ---------------------------------------------------------------------------

/// The frequency a BCD field denotes, when every byte is valid BCD and the
/// value fits in `u64`.
pub open spec fn bcd_decode(data: Seq<u8>) -> Option<u64> {
    if all_bcd_valid(data) && bcd_le_value(data) <= u64::MAX {
        Some(bcd_le_value(data) as u64)
    } else {
        None
    }
}

/// Byte `i` of `data`, or 0 past its end.
pub open spec fn byte_or_zero(data: Seq<u8>, i: int) -> u8 {
    if 0 <= i < data.len() {
        data[i]
    } else {
        0
    }
}

/// Byte `i` is present and non-zero.
pub open spec fn flag_at(data: Seq<u8>, i: int) -> bool {
    0 <= i < data.len() && data[i] != 0
}

/// Everything after the first byte.
pub open spec fn after_first(data: Seq<u8>) -> Seq<u8> {
    if data.len() > 1 {
        data.subrange(1, data.len() as int)
    } else {
        Seq::empty()
    }
}

/// The command a CI-V command byte and its data denote; `None` when a
/// frequency field is not valid BCD.
pub open spec fn civ_parse_command(cmd: u8, data: Seq<u8>) -> Option<CivTypeModel> {
    if cmd == 0x00 || cmd == 0x05 || cmd == 0x03 {
        if data.len() == 0 {
            Some(CivTypeModel::GetFrequency)
        } else {
            match bcd_decode(data) {
                Some(hz) => if cmd == 0x03 {
                    Some(CivTypeModel::FrequencyReport { hz })
                } else {
                    Some(CivTypeModel::SetFrequency { hz })
                },
                None => None,
            }
        }
    } else if cmd == 0x01 || cmd == 0x06 || cmd == 0x04 {
        if data.len() == 0 {
            Some(CivTypeModel::GetMode)
        } else if cmd == 0x04 {
            Some(CivTypeModel::ModeReport { mode: data[0], filter: byte_or_zero(data, 1) })
        } else {
            Some(CivTypeModel::SetMode { mode: data[0], filter: byte_or_zero(data, 1) })
        }
    } else if cmd == 0x07 {
        Some(CivTypeModel::VfoSelect { vfo: byte_or_zero(data, 0) })
    } else if cmd == 0x1C {
        Some(CivTypeModel::SetPtt { on: flag_at(data, 1) })
    } else if cmd == 0x0F {
        Some(CivTypeModel::Split { on: flag_at(data, 0) })
    } else if cmd == 0x1A {
        if byte_or_zero(data, 0) == 0x05 {
            Some(CivTypeModel::Transceive { enabled: flag_at(data, 1) })
        } else {
            Some(
                CivTypeModel::Unknown {
                    cmd,
                    subcmd: Some(byte_or_zero(data, 0)),
                    data: after_first(data),
                },
            )
        }
    } else if cmd == 0xFB {
        Some(CivTypeModel::Ack)
    } else if cmd == 0xFA {
        Some(CivTypeModel::Ng)
    } else {
        Some(
            CivTypeModel::Unknown {
                cmd,
                subcmd: if data.len() > 0 {
                    Some(data[0])
                } else {
                    None
                },
                data: after_first(data),
            },
        )
    }
}

/// The command a whole frame (preamble to terminator) denotes.
pub open spec fn civ_parse_frame(frame: Seq<u8>) -> Option<CivModel> {
    if frame.len() < 6 || frame[0] != PREAMBLE || frame[1] != PREAMBLE || frame.last()
        != TERMINATOR {
        None
    } else {
        match civ_parse_command(frame[4], frame.subrange(5, frame.len() - 1)) {
            Some(c) => Some(CivModel { to_addr: frame[2], from_addr: frame[3], command: c }),
            None => None,
        }
    }
}

/// An `FE FE` pair starts at `i`.
pub open spec fn preamble_at(s: Seq<u8>, i: int) -> bool {
    0 <= i && i + 1 < s.len() && s[i] == PREAMBLE && s[i + 1] == PREAMBLE
}

/// Where the first `FE FE` pair starts, if any.
pub open spec fn first_preamble(s: Seq<u8>) -> Option<int> {
    if exists|i: int| preamble_at(s, i) && forall|j: int| 0 <= j < i ==> !preamble_at(s, j) {
        Some(choose|i: int| preamble_at(s, i) && forall|j: int| 0 <= j < i ==> !preamble_at(s, j))
    } else {
        None
    }
}

pub proof fn lemma_first_preamble(s: Seq<u8>, k: int)
    requires
        preamble_at(s, k),
        forall|j: int| 0 <= j < k ==> !preamble_at(s, j),
    ensures
        first_preamble(s) == Some(k),
{
    let w = choose|i: int| preamble_at(s, i) && forall|j: int| 0 <= j < i ==> !preamble_at(s, j);
    if w < k {
        assert(!preamble_at(s, w));
    } else if w > k {
        assert(!preamble_at(s, k));
    }
}

/// One step of the streaming codec on buffer `buf`: the command and frame it
/// yields (if a frame parsed) and the buffer it leaves. Bytes before the
/// first preamble are dropped; a frame that does not parse is dropped too.
pub open spec fn civ_next(buf: Seq<u8>) -> (Option<(CivModel, Seq<u8>)>, Seq<u8>) {
    match first_preamble(buf) {
        None => (None, buf),
        Some(p) => civ_take(buf.subrange(p, buf.len() as int)),
    }
}

/// A command taken from the buffer shortens it.
pub proof fn lemma_civ_next_shrinks(buf: Seq<u8>)
    ensures
        civ_next(buf).0 is Some ==> civ_next(buf).1.len() < buf.len(),
{
    if let Some(p) = first_preamble(buf) {
        assert(preamble_at(buf, p));
        let b = buf.subrange(p, buf.len() as int);
        crate::stream::lemma_first_index_of_found(b, TERMINATOR);
    }
}

/// Taking the frame at the front of a buffer that starts at a preamble: up
/// to and including the first terminator.
pub open spec fn civ_take(b: Seq<u8>) -> (Option<(CivModel, Seq<u8>)>, Seq<u8>) {
    match first_index_of(b, TERMINATOR) {
        None => (None, b),
        Some(t) => {
            let frame = b.subrange(0, t + 1);
            let rest = b.subrange(t + 1, b.len() as int);
            match civ_parse_frame(frame) {
                Some(c) => (Some((c, frame)), rest),
                None => (None, rest),
            }
        },
    }
}

// ---------------------------------------------------------------------------
// Encoding (specification)
// ---------------------------------------------------------------------------

pub open spec fn bool_byte(b: bool) -> u8 {
    if b {
        1
    } else {
        0
    }
}

/// The command byte and data of a command.
pub open spec fn civ_type_body(c: CivTypeModel) -> Seq<u8> {
    match c {
        CivTypeModel::SetFrequency { hz } => seq![0x05u8] + bcd_le_encode(hz as nat, 5),
        CivTypeModel::GetFrequency => seq![0x03u8],
        CivTypeModel::FrequencyReport { hz } => seq![0x03u8] + bcd_le_encode(hz as nat, 5),
        CivTypeModel::SetMode { mode, filter } => seq![0x06u8, mode, filter],
        CivTypeModel::GetMode => seq![0x04u8],
        CivTypeModel::ModeReport { mode, filter } => seq![0x04u8, mode, filter],
        CivTypeModel::VfoSelect { vfo } => seq![0x07u8, vfo],
        CivTypeModel::SetPtt { on } => seq![0x1Cu8, 0x00u8, bool_byte(on)],
        CivTypeModel::PttReport { on } => seq![0x1Cu8, 0x00u8, bool_byte(on)],
        CivTypeModel::Split { on } => seq![0x0Fu8, bool_byte(on)],
        CivTypeModel::Transceive { enabled } => seq![0x1Au8, 0x05u8, bool_byte(enabled)],
        CivTypeModel::Ack => seq![0xFBu8],
        CivTypeModel::Ng => seq![0xFAu8],
        CivTypeModel::Unknown { cmd, subcmd, data } => seq![cmd] + (match subcmd {
            Some(sc) => seq![sc],
            None => Seq::empty(),
        }) + data,
    }
}

/// The full frame of a command.
pub open spec fn civ_encode(m: CivModel) -> Seq<u8> {
    seq![PREAMBLE, PREAMBLE, m.to_addr, m.from_addr] + civ_type_body(m.command) + seq![TERMINATOR]
}

// ---------------------------------------------------------------------------
// Conversions (specification)
// ---------------------------------------------------------------------------

pub open spec fn civ_mode_spec(mode: u8) -> OperatingMode {
    match mode {
        0x00 => OperatingMode::Lsb,
        0x01 => OperatingMode::Usb,
        0x02 => OperatingMode::Am,
        0x03 => OperatingMode::Cw,
        0x04 => OperatingMode::Rtty,
        0x05 => OperatingMode::Fm,
        0x06 => OperatingMode::CwR,
        0x07 => OperatingMode::RttyR,
        0x08 => OperatingMode::DataL,
        0x09 => OperatingMode::DataU,
        0x11 => OperatingMode::DataL,
        0x12 => OperatingMode::DataU,
        _ => OperatingMode::Usb,
    }
}

pub open spec fn civ_mode_number(mode: OperatingMode) -> u8 {
    match mode {
        OperatingMode::Lsb => 0x00,
        OperatingMode::Usb => 0x01,
        OperatingMode::Am => 0x02,
        OperatingMode::Cw => 0x03,
        OperatingMode::Rtty => 0x04,
        OperatingMode::Fm | OperatingMode::FmN => 0x05,
        OperatingMode::CwR => 0x06,
        OperatingMode::RttyR => 0x07,
        OperatingMode::DataL | OperatingMode::DigL | OperatingMode::Dig => 0x08,
        OperatingMode::DataU | OperatingMode::DigU | OperatingMode::Data | OperatingMode::Pkt => 0x09,
    }
}

pub open spec fn civ_vfo_spec(v: u8) -> Vfo {
    if v == 0x01 {
        Vfo::B
    } else {
        Vfo::A
    }
}

pub open spec fn civ_to_response(c: CivTypeModel) -> ResponseModel {
    match c {
        CivTypeModel::SetFrequency { hz } => ResponseModel::Frequency { hz },
        CivTypeModel::FrequencyReport { hz } => ResponseModel::Frequency { hz },
        CivTypeModel::SetMode { mode, .. } => ResponseModel::Mode { mode: civ_mode_spec(mode) },
        CivTypeModel::ModeReport { mode, .. } => ResponseModel::Mode { mode: civ_mode_spec(mode) },
        CivTypeModel::VfoSelect { vfo } => ResponseModel::Vfo { vfo: civ_vfo_spec(vfo) },
        CivTypeModel::SetPtt { on } => ResponseModel::Ptt { active: on },
        CivTypeModel::PttReport { on } => ResponseModel::Ptt { active: on },
        CivTypeModel::Split { on } => ResponseModel::Vfo {
            vfo: if on {
                Vfo::Split
            } else {
                Vfo::A
            },
        },
        CivTypeModel::Transceive { enabled } => ResponseModel::AutoInfo { enabled },
        CivTypeModel::Unknown { cmd, data, .. } => ResponseModel::Unknown { data: seq![cmd] + data },
        _ => ResponseModel::Unknown { data: Seq::empty() },
    }
}

pub open spec fn civ_to_request(c: CivTypeModel) -> RequestModel {
    match c {
        CivTypeModel::SetFrequency { hz } => RequestModel::SetFrequency { hz },
        CivTypeModel::GetFrequency => RequestModel::GetFrequency,
        CivTypeModel::SetMode { mode, .. } => RequestModel::SetMode { mode: civ_mode_spec(mode) },
        CivTypeModel::GetMode => RequestModel::GetMode,
        CivTypeModel::VfoSelect { vfo } => RequestModel::SetVfo { vfo: civ_vfo_spec(vfo) },
        CivTypeModel::SetPtt { on } => RequestModel::SetPtt { active: on },
        CivTypeModel::Split { on } => RequestModel::SetVfo {
            vfo: if on {
                Vfo::Split
            } else {
                Vfo::A
            },
        },
        CivTypeModel::Transceive { enabled } => RequestModel::SetAutoInfo { enabled },
        CivTypeModel::Unknown { cmd, data, .. } => RequestModel::Unknown { data: seq![cmd] + data },
        _ => RequestModel::Unknown { data: Seq::empty() },
    }
}

pub open spec fn civ_vfo_command(vfo: Vfo) -> CivTypeModel {
    match vfo {
        Vfo::Split => CivTypeModel::Split { on: true },
        Vfo::A => CivTypeModel::VfoSelect { vfo: 0x00 },
        Vfo::B => CivTypeModel::VfoSelect { vfo: 0x01 },
        Vfo::Memory => CivTypeModel::VfoSelect { vfo: 0x02 },
    }
}

/// A command addressed to everyone from the controller.
pub open spec fn civ_broadcast(c: CivTypeModel) -> CivModel {
    CivModel { to_addr: BROADCAST_ADDR, from_addr: CONTROLLER_ADDR, command: c }
}

pub open spec fn civ_from_request(r: RequestModel) -> Option<CivModel> {
    match r {
        RequestModel::SetFrequency { hz } => Some(civ_broadcast(CivTypeModel::SetFrequency { hz })),
        RequestModel::GetFrequency => Some(civ_broadcast(CivTypeModel::GetFrequency)),
        RequestModel::SetMode { mode } => Some(
            civ_broadcast(CivTypeModel::SetMode { mode: civ_mode_number(mode), filter: 1 }),
        ),
        RequestModel::GetMode => Some(civ_broadcast(CivTypeModel::GetMode)),
        RequestModel::SetPtt { active } => Some(civ_broadcast(CivTypeModel::SetPtt { on: active })),
        RequestModel::SetVfo { vfo } => Some(civ_broadcast(civ_vfo_command(vfo))),
        RequestModel::SetAutoInfo { enabled } => Some(
            civ_broadcast(CivTypeModel::Transceive { enabled }),
        ),
        _ => None,
    }
}

pub open spec fn civ_from_response(r: ResponseModel) -> Option<CivModel> {
    match r {
        ResponseModel::Frequency { hz } => Some(civ_broadcast(CivTypeModel::FrequencyReport { hz })),
        ResponseModel::Mode { mode } => Some(
            civ_broadcast(CivTypeModel::ModeReport { mode: civ_mode_number(mode), filter: 1 }),
        ),
        ResponseModel::Ptt { active } => Some(civ_broadcast(CivTypeModel::PttReport { on: active })),
        ResponseModel::Vfo { vfo } => Some(civ_broadcast(civ_vfo_command(vfo))),
        ResponseModel::Status { frequency_hz: Some(hz), .. } => Some(
            civ_broadcast(CivTypeModel::FrequencyReport { hz }),
        ),
        ResponseModel::AutoInfo { enabled } => Some(
            civ_broadcast(CivTypeModel::Transceive { enabled }),
        ),
        _ => None,
    }
}

// ---------------------------------------------------------------------------
// Codec
// ---------------------------------------------------------------------------

/// Streaming CI-V protocol codec
pub struct CivCodec {
    buffer: Vec<u8>,
}

impl View for CivCodec {
    type V = Seq<u8>;

    closed spec fn view(&self) -> Seq<u8> {
        self.buffer@
    }
}

/// Byte `i` of `data`, or 0 past its end.
fn get_or_zero(data: &[u8], i: usize) -> (r: u8)
    ensures
        r == byte_or_zero(data@, i as int),
{
    if i < data.len() {
        data[i]
    } else {
        0
    }
}

/// Byte `i` is present and non-zero.
fn flag_byte(data: &[u8], i: usize) -> (r: bool)
    ensures
        r == flag_at(data@, i as int),
{
    i < data.len() && data[i] != 0
}

/// Everything after the first byte.
fn rest_after_first(data: &[u8]) -> (r: Vec<u8>)
    ensures
        r@ == after_first(data@),
{
    if data.len() > 1 {
        slice_to_vec(slice_subrange(data, 1, data.len()))
    } else {
        Vec::new()
    }
}

impl CivCodec {
    /// Create a new CI-V codec
    pub fn new() -> (r: Self)
        ensures
            r@ == Seq::<u8>::empty(),
    {
        CivCodec { buffer: Vec::new() }
    }

    /// Find the start of a valid frame (FE FE sequence)
    fn find_preamble(&self) -> (r: Option<usize>)
        ensures
            r matches Some(p) ==> first_preamble(self@) == Some(p as int) && p < self@.len(),
            r is None ==> first_preamble(self@) is None,
    {
        let n = self.buffer.len();
        if n < 2 {
            proof {
                if first_preamble(self.buffer@) is Some {
                    let w = choose|k: int|
                        preamble_at(self.buffer@, k) && forall|j: int|
                            0 <= j < k ==> !preamble_at(self.buffer@, j);
                    assert(preamble_at(self.buffer@, w));
                }
            }
            return None;
        }
        let mut i: usize = 0;
        while i < n - 1
            invariant
                n >= 2,
                n == self.buffer@.len(),
                forall|j: int| 0 <= j < i ==> !preamble_at(self.buffer@, j),
            decreases n - i,
        {
            if self.buffer[i] == PREAMBLE && self.buffer[i + 1] == PREAMBLE {
                proof {
                    lemma_first_preamble(self.buffer@, i as int);
                }
                return Some(i);
            }
            i = i + 1;
        }
        proof {
            if first_preamble(self.buffer@) is Some {
                let w = choose|k: int|
                    preamble_at(self.buffer@, k) && forall|j: int|
                        0 <= j < k ==> !preamble_at(self.buffer@, j);
                assert(preamble_at(self.buffer@, w));
            }
        }
        None
    }

    /// Parse a complete frame
    fn parse_frame(frame: &[u8]) -> (r: Result<CivCommand, ParseError>)
        ensures
            r matches Ok(c) ==> civ_parse_frame(frame@) == Some(c@),
            r is Err <==> civ_parse_frame(frame@) is None,
    {
        if frame.len() < 6 {
            return Err(ParseError::Incomplete { needed: 6 - frame.len() });
        }
        if frame[0] != PREAMBLE || frame[1] != PREAMBLE {
            return Err(ParseError::InvalidFrame("missing preamble".to_owned()));
        }
        if frame[frame.len() - 1] != TERMINATOR {
            return Err(ParseError::InvalidFrame("missing terminator".to_owned()));
        }
        let to_addr = frame[2];
        let from_addr = frame[3];
        let cmd = frame[4];
        let data = slice_subrange(frame, 5, frame.len() - 1);
        match Self::parse_command(cmd, data) {
            Ok(command) => Ok(CivCommand { to_addr, from_addr, command }),
            Err(e) => Err(e),
        }
    }

    /// Parse command and data into CivCommandType
    fn parse_command(cmd: u8, data: &[u8]) -> (r: Result<CivCommandType, ParseError>)
        ensures
            r matches Ok(c) ==> civ_parse_command(cmd, data@) == Some(c@),
            r is Err <==> civ_parse_command(cmd, data@) is None,
            r matches Err(e) ==> (cmd == 0x00 || cmd == 0x05 || cmd == 0x03) && data@.len() > 0
                && civ_bcd_error_is(data@, e),
    {
        if cmd == 0x00 || cmd == 0x05 || cmd == 0x03 {
            if data.len() == 0 {
                Ok(CivCommandType::GetFrequency)
            } else {
                match bcd_to_frequency(data) {
                    Ok(hz) => if cmd == 0x03 {
                        Ok(CivCommandType::FrequencyReport { hz })
                    } else {
                        Ok(CivCommandType::SetFrequency { hz })
                    },
                    Err(e) => Err(e),
                }
            }
        } else if cmd == 0x01 || cmd == 0x06 || cmd == 0x04 {
            if data.len() == 0 {
                Ok(CivCommandType::GetMode)
            } else {
                let mode = data[0];
                let filter = get_or_zero(data, 1);
                if cmd == 0x04 {
                    Ok(CivCommandType::ModeReport { mode, filter })
                } else {
                    Ok(CivCommandType::SetMode { mode, filter })
                }
            }
        } else if cmd == 0x07 {
            Ok(CivCommandType::VfoSelect { vfo: get_or_zero(data, 0) })
        } else if cmd == 0x1C {
            Ok(CivCommandType::SetPtt { on: flag_byte(data, 1) })
        } else if cmd == 0x0F {
            Ok(CivCommandType::Split { on: flag_byte(data, 0) })
        } else if cmd == 0x1A {
            let subcmd = get_or_zero(data, 0);
            if subcmd == 0x05 {
                Ok(CivCommandType::Transceive { enabled: flag_byte(data, 1) })
            } else {
                Ok(CivCommandType::Unknown { cmd, subcmd: Some(subcmd), data: rest_after_first(data) })
            }
        } else if cmd == 0xFB {
            Ok(CivCommandType::Ack)
        } else if cmd == 0xFA {
            Ok(CivCommandType::Ng)
        } else {
            let subcmd = if data.len() > 0 {
                Some(data[0])
            } else {
                None
            };
            Ok(CivCommandType::Unknown { cmd, subcmd, data: rest_after_first(data) })
        }
    }
}

/// Takes the frame at the front of `buffer` and parses it.
fn take_and_parse(buffer: &mut Vec<u8>) -> (r: Option<(CivCommand, Vec<u8>)>)
    ensures
        r matches Some((c, bytes)) ==> civ_take(old(buffer)@).0 == Some((c@, bytes@)),
        r is None ==> civ_take(old(buffer)@).0 is None,
        final(buffer)@ == civ_take(old(buffer)@).1,
{
    proof {
        lemma_first_index_of_found(buffer@, TERMINATOR);
    }
    match take_frame(buffer, TERMINATOR) {
        None => None,
        Some(frame) => match CivCodec::parse_frame(frame.as_slice()) {
            Ok(cmd) => Some((cmd, frame)),
            Err(_) => None,
        },
    }
}

impl Default for CivCodec {
    fn default() -> (r: Self)
        ensures
            r@ == Seq::<u8>::empty(),
    {
        Self::new()
    }
}

impl ProtocolCodec for CivCodec {
    type Command = CivCommand;

    fn push_bytes(&mut self, data: &[u8])
        ensures
            final(self)@ == buffer_after_push(old(self)@, data@),
    {
        push_limited(&mut self.buffer, data);
    }

    fn next_command(&mut self) -> (r: Option<CivCommand>)
        ensures
            r matches Some(c) ==> civ_next(old(self)@).0 matches Some((m, _)) && c@ == m,
            r is None ==> civ_next(old(self)@).0 is None,
            final(self)@ == civ_next(old(self)@).1,
    {
        match self.next_command_with_bytes() {
            Some((c, _)) => Some(c),
            None => None,
        }
    }

    fn next_command_with_bytes(&mut self) -> (r: Option<(CivCommand, Vec<u8>)>)
        ensures
            r matches Some((c, bytes)) ==> civ_next(old(self)@).0 == Some((c@, bytes@)),
            r is None ==> civ_next(old(self)@).0 is None,
            final(self)@ == civ_next(old(self)@).1,
    {
        let p = match self.find_preamble() {
            None => {
                return None;
            },
            Some(p) => p,
        };
        if p > 0 {
            let kept = slice_to_vec(slice_subrange(self.buffer.as_slice(), p, self.buffer.len()));
            self.buffer = kept;
        } else {
            proof {
                assert(old(self)@.subrange(0, old(self)@.len() as int) =~= old(self)@);
            }
        }
        take_and_parse(&mut self.buffer)
    }

    fn clear(&mut self)
        ensures
            final(self)@ == Seq::<u8>::empty(),
    {
        self.buffer.clear();
    }
}

// ---------------------------------------------------------------------------
// Conversions
// ---------------------------------------------------------------------------

/// Convert CI-V mode number to OperatingMode
pub(crate) fn civ_mode_to_operating_mode(mode: u8) -> (r: OperatingMode)
    ensures
        r == civ_mode_spec(mode),
{
    match mode {
        0x00 => OperatingMode::Lsb,
        0x01 => OperatingMode::Usb,
        0x02 => OperatingMode::Am,
        0x03 => OperatingMode::Cw,
        0x04 => OperatingMode::Rtty,
        0x05 => OperatingMode::Fm,
        0x06 => OperatingMode::CwR,
        0x07 => OperatingMode::RttyR,
        0x08 => OperatingMode::DataL,
        0x09 => OperatingMode::DataU,
        0x11 => OperatingMode::DataL,
        0x12 => OperatingMode::DataU,
        _ => OperatingMode::Usb,
    }
}

/// Convert OperatingMode to CI-V mode number
pub(crate) fn operating_mode_to_civ(mode: OperatingMode) -> (r: u8)
    ensures
        r == civ_mode_number(mode),
{
    match mode {
        OperatingMode::Lsb => 0x00,
        OperatingMode::Usb => 0x01,
        OperatingMode::Am => 0x02,
        OperatingMode::Cw => 0x03,
        OperatingMode::Rtty => 0x04,
        OperatingMode::Fm | OperatingMode::FmN => 0x05,
        OperatingMode::CwR => 0x06,
        OperatingMode::RttyR => 0x07,
        OperatingMode::DataL | OperatingMode::DigL | OperatingMode::Dig => 0x08,
        OperatingMode::DataU | OperatingMode::DigU | OperatingMode::Data | OperatingMode::Pkt => 0x09,
    }
}

fn civ_vfo(v: u8) -> (r: Vfo)
    ensures
        r == civ_vfo_spec(v),
{
    if v == 0x01 {
        Vfo::B
    } else {
        Vfo::A
    }
}

/// The command byte followed by the data.
fn cmd_and_data(cmd: u8, data: &Vec<u8>) -> (r: Vec<u8>)
    ensures
        r@ == seq![cmd] + data@,
{
    let mut out: Vec<u8> = Vec::new();
    out.push(cmd);
    push_all(&mut out, data.as_slice());
    proof {
        assert(seq![cmd] + data@ =~= out@);
    }
    out
}

/// Every mode the encoder writes reads back as the same mode number, and the
/// ten native CI-V modes survive the round trip unchanged.
pub proof fn law_civ_mode_roundtrip(mode: OperatingMode)
    ensures
        civ_mode_number(civ_mode_spec(civ_mode_number(mode))) == civ_mode_number(mode),
        (mode is Lsb || mode is Usb || mode is Am || mode is Cw || mode is Rtty || mode is Fm
            || mode is CwR || mode is RttyR || mode is DataL || mode is DataU) ==> civ_mode_spec(
            civ_mode_number(mode),
        ) == mode,
{
}

impl ToRadioResponse for CivCommand {
    fn to_radio_response(&self) -> (r: RadioResponse)
        ensures
            r@ == civ_to_response(self@.command),
    {
        match &self.command {
            CivCommandType::SetFrequency { hz } => RadioResponse::Frequency { hz: *hz },
            CivCommandType::GetFrequency => RadioResponse::Unknown { data: Vec::new() },
            CivCommandType::FrequencyReport { hz } => RadioResponse::Frequency { hz: *hz },
            CivCommandType::SetMode { mode, .. } => RadioResponse::Mode {
                mode: civ_mode_to_operating_mode(*mode),
            },
            CivCommandType::GetMode => RadioResponse::Unknown { data: Vec::new() },
            CivCommandType::ModeReport { mode, .. } => RadioResponse::Mode {
                mode: civ_mode_to_operating_mode(*mode),
            },
            CivCommandType::VfoSelect { vfo } => RadioResponse::Vfo { vfo: civ_vfo(*vfo) },
            CivCommandType::SetPtt { on } => RadioResponse::Ptt { active: *on },
            CivCommandType::PttReport { on } => RadioResponse::Ptt { active: *on },
            CivCommandType::Split { on } => RadioResponse::Vfo {
                vfo: if *on {
                    Vfo::Split
                } else {
                    Vfo::A
                },
            },
            CivCommandType::Transceive { enabled } => RadioResponse::AutoInfo { enabled: *enabled },
            CivCommandType::Ack | CivCommandType::Ng => RadioResponse::Unknown { data: Vec::new() },
            CivCommandType::Unknown { cmd, data, .. } => RadioResponse::Unknown {
                data: cmd_and_data(*cmd, data),
            },
        }
    }
}

impl ToRadioRequest for CivCommand {
    fn to_radio_request(&self) -> (r: RadioRequest)
        ensures
            r@ == civ_to_request(self@.command),
    {
        match &self.command {
            CivCommandType::SetFrequency { hz } => RadioRequest::SetFrequency { hz: *hz },
            CivCommandType::GetFrequency => RadioRequest::GetFrequency,
            CivCommandType::FrequencyReport { .. } => RadioRequest::Unknown { data: Vec::new() },
            CivCommandType::SetMode { mode, .. } => RadioRequest::SetMode {
                mode: civ_mode_to_operating_mode(*mode),
            },
            CivCommandType::GetMode => RadioRequest::GetMode,
            CivCommandType::ModeReport { .. } => RadioRequest::Unknown { data: Vec::new() },
            CivCommandType::VfoSelect { vfo } => RadioRequest::SetVfo { vfo: civ_vfo(*vfo) },
            CivCommandType::SetPtt { on } => RadioRequest::SetPtt { active: *on },
            CivCommandType::PttReport { .. } => RadioRequest::Unknown { data: Vec::new() },
            CivCommandType::Split { on } => RadioRequest::SetVfo {
                vfo: if *on {
                    Vfo::Split
                } else {
                    Vfo::A
                },
            },
            CivCommandType::Transceive { enabled } => RadioRequest::SetAutoInfo { enabled: *enabled },
            CivCommandType::Ack | CivCommandType::Ng => RadioRequest::Unknown { data: Vec::new() },
            CivCommandType::Unknown { cmd, data, .. } => RadioRequest::Unknown {
                data: cmd_and_data(*cmd, data),
            },
        }
    }
}

impl CivCommand {
    /// Create a new CI-V command
    pub fn new(to_addr: u8, from_addr: u8, command: CivCommandType) -> (r: Self)
        ensures
            r.to_addr == to_addr,
            r.from_addr == from_addr,
            r.command == command,
    {
        CivCommand { to_addr, from_addr, command }
    }

    /// Create a command to send to a specific radio
    pub fn to_radio(radio_addr: u8, command: CivCommandType) -> (r: Self)
        ensures
            r.to_addr == radio_addr,
            r.from_addr == CONTROLLER_ADDR,
            r.command == command,
    {
        Self::new(radio_addr, CONTROLLER_ADDR, command)
    }

    /// Create a command from a radio
    pub fn from_radio(radio_addr: u8, command: CivCommandType) -> (r: Self)
        ensures
            r.to_addr == CONTROLLER_ADDR,
            r.from_addr == radio_addr,
            r.command == command,
    {
        Self::new(CONTROLLER_ADDR, radio_addr, command)
    }
}

fn civ_vfo_type(vfo: Vfo) -> (r: CivCommandType)
    ensures
        r@ == civ_vfo_command(vfo),
{
    match vfo {
        Vfo::Split => CivCommandType::Split { on: true },
        Vfo::A => CivCommandType::VfoSelect { vfo: 0x00 },
        Vfo::B => CivCommandType::VfoSelect { vfo: 0x01 },
        Vfo::Memory => CivCommandType::VfoSelect { vfo: 0x02 },
    }
}

impl FromRadioRequest for CivCommand {
    fn from_radio_request(req: &RadioRequest) -> (r: Option<CivCommand>)
        ensures
            r matches Some(c) ==> civ_from_request(req@) == Some(c@),
            r is None <==> civ_from_request(req@) is None,
    {
        let civ_cmd = match req {
            RadioRequest::SetFrequency { hz } => CivCommandType::SetFrequency { hz: *hz },
            RadioRequest::GetFrequency => CivCommandType::GetFrequency,
            RadioRequest::SetMode { mode } => CivCommandType::SetMode {
                mode: operating_mode_to_civ(*mode),
                filter: 1,
            },
            RadioRequest::GetMode => CivCommandType::GetMode,
            RadioRequest::SetPtt { active } => CivCommandType::SetPtt { on: *active },
            RadioRequest::SetVfo { vfo } => civ_vfo_type(*vfo),
            RadioRequest::SetAutoInfo { enabled } => CivCommandType::Transceive { enabled: *enabled },
            _ => {
                return None;
            },
        };
        Some(CivCommand::to_radio(BROADCAST_ADDR, civ_cmd))
    }
}

impl FromRadioResponse for CivCommand {
    fn from_radio_response(resp: &RadioResponse) -> (r: Option<CivCommand>)
        ensures
            r matches Some(c) ==> civ_from_response(resp@) == Some(c@),
            r is None <==> civ_from_response(resp@) is None,
    {
        let civ_cmd = match resp {
            RadioResponse::Frequency { hz } => CivCommandType::FrequencyReport { hz: *hz },
            RadioResponse::Mode { mode } => CivCommandType::ModeReport {
                mode: operating_mode_to_civ(*mode),
                filter: 1,
            },
            RadioResponse::Ptt { active } => CivCommandType::PttReport { on: *active },
            RadioResponse::Vfo { vfo } => civ_vfo_type(*vfo),
            RadioResponse::Status { frequency_hz, .. } => match frequency_hz {
                Some(hz) => CivCommandType::FrequencyReport { hz: *hz },
                None => {
                    return None;
                },
            },
            RadioResponse::AutoInfo { enabled } => CivCommandType::Transceive { enabled: *enabled },
            _ => {
                return None;
            },
        };
        Some(CivCommand::to_radio(BROADCAST_ADDR, civ_cmd))
    }
}

impl EncodeCommand for CivCommand {
    fn encode(&self) -> (r: Vec<u8>)
        ensures
            r@ == civ_encode(self@),
    {
        let mut frame: Vec<u8> = Vec::new();
        frame.push(PREAMBLE);
        frame.push(PREAMBLE);
        frame.push(self.to_addr);
        frame.push(self.from_addr);
        let ghost head = frame@;
        match &self.command {
            CivCommandType::SetFrequency { hz } => {
                frame.push(0x05);
                push_all(&mut frame, frequency_to_bcd(*hz).as_slice());
            },
            CivCommandType::GetFrequency => {
                frame.push(0x03);
            },
            CivCommandType::FrequencyReport { hz } => {
                frame.push(0x03);
                push_all(&mut frame, frequency_to_bcd(*hz).as_slice());
            },
            CivCommandType::SetMode { mode, filter } => {
                frame.push(0x06);
                frame.push(*mode);
                frame.push(*filter);
            },
            CivCommandType::GetMode => {
                frame.push(0x04);
            },
            CivCommandType::ModeReport { mode, filter } => {
                frame.push(0x04);
                frame.push(*mode);
                frame.push(*filter);
            },
            CivCommandType::VfoSelect { vfo } => {
                frame.push(0x07);
                frame.push(*vfo);
            },
            CivCommandType::SetPtt { on } => {
                frame.push(0x1C);
                frame.push(0x00);
                frame.push(if *on { 0x01 } else { 0x00 });
            },
            CivCommandType::PttReport { on } => {
                frame.push(0x1C);
                frame.push(0x00);
                frame.push(if *on { 0x01 } else { 0x00 });
            },
            CivCommandType::Split { on } => {
                frame.push(0x0F);
                frame.push(if *on { 0x01 } else { 0x00 });
            },
            CivCommandType::Transceive { enabled } => {
                frame.push(0x1A);
                frame.push(0x05);
                frame.push(if *enabled { 0x01 } else { 0x00 });
            },
            CivCommandType::Ack => {
                frame.push(0xFB);
            },
            CivCommandType::Ng => {
                frame.push(0xFA);
            },
            CivCommandType::Unknown { cmd, subcmd, data } => {
                frame.push(*cmd);
                if let Some(sc) = subcmd {
                    frame.push(*sc);
                }
                push_all(&mut frame, data.as_slice());
            },
        }
        proof {
            assert(frame@ =~= head + civ_type_body(self@.command));
        }
        frame.push(TERMINATOR);
        proof {
            assert(frame@ =~= civ_encode(self@));
        }
        frame
    }
}

impl RadioCodec for CivCodec {
    fn push_bytes(&mut self, data: &[u8])
        ensures
            final(self)@ == buffer_after_push(old(self)@, data@),
    {
        push_limited(&mut self.buffer, data);
    }

    fn next_response(&mut self) -> (r: Option<RadioResponse>)
        ensures
            r matches Some(resp) ==> civ_next(old(self)@).0 matches Some((m, _)) && resp@
                == civ_to_response(m.command),
            r is None ==> civ_next(old(self)@).0 is None,
            final(self)@ == civ_next(old(self)@).1,
    {
        match ProtocolCodec::next_command(self) {
            Some(c) => Some(c.to_radio_response()),
            None => None,
        }
    }

    fn next_response_with_bytes(&mut self) -> (r: Option<(RadioResponse, Vec<u8>)>)
        ensures
            r matches Some((resp, bytes)) ==> civ_next(old(self)@).0 matches Some((m, f)) && resp@
                == civ_to_response(m.command) && bytes@ == f,
            r is None ==> civ_next(old(self)@).0 is None,
            final(self)@ == civ_next(old(self)@).1,
    {
        match ProtocolCodec::next_command_with_bytes(self) {
            Some((c, bytes)) => Some((c.to_radio_response(), bytes)),
            None => None,
        }
    }

    fn next_request(&mut self) -> (r: Option<RadioRequest>)
        ensures
            r matches Some(req) ==> civ_next(old(self)@).0 matches Some((m, _)) && req@
                == civ_to_request(m.command),
            r is None ==> civ_next(old(self)@).0 is None,
            final(self)@ == civ_next(old(self)@).1,
    {
        match ProtocolCodec::next_command(self) {
            Some(c) => Some(c.to_radio_request()),
            None => None,
        }
    }

    fn next_request_with_bytes(&mut self) -> (r: Option<(RadioRequest, Vec<u8>)>)
        ensures
            r matches Some((req, bytes)) ==> civ_next(old(self)@).0 matches Some((m, f)) && req@
                == civ_to_request(m.command) && bytes@ == f,
            r is None ==> civ_next(old(self)@).0 is None,
            final(self)@ == civ_next(old(self)@).1,
    {
        match ProtocolCodec::next_command_with_bytes(self) {
            Some((c, bytes)) => Some((c.to_radio_request(), bytes)),
            None => None,
        }
    }

    fn clear(&mut self)
        ensures
            final(self)@ == Seq::<u8>::empty(),
    {
        self.buffer.clear();
    }
}

/// Generate a probe command to detect CI-V radios: a frequency read, which
/// any Icom radio answers.
pub fn probe_command(radio_addr: u8) -> (r: Vec<u8>)
    ensures
        r@ == seq![PREAMBLE, PREAMBLE, radio_addr, CONTROLLER_ADDR, 0x03u8, TERMINATOR],
{
    let r = CivCommand::to_radio(radio_addr, CivCommandType::GetFrequency).encode();
    proof {
        assert(r@ =~= seq![PREAMBLE, PREAMBLE, radio_addr, CONTROLLER_ADDR, 0x03u8, TERMINATOR]);
    }
    r
}

/// A CI-V frame: at least six bytes, preamble first, terminator last.
pub open spec fn civ_frame_shape(data: Seq<u8>) -> bool {
    data.len() >= 6 && data[0] == PREAMBLE && data[1] == PREAMBLE && data.last() == TERMINATOR
}

/// Check if a response looks like a valid CI-V frame
pub fn is_valid_frame(data: &[u8]) -> (r: bool)
    ensures
        r == civ_frame_shape(data@),
{
    data.len() >= 6 && data[0] == PREAMBLE && data[1] == PREAMBLE && data[data.len() - 1]
        == TERMINATOR
}

/// Extract the source address from a CI-V frame
pub fn extract_source_address(data: &[u8]) -> (r: Option<u8>)
    ensures
        r == (if civ_frame_shape(data@) {
            Some(data@[3])
        } else {
            None::<u8>
        }),
{
    if is_valid_frame(data) {
        Some(data[3])
    } else {
        None
    }
}

// ---------------------------------------------------------------------------
// Round trip: what the encoder writes, the codec reads back
// ---------------------------------------------------------------------------

/// The command bytes the parser gives a meaning of its own.
pub open spec fn civ_known_command_byte(cmd: u8) -> bool {
    cmd == 0x00 || cmd == 0x01 || cmd == 0x03 || cmd == 0x04 || cmd == 0x05 || cmd == 0x06 || cmd
        == 0x07 || cmd == 0x1C || cmd == 0x0F || cmd == 0x1A || cmd == 0xFB || cmd == 0xFA
}

/// Frames the codec reads back as the command that was encoded: no byte
/// before the end is the terminator, frequencies fit the ten BCD digits, a
/// PTT report (encoded like a PTT command) is left out, and an unknown
/// command uses a byte the parser does not claim and carries data only
/// after a sub-command.
pub open spec fn civ_wire_form(m: CivModel) -> bool {
    &&& m.to_addr != TERMINATOR
    &&& m.from_addr != TERMINATOR
    &&& match m.command {
        CivTypeModel::SetFrequency { hz } => hz < 10_000_000_000u64,
        CivTypeModel::FrequencyReport { hz } => hz < 10_000_000_000u64,
        CivTypeModel::SetMode { mode, filter } => mode != TERMINATOR && filter != TERMINATOR,
        CivTypeModel::ModeReport { mode, filter } => mode != TERMINATOR && filter != TERMINATOR,
        CivTypeModel::VfoSelect { vfo } => vfo != TERMINATOR,
        CivTypeModel::PttReport { .. } => false,
        CivTypeModel::Unknown { cmd, subcmd, data } => {
            &&& !civ_known_command_byte(cmd)
            &&& cmd != TERMINATOR
            &&& subcmd is None ==> data.len() == 0
            &&& subcmd != Some(TERMINATOR)
            &&& !data.contains(TERMINATOR)
        },
        _ => true,
    }
}

proof fn lemma_bcd_no_terminator(hz: u64)
    requires
        hz < 10_000_000_000u64,
    ensures
        !bcd_le_encode(hz as nat, 5).contains(TERMINATOR),
        bcd_decode(bcd_le_encode(hz as nat, 5)) == Some(hz),
        bcd_le_encode(hz as nat, 5).len() == 5,
{
    law_bcd_roundtrip(hz);
    lemma_bcd_encode_value(hz as nat, 5);
    let e = bcd_le_encode(hz as nat, 5);
    if e.contains(TERMINATOR) {
        let i = choose|i: int| 0 <= i < e.len() && e[i] == TERMINATOR;
        assert(bcd_byte_valid(e[i]));
    }
}

/// The command byte and data of a wire-form command parse back to it and
/// hold no terminator.
proof fn lemma_civ_body_parses(m: CivModel)
    requires
        civ_wire_form(m),
    ensures
        civ_type_body(m.command).len() >= 1,
        civ_parse_command(civ_type_body(m.command)[0], civ_type_body(m.command).drop_first())
            == Some(m.command),
        !civ_type_body(m.command).contains(TERMINATOR),
{
    let body = civ_type_body(m.command);
    let data = body.drop_first();
    match m.command {
        CivTypeModel::SetFrequency { hz } => {
            lemma_bcd_no_terminator(hz);
            assert(data =~= bcd_le_encode(hz as nat, 5));
        },
        CivTypeModel::FrequencyReport { hz } => {
            lemma_bcd_no_terminator(hz);
            assert(data =~= bcd_le_encode(hz as nat, 5));
        },
        CivTypeModel::Unknown { cmd, subcmd, data: d } => {
            match subcmd {
                Some(sc) => {
                    assert(data =~= seq![sc] + d);
                    if d.len() > 0 {
                        assert(after_first(data) =~= d);
                    } else {
                        assert(after_first(data) =~= d);
                    }
                },
                None => {
                    assert(data =~= Seq::<u8>::empty());
                    assert(after_first(data) =~= d);
                },
            }
            if body.contains(TERMINATOR) {
                let i = choose|i: int| 0 <= i < body.len() && body[i] == TERMINATOR;
                if subcmd is Some {
                    if i >= 2 {
                        assert(d[i - 2] == TERMINATOR);
                    }
                } else {
                    assert(i == 0);
                }
            }
        },
        _ => {},
    }
    if !(m.command is Unknown) && body.contains(TERMINATOR) {
        let i = choose|i: int| 0 <= i < body.len() && body[i] == TERMINATOR;
        match m.command {
            CivTypeModel::SetFrequency { hz } => {
                if i >= 1 {
                    assert(data[i - 1] == TERMINATOR);
                }
            },
            CivTypeModel::FrequencyReport { hz } => {
                if i >= 1 {
                    assert(data[i - 1] == TERMINATOR);
                }
            },
            _ => {
                assert(body[i] != TERMINATOR);
            },
        }
    }
}

/// A CI-V frame is at most eleven bytes long.
pub proof fn lemma_civ_encode_len(m: CivModel)
    requires
        !(m.command is Unknown),
    ensures
        civ_encode(m).len() <= 11,
{
    match m.command {
        CivTypeModel::SetFrequency { hz } => lemma_bcd_encode_value(hz as nat, 5),
        CivTypeModel::FrequencyReport { hz } => lemma_bcd_encode_value(hz as nat, 5),
        _ => {},
    }
}

/// Round trip through the stream: a wire-form command, encoded and pushed
/// into an empty codec, is read back as one frame holding the same command,
/// and the codec is left empty.
pub proof fn law_civ_encode_then_parse(m: CivModel)
    requires
        civ_wire_form(m),
        civ_encode(m).len() <= 4 * MAX_BUFFERED_FRAME,
    ensures
        civ_next(buffer_after_push(Seq::empty(), civ_encode(m))) == (
            Some((m, civ_encode(m))),
            Seq::<u8>::empty(),
        ),
        civ_next(Seq::<u8>::empty()).0 is None,
{
    let e = civ_encode(m);
    let body = civ_type_body(m.command);
    lemma_civ_body_parses(m);
    assert(Seq::<u8>::empty() + e =~= e);
    lemma_first_preamble(e, 0);
    assert(e.subrange(0, e.len() as int) =~= e);
    assert forall|j: int| 0 <= j < e.len() - 1 implies e[j] != TERMINATOR by {
        if j >= 4 {
            assert(e[j] == body[j - 4]);
        }
    }
    lemma_first_index_of(e, TERMINATOR, e.len() - 1);
    assert(e.subrange(5, e.len() - 1) =~= body.drop_first());
    assert(e[4] == body[0]);
    assert(e.subrange(e.len() as int, e.len() as int) =~= Seq::<u8>::empty());
}

} // verus!
