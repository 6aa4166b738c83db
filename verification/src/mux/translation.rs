//! Protocol translation between radios and amplifier
//!
//! Responses flow from radios through the mux to amplifiers: a report from
//! any source protocol is re-encoded in the amplifier's protocol.

use vstd::prelude::*;

use crate::command::{RadioResponse, ResponseModel, Vfo};
use crate::elecraft::{
    elecraft_decode, elecraft_encode, elecraft_from_response, elecraft_to_response, ElecraftCodec,
    ElecraftCommand, ElecraftModel,
};
use crate::flex::{
    flex_decode, flex_encode, flex_from_response, flex_to_response, FlexCodec, FlexCommand, FlexModel,
};
use crate::icom::{
    civ_encode, civ_from_response, civ_next, civ_to_response, CivCodec, CivCommand, CivModel, CivTypeModel,
    CONTROLLER_ADDR,
};
use crate::kenwood::{
    kenwood_decode, kenwood_encode, kenwood_from_response, kenwood_to_response, KenwoodCodec,
    KenwoodCommand, KenwoodModel,
};
use crate::mux::error::MuxError;
use crate::protocol::{EncodeCommand, FromRadioResponse, Protocol, ProtocolCodec, ToRadioResponse};
use crate::stream::{buffer_after_push, next_frame};
use crate::yaesu::{
    yaesu_bcd_frequency, yaesu_command_is, yaesu_encode, yaesu_from_response, yaesu_mode_spec,
    yaesu_take_len, yaesu_to_response, YaesuCodec, YaesuCommand,
};
use crate::yaesu_ascii::{ya_encode, ya_from_response, YaesuAsciiCommand};

verus! {

/// Configuration for protocol translation
#[derive(Debug, Clone, Copy, PartialEq, Eq, Structural)]
pub struct TranslationConfig {
    /// Frequency precision in Hz (round to this value)
    pub frequency_precision_hz: u64,
    /// Whether to translate unsupported modes to closest equivalent
    pub fallback_modes: bool,
    /// CI-V address for amplifier (if target is Icom)
    pub target_civ_address: Option<u8>,
}

impl Default for TranslationConfig {
    fn default() -> (r: Self)
        ensures
            r == (TranslationConfig {
                frequency_precision_hz: 10,
                fallback_modes: true,
                target_civ_address: None,
            }),
    {
        TranslationConfig { frequency_precision_hz: 10, fallback_modes: true, target_civ_address: None }
    }
}

/// `hz` rounded down to a multiple of `p`.
pub open spec fn round_down(hz: u64, p: u64) -> u64 {
    ((hz / p) * p) as u64
}

/// The response carries a frequency that translation rounds.
pub open spec fn carries_frequency(r: ResponseModel) -> bool {
    r is Frequency || r matches ResponseModel::Status { frequency_hz: Some(_), .. }
}

/// A response with its frequency rounded down to the precision.
pub open spec fn normalize_spec(r: ResponseModel, p: u64) -> ResponseModel {
    match r {
        ResponseModel::Frequency { hz } => ResponseModel::Frequency { hz: round_down(hz, p) },
        ResponseModel::Status { frequency_hz: Some(hz), mode, ptt, vfo } => ResponseModel::Status {
            frequency_hz: Some(round_down(hz, p)),
            mode,
            ptt,
            vfo,
        },
        _ => r,
    }
}

/// The wire bytes of a response in a target protocol (CI-V frames go to
/// `civ_addr` from the controller), when the protocol can carry it. Both
/// Yaesu protocols use the binary encoding.
pub open spec fn encode_for(target: Protocol, civ_addr: u8, r: ResponseModel) -> Option<Seq<u8>> {
    match target {
        Protocol::Kenwood => match kenwood_from_response(r) {
            Some(k) => Some(kenwood_encode(k)),
            None => None,
        },
        Protocol::Elecraft => match elecraft_from_response(r) {
            Some(e) => Some(elecraft_encode(e)),
            None => None,
        },
        Protocol::IcomCIV => match civ_from_response(r) {
            Some(m) => Some(
                civ_encode(CivModel { to_addr: civ_addr, from_addr: CONTROLLER_ADDR, command: m.command }),
            ),
            None => None,
        },
        Protocol::Yaesu | Protocol::YaesuAscii => match yaesu_from_response(r) {
            Some(y) => Some(yaesu_encode(y)),
            None => None,
        },
        Protocol::FlexRadio => match flex_from_response(r) {
            Some(f) => Some(flex_encode(f)),
            None => None,
        },
    }
}

/// Like `encode_for` with CI-V address 0, except that Yaesu ASCII uses its
/// own ASCII encoding.
pub open spec fn encode_standalone(target: Protocol, r: ResponseModel) -> Option<Seq<u8>> {
    match target {
        Protocol::YaesuAscii => match ya_from_response(r) {
            Some(y) => Some(ya_encode(y)),
            None => None,
        },
        _ => encode_for(target, 0, r),
    }
}

/// Protocol translator
pub struct ProtocolTranslator {
    config: TranslationConfig,
    target_protocol: Protocol,
}

/// The mathematical value of a `ProtocolTranslator`.
pub struct TranslatorModel {
    pub config: TranslationConfig,
    pub target_protocol: Protocol,
}

impl View for ProtocolTranslator {
    type V = TranslatorModel;

    closed spec fn view(&self) -> TranslatorModel {
        TranslatorModel { config: self.config, target_protocol: self.target_protocol }
    }
}

/// The CI-V address a translator sends to (0 unless configured).
pub open spec fn target_addr(t: TranslatorModel) -> u8 {
    match t.config.target_civ_address {
        Some(a) => a,
        None => 0,
    }
}

/// What the translator writes for a response: the normalized response in
/// the target protocol.
pub open spec fn translate_spec(t: TranslatorModel, r: ResponseModel) -> Option<Seq<u8>> {
    encode_for(
        t.target_protocol,
        target_addr(t),
        normalize_spec(r, t.config.frequency_precision_hz),
    )
}

/// The response a 5-byte binary Yaesu command denotes coming from a radio.
pub open spec fn yaesu_response_of_bytes(b: Seq<u8>) -> ResponseModel {
    let op = b[4];
    if op == 0x01 {
        ResponseModel::Frequency { hz: yaesu_bcd_frequency(b) as u64 }
    } else if op == 0x07 {
        ResponseModel::Mode { mode: yaesu_mode_spec(b[0]) }
    } else if op == 0x08 {
        ResponseModel::Ptt { active: true }
    } else if op == 0x88 {
        ResponseModel::Ptt { active: false }
    } else if op == 0x81 {
        ResponseModel::Vfo { vfo: Vfo::B }
    } else if op == 0x02 {
        ResponseModel::Vfo { vfo: Vfo::Split }
    } else if op == 0x82 {
        ResponseModel::Vfo { vfo: Vfo::A }
    } else if op == 0x03 || op == 0xE7 || op == 0xF7 || op == 0x0F || op == 0x8F || op == 0x00 || op
        == 0x80 {
        ResponseModel::Unknown { data: Seq::empty() }
    } else {
        ResponseModel::Unknown { data: b }
    }
}

proof fn lemma_yaesu_response_of_bytes(b: Seq<u8>, c: YaesuCommand)
    requires
        b.len() == 5,
        yaesu_command_is(b, c),
    ensures
        yaesu_to_response(c) == yaesu_response_of_bytes(b),
{
}

/// The response the first message of `data` denotes in a source protocol,
/// read by a fresh codec; `None` when `data` holds no complete message (or,
/// for CI-V, none that parses).
pub open spec fn source_response(protocol: Protocol, data: Seq<u8>) -> Option<ResponseModel> {
    let buf = buffer_after_push(Seq::empty(), data);
    match protocol {
        Protocol::Kenwood => match next_frame(buf, 59u8) {
            Some((f, _)) => Some(kenwood_to_response(kenwood_decode(f.drop_last()))),
            None => None,
        },
        Protocol::Elecraft => match next_frame(buf, 59u8) {
            Some((f, _)) => Some(elecraft_to_response(elecraft_decode(f.drop_last()))),
            None => None,
        },
        Protocol::FlexRadio => match next_frame(buf, 59u8) {
            Some((f, _)) => Some(flex_to_response(flex_decode(f.drop_last()))),
            None => None,
        },
        Protocol::IcomCIV => match civ_next(buf).0 {
            Some((m, _)) => Some(civ_to_response(m.command)),
            None => None,
        },
        Protocol::Yaesu | Protocol::YaesuAscii => if data.len() >= 5 {
            Some(yaesu_response_of_bytes(data.subrange(0, 5)))
        } else {
            None
        },
    }
}

impl ProtocolTranslator {
    /// Create a new translator targeting the given protocol
    pub fn new(target_protocol: Protocol) -> (r: Self)
        ensures
            r@ == (TranslatorModel {
                config: TranslationConfig {
                    frequency_precision_hz: 10,
                    fallback_modes: true,
                    target_civ_address: None,
                },
                target_protocol,
            }),
    {
        ProtocolTranslator { config: TranslationConfig::default(), target_protocol }
    }

    /// Create with custom configuration
    pub fn with_config(target_protocol: Protocol, config: TranslationConfig) -> (r: Self)
        ensures
            r@ == (TranslatorModel { config, target_protocol }),
    {
        ProtocolTranslator { config, target_protocol }
    }

    /// Get the target protocol
    pub fn target_protocol(&self) -> (r: Protocol)
        ensures
            r == self@.target_protocol,
    {
        self.target_protocol
    }

    /// Set the target protocol
    pub fn set_target_protocol(&mut self, protocol: Protocol)
        ensures
            final(self)@ == (TranslatorModel { target_protocol: protocol, ..old(self)@ }),
    {
        self.target_protocol = protocol;
    }

    /// Translate a RadioResponse to the target protocol bytes: frequencies
    /// are rounded down to the configured precision, then the response is
    /// re-encoded; responses the target cannot carry are an error.
    pub fn translate_response(&self, resp: &RadioResponse) -> (r: Result<Vec<u8>, MuxError>)
        requires
            self@.config.frequency_precision_hz > 0 || !carries_frequency(resp@),
        ensures
            translate_spec(self@, resp@) matches Some(b) ==> r matches Ok(v) && v@ == b,
            translate_spec(self@, resp@) is None ==> r matches Err(MuxError::TranslationError(_)),
    {
        let resp = self.normalize_response(resp);
        match self.target_protocol {
            Protocol::Kenwood => match KenwoodCommand::from_radio_response(&resp) {
                Some(c) => Ok(c.encode()),
                None => Err(MuxError::TranslationError("cannot translate to Kenwood".to_owned())),
            },
            Protocol::Elecraft => match ElecraftCommand::from_radio_response(&resp) {
                Some(c) => Ok(c.encode()),
                None => Err(MuxError::TranslationError("cannot translate to Elecraft".to_owned())),
            },
            Protocol::IcomCIV => match CivCommand::from_radio_response(&resp) {
                Some(c) => {
                    let addr = match self.config.target_civ_address {
                        Some(a) => a,
                        None => 0x00,
                    };
                    Ok(CivCommand::new(addr, CONTROLLER_ADDR, c.command).encode())
                },
                None => Err(MuxError::TranslationError("cannot translate to CI-V".to_owned())),
            },
            Protocol::Yaesu | Protocol::YaesuAscii => match YaesuCommand::from_radio_response(&resp) {
                Some(c) => Ok(c.encode()),
                None => Err(MuxError::TranslationError("cannot translate to Yaesu".to_owned())),
            },
            Protocol::FlexRadio => match FlexCommand::from_radio_response(&resp) {
                Some(c) => Ok(c.encode()),
                None => Err(MuxError::TranslationError("cannot translate to FlexRadio".to_owned())),
            },
        }
    }

    /// Read the first message in `data` as a radio's response in
    /// `source_protocol` and encode it for the amplifier.
    pub fn translate_from(&self, source_protocol: Protocol, data: &[u8]) -> (r: Result<Vec<u8>, MuxError>)
        requires
            self@.config.frequency_precision_hz > 0 || !(source_response(source_protocol, data@) matches Some(
                resp,
            ) && carries_frequency(resp)),
        ensures
            source_response(source_protocol, data@) is None ==> r matches Err(
                MuxError::TranslationError(_),
            ),
            source_response(source_protocol, data@) matches Some(resp) ==> {
                &&& translate_spec(self@, resp) matches Some(b) ==> r matches Ok(v) && v@ == b
                &&& translate_spec(self@, resp) is None ==> r matches Err(MuxError::TranslationError(_))
            },
    {
        match self.parse_source_response(source_protocol, data) {
            Ok(resp) => self.translate_response(&resp),
            Err(e) => Err(e),
        }
    }

    /// Parse bytes from a source protocol into a RadioResponse
    fn parse_source_response(&self, protocol: Protocol, data: &[u8]) -> (r: Result<RadioResponse, MuxError>)
        ensures
            source_response(protocol, data@) matches Some(resp) ==> r matches Ok(v) && v@ == resp,
            source_response(protocol, data@) is None ==> r matches Err(MuxError::TranslationError(_)),
    {
        match protocol {
            Protocol::Kenwood => {
                let mut codec = KenwoodCodec::new();
                codec.push_bytes(data);
                match codec.next_command() {
                    Some(c) => Ok(c.to_radio_response()),
                    None => Err(MuxError::TranslationError("incomplete Kenwood data".to_owned())),
                }
            },
            Protocol::Elecraft => {
                let mut codec = ElecraftCodec::new();
                codec.push_bytes(data);
                match codec.next_command() {
                    Some(c) => Ok(c.to_radio_response()),
                    None => Err(MuxError::TranslationError("incomplete Elecraft data".to_owned())),
                }
            },
            Protocol::IcomCIV => {
                let mut codec = CivCodec::new();
                codec.push_bytes(data);
                match codec.next_command() {
                    Some(c) => Ok(c.to_radio_response()),
                    None => Err(MuxError::TranslationError("incomplete CI-V data".to_owned())),
                }
            },
            Protocol::Yaesu | Protocol::YaesuAscii => {
                let mut codec = YaesuCodec::new();
                codec.push_bytes(data);
                proof {
                    assert(Seq::<u8>::empty() + data@ =~= data@);
                }
                match codec.next_command() {
                    Some(c) => {
                        proof {
                            lemma_yaesu_response_of_bytes(data@.subrange(0, 5), c);
                        }
                        Ok(c.to_radio_response())
                    },
                    None => Err(MuxError::TranslationError("incomplete Yaesu data".to_owned())),
                }
            },
            Protocol::FlexRadio => {
                let mut codec = FlexCodec::new();
                codec.push_bytes(data);
                match codec.next_command() {
                    Some(c) => Ok(c.to_radio_response()),
                    None => Err(MuxError::TranslationError("incomplete FlexRadio data".to_owned())),
                }
            },
        }
    }

    /// Normalize a response (apply precision)
    fn normalize_response(&self, resp: &RadioResponse) -> (r: RadioResponse)
        requires
            self@.config.frequency_precision_hz > 0 || !carries_frequency(resp@),
        ensures
            r@ == normalize_spec(resp@, self@.config.frequency_precision_hz),
    {
        let p = self.config.frequency_precision_hz;
        match resp {
            RadioResponse::Frequency { hz } => RadioResponse::Frequency { hz: round_frequency(*hz, p) },
            RadioResponse::Status { frequency_hz: Some(hz), mode, ptt, vfo } => RadioResponse::Status {
                frequency_hz: Some(round_frequency(*hz, p)),
                mode: *mode,
                ptt: *ptt,
                vfo: *vfo,
            },
            _ => resp.duplicate(),
        }
    }
}

/// `hz` rounded down to a multiple of `p`.
fn round_frequency(hz: u64, p: u64) -> (r: u64)
    requires
        p > 0,
    ensures
        r == round_down(hz, p),
        r <= hz,
        hz - r < p,
{
    assert((hz / p) * p <= hz) by (nonlinear_arith)
        requires
            p > 0,
    ;
    assert(hz - (hz / p) * p < p) by (nonlinear_arith)
        requires
            p > 0,
    ;
    (hz / p) * p
}

/// Responses that should be forwarded to the amplifier: amplifiers care
/// about frequency, mode and PTT state, and status reports carry them.
pub open spec fn forwards_to_amp(r: ResponseModel) -> bool {
    r is Frequency || r is Mode || r is Ptt || r is Status
}

/// Responses that should be forwarded to the amplifier
pub fn should_forward_to_amp(resp: &RadioResponse) -> (r: bool)
    ensures
        r == forwards_to_amp(resp@),
{
    match resp {
        RadioResponse::Frequency { .. } | RadioResponse::Mode { .. } | RadioResponse::Ptt { .. }
        | RadioResponse::Status { .. } => true,
        _ => false,
    }
}

/// The part of a response an amplifier is sent: frequency, mode and PTT
/// reports as they are, the frequency of a status report that has one,
/// nothing else.
pub open spec fn amp_filter(r: ResponseModel) -> Option<ResponseModel> {
    match r {
        ResponseModel::Frequency { .. } => Some(r),
        ResponseModel::Mode { .. } => Some(r),
        ResponseModel::Ptt { .. } => Some(r),
        ResponseModel::Status { frequency_hz: Some(hz), .. } => Some(ResponseModel::Frequency { hz }),
        _ => None,
    }
}

/// Filter responses to only those relevant for amplifiers
pub fn filter_for_amplifier(resp: &RadioResponse) -> (r: Option<RadioResponse>)
    ensures
        r matches Some(v) ==> amp_filter(resp@) == Some(v@),
        r is None <==> amp_filter(resp@) is None,
{
    match resp {
        RadioResponse::Frequency { hz } => Some(RadioResponse::Frequency { hz: *hz }),
        RadioResponse::Mode { mode } => Some(RadioResponse::Mode { mode: *mode }),
        RadioResponse::Ptt { active } => Some(RadioResponse::Ptt { active: *active }),
        RadioResponse::Status { frequency_hz: Some(hz), .. } => Some(RadioResponse::Frequency { hz: *hz }),
        _ => None,
    }
}

/// Same as `filter_for_amplifier`.
pub fn filter_response_for_amplifier(resp: &RadioResponse) -> (r: Option<RadioResponse>)
    ensures
        r matches Some(v) ==> amp_filter(resp@) == Some(v@),
        r is None <==> amp_filter(resp@) is None,
{
    filter_for_amplifier(resp)
}

/// Translate a RadioResponse to the target protocol bytes, without
/// rounding and with CI-V address 0.
pub fn translate_response(resp: &RadioResponse, protocol: Protocol) -> (r: Result<Vec<u8>, MuxError>)
    ensures
        encode_standalone(protocol, resp@) matches Some(b) ==> r matches Ok(v) && v@ == b,
        encode_standalone(protocol, resp@) is None ==> r matches Err(MuxError::TranslationError(_)),
{
    match protocol {
        Protocol::Kenwood => match KenwoodCommand::from_radio_response(resp) {
            Some(c) => Ok(c.encode()),
            None => Err(MuxError::TranslationError("cannot translate to Kenwood".to_owned())),
        },
        Protocol::Elecraft => match ElecraftCommand::from_radio_response(resp) {
            Some(c) => Ok(c.encode()),
            None => Err(MuxError::TranslationError("cannot translate to Elecraft".to_owned())),
        },
        Protocol::IcomCIV => match CivCommand::from_radio_response(resp) {
            Some(c) => Ok(CivCommand::new(0x00, CONTROLLER_ADDR, c.command).encode()),
            None => Err(MuxError::TranslationError("cannot translate to CI-V".to_owned())),
        },
        Protocol::Yaesu => match YaesuCommand::from_radio_response(resp) {
            Some(c) => Ok(c.encode()),
            None => Err(MuxError::TranslationError("cannot translate to Yaesu".to_owned())),
        },
        Protocol::YaesuAscii => match YaesuAsciiCommand::from_radio_response(resp) {
            Some(c) => Ok(c.encode()),
            None => Err(MuxError::TranslationError("cannot translate to Yaesu ASCII".to_owned())),
        },
        Protocol::FlexRadio => match FlexCommand::from_radio_response(resp) {
            Some(c) => Ok(c.encode()),
            None => Err(MuxError::TranslationError("cannot translate to FlexRadio".to_owned())),
        },
    }
}

/// Rounding moves a frequency down by less than the precision and to a
/// multiple of it, and rounding twice changes nothing.
pub proof fn law_normalize_rounds_down(hz: u64, p: u64)
    requires
        p > 0,
    ensures
        round_down(hz, p) <= hz,
        hz - round_down(hz, p) < p,
        round_down(hz, p) % p == 0,
        round_down(round_down(hz, p), p) == round_down(hz, p),
{
    assert((hz / p) * p <= hz) by (nonlinear_arith)
        requires
            p > 0,
    ;
    assert(hz - (hz / p) * p < p) by (nonlinear_arith)
        requires
            p > 0,
    ;
    let q = hz / p;
    assert(((q * p) as int) % (p as int) == 0) by (nonlinear_arith)
        requires
            p > 0,
    ;
    assert(((q * p) as int) / (p as int) == q) by (nonlinear_arith)
        requires
            p > 0,
    ;
}


/// Every amplifier protocol carries a frequency report: as a `;`-terminated
/// command for the Kenwood family, as a CI-V frame for Icom, and as a
/// 5-byte command for both Yaesu protocols.
pub proof fn law_frequency_always_translates(target: Protocol, addr: u8, hz: u64)
    ensures
        encode_for(target, addr, ResponseModel::Frequency { hz }) matches Some(b) && b.len() > 0 && match target {
            Protocol::Kenwood | Protocol::Elecraft | Protocol::FlexRadio => b.last() == 59u8,
            Protocol::IcomCIV => b[0] == 0xFEu8 && b.last() == 0xFDu8,
            Protocol::Yaesu | Protocol::YaesuAscii => b.len() == 5,
        },
{
}

/// The amplifier reads back what the translator sends it for a frequency:
/// its own decoder takes the bytes as one whole frame holding that
/// frequency (for Yaesu, to the 10 Hz its format resolves). CI-V frames are
/// addressed to the amplifier from the controller.
pub proof fn law_amplifier_reads_translated_frequency(target: Protocol, civ_addr: u8, hz: u64)
    requires
        target != Protocol::YaesuAscii,
        target == Protocol::Yaesu ==> hz < 1_000_000_000,
        target == Protocol::IcomCIV ==> hz < 10_000_000_000 && civ_addr != crate::icom::TERMINATOR,
    ensures
        encode_for(target, civ_addr, ResponseModel::Frequency { hz }) matches Some(b) && match target {
            Protocol::Kenwood => next_frame(buffer_after_push(Seq::empty(), b), 59u8) == Some(
                (b, Seq::<u8>::empty()),
            ) && kenwood_decode(b.drop_last()) == KenwoodModel::FrequencyA(Some(hz)),
            Protocol::Elecraft => next_frame(buffer_after_push(Seq::empty(), b), 59u8) == Some(
                (b, Seq::<u8>::empty()),
            ) && elecraft_decode(b.drop_last()) == ElecraftModel::Kenwood(KenwoodModel::FrequencyA(Some(hz))),
            Protocol::FlexRadio => next_frame(buffer_after_push(Seq::empty(), b), 59u8) == Some(
                (b, Seq::<u8>::empty()),
            ) && flex_decode(b.drop_last()) == FlexModel::Kenwood(KenwoodModel::FrequencyA(Some(hz))),
            Protocol::IcomCIV => civ_next(buffer_after_push(Seq::empty(), b)) == (
                Some(
                    (
                        CivModel {
                            to_addr: civ_addr,
                            from_addr: CONTROLLER_ADDR,
                            command: CivTypeModel::FrequencyReport { hz },
                        },
                        b,
                    ),
                ),
                Seq::<u8>::empty(),
            ),
            Protocol::Yaesu => b.len() == 5 && yaesu_command_is(b, YaesuCommand::SetFrequency { hz: (hz / 10 * 10) as u64 }),
            Protocol::YaesuAscii => true,
        },
{
    let k = KenwoodModel::FrequencyA(Some(hz));
    match target {
        Protocol::Kenwood | Protocol::Elecraft => {
            crate::text::lemma_dec_padded_u64_len(hz, 11);
            crate::kenwood::law_kenwood_encode_then_parse(k);
        },
        Protocol::FlexRadio => {
            crate::flex::law_flex_frequency_encode_then_parse(k);
        },
        Protocol::IcomCIV => {
            let m = CivModel { to_addr: civ_addr, from_addr: CONTROLLER_ADDR, command: CivTypeModel::FrequencyReport { hz } };
            crate::icom::lemma_civ_encode_len(m);
            crate::icom::law_civ_encode_then_parse(m);
        },
        Protocol::Yaesu => {
            crate::yaesu::law_yaesu_bcd_roundtrip(hz, 0x01);
        },
        Protocol::YaesuAscii => {},
    }
}

} // verus!
