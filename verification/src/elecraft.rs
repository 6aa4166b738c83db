//! Elecraft Protocol
//!
//! Elecraft radios (K3, K3S, KX3, KX2) use a Kenwood-compatible ASCII
//! protocol with extensions: `K2;` / `K3;` identification, `DS;` display
//! string, `IC;` icon status, and extended parameter ranges.

use vstd::prelude::*;
use vstd::slice::{slice_subrange, slice_to_vec};
use vstd::string::StringSliceAdditionalSpecFns;
use vstd::utf8::{encode_utf8, valid_utf8};

use crate::command::{OperatingMode, RadioRequest, RadioResponse, RequestModel, ResponseModel, Vfo};
use crate::kenwood::{
    is_zero_param, kenwood_decode, kenwood_encode, kenwood_from_request, kenwood_from_response,
    kenwood_to_request, kenwood_to_response, KenwoodCodec, KenwoodCommand, KenwoodModel,
};
use crate::protocol::{
    EncodeCommand, FromRadioRequest, FromRadioResponse, ProtocolCodec, RadioCodec, ToRadioRequest,
    ToRadioResponse,
};
use crate::stream::{buffer_after_push, next_frame};
use crate::text::{
    dec, dec_padded, dec_signed, parse_i32, parse_i32_spec, parse_u16, parse_u16_spec, parse_u8,
    parse_u8_spec, push_all, push_dec, push_dec_padded, str_from_utf8, text_from_bytes, wire_text,
};

verus! {

/// Elecraft-specific commands (in addition to the Kenwood base)
#[derive(Debug, Clone, PartialEq, Eq)]
pub enum ElecraftCommand {
    /// Base Kenwood command
    Kenwood(KenwoodCommand),
    /// K2 identification (response to K2;)
    K2Id(Option<String>),
    /// K3 identification (response to K3;)
    K3Id(Option<String>),
    /// KX identification
    KxId(Option<String>),
    /// Display reading: DSxxxxxx;
    Display(Option<String>),
    /// Icon/indicator status: ICxx;
    Icon(Option<u8>),
    /// Band selection: BNxx;
    Band(Option<u8>),
    /// Power level: PCxxx;
    Power(Option<u16>),
    /// VFO A extended info: VAnn...;
    VfoAInfo(Option<VfoInfo>),
    /// VFO B extended info: VBnn...;
    VfoBInfo(Option<VfoInfo>),
    /// Keyer speed: KSxxx;
    KeyerSpeed(Option<u8>),
    /// RIT/XIT offset: RO+/-xxxxx;
    RitOffset(Option<i32>),
    /// TX meter reading: TMx;
    TxMeter(Option<u8>),
}

/// VFO information (extended)
#[derive(Debug, Clone, Copy, PartialEq, Eq)]
pub struct VfoInfo {
    pub frequency_hz: u64,
    pub mode: OperatingMode,
}

/// The mathematical value of an `ElecraftCommand`.
pub enum ElecraftModel {
    Kenwood(KenwoodModel),
    K2Id(Option<Seq<char>>),
    K3Id(Option<Seq<char>>),
    KxId(Option<Seq<char>>),
    Display(Option<Seq<char>>),
    Icon(Option<u8>),
    Band(Option<u8>),
    Power(Option<u16>),
    VfoAInfo(Option<VfoInfo>),
    VfoBInfo(Option<VfoInfo>),
    KeyerSpeed(Option<u8>),
    RitOffset(Option<i32>),
    TxMeter(Option<u8>),
}

pub open spec fn opt_text_view(t: Option<String>) -> Option<Seq<char>> {
    match t {
        Some(s) => Some(s@),
        None => None,
    }
}

impl View for ElecraftCommand {
    type V = ElecraftModel;

    open spec fn view(&self) -> ElecraftModel {
        match self {
            ElecraftCommand::Kenwood(k) => ElecraftModel::Kenwood(k@),
            ElecraftCommand::K2Id(t) => ElecraftModel::K2Id(opt_text_view(*t)),
            ElecraftCommand::K3Id(t) => ElecraftModel::K3Id(opt_text_view(*t)),
            ElecraftCommand::KxId(t) => ElecraftModel::KxId(opt_text_view(*t)),
            ElecraftCommand::Display(t) => ElecraftModel::Display(opt_text_view(*t)),
            ElecraftCommand::Icon(v) => ElecraftModel::Icon(*v),
            ElecraftCommand::Band(v) => ElecraftModel::Band(*v),
            ElecraftCommand::Power(v) => ElecraftModel::Power(*v),
            ElecraftCommand::VfoAInfo(v) => ElecraftModel::VfoAInfo(*v),
            ElecraftCommand::VfoBInfo(v) => ElecraftModel::VfoBInfo(*v),
            ElecraftCommand::KeyerSpeed(v) => ElecraftModel::KeyerSpeed(*v),
            ElecraftCommand::RitOffset(v) => ElecraftModel::RitOffset(*v),
            ElecraftCommand::TxMeter(v) => ElecraftModel::TxMeter(*v),
        }
    }
}

// ---------------------------------------------------------------------------
// Grammar (specification)
// ---------------------------------------------------------------------------

/// An optional text parameter: absent when empty.
pub open spec fn opt_text(p: Seq<u8>) -> Option<Seq<char>> {
    if p.len() == 0 {
        None
    } else {
        Some(wire_text(p))
    }
}

/// The Elecraft extension a frame's text (as UTF-8 bytes) denotes, if its
/// prefix is one of them; numeric parameters that do not parse are absent.
pub open spec fn elecraft_parse(b: Seq<u8>) -> Option<ElecraftModel> {
    if b.len() < 2 {
        None
    } else {
        let x = b[0];
        let y = b[1];
        let p = b.subrange(2, b.len() as int);
        if x == 75u8 && y == 50u8 {
            Some(ElecraftModel::K2Id(opt_text(p)))
        } else if x == 75u8 && y == 51u8 {
            Some(ElecraftModel::K3Id(opt_text(p)))
        } else if x == 75u8 && y == 88u8 {
            Some(ElecraftModel::KxId(opt_text(p)))
        } else if x == 68u8 && y == 83u8 {
            Some(ElecraftModel::Display(opt_text(p)))
        } else if x == 73u8 && y == 67u8 {
            Some(ElecraftModel::Icon(parse_u8_spec(p)))
        } else if x == 66u8 && y == 78u8 {
            Some(ElecraftModel::Band(parse_u8_spec(p)))
        } else if x == 80u8 && y == 67u8 {
            Some(ElecraftModel::Power(parse_u16_spec(p)))
        } else if x == 75u8 && y == 83u8 {
            Some(ElecraftModel::KeyerSpeed(parse_u8_spec(p)))
        } else if x == 84u8 && y == 77u8 {
            Some(ElecraftModel::TxMeter(parse_u8_spec(p)))
        } else if x == 82u8 && y == 79u8 {
            Some(ElecraftModel::RitOffset(parse_i32_spec(p)))
        } else {
            None
        }
    }
}

/// What the codec yields for a frame body: the Kenwood reading, unless
/// Kenwood does not know the command and it is an Elecraft extension.
pub open spec fn elecraft_decode(body: Seq<u8>) -> ElecraftModel {
    match kenwood_decode(body) {
        KenwoodModel::Unknown(s) => match elecraft_parse(encode_utf8(s)) {
            Some(e) => e,
            None => ElecraftModel::Kenwood(KenwoodModel::Unknown(s)),
        },
        k => ElecraftModel::Kenwood(k),
    }
}

pub open spec fn elecraft_mode_number(mode: OperatingMode) -> u8 {
    match mode {
        OperatingMode::Lsb => 1,
        OperatingMode::Usb => 2,
        OperatingMode::Cw => 3,
        OperatingMode::Fm => 4,
        OperatingMode::Am => 5,
        OperatingMode::Data | OperatingMode::DataL => 6,
        OperatingMode::CwR => 7,
        OperatingMode::DataU => 9,
        _ => 2,
    }
}

pub open spec fn two(a: u8, b: u8) -> Seq<u8> {
    seq![a, b]
}

/// An optional text parameter written after a two-letter prefix.
pub open spec fn with_text(a: u8, b: u8, t: Option<Seq<char>>) -> Seq<u8> {
    match t {
        Some(s) => two(a, b) + encode_utf8(s),
        None => two(a, b),
    }
}

/// A signed RIT offset: `+` and five digits, or the number sign-padded to
/// six characters.
pub open spec fn rit_text(v: i32) -> Seq<u8> {
    if v >= 0 {
        seq![43u8] + dec_padded(v as nat, 5)
    } else {
        seq![45u8] + dec_padded((-v) as nat, 5)
    }
}

/// The wire bytes of a command (with its terminator).
pub open spec fn elecraft_encode(m: ElecraftModel) -> Seq<u8> {
    match m {
        ElecraftModel::Kenwood(k) => kenwood_encode(k),
        ElecraftModel::K2Id(t) => with_text(75u8, 50u8, t).push(59u8),
        ElecraftModel::K3Id(t) => with_text(75u8, 51u8, t).push(59u8),
        ElecraftModel::KxId(t) => with_text(75u8, 88u8, t).push(59u8),
        ElecraftModel::Display(t) => with_text(68u8, 83u8, t).push(59u8),
        ElecraftModel::Icon(v) => (two(73u8, 67u8) + match v {
            Some(x) => dec_padded(x as nat, 2),
            None => Seq::empty(),
        }).push(59u8),
        ElecraftModel::Band(v) => (two(66u8, 78u8) + match v {
            Some(x) => dec_padded(x as nat, 2),
            None => Seq::empty(),
        }).push(59u8),
        ElecraftModel::Power(v) => (two(80u8, 67u8) + match v {
            Some(x) => dec_padded(x as nat, 3),
            None => Seq::empty(),
        }).push(59u8),
        ElecraftModel::KeyerSpeed(v) => (two(75u8, 83u8) + match v {
            Some(x) => dec_padded(x as nat, 3),
            None => Seq::empty(),
        }).push(59u8),
        ElecraftModel::TxMeter(v) => (two(84u8, 77u8) + match v {
            Some(x) => dec(x as nat),
            None => Seq::empty(),
        }).push(59u8),
        ElecraftModel::RitOffset(v) => (two(82u8, 79u8) + match v {
            Some(x) => rit_text(x),
            None => Seq::empty(),
        }).push(59u8),
        ElecraftModel::VfoAInfo(v) => (two(86u8, 65u8) + match v {
            Some(i) => dec_padded(i.frequency_hz as nat, 11) + dec(elecraft_mode_number(i.mode) as nat),
            None => Seq::empty(),
        }).push(59u8),
        ElecraftModel::VfoBInfo(v) => (two(86u8, 66u8) + match v {
            Some(i) => dec_padded(i.frequency_hz as nat, 11) + dec(elecraft_mode_number(i.mode) as nat),
            None => Seq::empty(),
        }).push(59u8),
    }
}

/// The text `XY:` followed by the id, as the frame would carry it.
pub open spec fn tagged_id(x: u8, y: u8, id: Seq<char>) -> Seq<char> {
    wire_text(seq![x, y, 58u8] + encode_utf8(id))
}

pub open spec fn elecraft_to_response(m: ElecraftModel) -> ResponseModel {
    match m {
        ElecraftModel::Kenwood(k) => kenwood_to_response(k),
        ElecraftModel::K2Id(Some(id)) => ResponseModel::Id { id: tagged_id(75u8, 50u8, id) },
        ElecraftModel::K3Id(Some(id)) => ResponseModel::Id { id: tagged_id(75u8, 51u8, id) },
        ElecraftModel::KxId(Some(id)) => ResponseModel::Id { id: tagged_id(75u8, 88u8, id) },
        ElecraftModel::Display(Some(s)) => ResponseModel::Unknown { data: encode_utf8(s) },
        ElecraftModel::VfoAInfo(Some(info)) => ResponseModel::Status {
            frequency_hz: Some(info.frequency_hz),
            mode: Some(info.mode),
            ptt: None,
            vfo: Some(Vfo::A),
        },
        ElecraftModel::VfoBInfo(Some(info)) => ResponseModel::Status {
            frequency_hz: Some(info.frequency_hz),
            mode: Some(info.mode),
            ptt: None,
            vfo: Some(Vfo::B),
        },
        _ => ResponseModel::Unknown { data: Seq::empty() },
    }
}

pub open spec fn elecraft_to_request(m: ElecraftModel) -> RequestModel {
    match m {
        ElecraftModel::Kenwood(k) => kenwood_to_request(k),
        ElecraftModel::K2Id(None) => RequestModel::GetId,
        ElecraftModel::K3Id(None) => RequestModel::GetId,
        ElecraftModel::KxId(None) => RequestModel::GetId,
        ElecraftModel::Display(None) => RequestModel::GetStatus,
        ElecraftModel::VfoAInfo(Some(info)) => RequestModel::SetFrequency { hz: info.frequency_hz },
        ElecraftModel::VfoBInfo(Some(info)) => RequestModel::SetFrequency { hz: info.frequency_hz },
        ElecraftModel::VfoAInfo(None) => RequestModel::GetStatus,
        ElecraftModel::VfoBInfo(None) => RequestModel::GetStatus,
        _ => RequestModel::Unknown { data: Seq::empty() },
    }
}

pub open spec fn elecraft_from_request(r: RequestModel) -> Option<ElecraftModel> {
    match r {
        RequestModel::GetId => Some(ElecraftModel::K3Id(None)),
        _ => match kenwood_from_request(r) {
            Some(k) => Some(ElecraftModel::Kenwood(k)),
            None => None,
        },
    }
}

/// The id's bytes start with `x y :`.
pub open spec fn id_tagged(id: Seq<char>, x: u8, y: u8) -> bool {
    let b = encode_utf8(id);
    b.len() >= 3 && b[0] == x && b[1] == y && b[2] == 58u8
}

/// The text after a three-byte tag.
pub open spec fn after_tag(id: Seq<char>) -> Seq<char> {
    wire_text(encode_utf8(id).subrange(3, encode_utf8(id).len() as int))
}

pub open spec fn elecraft_from_response(r: ResponseModel) -> Option<ElecraftModel> {
    match r {
        ResponseModel::Id { id } => if id_tagged(id, 75u8, 51u8) {
            Some(ElecraftModel::K3Id(Some(after_tag(id))))
        } else if id_tagged(id, 75u8, 50u8) {
            Some(ElecraftModel::K2Id(Some(after_tag(id))))
        } else if id_tagged(id, 75u8, 88u8) {
            Some(ElecraftModel::KxId(Some(after_tag(id))))
        } else {
            match kenwood_from_response(r) {
                Some(k) => Some(ElecraftModel::Kenwood(k)),
                None => None,
            }
        },
        _ => match kenwood_from_response(r) {
            Some(k) => Some(ElecraftModel::Kenwood(k)),
            None => None,
        },
    }
}

// ---------------------------------------------------------------------------
// Codec
// ---------------------------------------------------------------------------

/// Streaming Elecraft protocol codec
pub struct ElecraftCodec {
    inner: KenwoodCodec,
}

impl View for ElecraftCodec {
    type V = Seq<u8>;

    closed spec fn view(&self) -> Seq<u8> {
        self.inner@
    }
}

/// An optional text parameter.
fn text_param(p: &[u8]) -> (r: Option<String>)
    ensures
        opt_text_view(r) == opt_text(p@),
{
    if p.len() == 0 {
        None
    } else {
        Some(text_from_bytes(p))
    }
}

impl ElecraftCodec {
    /// Create a new Elecraft codec
    pub fn new() -> (r: Self)
        ensures
            r@ == Seq::<u8>::empty(),
    {
        ElecraftCodec { inner: KenwoodCodec::new() }
    }

    /// Parse Elecraft-specific commands from a frame's text bytes
    fn parse_elecraft(b: &[u8]) -> (r: Option<ElecraftCommand>)
        ensures
            r matches Some(c) ==> elecraft_parse(b@) == Some(c@),
            r is None <==> elecraft_parse(b@) is None,
    {
        if b.len() < 2 {
            return None;
        }
        let x = b[0];
        let y = b[1];
        let p = slice_subrange(b, 2, b.len());
        if x == 75u8 && y == 50u8 {
            Some(ElecraftCommand::K2Id(text_param(p)))
        } else if x == 75u8 && y == 51u8 {
            Some(ElecraftCommand::K3Id(text_param(p)))
        } else if x == 75u8 && y == 88u8 {
            Some(ElecraftCommand::KxId(text_param(p)))
        } else if x == 68u8 && y == 83u8 {
            Some(ElecraftCommand::Display(text_param(p)))
        } else if x == 73u8 && y == 67u8 {
            Some(ElecraftCommand::Icon(parse_u8(p)))
        } else if x == 66u8 && y == 78u8 {
            Some(ElecraftCommand::Band(parse_u8(p)))
        } else if x == 80u8 && y == 67u8 {
            Some(ElecraftCommand::Power(parse_u16(p)))
        } else if x == 75u8 && y == 83u8 {
            Some(ElecraftCommand::KeyerSpeed(parse_u8(p)))
        } else if x == 84u8 && y == 77u8 {
            Some(ElecraftCommand::TxMeter(parse_u8(p)))
        } else if x == 82u8 && y == 79u8 {
            Some(ElecraftCommand::RitOffset(parse_i32(p)))
        } else {
            None
        }
    }
}

impl Default for ElecraftCodec {
    fn default() -> (r: Self)
        ensures
            r@ == Seq::<u8>::empty(),
    {
        Self::new()
    }
}

impl ProtocolCodec for ElecraftCodec {
    type Command = ElecraftCommand;

    fn push_bytes(&mut self, data: &[u8])
        ensures
            final(self)@ == buffer_after_push(old(self)@, data@),
    {
        ProtocolCodec::push_bytes(&mut self.inner, data);
    }

    fn next_command(&mut self) -> (r: Option<ElecraftCommand>)
        ensures
            next_frame(old(self)@, 59u8) matches Some((f, rest)) ==> {
                &&& r matches Some(c) && c@ == elecraft_decode(f.drop_last())
                &&& final(self)@ == rest
            },
            next_frame(old(self)@, 59u8) is None ==> r is None && final(self)@ == old(self)@,
    {
        match self.next_command_with_bytes() {
            Some((c, _)) => Some(c),
            None => None,
        }
    }

    fn next_command_with_bytes(&mut self) -> (r: Option<(ElecraftCommand, Vec<u8>)>)
        ensures
            next_frame(old(self)@, 59u8) matches Some((f, rest)) ==> {
                &&& r matches Some((c, bytes)) && c@ == elecraft_decode(f.drop_last()) && bytes@ == f
                &&& final(self)@ == rest
            },
            next_frame(old(self)@, 59u8) is None ==> r is None && final(self)@ == old(self)@,
    {
        let (kenwood_cmd, raw_bytes) = match ProtocolCodec::next_command_with_bytes(&mut self.inner) {
            Some(x) => x,
            None => {
                return None;
            },
        };
        if let KenwoodCommand::Unknown(s) = &kenwood_cmd {
            if let Some(e) = Self::parse_elecraft(s.as_str().as_bytes()) {
                return Some((e, raw_bytes));
            }
        }
        Some((ElecraftCommand::Kenwood(kenwood_cmd), raw_bytes))
    }

    fn clear(&mut self)
        ensures
            final(self)@ == Seq::<u8>::empty(),
    {
        ProtocolCodec::clear(&mut self.inner);
    }
}

// ---------------------------------------------------------------------------
// Conversions
// ---------------------------------------------------------------------------

/// The id as reported: `x y :` and the id text.
fn tag_id(x: u8, y: u8, id: &String) -> (r: String)
    ensures
        r@ == tagged_id(x, y, id@),
{
    let mut b: Vec<u8> = Vec::new();
    b.push(x);
    b.push(y);
    b.push(58u8);
    push_all(&mut b, id.as_str().as_bytes());
    proof {
        assert(b@ =~= seq![x, y, 58u8] + encode_utf8(id@));
    }
    text_from_bytes(b.as_slice())
}

impl ToRadioResponse for ElecraftCommand {
    fn to_radio_response(&self) -> (r: RadioResponse)
        ensures
            r@ == elecraft_to_response(self@),
    {
        match self {
            ElecraftCommand::Kenwood(kw) => kw.to_radio_response(),
            ElecraftCommand::K2Id(Some(id)) => RadioResponse::Id { id: tag_id(75u8, 50u8, id) },
            ElecraftCommand::K3Id(Some(id)) => RadioResponse::Id { id: tag_id(75u8, 51u8, id) },
            ElecraftCommand::KxId(Some(id)) => RadioResponse::Id { id: tag_id(75u8, 88u8, id) },
            ElecraftCommand::Display(Some(s)) => RadioResponse::Unknown {
                data: slice_to_vec(s.as_str().as_bytes()),
            },
            ElecraftCommand::VfoAInfo(Some(info)) => RadioResponse::Status {
                frequency_hz: Some(info.frequency_hz),
                mode: Some(info.mode),
                ptt: None,
                vfo: Some(Vfo::A),
            },
            ElecraftCommand::VfoBInfo(Some(info)) => RadioResponse::Status {
                frequency_hz: Some(info.frequency_hz),
                mode: Some(info.mode),
                ptt: None,
                vfo: Some(Vfo::B),
            },
            _ => RadioResponse::Unknown { data: Vec::new() },
        }
    }
}

impl ToRadioRequest for ElecraftCommand {
    fn to_radio_request(&self) -> (r: RadioRequest)
        ensures
            r@ == elecraft_to_request(self@),
    {
        match self {
            ElecraftCommand::Kenwood(kw) => kw.to_radio_request(),
            ElecraftCommand::K2Id(None) => RadioRequest::GetId,
            ElecraftCommand::K3Id(None) => RadioRequest::GetId,
            ElecraftCommand::KxId(None) => RadioRequest::GetId,
            ElecraftCommand::Display(None) => RadioRequest::GetStatus,
            ElecraftCommand::VfoAInfo(Some(info)) => RadioRequest::SetFrequency {
                hz: info.frequency_hz,
            },
            ElecraftCommand::VfoBInfo(Some(info)) => RadioRequest::SetFrequency {
                hz: info.frequency_hz,
            },
            ElecraftCommand::VfoAInfo(None) => RadioRequest::GetStatus,
            ElecraftCommand::VfoBInfo(None) => RadioRequest::GetStatus,
            _ => RadioRequest::Unknown { data: Vec::new() },
        }
    }
}

impl FromRadioRequest for ElecraftCommand {
    fn from_radio_request(req: &RadioRequest) -> (r: Option<ElecraftCommand>)
        ensures
            r matches Some(c) ==> elecraft_from_request(req@) == Some(c@),
            r is None <==> elecraft_from_request(req@) is None,
    {
        match req {
            RadioRequest::GetId => Some(ElecraftCommand::K3Id(None)),
            _ => match KenwoodCommand::from_radio_request(req) {
                Some(k) => Some(ElecraftCommand::Kenwood(k)),
                None => None,
            },
        }
    }
}

/// The text after a three-byte tag `x y :`, when the id carries that tag.
fn strip_tag(id: &String, x: u8, y: u8) -> (r: Option<String>)
    ensures
        r is Some <==> id_tagged(id@, x, y),
        r matches Some(s) ==> s@ == after_tag(id@),
{
    let b = id.as_str().as_bytes();
    if b.len() >= 3 && b[0] == x && b[1] == y && b[2] == 58u8 {
        Some(text_from_bytes(slice_subrange(b, 3, b.len())))
    } else {
        None
    }
}

impl FromRadioResponse for ElecraftCommand {
    fn from_radio_response(resp: &RadioResponse) -> (r: Option<ElecraftCommand>)
        ensures
            r matches Some(c) ==> elecraft_from_response(resp@) == Some(c@),
            r is None <==> elecraft_from_response(resp@) is None,
    {
        if let RadioResponse::Id { id } = resp {
            if let Some(rest) = strip_tag(id, 75u8, 51u8) {
                return Some(ElecraftCommand::K3Id(Some(rest)));
            }
            if let Some(rest) = strip_tag(id, 75u8, 50u8) {
                return Some(ElecraftCommand::K2Id(Some(rest)));
            }
            if let Some(rest) = strip_tag(id, 75u8, 88u8) {
                return Some(ElecraftCommand::KxId(Some(rest)));
            }
        }
        match KenwoodCommand::from_radio_response(resp) {
            Some(k) => Some(ElecraftCommand::Kenwood(k)),
            None => None,
        }
    }
}

/// Get Elecraft mode code for encoding
fn elecraft_mode_code(mode: OperatingMode) -> (r: u8)
    ensures
        r == elecraft_mode_number(mode),
{
    match mode {
        OperatingMode::Lsb => 1,
        OperatingMode::Usb => 2,
        OperatingMode::Cw => 3,
        OperatingMode::Fm => 4,
        OperatingMode::Am => 5,
        OperatingMode::Data | OperatingMode::DataL => 6,
        OperatingMode::CwR => 7,
        OperatingMode::DataU => 9,
        _ => 2,
    }
}

/// Appends a two-letter prefix and an optional text parameter.
fn push_text_command(out: &mut Vec<u8>, x: u8, y: u8, t: &Option<String>)
    ensures
        final(out)@ == old(out)@ + with_text(x, y, opt_text_view(*t)),
{
    out.push(x);
    out.push(y);
    if let Some(s) = t {
        push_all(out, s.as_str().as_bytes());
    }
    proof {
        assert(out@ =~= old(out)@ + with_text(x, y, opt_text_view(*t)));
    }
}

impl EncodeCommand for ElecraftCommand {
    fn encode(&self) -> (r: Vec<u8>)
        ensures
            r@ == elecraft_encode(self@),
    {
        let mut out: Vec<u8> = Vec::new();
        match self {
            ElecraftCommand::Kenwood(kw) => {
                return kw.encode();
            },
            ElecraftCommand::K2Id(t) => push_text_command(&mut out, 75u8, 50u8, t),
            ElecraftCommand::K3Id(t) => push_text_command(&mut out, 75u8, 51u8, t),
            ElecraftCommand::KxId(t) => push_text_command(&mut out, 75u8, 88u8, t),
            ElecraftCommand::Display(t) => push_text_command(&mut out, 68u8, 83u8, t),
            ElecraftCommand::Icon(v) => {
                out.push(73u8);
                out.push(67u8);
                if let Some(x) = v {
                    push_dec_padded(&mut out, *x as u64, 2);
                }
            },
            ElecraftCommand::Band(v) => {
                out.push(66u8);
                out.push(78u8);
                if let Some(x) = v {
                    push_dec_padded(&mut out, *x as u64, 2);
                }
            },
            ElecraftCommand::Power(v) => {
                out.push(80u8);
                out.push(67u8);
                if let Some(x) = v {
                    push_dec_padded(&mut out, *x as u64, 3);
                }
            },
            ElecraftCommand::KeyerSpeed(v) => {
                out.push(75u8);
                out.push(83u8);
                if let Some(x) = v {
                    push_dec_padded(&mut out, *x as u64, 3);
                }
            },
            ElecraftCommand::TxMeter(v) => {
                out.push(84u8);
                out.push(77u8);
                if let Some(x) = v {
                    push_dec(&mut out, *x as u64);
                }
            },
            ElecraftCommand::RitOffset(v) => {
                out.push(82u8);
                out.push(79u8);
                if let Some(x) = v {
                    if *x >= 0 {
                        out.push(43u8);
                        push_dec_padded(&mut out, *x as u64, 5);
                    } else {
                        out.push(45u8);
                        let mag: u64 = (-(*x as i64)) as u64;
                        push_dec_padded(&mut out, mag, 5);
                    }
                }
            },
            ElecraftCommand::VfoAInfo(v) => {
                out.push(86u8);
                out.push(65u8);
                if let Some(i) = v {
                    push_dec_padded(&mut out, i.frequency_hz, 11);
                    push_dec(&mut out, elecraft_mode_code(i.mode) as u64);
                }
            },
            ElecraftCommand::VfoBInfo(v) => {
                out.push(86u8);
                out.push(66u8);
                if let Some(i) = v {
                    push_dec_padded(&mut out, i.frequency_hz, 11);
                    push_dec(&mut out, elecraft_mode_code(i.mode) as u64);
                }
            },
        }
        let ghost body = out@;
        out.push(59u8);
        proof {
            assert(out@ =~= elecraft_encode(self@));
        }
        out
    }
}

impl RadioCodec for ElecraftCodec {
    fn push_bytes(&mut self, data: &[u8])
        ensures
            final(self)@ == buffer_after_push(old(self)@, data@),
    {
        ProtocolCodec::push_bytes(&mut self.inner, data);
    }

    fn next_response(&mut self) -> (r: Option<RadioResponse>)
        ensures
            next_frame(old(self)@, 59u8) matches Some((f, rest)) ==> {
                &&& r matches Some(resp) && resp@ == elecraft_to_response(elecraft_decode(f.drop_last()))
                &&& final(self)@ == rest
            },
            next_frame(old(self)@, 59u8) is None ==> r is None && final(self)@ == old(self)@,
    {
        match ProtocolCodec::next_command(self) {
            Some(c) => Some(c.to_radio_response()),
            None => None,
        }
    }

    fn next_response_with_bytes(&mut self) -> (r: Option<(RadioResponse, Vec<u8>)>)
        ensures
            next_frame(old(self)@, 59u8) matches Some((f, rest)) ==> {
                &&& r matches Some((resp, bytes)) && resp@ == elecraft_to_response(
                    elecraft_decode(f.drop_last()),
                ) && bytes@ == f
                &&& final(self)@ == rest
            },
            next_frame(old(self)@, 59u8) is None ==> r is None && final(self)@ == old(self)@,
    {
        match ProtocolCodec::next_command_with_bytes(self) {
            Some((c, bytes)) => Some((c.to_radio_response(), bytes)),
            None => None,
        }
    }

    fn next_request(&mut self) -> (r: Option<RadioRequest>)
        ensures
            next_frame(old(self)@, 59u8) matches Some((f, rest)) ==> {
                &&& r matches Some(req) && req@ == elecraft_to_request(elecraft_decode(f.drop_last()))
                &&& final(self)@ == rest
            },
            next_frame(old(self)@, 59u8) is None ==> r is None && final(self)@ == old(self)@,
    {
        match ProtocolCodec::next_command(self) {
            Some(c) => Some(c.to_radio_request()),
            None => None,
        }
    }

    fn next_request_with_bytes(&mut self) -> (r: Option<(RadioRequest, Vec<u8>)>)
        ensures
            next_frame(old(self)@, 59u8) matches Some((f, rest)) ==> {
                &&& r matches Some((req, bytes)) && req@ == elecraft_to_request(
                    elecraft_decode(f.drop_last()),
                ) && bytes@ == f
                &&& final(self)@ == rest
            },
            next_frame(old(self)@, 59u8) is None ==> r is None && final(self)@ == old(self)@,
    {
        match ProtocolCodec::next_command_with_bytes(self) {
            Some((c, bytes)) => Some((c.to_radio_request(), bytes)),
            None => None,
        }
    }

    fn clear(&mut self)
        ensures
            final(self)@ == Seq::<u8>::empty(),
    {
        ProtocolCodec::clear(&mut self.inner);
    }
}

/// Generate probe commands to detect Elecraft radios, to try in sequence:
/// `K3;` (K3/K3S), `K2;`, then the standard Kenwood `ID;`.
pub fn probe_commands() -> (r: Vec<Vec<u8>>)
    ensures
        r@.len() == 3,
        r@[0]@ == seq![75u8, 51u8, 59u8],
        r@[1]@ == seq![75u8, 50u8, 59u8],
        r@[2]@ == seq![73u8, 68u8, 59u8],
{
    let mut r: Vec<Vec<u8>> = Vec::new();
    r.push(vec![75u8, 51u8, 59u8]);
    r.push(vec![75u8, 50u8, 59u8]);
    r.push(vec![73u8, 68u8, 59u8]);
    proof {
        assert(r@[0]@ =~= seq![75u8, 51u8, 59u8]);
        assert(r@[1]@ =~= seq![75u8, 50u8, 59u8]);
        assert(r@[2]@ =~= seq![73u8, 68u8, 59u8]);
    }
    r
}

/// `b` starts with the bytes of `p`.
pub open spec fn starts_with(b: Seq<u8>, p: Seq<u8>) -> bool {
    b.len() >= p.len() && b.subrange(0, p.len() as int) == p
}

/// Which Elecraft model an answer names: valid UTF-8 starting with `K3`,
/// `K2`, `KX3` or `KX2` (checked in that order).
pub open spec fn elecraft_model_of(data: Seq<u8>) -> Option<Seq<char>> {
    if !valid_utf8(data) {
        None
    } else if starts_with(data, seq![75u8, 51u8]) {
        Some("K3"@)
    } else if starts_with(data, seq![75u8, 50u8]) {
        Some("K2"@)
    } else if starts_with(data, seq![75u8, 88u8, 51u8]) {
        Some("KX3"@)
    } else if starts_with(data, seq![75u8, 88u8, 50u8]) {
        Some("KX2"@)
    } else {
        None
    }
}

fn has_prefix(b: &[u8], p: &[u8]) -> (r: bool)
    ensures
        r == starts_with(b@, p@),
{
    if b.len() < p.len() {
        return false;
    }
    let mut i: usize = 0;
    while i < p.len()
        invariant
            i <= p@.len() <= b@.len(),
            forall|j: int| 0 <= j < i ==> b@[j] == p@[j],
        decreases p.len() - i,
    {
        if b[i] != p[i] {
            proof {
                assert(b@.subrange(0, p@.len() as int)[i as int] != p@[i as int]);
            }
            return false;
        }
        i = i + 1;
    }
    proof {
        assert(b@.subrange(0, p@.len() as int) =~= p@);
    }
    true
}

/// Check if a response indicates an Elecraft radio
pub fn is_elecraft_response(data: &[u8]) -> (r: Option<&'static str>)
    ensures
        r is Some <==> elecraft_model_of(data@) is Some,
        r matches Some(s) ==> elecraft_model_of(data@) == Some(s@),
{
    let s = match str_from_utf8(data) {
        Some(s) => s,
        None => {
            return None;
        },
    };
    if has_prefix(data, &[75u8, 51u8]) {
        Some("K3")
    } else if has_prefix(data, &[75u8, 50u8]) {
        Some("K2")
    } else if has_prefix(data, &[75u8, 88u8, 51u8]) {
        Some("KX3")
    } else if has_prefix(data, &[75u8, 88u8, 50u8]) {
        Some("KX2")
    } else {
        None
    }
}

/// Round trip through the stream for the commands Elecraft shares with
/// Kenwood: a wire-form Kenwood command encoded and pushed into an empty
/// codec comes back out, as one frame, as the same command, and leaves the
/// codec empty.
pub proof fn law_elecraft_kenwood_encode_then_parse(k: KenwoodModel)
    requires
        crate::kenwood::kenwood_wire_form(k),
        elecraft_encode(ElecraftModel::Kenwood(k)).len() <= 4 * crate::stream::MAX_BUFFERED_FRAME,
    ensures
        next_frame(buffer_after_push(Seq::empty(), elecraft_encode(ElecraftModel::Kenwood(k))), 59u8) == Some(
            (elecraft_encode(ElecraftModel::Kenwood(k)), Seq::<u8>::empty()),
        ),
        elecraft_decode(elecraft_encode(ElecraftModel::Kenwood(k)).drop_last()) == ElecraftModel::Kenwood(k),
        next_frame(Seq::<u8>::empty(), 59u8) is None,
{
    crate::kenwood::law_kenwood_encode_then_parse(k);
}

/// A tag `x y :` in front of an id is valid text, and the tagged text
/// encodes back to the tag followed by the id's bytes.
proof fn lemma_tagged_id_bytes(x: u8, y: u8, id: Seq<char>)
    requires
        x < 128,
        y < 128,
    ensures
        encode_utf8(tagged_id(x, y, id)) == seq![x, y, 58u8] + encode_utf8(id),
{
    let tag = seq![x, y, 58u8];
    let chars = seq![x as char, y as char, 58u8 as char];
    assert(vstd::utf8::is_ascii_chars(chars)) by {
        assert forall|i: int| 0 <= i < chars.len() implies (chars[i] as nat) < 128 by {}
    }
    vstd::utf8::is_ascii_chars_encode_utf8(chars);
    assert(encode_utf8(chars) =~= tag);
    vstd::utf8::encode_utf8_valid_utf8(chars);
    vstd::utf8::encode_utf8_valid_utf8(id);
    vstd::utf8::valid_utf8_concat(tag, encode_utf8(id));
    vstd::utf8::decode_utf8_encode_utf8(tag + encode_utf8(id));
}

/// An id tagged `K y :` carries exactly that tag, and the text after it is
/// the id.
proof fn lemma_tag_facts(y: u8, id: Seq<char>)
    requires
        y < 128,
    ensures
        id_tagged(tagged_id(75u8, y, id), 75u8, y),
        after_tag(tagged_id(75u8, y, id)) == id,
        forall|z: u8| z != y ==> !id_tagged(tagged_id(75u8, y, id), 75u8, z),
{
    vstd::utf8::encode_utf8_valid_utf8(id);
    vstd::utf8::encode_utf8_decode_utf8(id);
    let e = encode_utf8(id);
    lemma_tagged_id_bytes(75u8, y, id);
    let b = seq![75u8, y, 58u8] + e;
    assert(b.subrange(3, b.len() as int) =~= e);
}

/// The Elecraft identifications survive the trip through the common
/// response: `K2Id`, `K3Id` and `KxId` reported as `K2:`, `K3:` or `KX:`
/// followed by the id come back as the same identification.
pub proof fn law_elecraft_id_roundtrip(id: Seq<char>)
    ensures
        elecraft_from_response(elecraft_to_response(ElecraftModel::K2Id(Some(id)))) == Some(ElecraftModel::K2Id(Some(id))),
        elecraft_from_response(elecraft_to_response(ElecraftModel::K3Id(Some(id)))) == Some(ElecraftModel::K3Id(Some(id))),
        elecraft_from_response(elecraft_to_response(ElecraftModel::KxId(Some(id)))) == Some(ElecraftModel::KxId(Some(id))),
{
    lemma_tag_facts(50u8, id);
    lemma_tag_facts(51u8, id);
    lemma_tag_facts(88u8, id);
}

} // verus!
