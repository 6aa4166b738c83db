//! Protocol identification and the codec/conversion traits every wire
//! protocol implements.

use vstd::prelude::*;

use crate::command::{RadioRequest, RadioResponse, RequestModel, ResponseModel};
use crate::icom::{civ_next, civ_to_request, civ_to_response, CivCodec};
use crate::kenwood::{kenwood_decode, kenwood_to_request, kenwood_to_response, KenwoodCodec};
use crate::stream::{buffer_after_push, next_frame};
use crate::yaesu::{yaesu_decoded_is, yaesu_take_len, yaesu_to_request, yaesu_to_response, YaesuCodec};
use crate::yaesu_ascii::{ya_decode, ya_to_request, ya_to_response, YaesuAsciiCodec};

verus! {

/// Identifies which CAT protocol variant a radio uses
#[derive(Debug, Clone, Copy, PartialEq, Eq, Hash, Structural)]
pub enum Protocol {
    /// Yaesu CAT protocol (5-byte binary commands for FT-817/857/897)
    Yaesu,
    /// Yaesu ASCII protocol (semicolon-terminated for FT-991/FTDX series)
    YaesuAscii,
    /// Icom CI-V protocol (framed variable-length messages)
    IcomCIV,
    /// Kenwood protocol (ASCII semicolon-terminated)
    Kenwood,
    /// Elecraft protocol (Kenwood-compatible with extensions)
    Elecraft,
    /// FlexRadio SmartSDR CAT protocol (Kenwood-compatible with ZZ extensions)
    FlexRadio,
}

pub open spec fn protocol_name(p: Protocol) -> Seq<char> {
    match p {
        Protocol::Yaesu => "Yaesu CAT"@,
        Protocol::YaesuAscii => "Yaesu ASCII"@,
        Protocol::IcomCIV => "Icom CI-V"@,
        Protocol::Kenwood => "Kenwood"@,
        Protocol::Elecraft => "Elecraft"@,
        Protocol::FlexRadio => "FlexRadio SmartSDR"@,
    }
}

impl Protocol {
    /// Returns a human-readable name for the protocol
    pub fn name(&self) -> (r: &'static str)
        ensures
            r@ == protocol_name(*self),
    {
        match self {
            Protocol::Yaesu => "Yaesu CAT",
            Protocol::YaesuAscii => "Yaesu ASCII",
            Protocol::IcomCIV => "Icom CI-V",
            Protocol::Kenwood => "Kenwood",
            Protocol::Elecraft => "Elecraft",
            Protocol::FlexRadio => "FlexRadio SmartSDR",
        }
    }
}

/// Trait for protocol codecs that can parse incoming data streams
pub trait ProtocolCodec {
    /// The command type produced by this codec
    type Command;

    /// Push raw bytes into the codec's buffer
    fn push_bytes(&mut self, data: &[u8]);

    /// Try to extract the next complete command from the buffer
    fn next_command(&mut self) -> Option<Self::Command>;

    /// Try to extract the next complete command along with its raw bytes
    fn next_command_with_bytes(&mut self) -> Option<(Self::Command, Vec<u8>)>;

    /// Clear the internal buffer
    fn clear(&mut self);
}

/// Parse protocol command as a response (radio -> mux)
pub trait ToRadioResponse {
    /// Convert this protocol-specific command to a RadioResponse
    fn to_radio_response(&self) -> RadioResponse;
}

/// Parse protocol command as a request (amplifier -> mux)
pub trait ToRadioRequest {
    /// Convert this protocol-specific command to a RadioRequest
    fn to_radio_request(&self) -> RadioRequest;
}

/// Encode request to protocol bytes (mux -> radio)
pub trait FromRadioRequest: Sized {
    /// Try to create a protocol-specific command from a RadioRequest
    fn from_radio_request(req: &RadioRequest) -> Option<Self>;
}

/// Encode response to protocol bytes (mux -> amplifier)
pub trait FromRadioResponse: Sized {
    /// Try to create a protocol-specific command from a RadioResponse
    fn from_radio_response(resp: &RadioResponse) -> Option<Self>;
}

/// Trait for commands that can be encoded to bytes
pub trait EncodeCommand {
    /// Encode this command to its wire format
    fn encode(&self) -> Vec<u8>;
}

/// Codecs that parse raw bytes straight into the protocol-neutral
/// [`RadioResponse`] (radio -> mux) or [`RadioRequest`] (amplifier -> mux).
pub trait RadioCodec {
    /// Push raw bytes into the codec's buffer
    fn push_bytes(&mut self, data: &[u8]);

    /// Try to extract the next complete response from the buffer
    fn next_response(&mut self) -> Option<RadioResponse>;

    /// Try to extract the next complete response along with its raw bytes
    fn next_response_with_bytes(&mut self) -> Option<(RadioResponse, Vec<u8>)>;

    /// Try to extract the next complete request from the buffer
    fn next_request(&mut self) -> Option<RadioRequest>;

    /// Try to extract the next complete request along with its raw bytes
    fn next_request_with_bytes(&mut self) -> Option<(RadioRequest, Vec<u8>)>;

    /// Clear the internal buffer
    fn clear(&mut self);
}

/// A codec for any protocol, chosen by `create_radio_codec`.
pub enum AnyRadioCodec {
    /// Kenwood, Elecraft and FlexRadio: semicolon-terminated text
    Kenwood(KenwoodCodec),
    /// Icom CI-V frames
    Icom(CivCodec),
    /// Yaesu 5-byte binary commands
    Yaesu(YaesuCodec),
    /// Yaesu semicolon-terminated text
    YaesuAscii(YaesuAsciiCodec),
}

/// The state of an `AnyRadioCodec`: which codec, and what it buffers.
pub enum AnyCodecModel {
    Kenwood(Seq<u8>),
    Icom(Seq<u8>),
    Yaesu(Seq<u8>, Option<usize>),
    YaesuAscii(Seq<u8>),
}

impl View for AnyRadioCodec {
    type V = AnyCodecModel;

    closed spec fn view(&self) -> AnyCodecModel {
        match self {
            AnyRadioCodec::Kenwood(c) => AnyCodecModel::Kenwood(c@),
            AnyRadioCodec::Icom(c) => AnyCodecModel::Icom(c@),
            AnyRadioCodec::Yaesu(c) => AnyCodecModel::Yaesu(c@.0, c@.1),
            AnyRadioCodec::YaesuAscii(c) => AnyCodecModel::YaesuAscii(c@),
        }
    }
}

/// The codec a protocol reads with, holding nothing yet: Kenwood's for the
/// Kenwood family, CI-V's for Icom, and each Yaesu protocol its own.
pub open spec fn fresh_codec(p: Protocol) -> AnyCodecModel {
    match p {
        Protocol::Kenwood | Protocol::Elecraft | Protocol::FlexRadio => AnyCodecModel::Kenwood(Seq::empty()),
        Protocol::IcomCIV => AnyCodecModel::Icom(Seq::empty()),
        Protocol::Yaesu => AnyCodecModel::Yaesu(Seq::empty(), None),
        Protocol::YaesuAscii => AnyCodecModel::YaesuAscii(Seq::empty()),
    }
}

/// The codec state after bytes arrive.
pub open spec fn codec_after_push(c: AnyCodecModel, data: Seq<u8>) -> AnyCodecModel {
    match c {
        AnyCodecModel::Kenwood(b) => AnyCodecModel::Kenwood(buffer_after_push(b, data)),
        AnyCodecModel::Icom(b) => AnyCodecModel::Icom(buffer_after_push(b, data)),
        AnyCodecModel::Yaesu(b, e) => AnyCodecModel::Yaesu(b + data, e),
        AnyCodecModel::YaesuAscii(b) => AnyCodecModel::YaesuAscii(buffer_after_push(b, data)),
    }
}

/// A step of a codec: from state `c` it hands out `r` (a response, or a
/// request when `as_request`, each with its frame's bytes) and moves to
/// `next`.
pub open spec fn codec_step(c: AnyCodecModel, as_request: bool, r: Option<(Result<RequestModel, ResponseModel>, Seq<u8>)>, next: AnyCodecModel) -> bool {
    match c {
        AnyCodecModel::Kenwood(b) => match next_frame(b, 59u8) {
            Some((f, rest)) => {
                let m = kenwood_decode(f.drop_last());
                &&& r == Some((
                    if as_request {
                        Ok(kenwood_to_request(m))
                    } else {
                        Err(kenwood_to_response(m))
                    },
                    f,
                ))
                &&& next == AnyCodecModel::Kenwood(rest)
            },
            None => r is None && next == c,
        },
        AnyCodecModel::YaesuAscii(b) => match next_frame(b, 59u8) {
            Some((f, rest)) => {
                let m = ya_decode(f.drop_last());
                &&& r == Some((
                    if as_request {
                        Ok(ya_to_request(m))
                    } else {
                        Err(ya_to_response(m))
                    },
                    f,
                ))
                &&& next == AnyCodecModel::YaesuAscii(rest)
            },
            None => r is None && next == c,
        },
        AnyCodecModel::Icom(b) => {
            &&& next == AnyCodecModel::Icom(civ_next(b).1)
            &&& match civ_next(b).0 {
                Some((m, f)) => r == Some((
                    if as_request {
                        Ok(civ_to_request(m.command))
                    } else {
                        Err(civ_to_response(m.command))
                    },
                    f,
                )),
                None => r is None,
            }
        },
        AnyCodecModel::Yaesu(b, e) => {
            let n = yaesu_take_len(e) as int;
            if b.len() < n {
                r is None && next == c
            } else {
                &&& next == AnyCodecModel::Yaesu(b.subrange(n, b.len() as int), None)
                &&& r matches Some((x, f)) && f == b.subrange(0, n) && exists|y: crate::yaesu::YaesuCommand|
                    yaesu_decoded_is(e, f, y) && x == (if as_request {
                        Ok(yaesu_to_request(y))
                    } else {
                        Err(yaesu_to_response(y))
                    })
            }
        },
    }
}

/// How much a codec still holds; every command it hands out lowers it.
pub open spec fn codec_measure(c: AnyCodecModel) -> nat {
    match c {
        AnyCodecModel::Kenwood(b) => b.len(),
        AnyCodecModel::Icom(b) => b.len(),
        AnyCodecModel::Yaesu(b, e) => b.len() + if e is Some {
            1nat
        } else {
            0nat
        },
        AnyCodecModel::YaesuAscii(b) => b.len(),
    }
}

pub open spec fn response_of(r: Option<RadioResponse>) -> Option<ResponseModel> {
    match r {
        Some(x) => Some(x@),
        None => None,
    }
}

pub open spec fn request_of(r: Option<RadioRequest>) -> Option<RequestModel> {
    match r {
        Some(x) => Some(x@),
        None => None,
    }
}

/// The response half of a codec step.
pub open spec fn step_response(r: Option<(Result<RequestModel, ResponseModel>, Seq<u8>)>) -> Option<ResponseModel> {
    match r {
        Some((Err(x), _)) => Some(x),
        _ => None,
    }
}

/// The request half of a codec step.
pub open spec fn step_request(r: Option<(Result<RequestModel, ResponseModel>, Seq<u8>)>) -> Option<RequestModel> {
    match r {
        Some((Ok(x), _)) => Some(x),
        _ => None,
    }
}

/// The frame bytes of a codec step.
pub open spec fn step_bytes(r: Option<(Result<RequestModel, ResponseModel>, Seq<u8>)>) -> Option<Seq<u8>> {
    match r {
        Some((_, f)) => Some(f),
        None => None,
    }
}

/// Create a codec for the given protocol
pub fn create_radio_codec(protocol: Protocol) -> (r: AnyRadioCodec)
    ensures
        r@ == fresh_codec(protocol),
{
    match protocol {
        Protocol::Kenwood | Protocol::Elecraft | Protocol::FlexRadio => AnyRadioCodec::Kenwood(KenwoodCodec::new()),
        Protocol::IcomCIV => AnyRadioCodec::Icom(CivCodec::new()),
        Protocol::Yaesu => AnyRadioCodec::Yaesu(YaesuCodec::new()),
        Protocol::YaesuAscii => AnyRadioCodec::YaesuAscii(YaesuAsciiCodec::new()),
    }
}

proof fn lemma_step_measure(c: AnyCodecModel, q: bool, r: Option<(Result<RequestModel, ResponseModel>, Seq<u8>)>, next: AnyCodecModel)
    requires
        codec_step(c, q, r, next),
    ensures
        r is Some ==> codec_measure(next) < codec_measure(c),
{
    match c {
        AnyCodecModel::Icom(b) => {
            crate::icom::lemma_civ_next_shrinks(b);
        },
        _ => {},
    }
}

impl AnyRadioCodec {
    pub(crate) fn next_step(&mut self, as_request: bool) -> (r: Option<(Result<RadioRequest, RadioResponse>, Vec<u8>)>)
        ensures
            exists|s: Option<(Result<RequestModel, ResponseModel>, Seq<u8>)>| {
                &&& #[trigger] codec_step(old(self)@, as_request, s, final(self)@)
                &&& step_bytes(s) == (match r {
                    Some((_, b)) => Some(b@),
                    None => None::<Seq<u8>>,
                })
                &&& step_response(s) == (match r {
                    Some((Err(x), _)) => Some(x@),
                    _ => None::<ResponseModel>,
                })
                &&& step_request(s) == (match r {
                    Some((Ok(x), _)) => Some(x@),
                    _ => None::<RequestModel>,
                })
                &&& (s is Some <==> r is Some)
            },
            r is Some ==> codec_measure(final(self)@) < codec_measure(old(self)@),
    {
        let ghost c0 = self@;
        let r = match self {
            AnyRadioCodec::Kenwood(c) => if as_request {
                match c.next_request_with_bytes() {
                    Some((x, b)) => Some((Ok(x), b)),
                    None => None,
                }
            } else {
                match c.next_response_with_bytes() {
                    Some((x, b)) => Some((Err(x), b)),
                    None => None,
                }
            },
            AnyRadioCodec::Icom(c) => if as_request {
                match c.next_request_with_bytes() {
                    Some((x, b)) => Some((Ok(x), b)),
                    None => None,
                }
            } else {
                match c.next_response_with_bytes() {
                    Some((x, b)) => Some((Err(x), b)),
                    None => None,
                }
            },
            AnyRadioCodec::Yaesu(c) => if as_request {
                match c.next_request_with_bytes() {
                    Some((x, b)) => Some((Ok(x), b)),
                    None => None,
                }
            } else {
                match c.next_response_with_bytes() {
                    Some((x, b)) => Some((Err(x), b)),
                    None => None,
                }
            },
            AnyRadioCodec::YaesuAscii(c) => if as_request {
                match c.next_request_with_bytes() {
                    Some((x, b)) => Some((Ok(x), b)),
                    None => None,
                }
            } else {
                match c.next_response_with_bytes() {
                    Some((x, b)) => Some((Err(x), b)),
                    None => None,
                }
            },
        };
        proof {
            let s: Option<(Result<RequestModel, ResponseModel>, Seq<u8>)> = match &r {
                Some((Ok(x), b)) => Some((Ok(x@), b@)),
                Some((Err(x), b)) => Some((Err(x@), b@)),
                None => None,
            };
            assert(codec_step(c0, as_request, s, self@));
            lemma_step_measure(c0, as_request, s, self@);
        }
        r
    }
}

impl RadioCodec for AnyRadioCodec {
    fn push_bytes(&mut self, data: &[u8])
        ensures
            final(self)@ == codec_after_push(old(self)@, data@),
    {
        match self {
            AnyRadioCodec::Kenwood(c) => RadioCodec::push_bytes(c, data),
            AnyRadioCodec::Icom(c) => RadioCodec::push_bytes(c, data),
            AnyRadioCodec::Yaesu(c) => RadioCodec::push_bytes(c, data),
            AnyRadioCodec::YaesuAscii(c) => RadioCodec::push_bytes(c, data),
        }
    }

    fn next_response(&mut self) -> (r: Option<RadioResponse>)
        ensures
            exists|s| #[trigger] codec_step(old(self)@, false, s, final(self)@) && step_response(s) == response_of(r),
            r is Some ==> codec_measure(final(self)@) < codec_measure(old(self)@),
    {
        match self.next_step(false) {
            Some((Err(x), _)) => Some(x),
            _ => None,
        }
    }

    fn next_response_with_bytes(&mut self) -> (r: Option<(RadioResponse, Vec<u8>)>)
        ensures
            exists|s| #[trigger] codec_step(old(self)@, false, s, final(self)@) && step_response(s) == (match r {
                Some((x, _)) => Some(x@),
                None => None::<ResponseModel>,
            }) && step_bytes(s) == (match r {
                Some((_, b)) => Some(b@),
                None => None::<Seq<u8>>,
            }),
    {
        match self.next_step(false) {
            Some((Err(x), b)) => Some((x, b)),
            _ => None,
        }
    }

    fn next_request(&mut self) -> (r: Option<RadioRequest>)
        ensures
            exists|s| #[trigger] codec_step(old(self)@, true, s, final(self)@) && step_request(s) == request_of(r),
    {
        match self.next_step(true) {
            Some((Ok(x), _)) => Some(x),
            _ => None,
        }
    }

    fn next_request_with_bytes(&mut self) -> (r: Option<(RadioRequest, Vec<u8>)>)
        ensures
            exists|s| #[trigger] codec_step(old(self)@, true, s, final(self)@) && step_request(s) == (match r {
                Some((x, _)) => Some(x@),
                None => None::<RequestModel>,
            }) && step_bytes(s) == (match r {
                Some((_, b)) => Some(b@),
                None => None::<Seq<u8>>,
            }),
    {
        match self.next_step(true) {
            Some((Ok(x), b)) => Some((x, b)),
            _ => None,
        }
    }

    fn clear(&mut self)
        ensures
            final(self)@ == (match old(self)@ {
                AnyCodecModel::Kenwood(_) => AnyCodecModel::Kenwood(Seq::empty()),
                AnyCodecModel::Icom(_) => AnyCodecModel::Icom(Seq::empty()),
                AnyCodecModel::Yaesu(_, _) => AnyCodecModel::Yaesu(Seq::empty(), None),
                AnyCodecModel::YaesuAscii(_) => AnyCodecModel::YaesuAscii(Seq::empty()),
            }),
    {
        match self {
            AnyRadioCodec::Kenwood(c) => RadioCodec::clear(c),
            AnyRadioCodec::Icom(c) => RadioCodec::clear(c),
            AnyRadioCodec::Yaesu(c) => RadioCodec::clear(c),
            AnyRadioCodec::YaesuAscii(c) => RadioCodec::clear(c),
        }
    }
}

} // verus!
