//! Protocol codec wrapper
//!
//! A unified wrapper around the codecs the multiplexer reads radios with:
//! push bytes in, take parsed responses out.

use vstd::prelude::*;

use crate::command::{RadioResponse, RequestModel, ResponseModel};
use crate::icom::CivCodec;
use crate::kenwood::KenwoodCodec;
use crate::protocol::{codec_step, response_of, AnyCodecModel, Protocol, RadioCodec, codec_after_push};
use crate::yaesu::YaesuCodec;

verus! {

/// A codec for the protocol a radio speaks
pub enum ProtocolCodecBox {
    /// Kenwood/Elecraft/FlexRadio ASCII protocol codec
    Kenwood(KenwoodCodec),
    /// Icom CI-V binary protocol codec
    Icom(CivCodec),
    /// Yaesu binary protocol codec
    Yaesu(YaesuCodec),
}

impl View for ProtocolCodecBox {
    type V = AnyCodecModel;

    closed spec fn view(&self) -> AnyCodecModel {
        match self {
            ProtocolCodecBox::Kenwood(c) => AnyCodecModel::Kenwood(c@),
            ProtocolCodecBox::Icom(c) => AnyCodecModel::Icom(c@),
            ProtocolCodecBox::Yaesu(c) => AnyCodecModel::Yaesu(c@.0, c@.1),
        }
    }
}

impl ProtocolCodecBox {
    /// Create a new codec for the given protocol: the Kenwood family share
    /// the Kenwood codec, and both Yaesu protocols the binary one.
    pub fn new(protocol: Protocol) -> (r: Self)
        ensures
            r@ == (match protocol {
                Protocol::Kenwood | Protocol::Elecraft | Protocol::FlexRadio => AnyCodecModel::Kenwood(
                    Seq::empty(),
                ),
                Protocol::IcomCIV => AnyCodecModel::Icom(Seq::empty()),
                Protocol::Yaesu | Protocol::YaesuAscii => AnyCodecModel::Yaesu(Seq::empty(), None),
            }),
    {
        match protocol {
            Protocol::Kenwood | Protocol::Elecraft | Protocol::FlexRadio => ProtocolCodecBox::Kenwood(
                KenwoodCodec::new(),
            ),
            Protocol::IcomCIV => ProtocolCodecBox::Icom(CivCodec::new()),
            Protocol::Yaesu | Protocol::YaesuAscii => ProtocolCodecBox::Yaesu(YaesuCodec::new()),
        }
    }

    /// Push raw bytes into the codec buffer
    pub fn push_bytes(&mut self, data: &[u8])
        ensures
            final(self)@ == codec_after_push(old(self)@, data@),
    {
        match self {
            ProtocolCodecBox::Kenwood(c) => RadioCodec::push_bytes(c, data),
            ProtocolCodecBox::Icom(c) => RadioCodec::push_bytes(c, data),
            ProtocolCodecBox::Yaesu(c) => RadioCodec::push_bytes(c, data),
        }
    }

    /// Extract the next parsed response, if a complete one is buffered
    pub fn next_command(&mut self) -> (r: Option<RadioResponse>)
        ensures
            exists|s: Option<(Result<RequestModel, ResponseModel>, Seq<u8>)>|
                #[trigger] codec_step(old(self)@, false, s, final(self)@) && crate::protocol::step_response(s)
                    == response_of(r),
    {
        let ghost c0 = self@;
        let r = match self {
            ProtocolCodecBox::Kenwood(c) => c.next_response_with_bytes(),
            ProtocolCodecBox::Icom(c) => c.next_response_with_bytes(),
            ProtocolCodecBox::Yaesu(c) => c.next_response_with_bytes(),
        };
        proof {
            let s: Option<(Result<RequestModel, ResponseModel>, Seq<u8>)> = match &r {
                Some((x, b)) => Some((Err(x@), b@)),
                None => None,
            };
            assert(codec_step(c0, false, s, self@));
        }
        match r {
            Some((x, _)) => Some(x),
            None => None,
        }
    }
}

} // verus!
