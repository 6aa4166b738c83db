//! The protocol side of a radio connection task
//!
//! A connection task writes queries to its radio and reads what comes back;
//! the bytes of each query, and the model a radio's ID reply names, are
//! decided here. The task owns the serial stream and the channels.

use vstd::prelude::*;
use vstd::string::StringSliceAdditionalSpecFns;
use vstd::utf8::encode_utf8;

use crate::command::{RadioRequest, RequestModel};
use crate::elecraft::{elecraft_encode, elecraft_from_request, elecraft_model_of, is_elecraft_response, ElecraftCommand};
use crate::flex::{flex_encode, flex_from_request, is_flex_id_response, FlexCommand};
use crate::icom::{civ_encode, civ_from_request, CivCommand, CivModel, CONTROLLER_ADDR};
use crate::kenwood::{is_kenwood_id_response, kenwood_encode, kenwood_from_request, KenwoodCommand};
use crate::models::{elecraft_index, elecraft_table, flex_index, flex_table, kenwood_index, kenwood_table, RadioDatabase};
use crate::protocol::{EncodeCommand, FromRadioRequest, Protocol};
use crate::text::{digits_text, wire_text};
use crate::yaesu::{yaesu_encode, yaesu_from_request, YaesuCommand};
use crate::yaesu_ascii::{is_yaesu_ascii_id_response, ya_encode, ya_from_request, YaesuAsciiCommand};

verus! {

/// Commands that can be sent to a radio connection task
#[derive(Debug)]
pub enum RadioTaskCommand {
    /// Shutdown the task
    Shutdown,
    /// Write bytes to the radio (the multiplexer's auto-information poll)
    SendData { data: Vec<u8> },
}

/// What a connection needs to speak to its radio: the protocol, and for
/// Icom the radio's CI-V address (0x94 until one is set).
#[derive(Debug, Clone, Copy)]
pub struct RadioLink {
    protocol: Protocol,
    civ_address: Option<u8>,
}

/// The mathematical value of a `RadioLink`.
pub struct LinkModel {
    pub protocol: Protocol,
    pub civ_address: Option<u8>,
}

impl View for RadioLink {
    type V = LinkModel;

    closed spec fn view(&self) -> LinkModel {
        LinkModel { protocol: self.protocol, civ_address: self.civ_address }
    }
}

/// The CI-V address queries are framed with.
pub open spec fn link_civ_address(l: LinkModel) -> u8 {
    match l.civ_address {
        Some(a) => a,
        None => 0x94u8,
    }
}

/// The bytes a request is written to a radio as, when its protocol can
/// carry it. CI-V frames are addressed to the controller address from the
/// radio's address.
pub open spec fn link_request_bytes(l: LinkModel, r: RequestModel) -> Option<Seq<u8>> {
    match l.protocol {
        Protocol::Kenwood => match kenwood_from_request(r) {
            Some(k) => Some(kenwood_encode(k)),
            None => None,
        },
        Protocol::Elecraft => match elecraft_from_request(r) {
            Some(e) => Some(elecraft_encode(e)),
            None => None,
        },
        Protocol::FlexRadio => match flex_from_request(r) {
            Some(f) => Some(flex_encode(f)),
            None => None,
        },
        Protocol::IcomCIV => match civ_from_request(r) {
            Some(m) => Some(
                civ_encode(CivModel { to_addr: CONTROLLER_ADDR, from_addr: link_civ_address(l), command: m.command }),
            ),
            None => None,
        },
        Protocol::Yaesu => match yaesu_from_request(r) {
            Some(y) => Some(yaesu_encode(y)),
            None => None,
        },
        Protocol::YaesuAscii => match ya_from_request(r) {
            Some(y) => Some(ya_encode(y)),
            None => None,
        },
    }
}

/// The identification query: none for the binary protocols (Icom, Yaesu).
pub open spec fn link_id_query(l: LinkModel) -> Option<Seq<u8>> {
    if l.protocol == Protocol::IcomCIV || l.protocol == Protocol::Yaesu {
        None
    } else {
        link_request_bytes(l, RequestModel::GetId)
    }
}

/// The digits of an `ID…;` reply.
pub open spec fn id_digits(data: Seq<u8>) -> Seq<u8> {
    data.subrange(2, data.len() - 1)
}

/// The name a reply identifies the radio by, once the reply holds a `;`:
/// the model's name where the database knows the ID, else the vendor and
/// the ID.
pub open spec fn identified_name(p: Protocol, data: Seq<u8>) -> Option<Seq<char>> {
    if !data.contains(59u8) {
        None
    } else {
        match p {
            Protocol::Kenwood => if is_kenwood_id_response(data) {
                Some(
                    match kenwood_index(id_digits(data)) {
                        Some(i) => kenwood_table()[i].model,
                        None => "Kenwood (ID"@ + wire_text(id_digits(data)) + ")"@,
                    },
                )
            } else {
                None
            },
            Protocol::Elecraft => match elecraft_model_of(data) {
                Some(n) => Some(
                    match elecraft_index(encode_utf8(n)) {
                        Some(i) => elecraft_table()[i].model,
                        None => n,
                    },
                ),
                None => None,
            },
            Protocol::FlexRadio => if is_flex_id_response(data) {
                Some(
                    match flex_index(id_digits(data)) {
                        Some(i) => flex_table()[i].model,
                        None => "FlexRadio (ID"@ + wire_text(id_digits(data)) + ")"@,
                    },
                )
            } else {
                None
            },
            Protocol::YaesuAscii => if is_yaesu_ascii_id_response(data) {
                Some("Yaesu (ID"@ + wire_text(id_digits(data)) + ")"@)
            } else {
                None
            },
            _ => None,
        }
    }
}

/// Whether `b` occurs in `s`.
fn has_byte(s: &[u8], b: u8) -> (r: bool)
    ensures
        r == s@.contains(b),
{
    let mut i: usize = 0;
    while i < s.len()
        invariant
            i <= s.len(),
            forall|j: int| 0 <= j < i ==> s@[j] != b,
        decreases s.len() - i,
    {
        if s[i] == b {
            return true;
        }
        i = i + 1;
    }
    false
}

/// The bytes that turn on a radio's auto-information reports: `AI1;` for
/// Kenwood and Elecraft, the protocol's own auto-information request
/// otherwise.
pub open spec fn auto_info_bytes(l: LinkModel) -> Option<Seq<u8>> {
    if l.protocol == Protocol::Kenwood || l.protocol == Protocol::Elecraft {
        Some(seq![65u8, 73u8, 49u8, 59u8])
    } else {
        link_request_bytes(l, RequestModel::SetAutoInfo { enabled: true })
    }
}

impl RadioLink {
    /// A link speaking `protocol`, with no CI-V address set.
    pub fn new(protocol: Protocol) -> (r: Self)
        ensures
            r@ == (LinkModel { protocol, civ_address: None }),
    {
        RadioLink { protocol, civ_address: None }
    }

    /// The protocol spoken.
    pub fn protocol(&self) -> (r: Protocol)
        ensures
            r == self@.protocol,
    {
        self.protocol
    }

    /// Set the CI-V address for Icom radios
    pub fn set_civ_address(&mut self, addr: u8)
        ensures
            final(self)@ == (LinkModel { protocol: old(self)@.protocol, civ_address: Some(addr) }),
    {
        self.civ_address = Some(addr);
    }

    /// Encode a request in the radio's protocol, when it can carry it.
    pub fn encode_request(&self, req: &RadioRequest) -> (r: Option<Vec<u8>>)
        ensures
            match link_request_bytes(self@, req@) {
                Some(b) => r matches Some(v) && v@ == b,
                None => r is None,
            },
    {
        match self.protocol {
            Protocol::Kenwood => match KenwoodCommand::from_radio_request(req) {
                Some(c) => Some(c.encode()),
                None => None,
            },
            Protocol::Elecraft => match ElecraftCommand::from_radio_request(req) {
                Some(c) => Some(c.encode()),
                None => None,
            },
            Protocol::FlexRadio => match FlexCommand::from_radio_request(req) {
                Some(c) => Some(c.encode()),
                None => None,
            },
            Protocol::IcomCIV => match CivCommand::from_radio_request(req) {
                Some(c) => {
                    let addr = match self.civ_address {
                        Some(a) => a,
                        None => 0x94u8,
                    };
                    Some(CivCommand::new(CONTROLLER_ADDR, addr, c.command).encode())
                },
                None => None,
            },
            Protocol::Yaesu => match YaesuCommand::from_radio_request(req) {
                Some(c) => Some(c.encode()),
                None => None,
            },
            Protocol::YaesuAscii => match YaesuAsciiCommand::from_radio_request(req) {
                Some(c) => Some(c.encode()),
                None => None,
            },
        }
    }

    /// The identification query, for the protocols that have one.
    pub fn id_query(&self) -> (r: Option<Vec<u8>>)
        ensures
            match link_id_query(self@) {
                Some(b) => r matches Some(v) && v@ == b,
                None => r is None,
            },
    {
        match self.protocol {
            Protocol::IcomCIV | Protocol::Yaesu => None,
            _ => self.encode_request(&RadioRequest::GetId),
        }
    }

    /// The queries for the radio's current state: frequency, then mode,
    /// each where the protocol has one.
    pub fn initial_state_queries(&self) -> (r: Vec<Vec<u8>>)
        ensures
            r@.len() <= 2,
            ({
                let f = link_request_bytes(self@, RequestModel::GetFrequency);
                let m = link_request_bytes(self@, RequestModel::GetMode);
                let fs: Seq<Seq<u8>> = match f {
                    Some(b) => seq![b],
                    None => Seq::empty(),
                };
                let ms: Seq<Seq<u8>> = match m {
                    Some(b) => seq![b],
                    None => Seq::empty(),
                };
                r@.map_values(|v: Vec<u8>| v@) == fs + ms
            }),
    {
        let mut out: Vec<Vec<u8>> = Vec::new();
        if let Some(q) = self.encode_request(&RadioRequest::GetFrequency) {
            out.push(q);
        }
        if let Some(q) = self.encode_request(&RadioRequest::GetMode) {
            out.push(q);
        }
        proof {
            let f = link_request_bytes(self@, RequestModel::GetFrequency);
            let m = link_request_bytes(self@, RequestModel::GetMode);
            let fs: Seq<Seq<u8>> = match f {
                Some(b) => seq![b],
                None => Seq::empty(),
            };
            let ms: Seq<Seq<u8>> = match m {
                Some(b) => seq![b],
                None => Seq::empty(),
            };
            assert(out@.map_values(|v: Vec<u8>| v@) =~= fs + ms);
        }
        out
    }

    /// The request that turns on the radio's auto-information reports:
    /// `AI1;` for Kenwood and Elecraft radios, the protocol's own request
    /// otherwise (`AI1;` for FlexRadio and Yaesu ASCII, transceive for CI-V,
    /// none for Yaesu binary).
    pub fn auto_info_request(&self) -> (r: Option<Vec<u8>>)
        ensures
            match auto_info_bytes(self@) {
                Some(b) => r matches Some(v) && v@ == b,
                None => r is None,
            },
    {
        match self.protocol {
            Protocol::Kenwood | Protocol::Elecraft => Some(vec![65u8, 73u8, 49u8, 59u8]),
            _ => self.encode_request(&RadioRequest::SetAutoInfo { enabled: true }),
        }
    }

    /// The radio named by what it has sent so far in reply to the
    /// identification query; `None` while no reply is recognised.
    pub fn identify(&self, data: &[u8]) -> (r: Option<String>)
        ensures
            match identified_name(self@.protocol, data@) {
                Some(n) => r matches Some(s) && s@ == n,
                None => r is None,
            },
    {
        if !has_byte(data, 59u8) {
            return None;
        }
        match self.protocol {
            Protocol::Kenwood => {
                if crate::kenwood::is_valid_id_response(data) {
                    let id = digits_text(data, 2, data.len() - 1);
                    return match RadioDatabase::by_kenwood_id(id) {
                        Some(model) => Some(model.model),
                        None => Some("Kenwood (ID".to_owned().concat(id).concat(")")),
                    };
                }
            },
            Protocol::Elecraft => {
                if let Some(name) = is_elecraft_response(data) {
                    return match RadioDatabase::by_elecraft_id(name) {
                        Some(model) => Some(model.model),
                        None => Some(name.to_owned()),
                    };
                }
            },
            Protocol::FlexRadio => {
                if crate::flex::is_valid_id_response(data) {
                    let id = digits_text(data, 2, data.len() - 1);
                    return match RadioDatabase::by_flex_id(id) {
                        Some(model) => Some(model.model),
                        None => Some("FlexRadio (ID".to_owned().concat(id).concat(")")),
                    };
                }
            },
            Protocol::YaesuAscii => {
                if crate::yaesu_ascii::is_valid_id_response(data) {
                    let id = digits_text(data, 2, data.len() - 1);
                    return Some("Yaesu (ID".to_owned().concat(id).concat(")"));
                }
            },
            _ => {},
        }
        None
    }
}

} // verus!
