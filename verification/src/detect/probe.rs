//! Protocol probing for radio detection: what a radio's answer to each
//! probe tells about it.

use vstd::prelude::*;
use vstd::utf8::encode_utf8;

use crate::elecraft::{elecraft_model_of, is_elecraft_response};
use crate::flex::is_flex_id_response;
use crate::icom::{civ_frame_shape, extract_source_address, is_valid_frame};
use crate::kenwood::is_kenwood_id_response;
use crate::models::{
    elecraft_index, elecraft_table, flex_index, flex_table, icom_index, icom_table, kenwood_index, kenwood_table,
    model_of, table_entry, RadioDatabase, RadioModel,
};
use crate::protocol::Protocol;
use crate::text::{digits_text, push_all};
use crate::yaesu_ascii::is_yaesu_ascii_id_response;

verus! {

/// Result of probing a port
#[derive(Debug, Clone)]
pub struct ProbeResult {
    /// Detected protocol
    pub protocol: Protocol,
    /// Identified radio model (if known)
    pub model: Option<RadioModel>,
    /// Raw identification response
    pub id_data: Vec<u8>,
    /// CI-V address (for Icom radios)
    pub address: Option<u8>,
}

/// Configuration for probing
#[derive(Debug, Clone, Copy)]
pub struct ProbeConfig {
    /// Timeout for each probe attempt, in milliseconds
    pub timeout_ms: u64,
    /// Delay between probe attempts, in milliseconds
    pub inter_probe_delay_ms: u64,
}

impl Default for ProbeConfig {
    fn default() -> (r: Self)
        ensures
            r.timeout_ms == 500,
            r.inter_probe_delay_ms == 100,
    {
        ProbeConfig { timeout_ms: 500, inter_probe_delay_ms: 100 }
    }
}

/// Probes serial ports for radios
pub struct RadioProber {
    config: ProbeConfig,
}

impl RadioProber {
    /// A prober with the default timing
    pub fn new() -> (r: Self)
        ensures
            r.config().timeout_ms == 500,
            r.config().inter_probe_delay_ms == 100,
    {
        RadioProber { config: ProbeConfig::default() }
    }

    /// A prober with custom timing
    pub fn with_config(config: ProbeConfig) -> (r: Self)
        ensures
            r.config() == config,
    {
        RadioProber { config }
    }

    /// The timing.
    pub closed spec fn config(&self) -> ProbeConfig {
        self.config
    }

    /// The timing used.
    pub fn probe_config(&self) -> (r: ProbeConfig)
        ensures
            r == self.config(),
    {
        self.config
    }
}

impl Default for RadioProber {
    fn default() -> (r: Self)
        ensures
            r.config().timeout_ms == 500,
            r.config().inter_probe_delay_ms == 100,
    {
        Self::new()
    }
}

/// The CI-V addresses probed, in order: IC-7300, IC-705, IC-7610,
/// IC-7000, IC-7200, IC-7100, IC-7600.
pub fn icom_probe_addresses() -> (r: Vec<u8>)
    ensures
        r@ == seq![0x94u8, 0xA4, 0x98, 0x70, 0x76, 0x88, 0x7C],
{
    let r = vec![0x94u8, 0xA4, 0x98, 0x70, 0x76, 0x88, 0x7C];
    proof {
        assert(r@ =~= seq![0x94u8, 0xA4, 0x98, 0x70, 0x76, 0x88, 0x7C]);
    }
    r
}

fn copy_bytes(b: &[u8]) -> (r: Vec<u8>)
    ensures
        r@ == b@,
{
    let mut v: Vec<u8> = Vec::new();
    push_all(&mut v, b);
    proof {
        assert(v@ =~= b@);
    }
    v
}

/// What an answer to the Elecraft `K3;` probe tells: an Elecraft radio,
/// with its model when known.
pub fn elecraft_probe_result(response: &[u8]) -> (r: Option<ProbeResult>)
    ensures
        r is Some <==> elecraft_model_of(response@) is Some,
        r matches Some(p) ==> p.protocol == Protocol::Elecraft && p.id_data@ == response@ && p.address is None
            && model_of(p.model) == table_entry(
            elecraft_table(),
            elecraft_index(encode_utf8(elecraft_model_of(response@)->0)),
        ),
{
    match is_elecraft_response(response) {
        Some(name) => Some(
            ProbeResult {
                protocol: Protocol::Elecraft,
                model: RadioDatabase::by_elecraft_id(name),
                id_data: copy_bytes(response),
                address: None,
            },
        ),
        None => None,
    }
}

/// What an answer to the `ID;` probe tells: FlexRadio IDs (904-913) are
/// checked first, then four-digit Yaesu ASCII IDs, then three-digit
/// Kenwood IDs.
pub fn id_probe_result(response: &[u8]) -> (r: Option<ProbeResult>)
    ensures
        is_flex_id_response(response@) ==> (r matches Some(p) && p.protocol == Protocol::FlexRadio),
        !is_flex_id_response(response@) && is_yaesu_ascii_id_response(response@) ==> (r matches Some(p)
            && p.protocol == Protocol::YaesuAscii && p.model is None),
        !is_flex_id_response(response@) && !is_yaesu_ascii_id_response(response@) && is_kenwood_id_response(
            response@,
        ) ==> (r matches Some(p) && p.protocol == Protocol::Kenwood),
        !is_flex_id_response(response@) && !is_yaesu_ascii_id_response(response@) && !is_kenwood_id_response(
            response@,
        ) ==> r is None,
        r matches Some(p) ==> p.id_data@ == response@ && p.address is None,
        is_flex_id_response(response@) ==> (r matches Some(p) && model_of(p.model) == table_entry(
            flex_table(),
            flex_index(response@.subrange(2, response@.len() - 1)),
        )),
        !is_flex_id_response(response@) && !is_yaesu_ascii_id_response(response@) && is_kenwood_id_response(
            response@,
        ) ==> (r matches Some(p) && model_of(p.model) == table_entry(
            kenwood_table(),
            kenwood_index(response@.subrange(2, response@.len() - 1)),
        )),
{
    if crate::flex::is_valid_id_response(response) {
        let id = digits_text(response, 2, response.len() - 1);
        return Some(
            ProbeResult {
                protocol: Protocol::FlexRadio,
                model: RadioDatabase::by_flex_id(id),
                id_data: copy_bytes(response),
                address: None,
            },
        );
    }
    if crate::yaesu_ascii::is_valid_id_response(response) {
        return Some(
            ProbeResult { protocol: Protocol::YaesuAscii, model: None, id_data: copy_bytes(response), address: None },
        );
    }
    if crate::kenwood::is_valid_id_response(response) {
        let id = digits_text(response, 2, response.len() - 1);
        return Some(
            ProbeResult {
                protocol: Protocol::Kenwood,
                model: RadioDatabase::by_kenwood_id(id),
                id_data: copy_bytes(response),
                address: None,
            },
        );
    }
    None
}

/// What an answer to a CI-V probe tells: an Icom radio at the frame's
/// source address, with its model when the address is known.
pub fn icom_probe_result(response: &[u8]) -> (r: Option<ProbeResult>)
    ensures
        r is Some <==> civ_frame_shape(response@),
        r matches Some(p) ==> {
            &&& p.protocol == Protocol::IcomCIV
            &&& p.id_data@ == response@
            &&& p.address == Some(response@[3])
            &&& p.model is Some <==> icom_index(response@[3]) is Some
            &&& p.model matches Some(m) ==> m@ == icom_table()[icom_index(response@[3])->0]
        },
{
    if !is_valid_frame(response) {
        return None;
    }
    let source = extract_source_address(response);
    let model = match source {
        Some(a) => RadioDatabase::by_civ_address(a),
        None => None,
    };
    Some(ProbeResult { protocol: Protocol::IcomCIV, model, id_data: copy_bytes(response), address: source })
}

/// What the five bytes answering the Yaesu probe tell: a Yaesu radio when
/// the mode byte is a valid mode (0x0C at most).
pub fn yaesu_probe_result(buf: &[u8]) -> (r: Option<ProbeResult>)
    requires
        buf@.len() == 5,
    ensures
        r is Some <==> buf@[4] <= 0x0C,
        r matches Some(p) ==> p.protocol == Protocol::Yaesu && p.model is None && p.id_data@ == buf@
            && p.address is None,
{
    if buf[4] <= 0x0C {
        Some(ProbeResult { protocol: Protocol::Yaesu, model: None, id_data: copy_bytes(buf), address: None })
    } else {
        None
    }
}

} // verus!
