//! Radio model database: known radio models, their capabilities and the
//! protocol-specific identifiers they answer with.

use vstd::prelude::*;
use vstd::string::StringSliceAdditionalSpecFns;

use crate::command::OperatingMode;
use crate::protocol::Protocol;

verus! {

/// Capabilities of a specific radio model
#[derive(Debug, Clone, PartialEq, Eq)]
pub struct RadioCapabilities {
    /// Supported operating modes
    pub modes: Vec<OperatingMode>,
    /// Minimum frequency in Hz
    pub min_frequency_hz: u64,
    /// Maximum frequency in Hz
    pub max_frequency_hz: u64,
    /// Frequency resolution in Hz
    pub frequency_step_hz: u64,
    /// Supports split operation
    pub has_split: bool,
    /// Number of VFOs
    pub vfo_count: u8,
    /// Has built-in antenna tuner
    pub has_tuner: bool,
    /// Maximum TX power in watts
    pub max_power_watts: Option<u16>,
}

/// The mathematical value of `RadioCapabilities`.
pub struct CapabilitiesModel {
    pub modes: Seq<OperatingMode>,
    pub min_frequency_hz: u64,
    pub max_frequency_hz: u64,
    pub frequency_step_hz: u64,
    pub has_split: bool,
    pub vfo_count: u8,
    pub has_tuner: bool,
    pub max_power_watts: Option<u16>,
}

impl View for RadioCapabilities {
    type V = CapabilitiesModel;

    open spec fn view(&self) -> CapabilitiesModel {
        CapabilitiesModel {
            modes: self.modes@,
            min_frequency_hz: self.min_frequency_hz,
            max_frequency_hz: self.max_frequency_hz,
            frequency_step_hz: self.frequency_step_hz,
            has_split: self.has_split,
            vfo_count: self.vfo_count,
            has_tuner: self.has_tuner,
            max_power_watts: self.max_power_watts,
        }
    }
}

/// Capabilities assumed for a radio nobody described: the basic HF modes
/// from 100 kHz to 60 MHz in 10 Hz steps, split, two VFOs, no tuner, 100 W.
pub open spec fn default_capabilities() -> CapabilitiesModel {
    CapabilitiesModel {
        modes: modes_basic_spec(),
        min_frequency_hz: 100_000,
        max_frequency_hz: 60_000_000,
        frequency_step_hz: 10,
        has_split: true,
        vfo_count: 2,
        has_tuner: false,
        max_power_watts: Some(100),
    }
}

impl Default for RadioCapabilities {
    fn default() -> (r: Self)
        ensures
            r@ == default_capabilities(),
    {
        capabilities(modes_basic(), 100_000, 60_000_000, 10, true, 2, false, Some(100))
    }
}

/// Protocol-specific radio identifier
#[derive(Debug, Clone, PartialEq, Eq)]
pub enum ProtocolId {
    /// Icom CI-V address (0x00-0xFF)
    CivAddress(u8),
    /// Kenwood ID response code (e.g., "021" for TS-990S)
    KenwoodId(String),
    /// Yaesu model code
    YaesuCode(u8),
    /// Elecraft model identifier
    ElecraftId(String),
    /// FlexRadio ID response code (e.g., "905" for FLEX-6500)
    FlexId(String),
}

/// The mathematical value of a `ProtocolId`.
pub enum ProtocolIdModel {
    CivAddress(u8),
    KenwoodId(Seq<char>),
    YaesuCode(u8),
    ElecraftId(Seq<char>),
    FlexId(Seq<char>),
}

impl View for ProtocolId {
    type V = ProtocolIdModel;

    open spec fn view(&self) -> ProtocolIdModel {
        match self {
            ProtocolId::CivAddress(a) => ProtocolIdModel::CivAddress(*a),
            ProtocolId::KenwoodId(s) => ProtocolIdModel::KenwoodId(s@),
            ProtocolId::YaesuCode(c) => ProtocolIdModel::YaesuCode(*c),
            ProtocolId::ElecraftId(s) => ProtocolIdModel::ElecraftId(s@),
            ProtocolId::FlexId(s) => ProtocolIdModel::FlexId(s@),
        }
    }
}

/// Information about a specific radio model
#[derive(Debug, Clone, PartialEq, Eq)]
pub struct RadioModel {
    /// Manufacturer name
    pub manufacturer: String,
    /// Model name/number
    pub model: String,
    /// Protocol used by this radio
    pub protocol: Protocol,
    /// Protocol-specific identifier
    pub protocol_id: ProtocolId,
    /// Radio capabilities
    pub capabilities: RadioCapabilities,
}

/// The mathematical value of a `RadioModel`.
pub struct RadioModelSpec {
    pub manufacturer: Seq<char>,
    pub model: Seq<char>,
    pub protocol: Protocol,
    pub protocol_id: ProtocolIdModel,
    pub capabilities: CapabilitiesModel,
}

impl View for RadioModel {
    type V = RadioModelSpec;

    open spec fn view(&self) -> RadioModelSpec {
        RadioModelSpec {
            manufacturer: self.manufacturer@,
            model: self.model@,
            protocol: self.protocol,
            protocol_id: self.protocol_id@,
            capabilities: self.capabilities@,
        }
    }
}

/// Capabilities of a specific radio model, borrowed from static data
#[derive(Debug, Clone, Copy)]
pub struct RadioCapabilitiesStatic {
    /// Supported operating modes (as a slice)
    pub modes: &'static [OperatingMode],
    /// Minimum frequency in Hz
    pub min_frequency_hz: u64,
    /// Maximum frequency in Hz
    pub max_frequency_hz: u64,
    /// Frequency resolution in Hz
    pub frequency_step_hz: u64,
    /// Supports split operation
    pub has_split: bool,
    /// Number of VFOs
    pub vfo_count: u8,
    /// Has built-in antenna tuner
    pub has_tuner: bool,
    /// Maximum TX power in watts
    pub max_power_watts: Option<u16>,
}

impl View for RadioCapabilitiesStatic {
    type V = CapabilitiesModel;

    open spec fn view(&self) -> CapabilitiesModel {
        CapabilitiesModel {
            modes: self.modes@,
            min_frequency_hz: self.min_frequency_hz,
            max_frequency_hz: self.max_frequency_hz,
            frequency_step_hz: self.frequency_step_hz,
            has_split: self.has_split,
            vfo_count: self.vfo_count,
            has_tuner: self.has_tuner,
            max_power_watts: self.max_power_watts,
        }
    }
}

impl RadioCapabilitiesStatic {
    /// The owned capabilities with the same content.
    pub fn to_capabilities(&self) -> (r: RadioCapabilities)
        ensures
            r@ == self@,
    {
        RadioCapabilities {
            modes: vstd::slice::slice_to_vec(self.modes),
            min_frequency_hz: self.min_frequency_hz,
            max_frequency_hz: self.max_frequency_hz,
            frequency_step_hz: self.frequency_step_hz,
            has_split: self.has_split,
            vfo_count: self.vfo_count,
            has_tuner: self.has_tuner,
            max_power_watts: self.max_power_watts,
        }
    }
}

/// Protocol-specific radio identifier, borrowed from static data
#[derive(Debug, Clone, Copy)]
pub enum ProtocolIdStatic {
    /// Icom CI-V address (0x00-0xFF)
    CivAddress(u8),
    /// Kenwood ID response code (e.g., "021" for TS-990S)
    KenwoodId(&'static str),
    /// Yaesu model code
    YaesuCode(u8),
    /// Elecraft model identifier
    ElecraftId(&'static str),
    /// FlexRadio ID response code (e.g., "905" for FLEX-6500)
    FlexId(&'static str),
}

impl View for ProtocolIdStatic {
    type V = ProtocolIdModel;

    open spec fn view(&self) -> ProtocolIdModel {
        match self {
            ProtocolIdStatic::CivAddress(a) => ProtocolIdModel::CivAddress(*a),
            ProtocolIdStatic::KenwoodId(s) => ProtocolIdModel::KenwoodId(s@),
            ProtocolIdStatic::YaesuCode(c) => ProtocolIdModel::YaesuCode(*c),
            ProtocolIdStatic::ElecraftId(s) => ProtocolIdModel::ElecraftId(s@),
            ProtocolIdStatic::FlexId(s) => ProtocolIdModel::FlexId(s@),
        }
    }
}

impl ProtocolIdStatic {
    /// The owned identifier with the same content.
    pub fn to_protocol_id(&self) -> (r: ProtocolId)
        ensures
            r@ == self@,
    {
        match self {
            ProtocolIdStatic::CivAddress(a) => ProtocolId::CivAddress(*a),
            ProtocolIdStatic::KenwoodId(s) => ProtocolId::KenwoodId((*s).to_owned()),
            ProtocolIdStatic::YaesuCode(c) => ProtocolId::YaesuCode(*c),
            ProtocolIdStatic::ElecraftId(s) => ProtocolId::ElecraftId((*s).to_owned()),
            ProtocolIdStatic::FlexId(s) => ProtocolId::FlexId((*s).to_owned()),
        }
    }
}

/// Information about a specific radio model, borrowed from static data
#[derive(Debug, Clone, Copy)]
pub struct RadioModelStatic {
    /// Manufacturer name
    pub manufacturer: &'static str,
    /// Model name/number
    pub model: &'static str,
    /// Protocol used by this radio
    pub protocol: Protocol,
    /// Protocol-specific identifier
    pub protocol_id: ProtocolIdStatic,
    /// Radio capabilities
    pub capabilities: RadioCapabilitiesStatic,
}

impl View for RadioModelStatic {
    type V = RadioModelSpec;

    open spec fn view(&self) -> RadioModelSpec {
        RadioModelSpec {
            manufacturer: self.manufacturer@,
            model: self.model@,
            protocol: self.protocol,
            protocol_id: self.protocol_id@,
            capabilities: self.capabilities@,
        }
    }
}

impl RadioModelStatic {
    /// The owned model with the same content.
    pub fn to_model(&self) -> (r: RadioModel)
        ensures
            r@ == self@,
    {
        RadioModel {
            manufacturer: self.manufacturer.to_owned(),
            model: self.model.to_owned(),
            protocol: self.protocol,
            protocol_id: self.protocol_id.to_protocol_id(),
            capabilities: self.capabilities.to_capabilities(),
        }
    }
}

fn capabilities(
    modes: Vec<OperatingMode>,
    min_frequency_hz: u64,
    max_frequency_hz: u64,
    frequency_step_hz: u64,
    has_split: bool,
    vfo_count: u8,
    has_tuner: bool,
    max_power_watts: Option<u16>,
) -> (r: RadioCapabilities)
    ensures
        r@ == (CapabilitiesModel {
            modes: modes@,
            min_frequency_hz,
            max_frequency_hz,
            frequency_step_hz,
            has_split,
            vfo_count,
            has_tuner,
            max_power_watts,
        }),
{
    RadioCapabilities {
        modes,
        min_frequency_hz,
        max_frequency_hz,
        frequency_step_hz,
        has_split,
        vfo_count,
        has_tuner,
        max_power_watts,
    }
}

fn radio_model(
    manufacturer: &str,
    model: &str,
    protocol: Protocol,
    protocol_id: ProtocolId,
    capabilities: RadioCapabilities,
) -> (r: RadioModel)
    ensures
        r@ == (RadioModelSpec {
            manufacturer: manufacturer@,
            model: model@,
            protocol,
            protocol_id: protocol_id@,
            capabilities: capabilities@,
        }),
{
    RadioModel {
        manufacturer: manufacturer.to_owned(),
        model: model.to_owned(),
        protocol,
        protocol_id,
        capabilities,
    }
}

/// Two byte strings are equal.
fn bytes_equal(a: &[u8], b: &[u8]) -> (r: bool)
    ensures
        r == (a@ == b@),
{
    if a.len() != b.len() {
        return false;
    }
    let mut i: usize = 0;
    while i < a.len()
        invariant
            i <= a@.len() == b@.len(),
            forall|j: int| 0 <= j < i ==> a@[j] == b@[j],
        decreases a.len() - i,
    {
        if a[i] != b[i] {
            return false;
        }
        i = i + 1;
    }
    proof {
        assert(a@ =~= b@);
    }
    true
}

/// The full hf mode set.
pub open spec fn modes_full_hf_spec() -> Seq<OperatingMode> {
    seq![OperatingMode::Lsb, OperatingMode::Usb, OperatingMode::Cw, OperatingMode::CwR, OperatingMode::Am, OperatingMode::Fm, OperatingMode::Rtty, OperatingMode::RttyR, OperatingMode::DataU, OperatingMode::DataL]
}

fn modes_full_hf() -> (r: Vec<OperatingMode>)
    ensures
        r@ == modes_full_hf_spec(),
{
    let r = vec![OperatingMode::Lsb, OperatingMode::Usb, OperatingMode::Cw, OperatingMode::CwR, OperatingMode::Am, OperatingMode::Fm, OperatingMode::Rtty, OperatingMode::RttyR, OperatingMode::DataU, OperatingMode::DataL];
    proof {
        assert(r@ =~= modes_full_hf_spec());
    }
    r
}

/// The standard mode set.
pub open spec fn modes_standard_spec() -> Seq<OperatingMode> {
    seq![OperatingMode::Lsb, OperatingMode::Usb, OperatingMode::Cw, OperatingMode::CwR, OperatingMode::Am, OperatingMode::Fm, OperatingMode::DataU, OperatingMode::DataL]
}

fn modes_standard() -> (r: Vec<OperatingMode>)
    ensures
        r@ == modes_standard_spec(),
{
    let r = vec![OperatingMode::Lsb, OperatingMode::Usb, OperatingMode::Cw, OperatingMode::CwR, OperatingMode::Am, OperatingMode::Fm, OperatingMode::DataU, OperatingMode::DataL];
    proof {
        assert(r@ =~= modes_standard_spec());
    }
    r
}

/// The basic mode set.
pub open spec fn modes_basic_spec() -> Seq<OperatingMode> {
    seq![OperatingMode::Lsb, OperatingMode::Usb, OperatingMode::Cw, OperatingMode::Am, OperatingMode::Fm]
}

fn modes_basic() -> (r: Vec<OperatingMode>)
    ensures
        r@ == modes_basic_spec(),
{
    let r = vec![OperatingMode::Lsb, OperatingMode::Usb, OperatingMode::Cw, OperatingMode::Am, OperatingMode::Fm];
    proof {
        assert(r@ =~= modes_basic_spec());
    }
    r
}

/// The no fm mode set.
pub open spec fn modes_no_fm_spec() -> Seq<OperatingMode> {
    seq![OperatingMode::Lsb, OperatingMode::Usb, OperatingMode::Cw, OperatingMode::CwR, OperatingMode::DataU, OperatingMode::DataL]
}

fn modes_no_fm() -> (r: Vec<OperatingMode>)
    ensures
        r@ == modes_no_fm_spec(),
{
    let r = vec![OperatingMode::Lsb, OperatingMode::Usb, OperatingMode::Cw, OperatingMode::CwR, OperatingMode::DataU, OperatingMode::DataL];
    proof {
        assert(r@ =~= modes_no_fm_spec());
    }
    r
}

/// The flex sdr mode set.
pub open spec fn modes_flex_sdr_spec() -> Seq<OperatingMode> {
    seq![OperatingMode::Lsb, OperatingMode::Usb, OperatingMode::Cw, OperatingMode::CwR, OperatingMode::Am, OperatingMode::Fm, OperatingMode::FmN, OperatingMode::DigU, OperatingMode::DigL, OperatingMode::Rtty, OperatingMode::DataU, OperatingMode::DataL]
}

fn modes_flex_sdr() -> (r: Vec<OperatingMode>)
    ensures
        r@ == modes_flex_sdr_spec(),
{
    let r = vec![OperatingMode::Lsb, OperatingMode::Usb, OperatingMode::Cw, OperatingMode::CwR, OperatingMode::Am, OperatingMode::Fm, OperatingMode::FmN, OperatingMode::DigU, OperatingMode::DigL, OperatingMode::Rtty, OperatingMode::DataU, OperatingMode::DataL];
    proof {
        assert(r@ =~= modes_flex_sdr_spec());
    }
    r
}

/// The known icom radios, in table order.
pub open spec fn icom_table() -> Seq<RadioModelSpec> {
    seq![
        RadioModelSpec { manufacturer: "Icom"@, model: "IC-7300"@, protocol: Protocol::IcomCIV, protocol_id: ProtocolIdModel::CivAddress(0x94u8), capabilities: CapabilitiesModel { modes: modes_full_hf_spec(), min_frequency_hz: 30000, max_frequency_hz: 74800000, frequency_step_hz: 1, has_split: true, vfo_count: 2, has_tuner: true, max_power_watts: Some(100u16) } },
        RadioModelSpec { manufacturer: "Icom"@, model: "IC-705"@, protocol: Protocol::IcomCIV, protocol_id: ProtocolIdModel::CivAddress(0xA4u8), capabilities: CapabilitiesModel { modes: modes_standard_spec(), min_frequency_hz: 30000, max_frequency_hz: 450000000, frequency_step_hz: 1, has_split: true, vfo_count: 2, has_tuner: true, max_power_watts: Some(10u16) } },
        RadioModelSpec { manufacturer: "Icom"@, model: "IC-7610"@, protocol: Protocol::IcomCIV, protocol_id: ProtocolIdModel::CivAddress(0x98u8), capabilities: CapabilitiesModel { modes: modes_full_hf_spec(), min_frequency_hz: 30000, max_frequency_hz: 60000000, frequency_step_hz: 1, has_split: true, vfo_count: 2, has_tuner: true, max_power_watts: Some(100u16) } },
        RadioModelSpec { manufacturer: "Icom"@, model: "IC-7000"@, protocol: Protocol::IcomCIV, protocol_id: ProtocolIdModel::CivAddress(0x70u8), capabilities: CapabilitiesModel { modes: modes_basic_spec(), min_frequency_hz: 30000, max_frequency_hz: 450000000, frequency_step_hz: 1, has_split: true, vfo_count: 2, has_tuner: false, max_power_watts: Some(100u16) } },
    ]
}

fn icom_table_exec() -> (r: Vec<RadioModel>)
    ensures
        r@.len() == icom_table().len(),
        forall|i: int| 0 <= i < r@.len() ==> #[trigger] r@[i]@ == icom_table()[i],
{
    let mut r: Vec<RadioModel> = Vec::new();
    r.push(radio_model("Icom", "IC-7300", Protocol::IcomCIV, ProtocolId::CivAddress(0x94u8), capabilities(modes_full_hf(), 30000, 74800000, 1, true, 2, true, Some(100u16))));
    r.push(radio_model("Icom", "IC-705", Protocol::IcomCIV, ProtocolId::CivAddress(0xA4u8), capabilities(modes_standard(), 30000, 450000000, 1, true, 2, true, Some(10u16))));
    r.push(radio_model("Icom", "IC-7610", Protocol::IcomCIV, ProtocolId::CivAddress(0x98u8), capabilities(modes_full_hf(), 30000, 60000000, 1, true, 2, true, Some(100u16))));
    r.push(radio_model("Icom", "IC-7000", Protocol::IcomCIV, ProtocolId::CivAddress(0x70u8), capabilities(modes_basic(), 30000, 450000000, 1, true, 2, false, Some(100u16))));
    proof {
        let t = icom_table();
        assert(r@[0]@ == t[0]);
        assert(r@[1]@ == t[1]);
        assert(r@[2]@ == t[2]);
        assert(r@[3]@ == t[3]);
    }
    r
}

/// The table index of a icom radio by its key, if known.
pub open spec fn icom_index(key: u8) -> Option<int> {
    if key == 0x94u8 {
        Some(0)
    } else if key == 0xA4u8 {
        Some(1)
    } else if key == 0x98u8 {
        Some(2)
    } else if key == 0x70u8 {
        Some(3)
    } else {
        None
    }
}

/// The known kenwood radios, in table order.
pub open spec fn kenwood_table() -> Seq<RadioModelSpec> {
    seq![
        RadioModelSpec { manufacturer: "Kenwood"@, model: "TS-990S"@, protocol: Protocol::Kenwood, protocol_id: ProtocolIdModel::KenwoodId("021"@), capabilities: CapabilitiesModel { modes: modes_standard_spec(), min_frequency_hz: 30000, max_frequency_hz: 60000000, frequency_step_hz: 1, has_split: true, vfo_count: 2, has_tuner: true, max_power_watts: Some(200u16) } },
        RadioModelSpec { manufacturer: "Kenwood"@, model: "TS-590SG"@, protocol: Protocol::Kenwood, protocol_id: ProtocolIdModel::KenwoodId("023"@), capabilities: CapabilitiesModel { modes: modes_standard_spec(), min_frequency_hz: 30000, max_frequency_hz: 60000000, frequency_step_hz: 1, has_split: true, vfo_count: 2, has_tuner: true, max_power_watts: Some(100u16) } },
        RadioModelSpec { manufacturer: "Kenwood"@, model: "TS-2000"@, protocol: Protocol::Kenwood, protocol_id: ProtocolIdModel::KenwoodId("019"@), capabilities: CapabilitiesModel { modes: modes_basic_spec(), min_frequency_hz: 30000, max_frequency_hz: 1300000000, frequency_step_hz: 1, has_split: true, vfo_count: 2, has_tuner: true, max_power_watts: Some(100u16) } },
    ]
}

fn kenwood_table_exec() -> (r: Vec<RadioModel>)
    ensures
        r@.len() == kenwood_table().len(),
        forall|i: int| 0 <= i < r@.len() ==> #[trigger] r@[i]@ == kenwood_table()[i],
{
    let mut r: Vec<RadioModel> = Vec::new();
    r.push(radio_model("Kenwood", "TS-990S", Protocol::Kenwood, ProtocolId::KenwoodId("021".to_owned()), capabilities(modes_standard(), 30000, 60000000, 1, true, 2, true, Some(200u16))));
    r.push(radio_model("Kenwood", "TS-590SG", Protocol::Kenwood, ProtocolId::KenwoodId("023".to_owned()), capabilities(modes_standard(), 30000, 60000000, 1, true, 2, true, Some(100u16))));
    r.push(radio_model("Kenwood", "TS-2000", Protocol::Kenwood, ProtocolId::KenwoodId("019".to_owned()), capabilities(modes_basic(), 30000, 1300000000, 1, true, 2, true, Some(100u16))));
    proof {
        let t = kenwood_table();
        assert(r@[0]@ == t[0]);
        assert(r@[1]@ == t[1]);
        assert(r@[2]@ == t[2]);
    }
    r
}

/// The table index of a kenwood radio by the UTF-8 bytes of its ID, if known.
pub open spec fn kenwood_index(key: Seq<u8>) -> Option<int> {
    if key == seq![48u8, 50u8, 49u8] {
        Some(0)
    } else if key == seq![48u8, 50u8, 51u8] {
        Some(1)
    } else if key == seq![48u8, 49u8, 57u8] {
        Some(2)
    } else {
        None
    }
}

/// The known elecraft radios, in table order.
pub open spec fn elecraft_table() -> Seq<RadioModelSpec> {
    seq![
        RadioModelSpec { manufacturer: "Elecraft"@, model: "K3"@, protocol: Protocol::Elecraft, protocol_id: ProtocolIdModel::ElecraftId("K3"@), capabilities: CapabilitiesModel { modes: modes_standard_spec(), min_frequency_hz: 500000, max_frequency_hz: 54000000, frequency_step_hz: 1, has_split: true, vfo_count: 2, has_tuner: true, max_power_watts: Some(100u16) } },
        RadioModelSpec { manufacturer: "Elecraft"@, model: "K3S"@, protocol: Protocol::Elecraft, protocol_id: ProtocolIdModel::ElecraftId("K3S"@), capabilities: CapabilitiesModel { modes: modes_standard_spec(), min_frequency_hz: 500000, max_frequency_hz: 54000000, frequency_step_hz: 1, has_split: true, vfo_count: 2, has_tuner: true, max_power_watts: Some(100u16) } },
        RadioModelSpec { manufacturer: "Elecraft"@, model: "KX3"@, protocol: Protocol::Elecraft, protocol_id: ProtocolIdModel::ElecraftId("KX3"@), capabilities: CapabilitiesModel { modes: modes_standard_spec(), min_frequency_hz: 500000, max_frequency_hz: 54000000, frequency_step_hz: 10, has_split: true, vfo_count: 2, has_tuner: true, max_power_watts: Some(15u16) } },
        RadioModelSpec { manufacturer: "Elecraft"@, model: "KX2"@, protocol: Protocol::Elecraft, protocol_id: ProtocolIdModel::ElecraftId("KX2"@), capabilities: CapabilitiesModel { modes: modes_no_fm_spec(), min_frequency_hz: 500000, max_frequency_hz: 54000000, frequency_step_hz: 10, has_split: true, vfo_count: 2, has_tuner: true, max_power_watts: Some(12u16) } },
    ]
}

fn elecraft_table_exec() -> (r: Vec<RadioModel>)
    ensures
        r@.len() == elecraft_table().len(),
        forall|i: int| 0 <= i < r@.len() ==> #[trigger] r@[i]@ == elecraft_table()[i],
{
    let mut r: Vec<RadioModel> = Vec::new();
    r.push(radio_model("Elecraft", "K3", Protocol::Elecraft, ProtocolId::ElecraftId("K3".to_owned()), capabilities(modes_standard(), 500000, 54000000, 1, true, 2, true, Some(100u16))));
    r.push(radio_model("Elecraft", "K3S", Protocol::Elecraft, ProtocolId::ElecraftId("K3S".to_owned()), capabilities(modes_standard(), 500000, 54000000, 1, true, 2, true, Some(100u16))));
    r.push(radio_model("Elecraft", "KX3", Protocol::Elecraft, ProtocolId::ElecraftId("KX3".to_owned()), capabilities(modes_standard(), 500000, 54000000, 10, true, 2, true, Some(15u16))));
    r.push(radio_model("Elecraft", "KX2", Protocol::Elecraft, ProtocolId::ElecraftId("KX2".to_owned()), capabilities(modes_no_fm(), 500000, 54000000, 10, true, 2, true, Some(12u16))));
    proof {
        let t = elecraft_table();
        assert(r@[0]@ == t[0]);
        assert(r@[1]@ == t[1]);
        assert(r@[2]@ == t[2]);
        assert(r@[3]@ == t[3]);
    }
    r
}

/// The table index of a elecraft radio by the UTF-8 bytes of its ID, if known.
pub open spec fn elecraft_index(key: Seq<u8>) -> Option<int> {
    if key == seq![75u8, 51u8] {
        Some(0)
    } else if key == seq![75u8, 51u8, 83u8] {
        Some(1)
    } else if key == seq![75u8, 88u8, 51u8] {
        Some(2)
    } else if key == seq![75u8, 88u8, 50u8] {
        Some(3)
    } else {
        None
    }
}

/// The known flex radios, in table order.
pub open spec fn flex_table() -> Seq<RadioModelSpec> {
    seq![
        RadioModelSpec { manufacturer: "FlexRadio"@, model: "FLEX-6700"@, protocol: Protocol::FlexRadio, protocol_id: ProtocolIdModel::FlexId("904"@), capabilities: CapabilitiesModel { modes: modes_flex_sdr_spec(), min_frequency_hz: 30000, max_frequency_hz: 77000000, frequency_step_hz: 1, has_split: true, vfo_count: 8, has_tuner: true, max_power_watts: Some(100u16) } },
        RadioModelSpec { manufacturer: "FlexRadio"@, model: "FLEX-6500"@, protocol: Protocol::FlexRadio, protocol_id: ProtocolIdModel::FlexId("905"@), capabilities: CapabilitiesModel { modes: modes_flex_sdr_spec(), min_frequency_hz: 30000, max_frequency_hz: 77000000, frequency_step_hz: 1, has_split: true, vfo_count: 4, has_tuner: true, max_power_watts: Some(100u16) } },
        RadioModelSpec { manufacturer: "FlexRadio"@, model: "FLEX-6700R"@, protocol: Protocol::FlexRadio, protocol_id: ProtocolIdModel::FlexId("906"@), capabilities: CapabilitiesModel { modes: modes_flex_sdr_spec(), min_frequency_hz: 30000, max_frequency_hz: 77000000, frequency_step_hz: 1, has_split: true, vfo_count: 8, has_tuner: false, max_power_watts: None } },
        RadioModelSpec { manufacturer: "FlexRadio"@, model: "FLEX-6300"@, protocol: Protocol::FlexRadio, protocol_id: ProtocolIdModel::FlexId("907"@), capabilities: CapabilitiesModel { modes: modes_flex_sdr_spec(), min_frequency_hz: 30000, max_frequency_hz: 77000000, frequency_step_hz: 1, has_split: true, vfo_count: 2, has_tuner: false, max_power_watts: Some(100u16) } },
        RadioModelSpec { manufacturer: "FlexRadio"@, model: "FLEX-6400"@, protocol: Protocol::FlexRadio, protocol_id: ProtocolIdModel::FlexId("908"@), capabilities: CapabilitiesModel { modes: modes_flex_sdr_spec(), min_frequency_hz: 30000, max_frequency_hz: 77000000, frequency_step_hz: 1, has_split: true, vfo_count: 2, has_tuner: false, max_power_watts: Some(100u16) } },
        RadioModelSpec { manufacturer: "FlexRadio"@, model: "FLEX-6600"@, protocol: Protocol::FlexRadio, protocol_id: ProtocolIdModel::FlexId("909"@), capabilities: CapabilitiesModel { modes: modes_flex_sdr_spec(), min_frequency_hz: 30000, max_frequency_hz: 77000000, frequency_step_hz: 1, has_split: true, vfo_count: 4, has_tuner: false, max_power_watts: Some(100u16) } },
        RadioModelSpec { manufacturer: "FlexRadio"@, model: "FLEX-6400M"@, protocol: Protocol::FlexRadio, protocol_id: ProtocolIdModel::FlexId("910"@), capabilities: CapabilitiesModel { modes: modes_flex_sdr_spec(), min_frequency_hz: 30000, max_frequency_hz: 77000000, frequency_step_hz: 1, has_split: true, vfo_count: 2, has_tuner: false, max_power_watts: Some(100u16) } },
        RadioModelSpec { manufacturer: "FlexRadio"@, model: "FLEX-6600M"@, protocol: Protocol::FlexRadio, protocol_id: ProtocolIdModel::FlexId("911"@), capabilities: CapabilitiesModel { modes: modes_flex_sdr_spec(), min_frequency_hz: 30000, max_frequency_hz: 77000000, frequency_step_hz: 1, has_split: true, vfo_count: 4, has_tuner: false, max_power_watts: Some(100u16) } },
        RadioModelSpec { manufacturer: "FlexRadio"@, model: "FLEX-8400"@, protocol: Protocol::FlexRadio, protocol_id: ProtocolIdModel::FlexId("912"@), capabilities: CapabilitiesModel { modes: modes_flex_sdr_spec(), min_frequency_hz: 30000, max_frequency_hz: 77000000, frequency_step_hz: 1, has_split: true, vfo_count: 2, has_tuner: false, max_power_watts: Some(100u16) } },
        RadioModelSpec { manufacturer: "FlexRadio"@, model: "FLEX-8600"@, protocol: Protocol::FlexRadio, protocol_id: ProtocolIdModel::FlexId("913"@), capabilities: CapabilitiesModel { modes: modes_flex_sdr_spec(), min_frequency_hz: 30000, max_frequency_hz: 77000000, frequency_step_hz: 1, has_split: true, vfo_count: 4, has_tuner: false, max_power_watts: Some(100u16) } },
    ]
}

fn flex_table_exec() -> (r: Vec<RadioModel>)
    ensures
        r@.len() == flex_table().len(),
        forall|i: int| 0 <= i < r@.len() ==> #[trigger] r@[i]@ == flex_table()[i],
{
    let mut r: Vec<RadioModel> = Vec::new();
    r.push(radio_model("FlexRadio", "FLEX-6700", Protocol::FlexRadio, ProtocolId::FlexId("904".to_owned()), capabilities(modes_flex_sdr(), 30000, 77000000, 1, true, 8, true, Some(100u16))));
    r.push(radio_model("FlexRadio", "FLEX-6500", Protocol::FlexRadio, ProtocolId::FlexId("905".to_owned()), capabilities(modes_flex_sdr(), 30000, 77000000, 1, true, 4, true, Some(100u16))));
    r.push(radio_model("FlexRadio", "FLEX-6700R", Protocol::FlexRadio, ProtocolId::FlexId("906".to_owned()), capabilities(modes_flex_sdr(), 30000, 77000000, 1, true, 8, false, None)));
    r.push(radio_model("FlexRadio", "FLEX-6300", Protocol::FlexRadio, ProtocolId::FlexId("907".to_owned()), capabilities(modes_flex_sdr(), 30000, 77000000, 1, true, 2, false, Some(100u16))));
    r.push(radio_model("FlexRadio", "FLEX-6400", Protocol::FlexRadio, ProtocolId::FlexId("908".to_owned()), capabilities(modes_flex_sdr(), 30000, 77000000, 1, true, 2, false, Some(100u16))));
    r.push(radio_model("FlexRadio", "FLEX-6600", Protocol::FlexRadio, ProtocolId::FlexId("909".to_owned()), capabilities(modes_flex_sdr(), 30000, 77000000, 1, true, 4, false, Some(100u16))));
    r.push(radio_model("FlexRadio", "FLEX-6400M", Protocol::FlexRadio, ProtocolId::FlexId("910".to_owned()), capabilities(modes_flex_sdr(), 30000, 77000000, 1, true, 2, false, Some(100u16))));
    r.push(radio_model("FlexRadio", "FLEX-6600M", Protocol::FlexRadio, ProtocolId::FlexId("911".to_owned()), capabilities(modes_flex_sdr(), 30000, 77000000, 1, true, 4, false, Some(100u16))));
    r.push(radio_model("FlexRadio", "FLEX-8400", Protocol::FlexRadio, ProtocolId::FlexId("912".to_owned()), capabilities(modes_flex_sdr(), 30000, 77000000, 1, true, 2, false, Some(100u16))));
    r.push(radio_model("FlexRadio", "FLEX-8600", Protocol::FlexRadio, ProtocolId::FlexId("913".to_owned()), capabilities(modes_flex_sdr(), 30000, 77000000, 1, true, 4, false, Some(100u16))));
    proof {
        let t = flex_table();
        assert(r@[0]@ == t[0]);
        assert(r@[1]@ == t[1]);
        assert(r@[2]@ == t[2]);
        assert(r@[3]@ == t[3]);
        assert(r@[4]@ == t[4]);
        assert(r@[5]@ == t[5]);
        assert(r@[6]@ == t[6]);
        assert(r@[7]@ == t[7]);
        assert(r@[8]@ == t[8]);
        assert(r@[9]@ == t[9]);
    }
    r
}

/// The table index of a flex radio by the UTF-8 bytes of its ID, if known.
pub open spec fn flex_index(key: Seq<u8>) -> Option<int> {
    if key == seq![57u8, 48u8, 52u8] {
        Some(0)
    } else if key == seq![57u8, 48u8, 53u8] {
        Some(1)
    } else if key == seq![57u8, 48u8, 54u8] {
        Some(2)
    } else if key == seq![57u8, 48u8, 55u8] {
        Some(3)
    } else if key == seq![57u8, 48u8, 56u8] {
        Some(4)
    } else if key == seq![57u8, 48u8, 57u8] {
        Some(5)
    } else if key == seq![57u8, 49u8, 48u8] {
        Some(6)
    } else if key == seq![57u8, 49u8, 49u8] {
        Some(7)
    } else if key == seq![57u8, 49u8, 50u8] {
        Some(8)
    } else if key == seq![57u8, 49u8, 51u8] {
        Some(9)
    } else {
        None
    }
}

/// The known yaesu radios, in table order.
pub open spec fn yaesu_table() -> Seq<RadioModelSpec> {
    seq![
        RadioModelSpec { manufacturer: "Yaesu"@, model: "FT-991A"@, protocol: Protocol::Yaesu, protocol_id: ProtocolIdModel::YaesuCode(0x01u8), capabilities: CapabilitiesModel { modes: modes_full_hf_spec(), min_frequency_hz: 30000, max_frequency_hz: 450000000, frequency_step_hz: 1, has_split: true, vfo_count: 2, has_tuner: true, max_power_watts: Some(100u16) } },
        RadioModelSpec { manufacturer: "Yaesu"@, model: "FTDX101D"@, protocol: Protocol::Yaesu, protocol_id: ProtocolIdModel::YaesuCode(0x02u8), capabilities: CapabilitiesModel { modes: modes_full_hf_spec(), min_frequency_hz: 30000, max_frequency_hz: 54000000, frequency_step_hz: 1, has_split: true, vfo_count: 2, has_tuner: true, max_power_watts: Some(200u16) } },
        RadioModelSpec { manufacturer: "Yaesu"@, model: "FT-710"@, protocol: Protocol::Yaesu, protocol_id: ProtocolIdModel::YaesuCode(0x03u8), capabilities: CapabilitiesModel { modes: modes_full_hf_spec(), min_frequency_hz: 30000, max_frequency_hz: 54000000, frequency_step_hz: 1, has_split: true, vfo_count: 2, has_tuner: true, max_power_watts: Some(100u16) } },
        RadioModelSpec { manufacturer: "Yaesu"@, model: "FTDX10"@, protocol: Protocol::Yaesu, protocol_id: ProtocolIdModel::YaesuCode(0x04u8), capabilities: CapabilitiesModel { modes: modes_full_hf_spec(), min_frequency_hz: 30000, max_frequency_hz: 54000000, frequency_step_hz: 1, has_split: true, vfo_count: 2, has_tuner: true, max_power_watts: Some(100u16) } },
    ]
}

fn yaesu_table_exec() -> (r: Vec<RadioModel>)
    ensures
        r@.len() == yaesu_table().len(),
        forall|i: int| 0 <= i < r@.len() ==> #[trigger] r@[i]@ == yaesu_table()[i],
{
    let mut r: Vec<RadioModel> = Vec::new();
    r.push(radio_model("Yaesu", "FT-991A", Protocol::Yaesu, ProtocolId::YaesuCode(0x01u8), capabilities(modes_full_hf(), 30000, 450000000, 1, true, 2, true, Some(100u16))));
    r.push(radio_model("Yaesu", "FTDX101D", Protocol::Yaesu, ProtocolId::YaesuCode(0x02u8), capabilities(modes_full_hf(), 30000, 54000000, 1, true, 2, true, Some(200u16))));
    r.push(radio_model("Yaesu", "FT-710", Protocol::Yaesu, ProtocolId::YaesuCode(0x03u8), capabilities(modes_full_hf(), 30000, 54000000, 1, true, 2, true, Some(100u16))));
    r.push(radio_model("Yaesu", "FTDX10", Protocol::Yaesu, ProtocolId::YaesuCode(0x04u8), capabilities(modes_full_hf(), 30000, 54000000, 1, true, 2, true, Some(100u16))));
    proof {
        let t = yaesu_table();
        assert(r@[0]@ == t[0]);
        assert(r@[1]@ == t[1]);
        assert(r@[2]@ == t[2]);
        assert(r@[3]@ == t[3]);
    }
    r
}

fn kenwood_index_of(id: &[u8]) -> (r: Option<usize>)
    ensures
        r matches Some(i) ==> kenwood_index(id@) == Some(i as int),
        r is None <==> kenwood_index(id@) is None,
{
    if bytes_equal(id, &[48u8, 50u8, 49u8]) {
        return Some(0);
    }
    if bytes_equal(id, &[48u8, 50u8, 51u8]) {
        return Some(1);
    }
    if bytes_equal(id, &[48u8, 49u8, 57u8]) {
        return Some(2);
    }
    None
}

fn elecraft_index_of(id: &[u8]) -> (r: Option<usize>)
    ensures
        r matches Some(i) ==> elecraft_index(id@) == Some(i as int),
        r is None <==> elecraft_index(id@) is None,
{
    if bytes_equal(id, &[75u8, 51u8]) {
        return Some(0);
    }
    if bytes_equal(id, &[75u8, 51u8, 83u8]) {
        return Some(1);
    }
    if bytes_equal(id, &[75u8, 88u8, 51u8]) {
        return Some(2);
    }
    if bytes_equal(id, &[75u8, 88u8, 50u8]) {
        return Some(3);
    }
    None
}

fn flex_index_of(id: &[u8]) -> (r: Option<usize>)
    ensures
        r matches Some(i) ==> flex_index(id@) == Some(i as int),
        r is None <==> flex_index(id@) is None,
{
    if bytes_equal(id, &[57u8, 48u8, 52u8]) {
        return Some(0);
    }
    if bytes_equal(id, &[57u8, 48u8, 53u8]) {
        return Some(1);
    }
    if bytes_equal(id, &[57u8, 48u8, 54u8]) {
        return Some(2);
    }
    if bytes_equal(id, &[57u8, 48u8, 55u8]) {
        return Some(3);
    }
    if bytes_equal(id, &[57u8, 48u8, 56u8]) {
        return Some(4);
    }
    if bytes_equal(id, &[57u8, 48u8, 57u8]) {
        return Some(5);
    }
    if bytes_equal(id, &[57u8, 49u8, 48u8]) {
        return Some(6);
    }
    if bytes_equal(id, &[57u8, 49u8, 49u8]) {
        return Some(7);
    }
    if bytes_equal(id, &[57u8, 49u8, 50u8]) {
        return Some(8);
    }
    if bytes_equal(id, &[57u8, 49u8, 51u8]) {
        return Some(9);
    }
    None
}

/// The model at `i` in a table, when there is one.
fn pick(mut table: Vec<RadioModel>, i: usize) -> (r: RadioModel)
    requires
        i < table@.len(),
    ensures
        r@ == table@[i as int]@,
{
    table.swap_remove(i)
}

/// The table of radios speaking a protocol (Yaesu ASCII radios are listed
/// with the Yaesu ones).
pub open spec fn table_for_protocol(protocol: Protocol) -> Seq<RadioModelSpec> {
    match protocol {
        Protocol::IcomCIV => icom_table(),
        Protocol::Kenwood => kenwood_table(),
        Protocol::Elecraft => elecraft_table(),
        Protocol::Yaesu | Protocol::YaesuAscii => yaesu_table(),
        Protocol::FlexRadio => flex_table(),
    }
}

/// The most popular model of each protocol: IC-7300, TS-590SG, K3, the
/// first Yaesu entry, FLEX-6600.
pub open spec fn default_model_spec(protocol: Protocol) -> RadioModelSpec {
    match protocol {
        Protocol::IcomCIV => icom_table()[0],
        Protocol::Kenwood => kenwood_table()[1],
        Protocol::Elecraft => elecraft_table()[0],
        Protocol::Yaesu | Protocol::YaesuAscii => yaesu_table()[0],
        Protocol::FlexRadio => flex_table()[5],
    }
}

/// The entry of a table at an index, when there is one.
pub open spec fn table_entry(t: Seq<RadioModelSpec>, i: Option<int>) -> Option<RadioModelSpec> {
    match i {
        Some(k) => Some(t[k]),
        None => None,
    }
}

/// The value of an optional model.
pub open spec fn model_of(o: Option<RadioModel>) -> Option<RadioModelSpec> {
    match o {
        Some(m) => Some(m@),
        None => None,
    }
}

/// The models of `v`.
pub open spec fn models_of(v: Seq<RadioModel>) -> Seq<RadioModelSpec> {
    Seq::new(v.len(), |i: int| v[i]@)
}

/// Database of known radio models
pub struct RadioDatabase;

impl RadioDatabase {
    /// Look up a radio model by CI-V address
    pub fn by_civ_address(address: u8) -> (r: Option<RadioModel>)
        ensures
            r is Some <==> icom_index(address) is Some,
            r matches Some(m) ==> m@ == icom_table()[icom_index(address)->0],
    {
        let i: Option<usize> = if address == 0x94 {
            Some(0)
        } else if address == 0xA4 {
            Some(1)
        } else if address == 0x98 {
            Some(2)
        } else if address == 0x70 {
            Some(3)
        } else {
            None
        };
        match i {
            Some(i) => Some(pick(icom_table_exec(), i)),
            None => None,
        }
    }

    /// Look up a radio model by Kenwood ID
    pub fn by_kenwood_id(id: &str) -> (r: Option<RadioModel>)
        ensures
            r is Some <==> kenwood_index(id.spec_bytes()) is Some,
            r matches Some(m) ==> m@ == kenwood_table()[kenwood_index(id.spec_bytes())->0],
    {
        match kenwood_index_of(id.as_bytes()) {
            Some(i) => Some(pick(kenwood_table_exec(), i)),
            None => None,
        }
    }

    /// Look up a radio model by Elecraft ID
    pub fn by_elecraft_id(id: &str) -> (r: Option<RadioModel>)
        ensures
            r is Some <==> elecraft_index(id.spec_bytes()) is Some,
            r matches Some(m) ==> m@ == elecraft_table()[elecraft_index(id.spec_bytes())->0],
    {
        match elecraft_index_of(id.as_bytes()) {
            Some(i) => Some(pick(elecraft_table_exec(), i)),
            None => None,
        }
    }

    /// Look up a radio model by FlexRadio ID
    pub fn by_flex_id(id: &str) -> (r: Option<RadioModel>)
        ensures
            r is Some <==> flex_index(id.spec_bytes()) is Some,
            r matches Some(m) ==> m@ == flex_table()[flex_index(id.spec_bytes())->0],
    {
        match flex_index_of(id.as_bytes()) {
            Some(i) => Some(pick(flex_table_exec(), i)),
            None => None,
        }
    }

    /// Get all known Icom radios
    pub fn icom_radios() -> (r: Vec<RadioModel>)
        ensures
            models_of(r@) == icom_table(),
    {
        let r = icom_table_exec();
        proof {
            assert(models_of(r@) =~= icom_table());
        }
        r
    }

    /// Get all known Kenwood radios
    pub fn kenwood_radios() -> (r: Vec<RadioModel>)
        ensures
            models_of(r@) == kenwood_table(),
    {
        let r = kenwood_table_exec();
        proof {
            assert(models_of(r@) =~= kenwood_table());
        }
        r
    }

    /// Get all known Elecraft radios
    pub fn elecraft_radios() -> (r: Vec<RadioModel>)
        ensures
            models_of(r@) == elecraft_table(),
    {
        let r = elecraft_table_exec();
        proof {
            assert(models_of(r@) =~= elecraft_table());
        }
        r
    }

    /// Get all known FlexRadio radios
    pub fn flex_radios() -> (r: Vec<RadioModel>)
        ensures
            models_of(r@) == flex_table(),
    {
        let r = flex_table_exec();
        proof {
            assert(models_of(r@) =~= flex_table());
        }
        r
    }

    /// Get all known Yaesu radios
    pub fn yaesu_radios() -> (r: Vec<RadioModel>)
        ensures
            models_of(r@) == yaesu_table(),
    {
        let r = yaesu_table_exec();
        proof {
            assert(models_of(r@) =~= yaesu_table());
        }
        r
    }

    /// Get all radios for a given protocol
    pub fn radios_for_protocol(protocol: Protocol) -> (r: Vec<RadioModel>)
        ensures
            models_of(r@) == table_for_protocol(protocol),
    {
        match protocol {
            Protocol::IcomCIV => Self::icom_radios(),
            Protocol::Kenwood => Self::kenwood_radios(),
            Protocol::Elecraft => Self::elecraft_radios(),
            Protocol::Yaesu | Protocol::YaesuAscii => Self::yaesu_radios(),
            Protocol::FlexRadio => Self::flex_radios(),
        }
    }

    /// Get the default (most popular) radio model for a protocol
    pub fn default_for_protocol(protocol: Protocol) -> (r: Option<RadioModel>)
        ensures
            r matches Some(m) && m@ == default_model_spec(protocol),
    {
        match protocol {
            Protocol::IcomCIV => Some(pick(icom_table_exec(), 0)),
            Protocol::Kenwood => Some(pick(kenwood_table_exec(), 1)),
            Protocol::Elecraft => Some(pick(elecraft_table_exec(), 0)),
            Protocol::Yaesu | Protocol::YaesuAscii => Some(pick(yaesu_table_exec(), 0)),
            Protocol::FlexRadio => Some(pick(flex_table_exec(), 5)),
        }
    }
}

impl RadioCapabilities {
    /// A copy with the same view.
    pub fn duplicate(&self) -> (r: Self)
        ensures
            r@ == self@,
    {
        let mut modes: Vec<OperatingMode> = Vec::new();
        let mut i: usize = 0;
        while i < self.modes.len()
            invariant
                i <= self.modes@.len(),
                modes@ == self.modes@.subrange(0, i as int),
            decreases self.modes.len() - i,
        {
            modes.push(self.modes[i]);
            i = i + 1;
            proof {
                assert(modes@ =~= self.modes@.subrange(0, i as int));
            }
        }
        proof {
            assert(modes@ =~= self.modes@);
        }
        RadioCapabilities {
            modes,
            min_frequency_hz: self.min_frequency_hz,
            max_frequency_hz: self.max_frequency_hz,
            frequency_step_hz: self.frequency_step_hz,
            has_split: self.has_split,
            vfo_count: self.vfo_count,
            has_tuner: self.has_tuner,
            max_power_watts: self.max_power_watts,
        }
    }
}

impl ProtocolId {
    /// A copy with the same view.
    pub fn duplicate(&self) -> (r: Self)
        ensures
            r@ == self@,
    {
        match self {
            ProtocolId::CivAddress(a) => ProtocolId::CivAddress(*a),
            ProtocolId::KenwoodId(s) => ProtocolId::KenwoodId(s.clone()),
            ProtocolId::YaesuCode(c) => ProtocolId::YaesuCode(*c),
            ProtocolId::ElecraftId(s) => ProtocolId::ElecraftId(s.clone()),
            ProtocolId::FlexId(s) => ProtocolId::FlexId(s.clone()),
        }
    }
}

impl RadioModel {
    /// A copy with the same view.
    pub fn duplicate(&self) -> (r: Self)
        ensures
            r@ == self@,
    {
        RadioModel {
            manufacturer: self.manufacturer.clone(),
            model: self.model.clone(),
            protocol: self.protocol,
            protocol_id: self.protocol_id.duplicate(),
            capabilities: self.capabilities.duplicate(),
        }
    }
}

} // verus!
