//! Protocol-neutral radio commands.
//!
//! - `RadioRequest`: commands and queries sent TO a radio (from the mux or an
//!   amplifier)
//! - `RadioResponse`: reports and responses FROM a radio
//!
//! The same wire bytes mean different things by direction: `FA00014250000;`
//! from a radio is a frequency report, to a radio it sets the frequency.

use vstd::prelude::*;
use vstd::slice::slice_to_vec;

verus! {

/// Operating modes supported by amateur radio transceivers
#[derive(Debug, Clone, Copy, PartialEq, Eq, Hash, Structural)]
pub enum OperatingMode {
    /// Lower Sideband
    Lsb,
    /// Upper Sideband
    Usb,
    /// Continuous Wave
    Cw,
    /// CW Reverse
    CwR,
    /// Amplitude Modulation
    Am,
    /// Frequency Modulation
    Fm,
    /// FM Narrow
    FmN,
    /// Digital modes (RTTY, PSK, etc.)
    Dig,
    /// Digital Upper
    DigU,
    /// Digital Lower
    DigL,
    /// Packet
    Pkt,
    /// Data mode (generic)
    Data,
    /// Data Upper
    DataU,
    /// Data Lower
    DataL,
    /// RTTY
    Rtty,
    /// RTTY Reverse
    RttyR,
}

pub open spec fn is_voice_mode(m: OperatingMode) -> bool {
    m is Lsb || m is Usb || m is Am || m is Fm || m is FmN
}

pub open spec fn is_digital_mode(m: OperatingMode) -> bool {
    m is Dig || m is DigU || m is DigL || m is Data || m is DataU || m is DataL || m is Pkt
        || m is Rtty || m is RttyR
}

pub open spec fn is_cw_mode(m: OperatingMode) -> bool {
    m is Cw || m is CwR
}

impl OperatingMode {
    /// Returns whether this is a voice mode
    pub fn is_voice(&self) -> (r: bool)
        ensures
            r == is_voice_mode(*self),
    {
        matches!(self, Self::Lsb | Self::Usb | Self::Am | Self::Fm | Self::FmN)
    }

    /// Returns whether this is a digital/data mode
    pub fn is_digital(&self) -> (r: bool)
        ensures
            r == is_digital_mode(*self),
    {
        matches!(
            self,
            Self::Dig | Self::DigU | Self::DigL | Self::Data | Self::DataU | Self::DataL | Self::Pkt
                | Self::Rtty | Self::RttyR
        )
    }

    /// Returns whether this is a CW mode
    pub fn is_cw(&self) -> (r: bool)
        ensures
            r == is_cw_mode(*self),
    {
        matches!(self, Self::Cw | Self::CwR)
    }
}

/// Every mode belongs to exactly one of the voice, digital and CW families.
pub proof fn law_mode_families_partition(m: OperatingMode)
    ensures
        (is_voice_mode(m) as int) + (is_digital_mode(m) as int) + (is_cw_mode(m) as int) == 1,
{
}

/// VFO selection
#[derive(Debug, Clone, Copy, PartialEq, Eq, Hash, Structural)]
pub enum Vfo {
    /// VFO A
    A,
    /// VFO B
    B,
    /// Split operation (TX on B, RX on A)
    Split,
    /// Memory channel
    Memory,
}

/// Commands/queries sent TO a radio (from mux or amplifier)
#[derive(Debug, PartialEq, Eq)]
pub enum RadioRequest {
    /// Set the VFO frequency in Hz
    SetFrequency { hz: u64 },
    /// Set the operating mode
    SetMode { mode: OperatingMode },
    /// Set PTT state
    SetPtt { active: bool },
    /// Set VFO (A, B, or split)
    SetVfo { vfo: Vfo },
    /// Power on/off command
    SetPower { on: bool },
    /// Enable/disable auto-information mode
    SetAutoInfo { enabled: bool },
    /// Get the current VFO frequency
    GetFrequency,
    /// Get the current operating mode
    GetMode,
    /// Get PTT state
    GetPtt,
    /// Get current VFO selection
    GetVfo,
    /// Request radio identification
    GetId,
    /// Request radio status (comprehensive)
    GetStatus,
    /// Query auto-information state
    GetAutoInfo,
    /// Get control band (which VFO has front panel control)
    GetControlBand,
    /// Get transmit band (which VFO is selected for transmit)
    GetTransmitBand,
    /// Unknown or unparseable request (preserves raw data)
    Unknown { data: Vec<u8> },
}

/// The mathematical value of a `RadioRequest`.
pub enum RequestModel {
    SetFrequency { hz: u64 },
    SetMode { mode: OperatingMode },
    SetPtt { active: bool },
    SetVfo { vfo: Vfo },
    SetPower { on: bool },
    SetAutoInfo { enabled: bool },
    GetFrequency,
    GetMode,
    GetPtt,
    GetVfo,
    GetId,
    GetStatus,
    GetAutoInfo,
    GetControlBand,
    GetTransmitBand,
    Unknown { data: Seq<u8> },
}

impl View for RadioRequest {
    type V = RequestModel;

    open spec fn view(&self) -> RequestModel {
        match self {
            RadioRequest::SetFrequency { hz } => RequestModel::SetFrequency { hz: *hz },
            RadioRequest::SetMode { mode } => RequestModel::SetMode { mode: *mode },
            RadioRequest::SetPtt { active } => RequestModel::SetPtt { active: *active },
            RadioRequest::SetVfo { vfo } => RequestModel::SetVfo { vfo: *vfo },
            RadioRequest::SetPower { on } => RequestModel::SetPower { on: *on },
            RadioRequest::SetAutoInfo { enabled } => RequestModel::SetAutoInfo { enabled: *enabled },
            RadioRequest::GetFrequency => RequestModel::GetFrequency,
            RadioRequest::GetMode => RequestModel::GetMode,
            RadioRequest::GetPtt => RequestModel::GetPtt,
            RadioRequest::GetVfo => RequestModel::GetVfo,
            RadioRequest::GetId => RequestModel::GetId,
            RadioRequest::GetStatus => RequestModel::GetStatus,
            RadioRequest::GetAutoInfo => RequestModel::GetAutoInfo,
            RadioRequest::GetControlBand => RequestModel::GetControlBand,
            RadioRequest::GetTransmitBand => RequestModel::GetTransmitBand,
            RadioRequest::Unknown { data } => RequestModel::Unknown { data: data@ },
        }
    }
}

/// Reports/responses FROM a radio (to mux or amplifier)
#[derive(Debug, PartialEq, Eq)]
pub enum RadioResponse {
    /// Frequency report
    Frequency { hz: u64 },
    /// Mode report
    Mode { mode: OperatingMode },
    /// PTT state report
    Ptt { active: bool },
    /// VFO selection report
    Vfo { vfo: Vfo },
    /// Radio identification response
    Id { id: String },
    /// Radio status report (comprehensive)
    Status {
        frequency_hz: Option<u64>,
        mode: Option<OperatingMode>,
        ptt: Option<bool>,
        vfo: Option<Vfo>,
    },
    /// Auto-information state report
    AutoInfo { enabled: bool },
    /// Control band report (0=Main/A, 1=Sub/B)
    ControlBand { band: u8 },
    /// Transmit band report (0=Main/A, 1=Sub/B)
    TransmitBand { band: u8 },
    /// Unknown or unparseable response (preserves raw data)
    Unknown { data: Vec<u8> },
}

/// The mathematical value of a `RadioResponse`.
pub enum ResponseModel {
    Frequency { hz: u64 },
    Mode { mode: OperatingMode },
    Ptt { active: bool },
    Vfo { vfo: Vfo },
    Id { id: Seq<char> },
    Status {
        frequency_hz: Option<u64>,
        mode: Option<OperatingMode>,
        ptt: Option<bool>,
        vfo: Option<Vfo>,
    },
    AutoInfo { enabled: bool },
    ControlBand { band: u8 },
    TransmitBand { band: u8 },
    Unknown { data: Seq<u8> },
}

impl View for RadioResponse {
    type V = ResponseModel;

    open spec fn view(&self) -> ResponseModel {
        match self {
            RadioResponse::Frequency { hz } => ResponseModel::Frequency { hz: *hz },
            RadioResponse::Mode { mode } => ResponseModel::Mode { mode: *mode },
            RadioResponse::Ptt { active } => ResponseModel::Ptt { active: *active },
            RadioResponse::Vfo { vfo } => ResponseModel::Vfo { vfo: *vfo },
            RadioResponse::Id { id } => ResponseModel::Id { id: id@ },
            RadioResponse::Status { frequency_hz, mode, ptt, vfo } => ResponseModel::Status {
                frequency_hz: *frequency_hz,
                mode: *mode,
                ptt: *ptt,
                vfo: *vfo,
            },
            RadioResponse::AutoInfo { enabled } => ResponseModel::AutoInfo { enabled: *enabled },
            RadioResponse::ControlBand { band } => ResponseModel::ControlBand { band: *band },
            RadioResponse::TransmitBand { band } => ResponseModel::TransmitBand { band: *band },
            RadioResponse::Unknown { data } => ResponseModel::Unknown { data: data@ },
        }
    }
}

pub open spec fn request_is_query(r: RequestModel) -> bool {
    r is GetFrequency || r is GetMode || r is GetPtt || r is GetVfo || r is GetId || r is GetStatus
        || r is GetAutoInfo || r is GetControlBand || r is GetTransmitBand
}

pub open spec fn request_is_set(r: RequestModel) -> bool {
    r is SetFrequency || r is SetMode || r is SetPtt || r is SetVfo || r is SetPower
        || r is SetAutoInfo
}

/// A request is never both a query and a set command; only `Unknown` is neither.
pub proof fn law_request_query_set_exclusive(r: RequestModel)
    ensures
        !(request_is_query(r) && request_is_set(r)),
        !request_is_query(r) && !request_is_set(r) <==> r is Unknown,
{
}

impl RadioRequest {
    /// Returns true if this is a query command (Get*)
    pub fn is_query(&self) -> (r: bool)
        ensures
            r == request_is_query(self@),
    {
        matches!(
            self,
            Self::GetFrequency | Self::GetMode | Self::GetPtt | Self::GetVfo | Self::GetId
                | Self::GetStatus | Self::GetAutoInfo | Self::GetControlBand
                | Self::GetTransmitBand
        )
    }

    /// Returns true if this is a set/action command
    pub fn is_set(&self) -> (r: bool)
        ensures
            r == request_is_set(self@),
    {
        matches!(
            self,
            Self::SetFrequency { .. } | Self::SetMode { .. } | Self::SetPtt { .. }
                | Self::SetVfo { .. } | Self::SetPower { .. } | Self::SetAutoInfo { .. }
        )
    }

    /// Extract frequency from request if present
    pub fn frequency(&self) -> (r: Option<u64>)
        ensures
            r == (match self@ {
                RequestModel::SetFrequency { hz } => Some(hz),
                _ => None,
            }),
    {
        match self {
            Self::SetFrequency { hz } => Some(*hz),
            _ => None,
        }
    }

    /// Extract mode from request if present
    pub fn mode(&self) -> (r: Option<OperatingMode>)
        ensures
            r == (match self@ {
                RequestModel::SetMode { mode } => Some(mode),
                _ => None,
            }),
    {
        match self {
            Self::SetMode { mode } => Some(*mode),
            _ => None,
        }
    }

    /// Extract PTT state from request if present
    pub fn ptt(&self) -> (r: Option<bool>)
        ensures
            r == (match self@ {
                RequestModel::SetPtt { active } => Some(active),
                _ => None,
            }),
    {
        match self {
            Self::SetPtt { active } => Some(*active),
            _ => None,
        }
    }

    /// A copy with the same value.
    pub fn duplicate(&self) -> (r: Self)
        ensures
            r@ == self@,
    {
        match self {
            Self::SetFrequency { hz } => Self::SetFrequency { hz: *hz },
            Self::SetMode { mode } => Self::SetMode { mode: *mode },
            Self::SetPtt { active } => Self::SetPtt { active: *active },
            Self::SetVfo { vfo } => Self::SetVfo { vfo: *vfo },
            Self::SetPower { on } => Self::SetPower { on: *on },
            Self::SetAutoInfo { enabled } => Self::SetAutoInfo { enabled: *enabled },
            Self::GetFrequency => Self::GetFrequency,
            Self::GetMode => Self::GetMode,
            Self::GetPtt => Self::GetPtt,
            Self::GetVfo => Self::GetVfo,
            Self::GetId => Self::GetId,
            Self::GetStatus => Self::GetStatus,
            Self::GetAutoInfo => Self::GetAutoInfo,
            Self::GetControlBand => Self::GetControlBand,
            Self::GetTransmitBand => Self::GetTransmitBand,
            Self::Unknown { data } => Self::Unknown { data: slice_to_vec(data.as_slice()) },
        }
    }
}

pub open spec fn response_frequency(r: ResponseModel) -> Option<u64> {
    match r {
        ResponseModel::Frequency { hz } => Some(hz),
        ResponseModel::Status { frequency_hz, .. } => frequency_hz,
        _ => None,
    }
}

pub open spec fn response_mode(r: ResponseModel) -> Option<OperatingMode> {
    match r {
        ResponseModel::Mode { mode } => Some(mode),
        ResponseModel::Status { mode, .. } => mode,
        _ => None,
    }
}

pub open spec fn response_ptt(r: ResponseModel) -> Option<bool> {
    match r {
        ResponseModel::Ptt { active } => Some(active),
        ResponseModel::Status { ptt, .. } => ptt,
        _ => None,
    }
}

pub open spec fn response_vfo(r: ResponseModel) -> Option<Vfo> {
    match r {
        ResponseModel::Vfo { vfo } => Some(vfo),
        ResponseModel::Status { vfo, .. } => vfo,
        _ => None,
    }
}

impl RadioResponse {
    /// Extract frequency from response if present
    pub fn frequency(&self) -> (r: Option<u64>)
        ensures
            r == response_frequency(self@),
    {
        match self {
            Self::Frequency { hz } => Some(*hz),
            Self::Status { frequency_hz, .. } => *frequency_hz,
            _ => None,
        }
    }

    /// Extract mode from response if present
    pub fn mode(&self) -> (r: Option<OperatingMode>)
        ensures
            r == response_mode(self@),
    {
        match self {
            Self::Mode { mode } => Some(*mode),
            Self::Status { mode, .. } => *mode,
            _ => None,
        }
    }

    /// Extract PTT state from response if present
    pub fn ptt(&self) -> (r: Option<bool>)
        ensures
            r == response_ptt(self@),
    {
        match self {
            Self::Ptt { active } => Some(*active),
            Self::Status { ptt, .. } => *ptt,
            _ => None,
        }
    }

    /// Extract VFO from response if present
    pub fn vfo(&self) -> (r: Option<Vfo>)
        ensures
            r == response_vfo(self@),
    {
        match self {
            Self::Vfo { vfo } => Some(*vfo),
            Self::Status { vfo, .. } => *vfo,
            _ => None,
        }
    }

    /// A copy with the same value.
    pub fn duplicate(&self) -> (r: Self)
        ensures
            r@ == self@,
    {
        match self {
            Self::Frequency { hz } => Self::Frequency { hz: *hz },
            Self::Mode { mode } => Self::Mode { mode: *mode },
            Self::Ptt { active } => Self::Ptt { active: *active },
            Self::Vfo { vfo } => Self::Vfo { vfo: *vfo },
            Self::Id { id } => Self::Id { id: id.clone() },
            Self::Status { frequency_hz, mode, ptt, vfo } => Self::Status {
                frequency_hz: *frequency_hz,
                mode: *mode,
                ptt: *ptt,
                vfo: *vfo,
            },
            Self::AutoInfo { enabled } => Self::AutoInfo { enabled: *enabled },
            Self::ControlBand { band } => Self::ControlBand { band: *band },
            Self::TransmitBand { band } => Self::TransmitBand { band: *band },
            Self::Unknown { data } => Self::Unknown { data: slice_to_vec(data.as_slice()) },
        }
    }
}

} // verus!
